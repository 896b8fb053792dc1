//! Character and string helpers shared by the prefix resolver and the
//! command-tree lookup: ASCII case folding, whitespace scanning, and
//! prefix tests, each specified over `Seq<char>` views.

use vstd::prelude::*;

verus! {

/// The whitespace characters recognized when a message is split into a
/// command token and its argument remainder.
pub open spec fn is_whitespace_char(c: char) -> bool {
    c == ' ' || c == '\t' || c == '\n' || c == '\r' || c == '\u{b}' || c == '\u{c}'
}

/// Executable twin of [`is_whitespace_char`].
pub fn whitespace_char(c: char) -> (r: bool)
    ensures
        r == is_whitespace_char(c),
{
    c == ' ' || c == '\t' || c == '\n' || c == '\r' || c == '\u{b}' || c == '\u{c}'
}

/// Two characters are equal up to ASCII case.
pub open spec fn char_eq_ignore_ascii_case(a: char, b: char) -> bool {
    ||| a == b
    ||| ('A' <= a && a <= 'Z' && a as u32 + 32 == b as u32)
    ||| ('A' <= b && b <= 'Z' && b as u32 + 32 == a as u32)
}

/// Executable twin of [`char_eq_ignore_ascii_case`].
pub fn chars_eq_ignore_ascii_case(a: char, b: char) -> (r: bool)
    ensures
        r == char_eq_ignore_ascii_case(a, b),
{
    let au: u32 = a as u32;
    let bu: u32 = b as u32;
    if au == bu {
        true
    } else if au >= 65 && au <= 90 && au + 32 == bu {
        true
    } else if bu >= 65 && bu <= 90 && bu + 32 == au {
        true
    } else {
        false
    }
}

/// Two character sequences are equal up to ASCII case.
pub open spec fn seq_eq_ignore_ascii_case(a: Seq<char>, b: Seq<char>) -> bool {
    a.len() == b.len() && (forall|i: int|
        0 <= i < a.len() ==> char_eq_ignore_ascii_case(a[i], b[i]))
}

/// String equality, specified over the views.
pub fn str_eq(a: &str, b: &str) -> (r: bool)
    ensures
        r == (a@ == b@),
{
    let alen: usize = a.unicode_len();
    let blen: usize = b.unicode_len();
    if alen != blen {
        proof {
            assert(a@ != b@);
        }
        return false;
    }
    let mut i: usize = 0;
    while i < alen
        invariant
            i <= alen,
            alen == a@.len(),
            alen == b@.len(),
            forall|j: int| 0 <= j < i ==> a@[j] == b@[j],
        decreases alen - i,
    {
        if a.get_char(i) != b.get_char(i) {
            proof {
                assert(a@ != b@);
            }
            return false;
        }
        i += 1;
    }
    proof {
        assert(a@ =~= b@);
    }
    true
}

/// String equality up to ASCII case, specified over the views.
pub fn str_eq_ignore_ascii_case(a: &str, b: &str) -> (r: bool)
    ensures
        r == seq_eq_ignore_ascii_case(a@, b@),
{
    let alen: usize = a.unicode_len();
    let blen: usize = b.unicode_len();
    if alen != blen {
        return false;
    }
    let mut i: usize = 0;
    while i < alen
        invariant
            i <= alen,
            alen == a@.len(),
            alen == b@.len(),
            forall|j: int| 0 <= j < i ==> char_eq_ignore_ascii_case(a@[j], b@[j]),
        decreases alen - i,
    {
        if !chars_eq_ignore_ascii_case(a.get_char(i), b.get_char(i)) {
            return false;
        }
        i += 1;
    }
    true
}

/// `haystack` starts with `needle`, character for character.
pub open spec fn spec_starts_with(haystack: Seq<char>, needle: Seq<char>) -> bool {
    needle.len() <= haystack.len() && haystack.subrange(0, needle.len() as int) == needle
}

/// Executable prefix test, specified over the views.
pub fn str_starts_with(haystack: &str, needle: &str) -> (r: bool)
    ensures
        r == spec_starts_with(haystack@, needle@),
{
    let nlen: usize = needle.unicode_len();
    let hlen: usize = haystack.unicode_len();
    if nlen > hlen {
        return false;
    }
    let mut i: usize = 0;
    while i < nlen
        invariant
            i <= nlen,
            nlen == needle@.len(),
            hlen == haystack@.len(),
            nlen <= hlen,
            forall|j: int| 0 <= j < i ==> haystack@[j] == needle@[j],
        decreases nlen - i,
    {
        if haystack.get_char(i) != needle.get_char(i) {
            proof {
                assert(haystack@.subrange(0, needle@.len() as int)[i as int] != needle@[i as int]);
            }
            return false;
        }
        i += 1;
    }
    proof {
        assert(haystack@.subrange(0, needle@.len() as int) =~= needle@);
    }
    true
}

/// `haystack` starts with `needle` up to ASCII case.
pub open spec fn spec_starts_with_ignore_ascii_case(haystack: Seq<char>, needle: Seq<char>) -> bool {
    needle.len() <= haystack.len() && seq_eq_ignore_ascii_case(
        haystack.subrange(0, needle.len() as int),
        needle,
    )
}

/// Executable case-folding prefix test, specified over the views.
pub fn str_starts_with_ignore_ascii_case(haystack: &str, needle: &str) -> (r: bool)
    ensures
        r == spec_starts_with_ignore_ascii_case(haystack@, needle@),
{
    let nlen: usize = needle.unicode_len();
    let hlen: usize = haystack.unicode_len();
    if nlen > hlen {
        return false;
    }
    let mut i: usize = 0;
    while i < nlen
        invariant
            i <= nlen,
            nlen == needle@.len(),
            hlen == haystack@.len(),
            nlen <= hlen,
            forall|j: int| 0 <= j < i ==> char_eq_ignore_ascii_case(haystack@[j], needle@[j]),
        decreases nlen - i,
    {
        if !chars_eq_ignore_ascii_case(haystack.get_char(i), needle.get_char(i)) {
            proof {
                assert(!char_eq_ignore_ascii_case(
                    haystack@.subrange(0, needle@.len() as int)[i as int],
                    needle@[i as int],
                ));
            }
            return false;
        }
        i += 1;
    }
    true
}

/// Index of the first whitespace character in `s`, or `s.len()` if none.
pub open spec fn spec_first_whitespace(s: Seq<char>) -> int
    decreases s.len(),
{
    if s.len() == 0 {
        0
    } else if is_whitespace_char(s[0]) {
        0
    } else {
        1 + spec_first_whitespace(s.drop_first())
    }
}

/// The recursive definition of [`spec_first_whitespace`] unrolled into the
/// form the loop invariants use: it is the least whitespace position.
pub proof fn lemma_first_whitespace(s: Seq<char>)
    ensures
        0 <= spec_first_whitespace(s) <= s.len(),
        forall|j: int| 0 <= j < spec_first_whitespace(s) ==> !is_whitespace_char(s[j]),
        spec_first_whitespace(s) < s.len() ==> is_whitespace_char(s[spec_first_whitespace(s)]),
    decreases s.len(),
{
    if s.len() == 0 {
    } else if is_whitespace_char(s[0]) {
    } else {
        lemma_first_whitespace(s.drop_first());
        assert forall|j: int| 0 <= j < spec_first_whitespace(s) implies !is_whitespace_char(s[j]) by {
            if j > 0 {
                assert(s.drop_first()[j - 1] == s[j]);
            }
        }
    }
}

/// Executable scan for the first whitespace character.
pub fn first_whitespace(s: &str) -> (r: usize)
    ensures
        r == spec_first_whitespace(s@),
{
    proof {
        lemma_first_whitespace(s@);
    }
    let len: usize = s.unicode_len();
    let mut i: usize = 0;
    while i < len
        invariant
            i <= len,
            len == s@.len(),
            forall|j: int| 0 <= j < i ==> !is_whitespace_char(s@[j]),
            0 <= spec_first_whitespace(s@) <= s@.len(),
            forall|j: int| 0 <= j < spec_first_whitespace(s@) ==> !is_whitespace_char(s@[j]),
            spec_first_whitespace(s@) < s@.len() ==> is_whitespace_char(
                s@[spec_first_whitespace(s@)],
            ),
        decreases len - i,
    {
        if whitespace_char(s.get_char(i)) {
            proof {
                if spec_first_whitespace(s@) < i {
                    assert(!is_whitespace_char(s@[spec_first_whitespace(s@)]));
                }
                if spec_first_whitespace(s@) > i {
                    assert(!is_whitespace_char(s@[i as int]));
                }
            }
            return i;
        }
        i += 1;
    }
    proof {
        if spec_first_whitespace(s@) < s@.len() {
            assert(!is_whitespace_char(s@[spec_first_whitespace(s@)]));
        }
    }
    len
}

/// The character for one decimal digit.
pub open spec fn spec_digit_char(d: u64) -> char {
    if d == 0 {
        '0'
    } else if d == 1 {
        '1'
    } else if d == 2 {
        '2'
    } else if d == 3 {
        '3'
    } else if d == 4 {
        '4'
    } else if d == 5 {
        '5'
    } else if d == 6 {
        '6'
    } else if d == 7 {
        '7'
    } else if d == 8 {
        '8'
    } else {
        '9'
    }
}

/// The decimal digits of a number, most significant first.
pub open spec fn spec_u64_digits(n: u64) -> Seq<char>
    decreases n,
{
    if n < 10 {
        seq![spec_digit_char(n)]
    } else {
        spec_u64_digits(n / 10).push(spec_digit_char(n % 10))
    }
}

/// One decimal digit as text.
fn digit_str(d: u64) -> (r: &'static str)
    requires
        d < 10,
    ensures
        r@ == seq![spec_digit_char(d)],
{
    proof {
        reveal_strlit("0");
        reveal_strlit("1");
        reveal_strlit("2");
        reveal_strlit("3");
        reveal_strlit("4");
        reveal_strlit("5");
        reveal_strlit("6");
        reveal_strlit("7");
        reveal_strlit("8");
        reveal_strlit("9");
        assert("0"@ =~= seq![spec_digit_char(0)]);
        assert("1"@ =~= seq![spec_digit_char(1)]);
        assert("2"@ =~= seq![spec_digit_char(2)]);
        assert("3"@ =~= seq![spec_digit_char(3)]);
        assert("4"@ =~= seq![spec_digit_char(4)]);
        assert("5"@ =~= seq![spec_digit_char(5)]);
        assert("6"@ =~= seq![spec_digit_char(6)]);
        assert("7"@ =~= seq![spec_digit_char(7)]);
        assert("8"@ =~= seq![spec_digit_char(8)]);
        assert("9"@ =~= seq![spec_digit_char(9)]);
    }
    if d == 0 {
        "0"
    } else if d == 1 {
        "1"
    } else if d == 2 {
        "2"
    } else if d == 3 {
        "3"
    } else if d == 4 {
        "4"
    } else if d == 5 {
        "5"
    } else if d == 6 {
        "6"
    } else if d == 7 {
        "7"
    } else if d == 8 {
        "8"
    } else {
        "9"
    }
}

/// Renders a number in decimal.
pub fn u64_to_string(n: u64) -> (r: String)
    ensures
        r@ == spec_u64_digits(n),
    decreases n,
{
    if n < 10 {
        String::from_str(digit_str(n))
    } else {
        let front: String = u64_to_string(n / 10);
        let tail: &str = digit_str(n % 10);
        let joined: String = front.concat(tail);
        proof {
            assert(joined@ =~= spec_u64_digits(n / 10).push(spec_digit_char(n % 10)));
        }
        joined
    }
}

/// Number of leading whitespace characters in `s`.
pub open spec fn spec_leading_whitespace(s: Seq<char>) -> int
    decreases s.len(),
{
    if s.len() == 0 {
        0
    } else if is_whitespace_char(s[0]) {
        1 + spec_leading_whitespace(s.drop_first())
    } else {
        0
    }
}

/// The recursive definition of [`spec_leading_whitespace`] unrolled into the
/// form the loop invariants use: it is the least non-whitespace position.
pub proof fn lemma_leading_whitespace(s: Seq<char>)
    ensures
        0 <= spec_leading_whitespace(s) <= s.len(),
        forall|j: int| 0 <= j < spec_leading_whitespace(s) ==> is_whitespace_char(s[j]),
        spec_leading_whitespace(s) < s.len() ==> !is_whitespace_char(s[spec_leading_whitespace(s)]),
    decreases s.len(),
{
    if s.len() == 0 {
    } else if is_whitespace_char(s[0]) {
        lemma_leading_whitespace(s.drop_first());
        assert forall|j: int| 0 <= j < spec_leading_whitespace(s) implies is_whitespace_char(s[j]) by {
            if j > 0 {
                assert(s.drop_first()[j - 1] == s[j]);
            }
        }
    } else {
    }
}

/// Executable scan past leading whitespace; returns the index of the first
/// non-whitespace character (or the length if all whitespace).
pub fn leading_whitespace(s: &str) -> (r: usize)
    ensures
        r == spec_leading_whitespace(s@),
{
    proof {
        lemma_leading_whitespace(s@);
    }
    let len: usize = s.unicode_len();
    let mut i: usize = 0;
    while i < len
        invariant
            i <= len,
            len == s@.len(),
            forall|j: int| 0 <= j < i ==> is_whitespace_char(s@[j]),
            0 <= spec_leading_whitespace(s@) <= s@.len(),
            forall|j: int| 0 <= j < spec_leading_whitespace(s@) ==> is_whitespace_char(s@[j]),
            spec_leading_whitespace(s@) < s@.len() ==> !is_whitespace_char(
                s@[spec_leading_whitespace(s@)],
            ),
        decreases len - i,
    {
        if !whitespace_char(s.get_char(i)) {
            proof {
                if spec_leading_whitespace(s@) < i {
                    assert(is_whitespace_char(s@[i as int]) == false);
                    assert(!is_whitespace_char(s@[spec_leading_whitespace(s@)]));
                }
                if spec_leading_whitespace(s@) > i {
                    assert(is_whitespace_char(s@[i as int]));
                }
            }
            return i;
        }
        i += 1;
    }
    proof {
        if spec_leading_whitespace(s@) < s@.len() {
            assert(is_whitespace_char(s@[spec_leading_whitespace(s@)]));
        }
    }
    len
}

} // verus!
