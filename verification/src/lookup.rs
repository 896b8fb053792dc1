//! Resolving an invocation string against the command tree.
//!
//! The input (a message with its prefix already stripped) is split on the
//! first whitespace run into a candidate token and the rest. Each node at the
//! current level is compared against the token: by full name or alias in
//! exact mode, or — for a leaf marked `has_modifier` — by prefix, with the
//! unmatched tail of the token handed back as a modifier string. On a match
//! the lookup descends into the node's subcommands with the remaining text;
//! if nothing deeper matches, the node itself is the result and its siblings
//! are never consulted. The result names the matched node by its index path
//! from the roots; the proper prefixes of that path are the ancestors.

use vstd::prelude::*;

use crate::command::Command;
use crate::text::{
    seq_eq_ignore_ascii_case, spec_first_whitespace, spec_leading_whitespace,
    spec_starts_with, spec_starts_with_ignore_ascii_case, str_eq, str_eq_ignore_ascii_case,
    str_starts_with, str_starts_with_ignore_ascii_case, first_whitespace, leading_whitespace,
};

verus! {

broadcast use vstd::std_specs::vec::group_vec_axioms, vstd::seq::group_seq_axioms;

/// The candidate token of a message: everything before the first whitespace.
pub open spec fn spec_token_of(msg: Seq<char>) -> Seq<char> {
    msg.subrange(0, spec_first_whitespace(msg))
}

/// The rest of a message: everything after the first whitespace character,
/// with further leading whitespace removed.
pub open spec fn spec_rest_of(msg: Seq<char>) -> Seq<char> {
    let fw = spec_first_whitespace(msg);
    let tail = if fw < msg.len() {
        msg.subrange(fw + 1, msg.len() as int)
    } else {
        Seq::empty()
    };
    tail.skip(spec_leading_whitespace(tail))
}

/// Name-against-token comparison in exact mode.
pub open spec fn spec_name_matches(name: Seq<char>, token: Seq<char>, case_insensitive: bool) -> bool {
    if case_insensitive {
        seq_eq_ignore_ascii_case(name, token)
    } else {
        name == token
    }
}

/// Name-against-token comparison in modifier mode: when the token starts
/// with the name, the unmatched tail of the token is the modifier.
pub open spec fn spec_modifier_match(
    name: Seq<char>,
    token: Seq<char>,
    case_insensitive: bool,
) -> Option<Seq<char>> {
    let matched = if case_insensitive {
        spec_starts_with_ignore_ascii_case(token, name)
    } else {
        spec_starts_with(token, name)
    };
    if matched {
        Some(token.skip(name.len() as int))
    } else {
        None
    }
}

/// The modifier produced by the first alias that matches, if any.
pub open spec fn spec_alias_modifier(
    aliases: Seq<String>,
    token: Seq<char>,
    case_insensitive: bool,
) -> Option<Seq<char>>
    decreases aliases.len(),
{
    if aliases.len() == 0 {
        None
    } else {
        match spec_modifier_match(aliases[0]@, token, case_insensitive) {
            Some(m) => Some(m),
            None => spec_alias_modifier(aliases.drop_first(), token, case_insensitive),
        }
    }
}

/// Whether some alias equals the token in exact mode.
pub open spec fn spec_alias_matches(
    aliases: Seq<String>,
    token: Seq<char>,
    case_insensitive: bool,
) -> bool {
    exists|i: int| 0 <= i < aliases.len() && spec_name_matches(aliases[i]@, token, case_insensitive)
}

/// Whether and how one node matches the candidate token: the modifier string
/// when it does (empty in exact mode), nothing when it does not. Modifier
/// mode applies only to leaves marked for it.
pub open spec fn spec_node_match(c: Command, token: Seq<char>, case_insensitive: bool) -> Option<
    Seq<char>,
> {
    if c.has_modifier && c.subcommands@.len() == 0 {
        match spec_modifier_match(c.name@, token, case_insensitive) {
            Some(m) => Some(m),
            None => spec_alias_modifier(c.aliases@, token, case_insensitive),
        }
    } else {
        if spec_name_matches(c.name@, token, case_insensitive) || spec_alias_matches(
            c.aliases@,
            token,
            case_insensitive,
        ) {
            Some(Seq::empty())
        } else {
            None
        }
    }
}

/// A resolved lookup, as plain mathematics: the index path of the matched
/// node from the roots, the modifier string, the verbatim token that matched
/// the node, and the remaining argument text.
pub type LookupResult = (Seq<int>, Seq<char>, Seq<char>, Seq<char>);

/// An executable index path, as mathematics.
pub open spec fn spec_path_of(path: Seq<usize>) -> Seq<int> {
    path.map_values(|x: usize| x as int)
}

/// The lookup over a whole sibling list: the first matching sibling wins.
pub open spec fn spec_find_command(
    commands: Seq<Command>,
    msg: Seq<char>,
    case_insensitive: bool,
) -> Option<LookupResult>
    decreases commands, commands.len() + 1,
{
    spec_find_from(commands, 0, msg, case_insensitive)
}

/// The lookup from sibling position `i` on.
pub open spec fn spec_find_from(
    commands: Seq<Command>,
    i: int,
    msg: Seq<char>,
    case_insensitive: bool,
) -> Option<LookupResult>
    decreases commands, commands.len() - i,
{
    if i < 0 || i >= commands.len() {
        None
    } else {
        let token = spec_token_of(msg);
        let rest = spec_rest_of(msg);
        match spec_node_match(commands[i], token, case_insensitive) {
            Some(mod_chars) => match spec_find_command(
                commands[i].subcommands@,
                rest,
                case_insensitive,
            ) {
                Some((subpath, m, n, a)) => Some((seq![i] + subpath, m, n, a)),
                None => Some((seq![i], mod_chars, token, rest)),
            },
            None => spec_find_from(commands, i + 1, msg, case_insensitive),
        }
    }
}

/// A non-empty index path into nested subcommand lists.
pub open spec fn spec_path_valid(commands: Seq<Command>, path: Seq<int>) -> bool
    decreases path.len(),
{
    &&& path.len() > 0
    &&& 0 <= path[0] < commands.len()
    &&& (path.len() > 1 ==> spec_path_valid(commands[path[0]].subcommands@, path.drop_first()))
}

/// The node a valid path leads to.
pub open spec fn spec_command_at(commands: Seq<Command>, path: Seq<int>) -> Command
    decreases path.len(),
{
    if path.len() <= 1 {
        commands[path[0]]
    } else {
        spec_command_at(commands[path[0]].subcommands@, path.drop_first())
    }
}

/// A successful lookup always yields a valid path.
pub proof fn lemma_find_command_path_valid(
    commands: Seq<Command>,
    msg: Seq<char>,
    case_insensitive: bool,
)
    ensures
        match spec_find_command(commands, msg, case_insensitive) {
            Some((path, m, n, a)) => spec_path_valid(commands, path),
            None => true,
        },
    decreases commands, commands.len() + 1,
{
    lemma_find_from_path_valid(commands, 0, msg, case_insensitive);
}

/// A successful lookup from position `i` yields a valid path.
proof fn lemma_find_from_path_valid(
    commands: Seq<Command>,
    i: int,
    msg: Seq<char>,
    case_insensitive: bool,
)
    ensures
        match spec_find_from(commands, i, msg, case_insensitive) {
            Some((path, m, n, a)) => spec_path_valid(commands, path),
            None => true,
        },
    decreases commands, commands.len() - i,
{
    if 0 <= i < commands.len() {
        let token = spec_token_of(msg);
        let rest = spec_rest_of(msg);
        match spec_node_match(commands[i], token, case_insensitive) {
            Some(_) => {
                lemma_find_command_path_valid(commands[i].subcommands@, rest, case_insensitive);
                match spec_find_command(commands[i].subcommands@, rest, case_insensitive) {
                    Some((subpath, m, n, a)) => {
                        let path = seq![i] + subpath;
                        assert(path[0] == i);
                        assert(path.drop_first() =~= subpath);
                    },
                    None => {
                        let path = seq![i];
                        assert(path[0] == i);
                    },
                }
            },
            None => {
                lemma_find_from_path_valid(commands, i + 1, msg, case_insensitive);
            },
        }
    }
}

/// The lookup is a pure function of the tree, the text and the case flag:
/// any two results that satisfy the contract of [`find_command`] on the same
/// inputs are the same result.
pub proof fn lemma_lookup_deterministic(
    commands: Seq<Command>,
    msg: Seq<char>,
    case_insensitive: bool,
    r1: Option<LookupResult>,
    r2: Option<LookupResult>,
)
    requires
        r1 == spec_find_command(commands, msg, case_insensitive),
        r2 == spec_find_command(commands, msg, case_insensitive),
    ensures
        r1 == r2,
{
}

/// A resolved command invocation: where the matched node lives, how it was
/// written, and what text is left as arguments.
#[derive(Debug)]
pub struct CommandMatch {
    /// Index path of the matched node from the root list; its proper
    /// prefixes name the ancestors.
    pub path: Vec<usize>,
    /// The unmatched tail of the token, for modifier-mode matches; empty
    /// otherwise.
    pub mod_chars: String,
    /// The verbatim name or alias token the command was invoked with.
    pub invoked_name: String,
    /// The remaining text: the arguments of the invocation.
    pub args: String,
}

/// Splits a message into its candidate token and the remaining text.
fn split_token(msg: &str) -> (r: (String, String))
    ensures
        r.0@ == spec_token_of(msg@),
        r.1@ == spec_rest_of(msg@),
{
    let len: usize = msg.unicode_len();
    let fw: usize = first_whitespace(msg);
    proof {
        crate::text::lemma_first_whitespace(msg@);
    }
    let token: &str = msg.substring_char(0, fw);
    let after: usize = if fw < len {
        fw + 1
    } else {
        len
    };
    let tail: &str = msg.substring_char(after, len);
    proof {
        if fw < msg@.len() {
            assert(tail@ == msg@.subrange(fw + 1, msg@.len() as int));
        } else {
            assert(tail@ =~= Seq::<char>::empty());
        }
    }
    let lead: usize = leading_whitespace(tail);
    proof {
        crate::text::lemma_leading_whitespace(tail@);
    }
    let tail_len: usize = tail.unicode_len();
    let rest: &str = tail.substring_char(lead, tail_len);
    proof {
        assert(rest@ =~= tail@.skip(spec_leading_whitespace(tail@)));
    }
    (String::from_str(token), String::from_str(rest))
}

/// Prefix test in the spirit of the exact-mode comparison: whether
/// `haystack` begins with `needle` under the requested case sensitivity,
/// and, when it does, the unmatched tail of `haystack`.
pub fn starts_with(needle: &str, haystack: &str, case_insensitive: bool) -> (r: (bool, String))
    ensures
        match spec_modifier_match(needle@, haystack@, case_insensitive) {
            Some(m) => r.0 && r.1@ == m,
            None => !r.0 && r.1@ == Seq::<char>::empty(),
        },
{
    if case_insensitive {
        return starts_with_ignore_ascii_case(needle, haystack);
    }
    if str_starts_with(haystack, needle) {
        let nlen: usize = needle.unicode_len();
        let hlen: usize = haystack.unicode_len();
        let tail: &str = haystack.substring_char(nlen, hlen);
        proof {
            assert(tail@ =~= haystack@.skip(needle@.len() as int));
        }
        (true, String::from_str(tail))
    } else {
        (false, String::new())
    }
}

/// Case-folding variant of [`starts_with`].
pub fn starts_with_ignore_ascii_case(needle: &str, haystack: &str) -> (r: (bool, String))
    ensures
        match spec_modifier_match(needle@, haystack@, true) {
            Some(m) => r.0 && r.1@ == m,
            None => !r.0 && r.1@ == Seq::<char>::empty(),
        },
{
    if str_starts_with_ignore_ascii_case(haystack, needle) {
        let nlen: usize = needle.unicode_len();
        let hlen: usize = haystack.unicode_len();
        let tail: &str = haystack.substring_char(nlen, hlen);
        proof {
            assert(tail@ =~= haystack@.skip(needle@.len() as int));
        }
        (true, String::from_str(tail))
    } else {
        (false, String::new())
    }
}

/// How one node compares against the candidate token.
fn node_match(c: &Command, token: &str, case_insensitive: bool) -> (r: Option<String>)
    ensures
        match r {
            Some(m) => spec_node_match(*c, token@, case_insensitive) == Some(m@),
            None => spec_node_match(*c, token@, case_insensitive) is None,
        },
{
    if c.has_modifier && c.subcommands.len() == 0 {
        let (primary, primary_mod) = starts_with(c.name.as_str(), token, case_insensitive);
        if primary {
            proof {
                assert(spec_modifier_match(c.name@, token@, case_insensitive) is Some);
                assert(spec_node_match(*c, token@, case_insensitive) == Some(primary_mod@));
            }
            return Some(primary_mod);
        }
        proof {
            assert(c.aliases@.skip(0) =~= c.aliases@);
        }
        let mut i: usize = 0;
        let alen: usize = c.aliases.len();
        while i < alen
            invariant
                i <= alen,
                alen == c.aliases@.len(),
                c.has_modifier && c.subcommands@.len() == 0,
                spec_modifier_match(c.name@, token@, case_insensitive) is None,
                spec_alias_modifier(c.aliases@, token@, case_insensitive) == spec_alias_modifier(
                    c.aliases@.skip(i as int),
                    token@,
                    case_insensitive,
                ),
            decreases alen - i,
        {
            proof {
                assert(c.aliases@.skip(i as int)[0] == c.aliases@[i as int]);
                assert(c.aliases@.skip(i as int).drop_first() =~= c.aliases@.skip(i as int + 1));
            }
            let (matched, mod_chars) = starts_with(c.aliases[i].as_str(), token, case_insensitive);
            if matched {
                proof {
                    assert(spec_modifier_match(c.aliases@[i as int]@, token@, case_insensitive)
                        is Some);
                    assert(spec_node_match(*c, token@, case_insensitive) == Some(mod_chars@));
                }
                return Some(mod_chars);
            }
            i += 1;
        }
        proof {
            assert(c.aliases@.skip(alen as int).len() == 0);
        }
        None
    } else {
        let primary: bool = if case_insensitive {
            str_eq_ignore_ascii_case(c.name.as_str(), token)
        } else {
            str_eq(c.name.as_str(), token)
        };
        if primary {
            proof {
                assert(spec_name_matches(c.name@, token@, case_insensitive));
                assert(spec_node_match(*c, token@, case_insensitive) == Some(Seq::<char>::empty()));
            }
            return Some(String::new());
        }
        let mut i: usize = 0;
        let alen: usize = c.aliases.len();
        while i < alen
            invariant
                i <= alen,
                alen == c.aliases@.len(),
                !(c.has_modifier && c.subcommands@.len() == 0),
                forall|j: int|
                    0 <= j < i ==> !spec_name_matches(c.aliases@[j]@, token@, case_insensitive),
            decreases alen - i,
        {
            let matched: bool = if case_insensitive {
                str_eq_ignore_ascii_case(c.aliases[i].as_str(), token)
            } else {
                str_eq(c.aliases[i].as_str(), token)
            };
            if matched {
                proof {
                    assert(spec_name_matches(c.aliases@[i as int]@, token@, case_insensitive));
                    assert(spec_alias_matches(c.aliases@, token@, case_insensitive));
                    assert(spec_node_match(*c, token@, case_insensitive) == Some(
                        Seq::<char>::empty(),
                    ));
                }
                return Some(String::new());
            }
            i += 1;
        }
        None
    }
}

/// Finds a command or subcommand for an invocation text (already stripped of
/// its prefix). The result names the matched node by its index path; the
/// verbatim matched token, the modifier string and the remaining argument
/// text come with it. `None` when no command matches.
#[verifier::loop_isolation(false)]
pub fn find_command(
    commands: &Vec<Command>,
    remaining_message: &str,
    case_insensitive: bool,
) -> (r: Option<CommandMatch>)
    ensures
        match r {
            Some(m) => spec_find_command(commands@, remaining_message@, case_insensitive) == Some(
                (spec_path_of(m.path@), m.mod_chars@, m.invoked_name@, m.args@),
            ),
            None => spec_find_command(commands@, remaining_message@, case_insensitive) is None,
        },
    decreases commands,
{
    let (token, rest) = split_token(remaining_message);
    let mut i: usize = 0;
    let len: usize = commands.len();
    while i < len
        invariant
            i <= len,
            spec_find_command(commands@, remaining_message@, case_insensitive)
                == spec_find_from(commands@, i as int, remaining_message@, case_insensitive),
        decreases len - i,
    {
        match node_match(&commands[i], token.as_str(), case_insensitive) {
            Some(mod_chars) => {
                proof {
                    assert(decreases_to!(commands => commands@));
                    assert(decreases_to!(commands@ => commands@[i as int]));
                    assert(decreases_to!(commands@[i as int] => commands@[i as int].subcommands));
                }
                let sub: Option<CommandMatch> = find_command(
                    &commands[i].subcommands,
                    rest.as_str(),
                    case_insensitive,
                );
                match sub {
                    Some(m) => {
                        let mut path: Vec<usize> = Vec::new();
                        path.push(i);
                        let mut rest_path: Vec<usize> = m.path;
                        let ghost sub_path = rest_path@;
                        path.append(&mut rest_path);
                        proof {
                            assert(path@ =~= seq![i as usize] + sub_path);
                            assert(spec_path_of(path@) =~= seq![i as int] + spec_path_of(sub_path));
                        }
                        return Some(
                            CommandMatch {
                                path,
                                mod_chars: m.mod_chars,
                                invoked_name: m.invoked_name,
                                args: m.args,
                            },
                        );
                    },
                    None => {
                        let mut path: Vec<usize> = Vec::new();
                        path.push(i);
                        proof {
                            assert(spec_path_of(path@) =~= seq![i as int]);
                        }
                        return Some(
                            CommandMatch { path, mod_chars, invoked_name: token, args: rest },
                        );
                    },
                }
            },
            None => {},
        }
        i += 1;
    }
    None
}

/// Walks a valid path to the node it names.
pub fn command_at<'a>(commands: &'a Vec<Command>, path: &Vec<usize>) -> (r: &'a Command)
    requires
        spec_path_valid(commands@, spec_path_of(path@)),
    ensures
        *r == spec_command_at(commands@, spec_path_of(path@)),
{
    let ghost ipath = spec_path_of(path@);
    proof {
        assert(ipath.skip(0) =~= ipath);
    }
    let mut current: &Vec<Command> = commands;
    let mut k: usize = 0;
    let plen: usize = path.len();
    while k + 1 < plen
        invariant
            k < plen,
            plen == path@.len(),
            ipath == spec_path_of(path@),
            ipath.len() == plen,
            forall|j: int| 0 <= j < plen ==> ipath[j] == path@[j] as int,
            spec_path_valid(current@, ipath.skip(k as int)),
            spec_command_at(commands@, ipath) == spec_command_at(current@, ipath.skip(k as int)),
        decreases plen - k,
    {
        proof {
            assert(ipath.skip(k as int)[0] == ipath[k as int]);
            assert(ipath.skip(k as int).drop_first() =~= ipath.skip(k as int + 1));
        }
        current = &current[path[k]].subcommands;
        k += 1;
    }
    proof {
        assert(ipath.skip(k as int)[0] == ipath[k as int]);
    }
    &current[path[k]]
}

} // verus!
