//! Deciding whether a message begins with a command prefix, and splitting it.
//!
//! Five strategies are tried in a fixed priority order, short-circuiting on
//! the first that matches: a dynamic callback returning a prefix string, the
//! single configured literal prefix, the ordered list of additional prefixes
//! (each a literal or a pattern matched by the caller's pattern engine), a
//! "stripped dynamic" callback that returns the already-split pair, and
//! finally the bot's own mention. The callbacks and the pattern engine run
//! outside this crate; their outcomes enter [`strip_prefix`] as values, and
//! the decision over those outcomes is verified. A callback failure never
//! aborts resolution: the remaining strategies are still tried, and the
//! caller reports the failure from the outcome it already holds.

use vstd::prelude::*;

use crate::text::{
    spec_starts_with, spec_u64_digits, str_starts_with, u64_to_string,
};
use crate::track_edits::EditTracker;

verus! {

/// One additional prefix: a fixed string, or a pattern (kept as its source
/// text) that the caller's pattern engine evaluates per message.
#[derive(Clone, Debug)]
pub enum Prefix {
    /// A literal prefix, matched by a plain prefix test.
    Literal(String),
    /// A pattern prefix; the match must start at the first character.
    Pattern(String),
}

/// What the dynamic-prefix callback produced for a message, when configured.
#[derive(Clone, Debug)]
pub enum DynamicPrefixOutcome {
    /// No dynamic-prefix callback is configured.
    NotConfigured,
    /// The callback failed; the caller reports the error and resolution
    /// falls through to the remaining strategies.
    Failed,
    /// The callback returned: a prefix to test, or nothing.
    Returned(Option<String>),
}

/// What the stripped-dynamic-prefix callback produced, when configured: it
/// splits the message itself, or declines.
#[derive(Clone, Debug)]
pub enum StrippedDynamicOutcome {
    /// No stripped-dynamic-prefix callback is configured.
    NotConfigured,
    /// The callback failed; the caller reports the error and resolution
    /// falls through to the remaining strategies.
    Failed,
    /// The callback returned: the (prefix, rest) pair, or nothing.
    Returned(Option<(String, String)>),
}

/// Prefix-invocation configuration.
#[derive(Debug)]
pub struct PrefixFrameworkOptions {
    /// The main literal prefix.
    pub prefix: Option<String>,
    /// Additional prefixes, tried in order after the main one.
    pub additional_prefixes: Vec<Prefix>,
    /// Whether a dynamic-prefix callback is configured.
    pub has_dynamic_prefix: bool,
    /// Whether a stripped-dynamic-prefix callback is configured.
    pub has_stripped_dynamic_prefix: bool,
    /// Whether mentioning the bot counts as a prefix, tried last.
    pub mention_as_prefix: bool,
    /// Whether command names match regardless of ASCII case.
    pub case_insensitive_commands: bool,
    /// Whether messages by bot accounts are ignored.
    pub ignore_bots: bool,
    /// Whether the bot's own messages may invoke commands.
    pub execute_self_messages: bool,
    /// Whether thread-creation messages are ignored.
    pub ignore_thread_creation: bool,
    /// Whether an edit of a message that was never tracked runs the command.
    pub execute_untracked_edits: bool,
    /// Whether edits are ignored until the first response was sent.
    pub ignore_edits_if_not_yet_responded: bool,
    /// The edit tracker, when edit tracking is enabled.
    pub edit_tracker: Option<EditTracker>,
    /// Whether a handler for non-command messages is configured.
    pub has_non_command_message: bool,
}

impl Default for PrefixFrameworkOptions {
    /// No prefixes configured; mention-as-prefix on; bot messages ignored.
    fn default() -> (r: PrefixFrameworkOptions)
        ensures
            r.prefix is None,
            r.additional_prefixes@.len() == 0,
            !r.has_dynamic_prefix,
            !r.has_stripped_dynamic_prefix,
            r.mention_as_prefix,
            !r.case_insensitive_commands,
            r.ignore_bots,
            !r.execute_self_messages,
            r.ignore_thread_creation,
            !r.execute_untracked_edits,
            r.ignore_edits_if_not_yet_responded,
            r.edit_tracker is None,
            !r.has_non_command_message,
    {
        PrefixFrameworkOptions {
            prefix: None,
            additional_prefixes: Vec::new(),
            has_dynamic_prefix: false,
            has_stripped_dynamic_prefix: false,
            mention_as_prefix: true,
            case_insensitive_commands: false,
            ignore_bots: true,
            execute_self_messages: false,
            ignore_thread_creation: true,
            execute_untracked_edits: false,
            ignore_edits_if_not_yet_responded: true,
            edit_tracker: None,
            has_non_command_message: false,
        }
    }
}

/// Splitting `content` after a literal prefix, when it starts with one.
pub open spec fn spec_literal_strip(content: Seq<char>, prefix: Seq<char>) -> Option<
    (Seq<char>, Seq<char>),
> {
    if spec_starts_with(content, prefix) {
        Some((content.take(prefix.len() as int), content.skip(prefix.len() as int)))
    } else {
        None
    }
}

/// The first additional prefix from position `j` on that matches `content`.
/// A literal entry matches by prefix test; a pattern entry matches when the
/// engine reported a match starting at the first character.
pub open spec fn spec_additional_strip(
    content: Seq<char>,
    entries: Seq<Prefix>,
    engine_results: Seq<Option<(usize, usize)>>,
    j: int,
) -> Option<(Seq<char>, Seq<char>)>
    decreases entries.len() - j,
{
    if j < 0 || j >= entries.len() {
        None
    } else {
        let this = match entries[j] {
            Prefix::Literal(p) => spec_literal_strip(content, p@),
            Prefix::Pattern(_) => match engine_results[j] {
                Some((start, end)) => if start == 0 && end <= content.len() {
                    Some((content.take(end as int), content.skip(end as int)))
                } else {
                    None
                },
                None => None,
            },
        };
        match this {
            Some(split) => Some(split),
            None => spec_additional_strip(content, entries, engine_results, j + 1),
        }
    }
}

/// Number of leading `'!'` characters.
pub open spec fn spec_leading_bangs(s: Seq<char>) -> int
    decreases s.len(),
{
    if s.len() == 0 {
        0
    } else if s[0] == '!' {
        1 + spec_leading_bangs(s.drop_first())
    } else {
        0
    }
}

/// Splitting `content` after a mention of the bot: `<@`, any number of
/// `!`, the bot's decimal identity, and `>`.
pub open spec fn spec_mention_strip(content: Seq<char>, bot_id: u64) -> Option<
    (Seq<char>, Seq<char>),
> {
    let digits = spec_u64_digits(bot_id);
    if content.len() >= 2 && content[0] == '<' && content[1] == '@' {
        let bangs = spec_leading_bangs(content.skip(2));
        let body = content.skip(2 + bangs);
        if spec_starts_with(body, digits) && body.len() > digits.len() && body[digits.len() as int]
            == '>' {
            let end = 2 + bangs + digits.len() + 1;
            Some((content.take(end as int), content.skip(end as int)))
        } else {
            None
        }
    } else {
        None
    }
}

/// The prefix resolution over a whole message: the first strategy that
/// matches wins, in the order dynamic callback, main literal prefix,
/// additional prefixes, stripped-dynamic callback, bot mention.
pub open spec fn spec_strip_prefix(
    content: Seq<char>,
    dynamic: DynamicPrefixOutcome,
    prefix: Option<String>,
    additional: Seq<Prefix>,
    engine_results: Seq<Option<(usize, usize)>>,
    stripped_dynamic: StrippedDynamicOutcome,
    mention_as_prefix: bool,
    bot_id: u64,
) -> Option<(Seq<char>, Seq<char>)> {
    let dynamic_hit = match dynamic {
        DynamicPrefixOutcome::Returned(Some(p)) => spec_literal_strip(content, p@),
        _ => None,
    };
    if dynamic_hit is Some {
        dynamic_hit
    } else {
        let static_hit = match prefix {
            Some(p) => spec_literal_strip(content, p@),
            None => None,
        };
        if static_hit is Some {
            static_hit
        } else {
            let additional_hit = spec_additional_strip(content, additional, engine_results, 0);
            if additional_hit is Some {
                additional_hit
            } else {
                let stripped_hit = match stripped_dynamic {
                    StrippedDynamicOutcome::Returned(Some((p, rest))) => Some((p@, rest@)),
                    _ => None,
                };
                if stripped_hit is Some {
                    stripped_hit
                } else if mention_as_prefix {
                    spec_mention_strip(content, bot_id)
                } else {
                    None
                }
            }
        }
    }
}

/// Splits a string after a literal prefix.
fn literal_strip(content: &str, prefix: &str) -> (r: Option<(String, String)>)
    ensures
        match r {
            Some((p, rest)) => spec_literal_strip(content@, prefix@) == Some((p@, rest@)),
            None => spec_literal_strip(content@, prefix@) is None,
        },
{
    if str_starts_with(content, prefix) {
        let plen: usize = prefix.unicode_len();
        let clen: usize = content.unicode_len();
        let head: &str = content.substring_char(0, plen);
        let tail: &str = content.substring_char(plen, clen);
        proof {
            assert(head@ =~= content@.take(prefix@.len() as int));
            assert(tail@ =~= content@.skip(prefix@.len() as int));
        }
        Some((String::from_str(head), String::from_str(tail)))
    } else {
        None
    }
}

/// Counts the leading `'!'` characters.
fn leading_bangs(s: &str) -> (r: usize)
    ensures
        r == spec_leading_bangs(s@),
{
    proof {
        lemma_leading_bangs(s@);
    }
    let len: usize = s.unicode_len();
    let mut i: usize = 0;
    while i < len
        invariant
            i <= len,
            len == s@.len(),
            forall|j: int| 0 <= j < i ==> s@[j] == '!',
            0 <= spec_leading_bangs(s@) <= s@.len(),
            forall|j: int| 0 <= j < spec_leading_bangs(s@) ==> s@[j] == '!',
            spec_leading_bangs(s@) < s@.len() ==> s@[spec_leading_bangs(s@)] != '!',
        decreases len - i,
    {
        if s.get_char(i) != '!' {
            proof {
                if spec_leading_bangs(s@) > i {
                    assert(s@[i as int] == '!');
                }
                if spec_leading_bangs(s@) < i {
                    assert(s@[spec_leading_bangs(s@)] == '!');
                }
            }
            return i;
        }
        i += 1;
    }
    proof {
        if spec_leading_bangs(s@) < s@.len() {
            assert(s@[spec_leading_bangs(s@)] == '!');
        }
    }
    len
}

/// The count of [`spec_leading_bangs`] is the least non-`'!'` position.
proof fn lemma_leading_bangs(s: Seq<char>)
    ensures
        0 <= spec_leading_bangs(s) <= s.len(),
        forall|j: int| 0 <= j < spec_leading_bangs(s) ==> s[j] == '!',
        spec_leading_bangs(s) < s.len() ==> s[spec_leading_bangs(s)] != '!',
    decreases s.len(),
{
    if s.len() > 0 && s[0] == '!' {
        lemma_leading_bangs(s.drop_first());
        assert forall|j: int| 0 <= j < spec_leading_bangs(s) implies s[j] == '!' by {
            if j > 0 {
                assert(s.drop_first()[j - 1] == s[j]);
            }
        }
    }
}

/// Splits a string after a mention of the bot.
fn mention_strip(content: &str, bot_id: u64) -> (r: Option<(String, String)>)
    ensures
        match r {
            Some((p, rest)) => spec_mention_strip(content@, bot_id) == Some((p@, rest@)),
            None => spec_mention_strip(content@, bot_id) is None,
        },
{
    let clen: usize = content.unicode_len();
    if clen < 2 {
        return None;
    }
    if content.get_char(0) != '<' || content.get_char(1) != '@' {
        return None;
    }
    let after_at: &str = content.substring_char(2, clen);
    proof {
        assert(after_at@ =~= content@.skip(2));
    }
    let bangs: usize = leading_bangs(after_at);
    proof {
        lemma_leading_bangs(after_at@);
        assert(content@.skip(2).skip(bangs as int) =~= content@.skip(2 + bangs as int));
    }
    let body: &str = content.substring_char(2 + bangs, clen);
    proof {
        assert(body@ =~= content@.skip(2 + bangs as int));
    }
    let digits: String = u64_to_string(bot_id);
    if !str_starts_with(body, digits.as_str()) {
        return None;
    }
    let dlen: usize = digits.as_str().unicode_len();
    let blen: usize = body.unicode_len();
    if blen <= dlen {
        return None;
    }
    if body.get_char(dlen) != '>' {
        return None;
    }
    let end: usize = 2 + bangs + dlen + 1;
    let head: &str = content.substring_char(0, end);
    let tail: &str = content.substring_char(end, clen);
    proof {
        assert(head@ =~= content@.take(end as int));
        assert(tail@ =~= content@.skip(end as int));
    }
    Some((String::from_str(head), String::from_str(tail)))
}

/// Resolves the prefix of a message. The callback outcomes and the pattern
/// engine's per-entry results (`engine_results`, one per additional prefix)
/// are produced by the caller; the decision over them is made here. Returns
/// the matched prefix and the rest of the message, or nothing when the
/// message is not a command invocation.
pub fn strip_prefix(
    content: &str,
    dynamic: &DynamicPrefixOutcome,
    prefix: &Option<String>,
    additional: &Vec<Prefix>,
    engine_results: &Vec<Option<(usize, usize)>>,
    stripped_dynamic: &StrippedDynamicOutcome,
    mention_as_prefix: bool,
    bot_id: u64,
) -> (r: Option<(String, String)>)
    requires
        engine_results@.len() == additional@.len(),
    ensures
        match r {
            Some((p, rest)) => spec_strip_prefix(
                content@,
                *dynamic,
                *prefix,
                additional@,
                engine_results@,
                *stripped_dynamic,
                mention_as_prefix,
                bot_id,
            ) == Some((p@, rest@)),
            None => spec_strip_prefix(
                content@,
                *dynamic,
                *prefix,
                additional@,
                engine_results@,
                *stripped_dynamic,
                mention_as_prefix,
                bot_id,
            ) is None,
        },
{
    match dynamic {
        DynamicPrefixOutcome::Returned(Some(p)) => {
            match literal_strip(content, p.as_str()) {
                Some(split) => {
                    return Some(split);
                },
                None => {},
            }
        },
        _ => {},
    }
    match prefix {
        Some(p) => {
            match literal_strip(content, p.as_str()) {
                Some(split) => {
                    return Some(split);
                },
                None => {},
            }
        },
        None => {},
    }
    let clen: usize = content.unicode_len();
    let mut j: usize = 0;
    let alen: usize = additional.len();
    while j < alen
        invariant
            j <= alen,
            alen == additional@.len(),
            engine_results@.len() == additional@.len(),
            clen == content@.len(),
            (match *dynamic {
                DynamicPrefixOutcome::Returned(Some(p)) => spec_literal_strip(content@, p@)
                    is None,
                _ => true,
            }),
            (match *prefix {
                Some(p) => spec_literal_strip(content@, p@) is None,
                None => true,
            }),
            spec_additional_strip(content@, additional@, engine_results@, 0)
                == spec_additional_strip(content@, additional@, engine_results@, j as int),
        decreases alen - j,
    {
        match &additional[j] {
            Prefix::Literal(p) => {
                match literal_strip(content, p.as_str()) {
                    Some(split) => {
                        return Some(split);
                    },
                    None => {},
                }
            },
            Prefix::Pattern(_) => {
                match engine_results[j] {
                    Some((start, end)) => {
                        if start == 0 && end <= clen {
                            let head: &str = content.substring_char(0, end);
                            let tail: &str = content.substring_char(end, clen);
                            proof {
                                assert(head@ =~= content@.take(end as int));
                                assert(tail@ =~= content@.skip(end as int));
                            }
                            return Some((String::from_str(head), String::from_str(tail)));
                        }
                    },
                    None => {},
                }
            },
        }
        j += 1;
    }
    match stripped_dynamic {
        StrippedDynamicOutcome::Returned(Some((p, rest))) => {
            return Some((p.clone(), rest.clone()));
        },
        _ => {},
    }
    if mention_as_prefix {
        match mention_strip(content, bot_id) {
            Some(split) => {
                return Some(split);
            },
            None => {},
        }
    }
    None
}

} // verus!
