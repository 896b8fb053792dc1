//! Automatic edit tracking: correlating a command invocation message with
//! the bot's response, so that when the user edits or deletes the invocation
//! the response can be re-run, edited or deleted.
//!
//! The tracker is a bounded-lifetime store with at most one entry per
//! originating message identity. Entries are created when a runnable command
//! message is first observed, updated when the bot responds, and removed on
//! deletion or by [`EditTracker::purge`]. The caller owns locking and the
//! clock: every operation here is a plain state transition.

use vstd::prelude::*;

use crate::text::str_eq;

verus! {

/// A chat message, reduced to the fields dispatch and tracking read.
#[derive(Clone, Debug)]
pub struct Message {
    /// Message identity.
    pub id: u64,
    /// Channel the message was sent in.
    pub channel_id: u64,
    /// Guild the message was sent in, absent in direct messages.
    pub guild_id: Option<u64>,
    /// Author identity.
    pub author_id: u64,
    /// Whether the author is a bot account.
    pub author_is_bot: bool,
    /// Text content.
    pub content: String,
    /// Creation time, in seconds.
    pub timestamp: i64,
    /// Time of the last edit, in seconds, if the message was edited.
    pub edited_timestamp: Option<i64>,
    /// Whether this message announces the creation of a thread.
    pub thread_creation: bool,
}

impl Message {
    /// A field-for-field copy.
    pub fn duplicate(&self) -> (r: Message)
        ensures
            r == *self,
    {
        Message {
            id: self.id,
            channel_id: self.channel_id,
            guild_id: self.guild_id,
            author_id: self.author_id,
            author_is_bot: self.author_is_bot,
            content: self.content.clone(),
            timestamp: self.timestamp,
            edited_timestamp: self.edited_timestamp,
            thread_creation: self.thread_creation,
        }
    }
}

/// A field-for-field copy of an optional message.
fn duplicate_opt_message(m: &Option<Message>) -> (r: Option<Message>)
    ensures
        r == *m,
{
    match m {
        Some(inner) => Some(inner.duplicate()),
        None => None,
    }
}

/// One cached command invocation.
#[derive(Clone, Debug)]
pub struct CachedInvocation {
    /// The user message that triggered the invocation.
    pub user_msg: Message,
    /// The bot response associated with the invocation, once sent.
    pub bot_response: Option<Message>,
    /// Whether the response should be deleted when the user message is.
    pub track_deletion: bool,
}

/// Position of the first entry for message identity `id`, if any.
pub open spec fn spec_entry_index(entries: Seq<CachedInvocation>, id: u64) -> Option<int>
    decreases entries.len(),
{
    if entries.len() == 0 {
        None
    } else if entries[0].user_msg.id == id {
        Some(0int)
    } else {
        match spec_entry_index(entries.drop_first(), id) {
            Some(i) => Some(i + 1),
            None => None,
        }
    }
}

/// The index found by [`spec_entry_index`] is the least one naming `id`.
pub proof fn lemma_entry_index(entries: Seq<CachedInvocation>, id: u64)
    ensures
        match spec_entry_index(entries, id) {
            Some(i) => 0 <= i < entries.len() && entries[i].user_msg.id == id && (forall|j: int|
                0 <= j < i ==> entries[j].user_msg.id != id),
            None => forall|j: int| 0 <= j < entries.len() ==> entries[j].user_msg.id != id,
        },
    decreases entries.len(),
{
    if entries.len() > 0 && entries[0].user_msg.id != id {
        lemma_entry_index(entries.drop_first(), id);
        match spec_entry_index(entries, id) {
            Some(i) => {
                assert forall|j: int| 0 <= j < i implies entries[j].user_msg.id != id by {
                    if j > 0 {
                        assert(entries.drop_first()[j - 1] == entries[j]);
                    }
                }
            },
            None => {
                assert forall|j: int|
                    0 <= j < entries.len() implies entries[j].user_msg.id != id by {
                    if j > 0 {
                        assert(entries.drop_first()[j - 1] == entries[j]);
                    }
                }
            },
        }
    }
}

/// No two entries share a message identity.
pub open spec fn spec_unique_ids(entries: Seq<CachedInvocation>) -> bool {
    forall|i: int, j: int|
        0 <= i < j < entries.len() ==> entries[i].user_msg.id != entries[j].user_msg.id
}

/// Stores command invocation messages and the associated bot responses.
#[derive(Clone, Debug)]
pub struct EditTracker {
    /// Age, in seconds, past which cached entries may be purged.
    pub max_duration_secs: u64,
    /// The cached invocations, one per originating message identity.
    pub cache: Vec<CachedInvocation>,
}

impl EditTracker {
    /// The cached invocations, in insertion order.
    pub open spec fn entries(self) -> Seq<CachedInvocation> {
        self.cache@
    }

    /// The tracker's invariant: one entry per message identity.
    pub open spec fn wf(self) -> bool {
        spec_unique_ids(self.entries())
    }

    /// An edit tracker that keeps entries for `max_duration_secs` seconds.
    /// Nothing is evicted until [`Self::purge`] is called.
    pub fn for_timespan(max_duration_secs: u64) -> (r: EditTracker)
        ensures
            r.max_duration_secs == max_duration_secs,
            r.entries().len() == 0,
            r.wf(),
    {
        EditTracker { max_duration_secs, cache: Vec::new() }
    }

    /// Finds the position of the entry for `id`, if one is cached.
    fn find_index(&self, id: u64) -> (r: Option<usize>)
        ensures
            match r {
                Some(i) => spec_entry_index(self.entries(), id) == Some(i as int) && i
                    < self.entries().len(),
                None => spec_entry_index(self.entries(), id) is None,
            },
    {
        proof {
            assert(self.cache@.skip(0) =~= self.cache@);
        }
        let mut i: usize = 0;
        let len: usize = self.cache.len();
        while i < len
            invariant
                i <= len,
                len == self.cache@.len(),
                spec_entry_index(self.cache@, id) == match spec_entry_index(
                    self.cache@.skip(i as int),
                    id,
                ) {
                    Some(k) => Some(k + i),
                    None => None,
                },
            decreases len - i,
        {
            proof {
                assert(self.cache@.skip(i as int)[0] == self.cache@[i as int]);
                assert(self.cache@.skip(i as int).drop_first() =~= self.cache@.skip(i as int + 1));
            }
            if self.cache[i].user_msg.id == id {
                return Some(i);
            }
            i += 1;
        }
        proof {
            assert(self.cache@.skip(len as int).len() == 0);
        }
        None
    }

    /// Given a message by a user, the corresponding bot response, if one
    /// exists and is cached.
    pub fn find_bot_response(&self, user_msg_id: u64) -> (r: Option<&Message>)
        ensures
            match spec_entry_index(self.entries(), user_msg_id) {
                Some(i) => (match r {
                    Some(m) => self.entries()[i].bot_response == Some(*m),
                    None => self.entries()[i].bot_response is None,
                }),
                None => r is None,
            },
    {
        match self.find_index(user_msg_id) {
            Some(i) => {
                match &self.cache[i].bot_response {
                    Some(m) => Some(m),
                    None => None,
                }
            },
            None => None,
        }
    }

    /// What [`Self::track_command`] leaves in the cache: untouched when an
    /// entry for the message already exists, else extended by a fresh entry
    /// with no response yet.
    pub open spec fn spec_track_command(
        entries: Seq<CachedInvocation>,
        user_msg: Message,
        track_deletion: bool,
    ) -> Seq<CachedInvocation> {
        if spec_entry_index(entries, user_msg.id) is Some {
            entries
        } else {
            entries.push(
                CachedInvocation { user_msg, bot_response: None, track_deletion },
            )
        }
    }

    /// Records that a command for `user_msg` is running, so that an edit
    /// arriving before the response is sent is not mistaken for an untracked
    /// edit. Idempotent: an existing entry for the same message identity is
    /// left exactly as it is.
    pub fn track_command(&mut self, user_msg: &Message, track_deletion: bool)
        requires
            old(self).wf(),
        ensures
            final(self).wf(),
            final(self).max_duration_secs == old(self).max_duration_secs,
            final(self).entries() == Self::spec_track_command(
                old(self).entries(),
                *user_msg,
                track_deletion,
            ),
    {
        proof {
            lemma_entry_index(self.cache@, user_msg.id);
        }
        match self.find_index(user_msg.id) {
            Some(_) => {},
            None => {
                self.cache.push(
                    CachedInvocation {
                        user_msg: user_msg.duplicate(),
                        bot_response: None,
                        track_deletion,
                    },
                );
            },
        }
    }

    /// What [`Self::set_bot_response`] leaves in the cache: the entry for
    /// the message with its response replaced, or a fresh entry when none
    /// exists.
    pub open spec fn spec_set_bot_response(
        entries: Seq<CachedInvocation>,
        user_msg: Message,
        bot_response: Message,
        track_deletion: bool,
    ) -> Seq<CachedInvocation> {
        match spec_entry_index(entries, user_msg.id) {
            Some(i) => entries.update(
                i,
                CachedInvocation {
                    user_msg: entries[i].user_msg,
                    bot_response: Some(bot_response),
                    track_deletion: entries[i].track_deletion,
                },
            ),
            None => entries.push(
                CachedInvocation { user_msg, bot_response: Some(bot_response), track_deletion },
            ),
        }
    }

    /// Associates `bot_response` with `user_msg`, overwriting any previous
    /// association, and creating the entry when none exists.
    pub fn set_bot_response(&mut self, user_msg: &Message, bot_response: Message, track_deletion: bool)
        requires
            old(self).wf(),
        ensures
            final(self).wf(),
            final(self).max_duration_secs == old(self).max_duration_secs,
            final(self).entries() == Self::spec_set_bot_response(
                old(self).entries(),
                *user_msg,
                bot_response,
                track_deletion,
            ),
    {
        proof {
            lemma_entry_index(self.cache@, user_msg.id);
        }
        match self.find_index(user_msg.id) {
            Some(i) => {
                let updated: CachedInvocation = CachedInvocation {
                    user_msg: self.cache[i].user_msg.duplicate(),
                    bot_response: Some(bot_response),
                    track_deletion: self.cache[i].track_deletion,
                };
                self.cache.set(i, updated);
            },
            None => {
                self.cache.push(
                    CachedInvocation {
                        user_msg: user_msg.duplicate(),
                        bot_response: Some(bot_response),
                        track_deletion,
                    },
                );
            },
        }
    }

    /// What [`Self::process_message_update`] decides and leaves behind, as a
    /// (decision, cache) pair. `Some(true)`: re-run a previously tracked
    /// command; `Some(false)`: the edited message was not tracked, caller
    /// policy decides; `None`: do not re-run.
    pub open spec fn spec_process_message_update(
        entries: Seq<CachedInvocation>,
        new_message: Message,
        ignore_edits_if_not_yet_responded: bool,
    ) -> (Option<bool>, Seq<CachedInvocation>) {
        match spec_entry_index(entries, new_message.id) {
            Some(i) => {
                if ignore_edits_if_not_yet_responded && entries[i].bot_response is None {
                    (None, entries)
                } else if new_message.content@ == entries[i].user_msg.content@ {
                    (None, entries)
                } else {
                    (
                        Some(true),
                        entries.update(
                            i,
                            CachedInvocation {
                                user_msg: new_message,
                                bot_response: entries[i].bot_response,
                                track_deletion: entries[i].track_deletion,
                            },
                        ),
                    )
                }
            },
            None => {
                if ignore_edits_if_not_yet_responded {
                    (None, entries)
                } else {
                    (Some(false), entries)
                }
            },
        }
    }

    /// Updates the cache for an edited message and decides whether the
    /// command should be re-run: a tracked entry whose content did not
    /// change never re-triggers, a content change updates the snapshot and
    /// re-triggers as a tracked edit, and an untracked message re-triggers
    /// only when edits before tracking are not ignored.
    pub fn process_message_update(
        &mut self,
        new_message: &Message,
        ignore_edits_if_not_yet_responded: bool,
    ) -> (r: Option<bool>)
        requires
            old(self).wf(),
        ensures
            final(self).wf(),
            final(self).max_duration_secs == old(self).max_duration_secs,
            (r, final(self).entries()) == Self::spec_process_message_update(
                old(self).entries(),
                *new_message,
                ignore_edits_if_not_yet_responded,
            ),
    {
        proof {
            lemma_entry_index(self.cache@, new_message.id);
        }
        match self.find_index(new_message.id) {
            Some(i) => {
                if ignore_edits_if_not_yet_responded && self.cache[i].bot_response.is_none() {
                    return None;
                }
                if str_eq(self.cache[i].user_msg.content.as_str(), new_message.content.as_str()) {
                    return None;
                }
                let updated: CachedInvocation = CachedInvocation {
                    user_msg: new_message.duplicate(),
                    bot_response: duplicate_opt_message(&self.cache[i].bot_response),
                    track_deletion: self.cache[i].track_deletion,
                };
                self.cache.set(i, updated);
                Some(true)
            },
            None => {
                if ignore_edits_if_not_yet_responded {
                    None
                } else {
                    Some(false)
                }
            },
        }
    }

    /// What [`Self::process_message_delete`] returns and leaves behind: the
    /// entry for the deleted message is removed, and its bot response is
    /// handed back only when the entry asked for deletion tracking.
    pub open spec fn spec_process_message_delete(
        entries: Seq<CachedInvocation>,
        deleted_message_id: u64,
    ) -> (Option<Message>, Seq<CachedInvocation>) {
        match spec_entry_index(entries, deleted_message_id) {
            Some(i) => (
                if entries[i].track_deletion {
                    entries[i].bot_response
                } else {
                    None
                },
                entries.remove(i),
            ),
            None => (None, entries),
        }
    }

    /// Removes the invocation for a deleted message and returns the
    /// associated bot response, if the invocation was cached, a response was
    /// recorded, and the entry is marked for deletion tracking.
    pub fn process_message_delete(&mut self, deleted_message_id: u64) -> (r: Option<Message>)
        requires
            old(self).wf(),
        ensures
            final(self).wf(),
            final(self).max_duration_secs == old(self).max_duration_secs,
            (r, final(self).entries()) == Self::spec_process_message_delete(
                old(self).entries(),
                deleted_message_id,
            ),
    {
        proof {
            lemma_entry_index(self.cache@, deleted_message_id);
        }
        match self.find_index(deleted_message_id) {
            Some(i) => {
                let removed: CachedInvocation = self.cache.remove(i);
                proof {
                    assert forall|a: int, b: int|
                        0 <= a < b < self.cache@.len() implies self.cache@[a].user_msg.id
                        != self.cache@[b].user_msg.id by {
                        assert(self.cache@[a] == if a < i {
                            old(self).cache@[a]
                        } else {
                            old(self).cache@[a + 1]
                        });
                        assert(self.cache@[b] == if b < i {
                            old(self).cache@[b]
                        } else {
                            old(self).cache@[b + 1]
                        });
                    }
                }
                if removed.track_deletion {
                    removed.bot_response
                } else {
                    None
                }
            },
            None => None,
        }
    }

    /// Whether a cached entry is still young enough to survive a purge at
    /// time `now`: its last activity (edit time if present, else creation
    /// time) lies less than `max_secs` seconds in the past.
    pub open spec fn spec_keep(inv: CachedInvocation, now: i64, max_secs: u64) -> bool {
        let last = match inv.user_msg.edited_timestamp {
            Some(t) => t,
            None => inv.user_msg.timestamp,
        };
        now - last < max_secs as int
    }

    /// The cache after a purge at time `now`: the kept entries, in order.
    pub open spec fn spec_purged(
        entries: Seq<CachedInvocation>,
        now: i64,
        max_secs: u64,
    ) -> Seq<CachedInvocation>
        decreases entries.len(),
    {
        if entries.len() == 0 {
            Seq::empty()
        } else if Self::spec_keep(entries[0], now, max_secs) {
            seq![entries[0]] + Self::spec_purged(entries.drop_first(), now, max_secs)
        } else {
            Self::spec_purged(entries.drop_first(), now, max_secs)
        }
    }

    /// Forgets every entry whose last activity is `max_duration_secs` or
    /// more seconds older than `now`.
    pub fn purge(&mut self, now: i64)
        requires
            old(self).wf(),
        ensures
            final(self).wf(),
            final(self).max_duration_secs == old(self).max_duration_secs,
            final(self).entries() == Self::spec_purged(
                old(self).entries(),
                now,
                old(self).max_duration_secs,
            ),
    {
        let max_secs: u64 = self.max_duration_secs;
        let ghost full = self.cache@;
        let mut kept: Vec<CachedInvocation> = Vec::new();
        proof {
            assert(full.skip(0) =~= full);
            assert(kept@ + Self::spec_purged(full, now, max_secs) =~= Self::spec_purged(
                full,
                now,
                max_secs,
            ));
        }
        let mut i: usize = 0;
        let len: usize = self.cache.len();
        while i < len
            invariant
                i <= len,
                len == self.cache@.len(),
                self.cache@ == full,
                max_secs == self.max_duration_secs,
                Self::spec_purged(full, now, max_secs) == kept@ + Self::spec_purged(
                    full.skip(i as int),
                    now,
                    max_secs,
                ),
            decreases len - i,
        {
            proof {
                assert(full.skip(i as int)[0] == full[i as int]);
                assert(full.skip(i as int).drop_first() =~= full.skip(i as int + 1));
            }
            let entry = &self.cache[i];
            let last: i64 = match entry.user_msg.edited_timestamp {
                Some(t) => t,
                None => entry.user_msg.timestamp,
            };
            if (now as i128) - (last as i128) < (max_secs as i128) {
                let ghost kept_before = kept@;
                kept.push(
                    CachedInvocation {
                        user_msg: entry.user_msg.duplicate(),
                        bot_response: duplicate_opt_message(&entry.bot_response),
                        track_deletion: entry.track_deletion,
                    },
                );
                proof {
                    assert(kept@ + Self::spec_purged(full.skip(i as int + 1), now, max_secs)
                        =~= kept_before + (seq![full[i as int]] + Self::spec_purged(
                        full.skip(i as int + 1),
                        now,
                        max_secs,
                    )));
                }
            }
            i += 1;
        }
        proof {
            assert(Self::spec_purged(full.skip(len as int), now, max_secs) =~= Seq::empty());
            assert(kept@ + Seq::<CachedInvocation>::empty() =~= kept@);
            lemma_purged_unique(full, now, max_secs);
        }
        self.cache = kept;
    }
}

/// An entry survives a purge exactly when it was cached and its last
/// activity is young enough; nothing else appears.
pub proof fn lemma_purge_membership(
    entries: Seq<CachedInvocation>,
    now: i64,
    max_secs: u64,
    e: CachedInvocation,
)
    ensures
        EditTracker::spec_purged(entries, now, max_secs).contains(e) <==> (entries.contains(e)
            && EditTracker::spec_keep(e, now, max_secs)),
    decreases entries.len(),
{
    if entries.len() == 0 {
        assert(!entries.contains(e));
    } else {
        let rest = entries.drop_first();
        lemma_purge_membership(rest, now, max_secs, e);
        let purged = EditTracker::spec_purged(entries, now, max_secs);
        let purged_rest = EditTracker::spec_purged(rest, now, max_secs);
        if EditTracker::spec_keep(entries[0], now, max_secs) {
            assert(purged == seq![entries[0]] + purged_rest);
            assert(purged[0] == entries[0]);
            assert forall|k: int| 0 <= k < purged_rest.len() implies purged[k + 1]
                == purged_rest[k] by {}
            if purged.contains(e) {
                let k = choose|k: int| 0 <= k < purged.len() && purged[k] == e;
                if k == 0 {
                    assert(entries.contains(e));
                } else {
                    assert(purged_rest[k - 1] == e);
                    assert(purged_rest.contains(e));
                    lemma_contains_lift(entries, e);
                }
            }
            if entries.contains(e) && EditTracker::spec_keep(e, now, max_secs) {
                let k = choose|k: int| 0 <= k < entries.len() && entries[k] == e;
                if k == 0 {
                    assert(purged[0] == e);
                } else {
                    assert(rest[k - 1] == e);
                    assert(rest.contains(e));
                    assert(purged_rest.contains(e));
                    let m = choose|m: int| 0 <= m < purged_rest.len() && purged_rest[m] == e;
                    assert(purged[m + 1] == e);
                }
            }
        } else {
            assert(purged == purged_rest);
            if purged.contains(e) {
                lemma_contains_lift(entries, e);
            }
            if entries.contains(e) && EditTracker::spec_keep(e, now, max_secs) {
                let k = choose|k: int| 0 <= k < entries.len() && entries[k] == e;
                assert(k != 0);
                assert(rest[k - 1] == e);
                assert(rest.contains(e));
            }
        }
    }
}

/// Membership in the tail lifts to membership in the whole sequence.
proof fn lemma_contains_lift(entries: Seq<CachedInvocation>, e: CachedInvocation)
    requires
        entries.len() > 0,
        entries.drop_first().contains(e),
    ensures
        entries.contains(e),
{
    let k = choose|k: int|
        0 <= k < entries.drop_first().len() && entries.drop_first()[k] == e;
    assert(entries[k + 1] == e);
}

/// A purge keeps message identities unique.
proof fn lemma_purged_unique(entries: Seq<CachedInvocation>, now: i64, max_secs: u64)
    requires
        spec_unique_ids(entries),
    ensures
        spec_unique_ids(EditTracker::spec_purged(entries, now, max_secs)),
    decreases entries.len(),
{
    if entries.len() > 0 {
        let rest = entries.drop_first();
        assert forall|a: int, b: int|
            0 <= a < b < rest.len() implies rest[a].user_msg.id != rest[b].user_msg.id by {
            assert(rest[a] == entries[a + 1]);
            assert(rest[b] == entries[b + 1]);
        }
        lemma_purged_unique(rest, now, max_secs);
        let purged = EditTracker::spec_purged(entries, now, max_secs);
        let purged_rest = EditTracker::spec_purged(rest, now, max_secs);
        if EditTracker::spec_keep(entries[0], now, max_secs) {
            assert(purged == seq![entries[0]] + purged_rest);
            assert forall|a: int, b: int|
                0 <= a < b < purged.len() implies purged[a].user_msg.id
                != purged[b].user_msg.id by {
                if a == 0 {
                    assert(purged[b] == purged_rest[b - 1]);
                    assert(purged_rest.contains(purged_rest[b - 1]));
                    lemma_purge_membership(rest, now, max_secs, purged_rest[b - 1]);
                    let k = choose|k: int| 0 <= k < rest.len() && rest[k] == purged_rest[b - 1];
                    assert(entries[k + 1] == purged_rest[b - 1]);
                    assert(purged[a] == entries[0]);
                } else {
                    assert(purged[a] == purged_rest[a - 1]);
                    assert(purged[b] == purged_rest[b - 1]);
                }
            }
        }
    }
}

/// Recording a running command twice for the same message identity is the
/// same as recording it once: the second call finds the entry and changes
/// nothing.
pub proof fn lemma_track_command_idempotent(
    entries: Seq<CachedInvocation>,
    user_msg: Message,
    track_deletion: bool,
)
    ensures
        EditTracker::spec_track_command(
            EditTracker::spec_track_command(entries, user_msg, track_deletion),
            user_msg,
            track_deletion,
        ) == EditTracker::spec_track_command(entries, user_msg, track_deletion),
{
    if spec_entry_index(entries, user_msg.id) is None {
        let pushed = entries.push(
            CachedInvocation { user_msg, bot_response: None, track_deletion },
        );
        lemma_entry_index_push_absent(entries, user_msg.id, pushed.last());
    }
}

/// Appending an entry for an absent identity makes it findable, at the end.
proof fn lemma_entry_index_push_absent(
    entries: Seq<CachedInvocation>,
    id: u64,
    e: CachedInvocation,
)
    requires
        spec_entry_index(entries, id) is None,
        e.user_msg.id == id,
    ensures
        spec_entry_index(entries.push(e), id) == Some(entries.len() as int),
    decreases entries.len(),
{
    let pushed = entries.push(e);
    if entries.len() == 0 {
        assert(pushed[0] == e);
    } else {
        lemma_entry_index_push_absent(entries.drop_first(), id, e);
        assert(pushed[0] == entries[0]);
        assert(pushed.drop_first() =~= entries.drop_first().push(e));
    }
}

/// An edit that does not change the message content never re-triggers the
/// command, and leaves the cache as it was.
pub proof fn lemma_edit_unchanged_content_no_retrigger(
    entries: Seq<CachedInvocation>,
    new_message: Message,
    ignore_edits_if_not_yet_responded: bool,
    i: int,
)
    requires
        spec_entry_index(entries, new_message.id) == Some(i),
        0 <= i < entries.len(),
        entries[i].user_msg.content@ == new_message.content@,
    ensures
        EditTracker::spec_process_message_update(
            entries,
            new_message,
            ignore_edits_if_not_yet_responded,
        ) == (None::<bool>, entries),
{
}

/// A content change re-triggers exactly once: the first edit decision is a
/// tracked re-run, and repeating the same edit immediately afterwards does
/// not re-trigger again.
pub proof fn lemma_edit_retriggers_once(
    entries: Seq<CachedInvocation>,
    new_message: Message,
    i: int,
)
    requires
        spec_entry_index(entries, new_message.id) == Some(i),
        0 <= i < entries.len(),
        entries[i].user_msg.content@ != new_message.content@,
        entries[i].bot_response is Some,
    ensures
        ({
            let (first, updated) = EditTracker::spec_process_message_update(
                entries,
                new_message,
                true,
            );
            first == Some(true) && EditTracker::spec_process_message_update(
                updated,
                new_message,
                true,
            ).0 is None
        }),
{
    let (first, updated) = EditTracker::spec_process_message_update(entries, new_message, true);
    lemma_entry_index_update_same_id(entries, i, new_message);
    assert(updated[i].user_msg.content@ == new_message.content@);
}

/// Replacing the entry at the found position with one of the same identity
/// leaves the lookup position unchanged.
proof fn lemma_entry_index_update_same_id(entries: Seq<CachedInvocation>, i: int, m: Message)
    requires
        spec_entry_index(entries, m.id) == Some(i),
        0 <= i < entries.len(),
    ensures
        forall|e: CachedInvocation|
            e.user_msg.id == m.id ==> spec_entry_index(entries.update(i, e), m.id) == Some(i),
    decreases entries.len(),
{
    assert forall|e: CachedInvocation|
        e.user_msg.id == m.id implies spec_entry_index(entries.update(i, e), m.id) == Some(
        i,
    ) by {
        lemma_entry_index_update_same_id_one(entries, i, m.id, e);
    }
}

/// Single-entry form of [`lemma_entry_index_update_same_id`].
proof fn lemma_entry_index_update_same_id_one(
    entries: Seq<CachedInvocation>,
    i: int,
    id: u64,
    e: CachedInvocation,
)
    requires
        spec_entry_index(entries, id) == Some(i),
        0 <= i < entries.len(),
        e.user_msg.id == id,
    ensures
        spec_entry_index(entries.update(i, e), id) == Some(i),
    decreases entries.len(),
{
    let updated = entries.update(i, e);
    if i == 0 {
        assert(updated[0] == e);
    } else {
        assert(updated[0] == entries[0]);
        assert(entries[0].user_msg.id != id);
        lemma_entry_index_update_same_id_one(entries.drop_first(), i - 1, id, e);
        assert(updated.drop_first() =~= entries.drop_first().update(i - 1, e));
    }
}

} // verus!
