//! Per-command cooldown tracking.
//!
//! A command's tracker remembers, per bucket (global, per user, per guild,
//! per channel, per member), when the command last started a cooldown. The
//! pre-run checks only read the tracker — [`CooldownTracker::remaining_cooldown`]
//! never mutates state — and the caller starts a cooldown explicitly, after
//! argument parsing succeeded, so a malformed invocation never consumes a
//! cooldown slot. Times are seconds; the current time is always passed in.

use vstd::prelude::*;

verus! {

/// How long, in seconds, each bucket of a command's cooldown lasts; an
/// absent entry disables that bucket.
#[derive(Clone, Copy, Debug, PartialEq, Eq, Structural, Default)]
pub struct CooldownConfig {
    /// One shared bucket for everyone.
    pub global: Option<u64>,
    /// One bucket per invoking user.
    pub user: Option<u64>,
    /// One bucket per guild.
    pub guild: Option<u64>,
    /// One bucket per channel.
    pub channel: Option<u64>,
    /// One bucket per (user, guild) pair.
    pub member: Option<u64>,
}

/// The scope an invocation falls in, used to derive bucket keys.
#[derive(Clone, Copy, Debug, PartialEq, Eq, Structural)]
pub struct CooldownContext {
    /// The invoking user.
    pub user_id: u64,
    /// The invocation channel.
    pub channel_id: u64,
    /// The guild, when not invoked in a direct message.
    pub guild_id: Option<u64>,
}

/// Value bound to `key` by the first matching entry, if any.
pub open spec fn spec_last_invocation<K>(entries: Seq<(K, u64)>, key: K) -> Option<u64>
    decreases entries.len(),
{
    if entries.len() == 0 {
        None
    } else if entries[0].0 == key {
        Some(entries[0].1)
    } else {
        spec_last_invocation(entries.drop_first(), key)
    }
}

/// Updating the first entry of `key` in place changes only that binding.
proof fn lemma_last_invocation_update_one<K>(
    entries: Seq<(K, u64)>,
    i: int,
    key: K,
    value: u64,
    k: K,
)
    requires
        0 <= i < entries.len(),
        entries[i].0 == key,
        forall|j: int| 0 <= j < i ==> entries[j].0 != key,
    ensures
        spec_last_invocation(entries.update(i, (key, value)), k) == if k == key {
            Some(value)
        } else {
            spec_last_invocation(entries, k)
        },
    decreases entries.len(),
{
    let updated = entries.update(i, (key, value));
    if i == 0 {
        assert(updated[0] == (key, value));
        assert(updated.drop_first() =~= entries.drop_first());
    } else {
        assert forall|j: int|
            0 <= j < i - 1 implies entries.drop_first()[j].0 != key by {
            assert(entries.drop_first()[j] == entries[j + 1]);
        }
        assert(entries.drop_first()[i - 1] == entries[i]);
        lemma_last_invocation_update_one(entries.drop_first(), i - 1, key, value, k);
        assert(updated.drop_first() =~= entries.drop_first().update(i - 1, (key, value)));
        assert(updated[0] == entries[0]);
        assert(entries[0].0 != key);
    }
}

/// Appending a binding for an absent key changes only that binding.
proof fn lemma_last_invocation_push_one<K>(entries: Seq<(K, u64)>, key: K, value: u64, k: K)
    requires
        spec_last_invocation(entries, key) is None,
    ensures
        spec_last_invocation(entries.push((key, value)), k) == if k == key {
            Some(value)
        } else {
            spec_last_invocation(entries, k)
        },
    decreases entries.len(),
{
    let pushed = entries.push((key, value));
    if entries.len() == 0 {
        assert(pushed[0] == (key, value));
        assert(pushed.drop_first() =~= entries);
    } else {
        lemma_last_invocation_push_one(entries.drop_first(), key, value, k);
        assert(pushed[0] == entries[0]);
        assert(pushed.drop_first() =~= entries.drop_first().push((key, value)));
    }
}

/// Seconds left on one bucket: how far `last + duration` still lies beyond
/// `now`, saturated to the `u64` range.
pub open spec fn spec_bucket_remaining(last: u64, duration: u64, now: u64) -> int {
    if last + duration > now {
        if last + duration - now > u64::MAX {
            u64::MAX as int
        } else {
            last + duration - now
        }
    } else {
        0
    }
}

/// Seconds left on a bucket that may be unconfigured or never started.
pub open spec fn spec_bucket(config: Option<u64>, last: Option<u64>, now: u64) -> int {
    match (config, last) {
        (Some(duration), Some(last_time)) => spec_bucket_remaining(last_time, duration, now),
        _ => 0,
    }
}

/// The larger of two values.
pub open spec fn spec_max(a: int, b: int) -> int {
    if a >= b {
        a
    } else {
        b
    }
}

/// Per-command record of when each bucket last started a cooldown.
#[derive(Clone, Debug, Default)]
pub struct CooldownTracker {
    /// Last start of the shared bucket.
    pub global_invocation: Option<u64>,
    /// Last start per user.
    pub user_invocations: Vec<(u64, u64)>,
    /// Last start per guild.
    pub guild_invocations: Vec<(u64, u64)>,
    /// Last start per channel.
    pub channel_invocations: Vec<(u64, u64)>,
    /// Last start per (user, guild) pair.
    pub member_invocations: Vec<((u64, u64), u64)>,
}

/// The seconds still to wait in the scope of `ctx`: the largest remaining
/// time over all configured buckets, or nothing when every bucket expired.
/// Guild-scoped buckets do not apply outside a guild.
pub open spec fn spec_remaining_cooldown(
    tracker: CooldownTracker,
    ctx: CooldownContext,
    config: CooldownConfig,
    now: u64,
) -> Option<u64> {
    let global_left = spec_bucket(config.global, tracker.global_invocation, now);
    let user_left = spec_bucket(
        config.user,
        spec_last_invocation(tracker.user_invocations@, ctx.user_id),
        now,
    );
    let channel_left = spec_bucket(
        config.channel,
        spec_last_invocation(tracker.channel_invocations@, ctx.channel_id),
        now,
    );
    let guild_left = match ctx.guild_id {
        Some(guild_id) => spec_bucket(
            config.guild,
            spec_last_invocation(tracker.guild_invocations@, guild_id),
            now,
        ),
        None => 0,
    };
    let member_left = match ctx.guild_id {
        Some(guild_id) => spec_bucket(
            config.member,
            spec_last_invocation(tracker.member_invocations@, (ctx.user_id, guild_id)),
            now,
        ),
        None => 0,
    };
    let worst = spec_max(
        global_left,
        spec_max(user_left, spec_max(channel_left, spec_max(guild_left, member_left))),
    );
    if worst > 0 {
        Some(worst as u64)
    } else {
        None
    }
}

/// Looks up the first binding of `key`.
fn last_invocation_u64(entries: &Vec<(u64, u64)>, key: u64) -> (r: Option<u64>)
    ensures
        r == spec_last_invocation(entries@, key),
{
    proof {
        assert(entries@.skip(0) =~= entries@);
    }
    let mut i: usize = 0;
    let len: usize = entries.len();
    while i < len
        invariant
            i <= len,
            len == entries@.len(),
            spec_last_invocation(entries@, key) == spec_last_invocation(
                entries@.skip(i as int),
                key,
            ),
        decreases len - i,
    {
        proof {
            assert(entries@.skip(i as int)[0] == entries@[i as int]);
            assert(entries@.skip(i as int).drop_first() =~= entries@.skip(i as int + 1));
        }
        if entries[i].0 == key {
            return Some(entries[i].1);
        }
        i += 1;
    }
    proof {
        assert(entries@.skip(len as int).len() == 0);
    }
    None
}

/// Looks up the first binding of a pair key.
fn last_invocation_pair(entries: &Vec<((u64, u64), u64)>, key: (u64, u64)) -> (r: Option<u64>)
    ensures
        r == spec_last_invocation(entries@, key),
{
    proof {
        assert(entries@.skip(0) =~= entries@);
    }
    let mut i: usize = 0;
    let len: usize = entries.len();
    while i < len
        invariant
            i <= len,
            len == entries@.len(),
            spec_last_invocation(entries@, key) == spec_last_invocation(
                entries@.skip(i as int),
                key,
            ),
        decreases len - i,
    {
        proof {
            assert(entries@.skip(i as int)[0] == entries@[i as int]);
            assert(entries@.skip(i as int).drop_first() =~= entries@.skip(i as int + 1));
        }
        if entries[i].0.0 == key.0 && entries[i].0.1 == key.1 {
            proof {
                assert(entries@[i as int].0 == key);
            }
            return Some(entries[i].1);
        }
        i += 1;
    }
    proof {
        assert(entries@.skip(len as int).len() == 0);
    }
    None
}

/// Binds `key` to `value`, replacing its first binding or appending one.
fn record_invocation_u64(entries: &mut Vec<(u64, u64)>, key: u64, value: u64)
    ensures
        forall|k: u64|
            spec_last_invocation(final(entries)@, k) == if k == key {
                Some(value)
            } else {
                spec_last_invocation(old(entries)@, k)
            },
{
    proof {
        assert(entries@.skip(0) =~= entries@);
    }
    let mut i: usize = 0;
    let len: usize = entries.len();
    while i < len
        invariant
            i <= len,
            len == entries@.len(),
            entries@ == old(entries)@,
            forall|j: int| 0 <= j < i ==> entries@[j].0 != key,
        decreases len - i,
    {
        if entries[i].0 == key {
            let ghost snapshot = entries@;
            entries.set(i, (key, value));
            proof {
                assert forall|k: u64|
                    spec_last_invocation(entries@, k) == if k == key {
                        Some(value)
                    } else {
                        spec_last_invocation(snapshot, k)
                    } by {
                    lemma_last_invocation_update_one(snapshot, i as int, key, value, k);
                }
            }
            return ;
        }
        i += 1;
    }
    proof {
        lemma_absent_key(entries@, key);
        assert forall|k: u64|
            spec_last_invocation(entries@.push((key, value)), k) == if k == key {
                Some(value)
            } else {
                spec_last_invocation(entries@, k)
            } by {
            lemma_last_invocation_push_one(entries@, key, value, k);
        }
    }
    entries.push((key, value));
}

/// Binds a pair `key` to `value`, replacing its first binding or appending.
fn record_invocation_pair(entries: &mut Vec<((u64, u64), u64)>, key: (u64, u64), value: u64)
    ensures
        forall|k: (u64, u64)|
            spec_last_invocation(final(entries)@, k) == if k == key {
                Some(value)
            } else {
                spec_last_invocation(old(entries)@, k)
            },
{
    proof {
        assert(entries@.skip(0) =~= entries@);
    }
    let mut i: usize = 0;
    let len: usize = entries.len();
    while i < len
        invariant
            i <= len,
            len == entries@.len(),
            entries@ == old(entries)@,
            forall|j: int| 0 <= j < i ==> entries@[j].0 != key,
        decreases len - i,
    {
        if entries[i].0.0 == key.0 && entries[i].0.1 == key.1 {
            proof {
                assert(entries@[i as int].0 == key);
            }
            let ghost snapshot = entries@;
            entries.set(i, (key, value));
            proof {
                assert forall|k: (u64, u64)|
                    spec_last_invocation(entries@, k) == if k == key {
                        Some(value)
                    } else {
                        spec_last_invocation(snapshot, k)
                    } by {
                    lemma_last_invocation_update_one(snapshot, i as int, key, value, k);
                }
            }
            return ;
        }
        proof {
            assert(entries@[i as int].0 != key);
        }
        i += 1;
    }
    proof {
        lemma_absent_key(entries@, key);
        assert forall|k: (u64, u64)|
            spec_last_invocation(entries@.push((key, value)), k) == if k == key {
                Some(value)
            } else {
                spec_last_invocation(entries@, k)
            } by {
            lemma_last_invocation_push_one(entries@, key, value, k);
        }
    }
    entries.push((key, value));
}

/// A key bound at no position is not bound at all.
proof fn lemma_absent_key<K>(entries: Seq<(K, u64)>, key: K)
    requires
        forall|j: int| 0 <= j < entries.len() ==> entries[j].0 != key,
    ensures
        spec_last_invocation(entries, key) is None,
    decreases entries.len(),
{
    if entries.len() > 0 {
        assert(entries.drop_first() =~= entries.skip(1));
        assert forall|j: int|
            0 <= j < entries.drop_first().len() implies entries.drop_first()[j].0 != key by {
            assert(entries.drop_first()[j] == entries[j + 1]);
        }
        lemma_absent_key(entries.drop_first(), key);
    }
}

/// Seconds left on one started bucket, computed without overflow.
fn bucket_remaining(last: u64, duration: u64, now: u64) -> (r: u64)
    ensures
        r == spec_bucket_remaining(last, duration, now),
{
    let expiry: u128 = last as u128 + duration as u128;
    if (now as u128) < expiry {
        let left: u128 = expiry - now as u128;
        if left > u64::MAX as u128 {
            u64::MAX
        } else {
            left as u64
        }
    } else {
        0
    }
}

impl CooldownTracker {
    /// A tracker with no bucket started.
    pub fn new() -> (r: CooldownTracker)
        ensures
            r.global_invocation is None,
            r.user_invocations@.len() == 0,
            r.guild_invocations@.len() == 0,
            r.channel_invocations@.len() == 0,
            r.member_invocations@.len() == 0,
    {
        CooldownTracker {
            global_invocation: None,
            user_invocations: Vec::new(),
            guild_invocations: Vec::new(),
            channel_invocations: Vec::new(),
            member_invocations: Vec::new(),
        }
    }

    /// How long the scope of `ctx` still has to wait, if at all. Reading
    /// never changes the tracker: only [`Self::start_cooldown`] does.
    pub fn remaining_cooldown(
        &self,
        ctx: CooldownContext,
        config: &CooldownConfig,
        now: u64,
    ) -> (r: Option<u64>)
        ensures
            r == spec_remaining_cooldown(*self, ctx, *config, now),
    {
        let mut worst: u64 = 0;
        match (config.global, self.global_invocation) {
            (Some(duration), Some(last)) => {
                let left: u64 = bucket_remaining(last, duration, now);
                if left > worst {
                    worst = left;
                }
            },
            _ => {},
        }
        match (config.user, last_invocation_u64(&self.user_invocations, ctx.user_id)) {
            (Some(duration), Some(last)) => {
                let left: u64 = bucket_remaining(last, duration, now);
                if left > worst {
                    worst = left;
                }
            },
            _ => {},
        }
        match (config.channel, last_invocation_u64(&self.channel_invocations, ctx.channel_id)) {
            (Some(duration), Some(last)) => {
                let left: u64 = bucket_remaining(last, duration, now);
                if left > worst {
                    worst = left;
                }
            },
            _ => {},
        }
        match ctx.guild_id {
            Some(guild_id) => {
                match (config.guild, last_invocation_u64(&self.guild_invocations, guild_id)) {
                    (Some(duration), Some(last)) => {
                        let left: u64 = bucket_remaining(last, duration, now);
                        if left > worst {
                            worst = left;
                        }
                    },
                    _ => {},
                }
                match (
                    config.member,
                    last_invocation_pair(&self.member_invocations, (ctx.user_id, guild_id)),
                ) {
                    (Some(duration), Some(last)) => {
                        let left: u64 = bucket_remaining(last, duration, now);
                        if left > worst {
                            worst = left;
                        }
                    },
                    _ => {},
                }
            },
            None => {},
        }
        if worst > 0 {
            Some(worst)
        } else {
            None
        }
    }

    /// Starts a cooldown in the scope of `ctx`: every bucket of that scope
    /// is stamped with `now`; bindings of other scopes stay as they were.
    pub fn start_cooldown(&mut self, ctx: CooldownContext, now: u64)
        ensures
            final(self).global_invocation == Some(now),
            forall|k: u64|
                spec_last_invocation(final(self).user_invocations@, k) == if k == ctx.user_id {
                    Some(now)
                } else {
                    spec_last_invocation(old(self).user_invocations@, k)
                },
            forall|k: u64|
                spec_last_invocation(final(self).channel_invocations@, k) == if k
                    == ctx.channel_id {
                    Some(now)
                } else {
                    spec_last_invocation(old(self).channel_invocations@, k)
                },
            forall|k: u64|
                spec_last_invocation(final(self).guild_invocations@, k) == if Some(k)
                    == ctx.guild_id {
                    Some(now)
                } else {
                    spec_last_invocation(old(self).guild_invocations@, k)
                },
            forall|k: (u64, u64)|
                spec_last_invocation(final(self).member_invocations@, k) == if ctx.guild_id
                    == Some(k.1) && k.0 == ctx.user_id {
                    Some(now)
                } else {
                    spec_last_invocation(old(self).member_invocations@, k)
                },
    {
        self.global_invocation = Some(now);
        record_invocation_u64(&mut self.user_invocations, ctx.user_id, now);
        record_invocation_u64(&mut self.channel_invocations, ctx.channel_id, now);
        match ctx.guild_id {
            Some(guild_id) => {
                record_invocation_u64(&mut self.guild_invocations, guild_id, now);
                record_invocation_pair(
                    &mut self.member_invocations,
                    (ctx.user_id, guild_id),
                    now,
                );
            },
            None => {},
        }
    }
}

/// Reading the remaining cooldown is a pure function of the tracker, the
/// scope, the configuration and the clock. Every call of
/// [`CooldownTracker::remaining_cooldown`] ensures its result equals
/// [`spec_remaining_cooldown`] of its inputs and takes the tracker by shared
/// reference, so any number of reads without an intervening
/// [`CooldownTracker::start_cooldown`] returns the same answer.
pub proof fn lemma_cooldown_read_stable(
    tracker: CooldownTracker,
    ctx: CooldownContext,
    config: CooldownConfig,
    now: u64,
    r1: Option<u64>,
    r2: Option<u64>,
)
    requires
        r1 == spec_remaining_cooldown(tracker, ctx, config, now),
        r2 == spec_remaining_cooldown(tracker, ctx, config, now),
    ensures
        r1 == r2,
{
}

} // verus!
