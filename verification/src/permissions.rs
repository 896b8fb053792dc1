//! Permission bitsets and the lookups the checks run before a command executes.
//!
//! A permission set is a plain 64-bit bitset. The platform resolves a user's
//! effective bitset per channel; those resolved bitsets enter this module as
//! values (in DMs a fixed set applies). The logic here — the thread override
//! that swaps the generic send bit for the send-in-threads bit, and the
//! computation of missing permissions — is verified.

use vstd::prelude::*;

verus! {

/// Bit for the permission to send messages in a regular channel.
pub const SEND_MESSAGES: u64 = 0x800;

/// Bit for the permission to send messages inside a thread.
pub const SEND_MESSAGES_IN_THREADS: u64 = 0x4000000000;

/// Bit for the permission to view a channel.
pub const VIEW_CHANNEL: u64 = 0x400;

/// Bit for the permission to embed links.
pub const EMBED_LINKS: u64 = 0x4000;

/// Bit for the permission to attach files.
pub const ATTACH_FILES: u64 = 0x8000;

/// Bit for the permission to read message history.
pub const READ_MESSAGE_HISTORY: u64 = 0x10000;

/// Bit for the permission to add reactions.
pub const ADD_REACTIONS: u64 = 0x40;

/// A set of permissions, as a bitset.
#[derive(Clone, Copy, Debug, PartialEq, Eq, Structural)]
pub struct Permissions {
    /// One bit per permission.
    pub bits: u64,
}

impl Permissions {
    /// The empty permission set.
    pub fn empty() -> (r: Permissions)
        ensures
            r.bits == 0,
    {
        Permissions { bits: 0 }
    }

    /// Whether no permission is present.
    pub fn is_empty(self) -> (r: bool)
        ensures
            r == (self.bits == 0),
    {
        self.bits == 0
    }

    /// Whether every bit of `other` is present in `self`.
    pub fn contains(self, other: Permissions) -> (r: bool)
        ensures
            r == (self.bits & other.bits == other.bits),
    {
        self.bits & other.bits == other.bits
    }

    /// The permissions in `self` that `other` lacks.
    pub fn difference(self, other: Permissions) -> (r: Permissions)
        ensures
            r.bits == self.bits & !other.bits,
    {
        Permissions { bits: self.bits & !other.bits }
    }

    /// Whether the send-in-threads permission is present.
    pub fn send_messages_in_threads(self) -> (r: bool)
        ensures
            r == (self.bits & SEND_MESSAGES_IN_THREADS != 0),
    {
        self.bits & SEND_MESSAGES_IN_THREADS != 0
    }

    /// The same set with the generic send bit forced to `value`.
    pub fn with_send_messages(self, value: bool) -> (r: Permissions)
        ensures
            value ==> r.bits == self.bits | SEND_MESSAGES,
            !value ==> r.bits == self.bits & !SEND_MESSAGES,
    {
        if value {
            Permissions { bits: self.bits | SEND_MESSAGES }
        } else {
            Permissions { bits: self.bits & !SEND_MESSAGES }
        }
    }

    /// In a thread the generic send bit is meaningless: what counts is the
    /// send-in-threads bit. This returns the set with the generic send bit
    /// replaced by that one, so later checks can stay channel-agnostic.
    pub fn normalized_for_thread(self) -> (r: Permissions)
        ensures
            r.bits == if self.bits & SEND_MESSAGES_IN_THREADS != 0 {
                self.bits | SEND_MESSAGES
            } else {
                self.bits & !SEND_MESSAGES
            },
    {
        let in_threads: bool = self.send_messages_in_threads();
        self.with_send_messages(in_threads)
    }
}

/// The permission set every participant has in a direct-message channel.
pub open spec fn spec_dm_permission_bits() -> u64 {
    VIEW_CHANNEL | SEND_MESSAGES | EMBED_LINKS | ATTACH_FILES | READ_MESSAGE_HISTORY
        | ADD_REACTIONS
}

/// The kind of channel an invocation arrived in.
#[derive(Clone, Copy, Debug, PartialEq, Eq, Structural)]
pub enum ChannelType {
    /// A regular guild text channel.
    Text,
    /// A direct-message channel.
    Private,
    /// A guild voice channel.
    Voice,
    /// A guild announcement channel.
    News,
    /// A thread under an announcement channel.
    NewsThread,
    /// A public thread under a text channel.
    PublicThread,
    /// A private thread under a text channel.
    PrivateThread,
    /// A stage channel.
    Stage,
    /// A forum channel.
    Forum,
}

/// Whether a channel kind is one of the thread kinds.
pub fn is_thread(kind: ChannelType) -> (r: bool)
    ensures
        r == (kind == ChannelType::NewsThread || kind == ChannelType::PublicThread || kind
            == ChannelType::PrivateThread),
{
    match kind {
        ChannelType::NewsThread => true,
        ChannelType::PrivateThread => true,
        ChannelType::PublicThread => true,
        _ => false,
    }
}

/// Results of a permission lookup: the invoking user's and the bot's
/// effective permission sets, each absent when the lookup was skipped.
#[derive(Clone, Copy, Debug, PartialEq, Eq, Structural)]
pub struct PermissionsInfo {
    /// The permissions of the invoking user, if requested.
    pub author_permissions: Option<Permissions>,
    /// The permissions of the bot, if requested.
    pub bot_permissions: Option<Permissions>,
}

impl PermissionsInfo {
    /// The permission info used in direct messages, where no per-channel
    /// resolution exists: both sides get the fixed DM set.
    pub fn dm_permissions() -> (r: PermissionsInfo)
        ensures
            r.author_permissions == Some(Permissions { bits: spec_dm_permission_bits() }),
            r.bot_permissions == Some(Permissions { bits: spec_dm_permission_bits() }),
    {
        let bits: u64 = VIEW_CHANNEL | SEND_MESSAGES | EMBED_LINKS | ATTACH_FILES
            | READ_MESSAGE_HISTORY | ADD_REACTIONS;
        PermissionsInfo {
            author_permissions: Some(Permissions { bits }),
            bot_permissions: Some(Permissions { bits }),
        }
    }
}

/// The permission data an interaction carries with it: the platform delivers
/// the author's and the bot's already-resolved bitsets plus the channel kind.
#[derive(Clone, Copy, Debug, PartialEq, Eq, Structural)]
pub struct InteractionPermissions {
    /// The author's resolved permissions in the invocation channel.
    pub author: Permissions,
    /// The bot's resolved permissions in the invocation channel.
    pub bot: Permissions,
    /// The kind of the invocation channel, when known.
    pub channel_kind: Option<ChannelType>,
}

/// The expected effective permissions for an interaction: when the channel is
/// a thread, the generic send bit of both sides is replaced by their
/// send-in-threads bit.
pub open spec fn spec_interaction_permissions(data: InteractionPermissions) -> PermissionsInfo {
    let in_thread = match data.channel_kind {
        Some(kind) => kind == ChannelType::NewsThread || kind == ChannelType::PublicThread || kind
            == ChannelType::PrivateThread,
        None => false,
    };
    if in_thread {
        PermissionsInfo {
            author_permissions: Some(
                Permissions {
                    bits: if data.author.bits & SEND_MESSAGES_IN_THREADS != 0 {
                        data.author.bits | SEND_MESSAGES
                    } else {
                        data.author.bits & !SEND_MESSAGES
                    },
                },
            ),
            bot_permissions: Some(
                Permissions {
                    bits: if data.bot.bits & SEND_MESSAGES_IN_THREADS != 0 {
                        data.bot.bits | SEND_MESSAGES
                    } else {
                        data.bot.bits & !SEND_MESSAGES
                    },
                },
            ),
        }
    } else {
        PermissionsInfo {
            author_permissions: Some(data.author),
            bot_permissions: Some(data.bot),
        }
    }
}

/// Permissions of the author and the bot for an interaction-based
/// invocation, applying the thread override when needed.
pub fn get_author_and_bot_permissions(data: &InteractionPermissions) -> (r: PermissionsInfo)
    ensures
        r == spec_interaction_permissions(*data),
{
    let mut author: Permissions = data.author;
    let mut bot: Permissions = data.bot;
    let in_thread: bool = match data.channel_kind {
        Some(kind) => is_thread(kind),
        None => false,
    };
    if in_thread {
        author = author.normalized_for_thread();
        bot = bot.normalized_for_thread();
    }
    PermissionsInfo { author_permissions: Some(author), bot_permissions: Some(bot) }
}

/// A guild channel as held in the local cache: its identity and the
/// platform-resolved effective permissions per user.
#[derive(Clone, Debug)]
pub struct GuildChannel {
    /// Channel identity.
    pub id: u64,
    /// Whether the channel is marked age-restricted.
    pub nsfw: bool,
    /// Platform-resolved effective permissions, one entry per user.
    pub user_permissions: Vec<(u64, Permissions)>,
}

/// A thread as held in the local cache.
#[derive(Clone, Copy, Debug, PartialEq, Eq, Structural)]
pub struct GuildThread {
    /// Thread identity.
    pub id: u64,
    /// The regular channel the thread hangs under.
    pub parent_id: u64,
}

/// The slice of a guild the permission lookup reads from the local cache.
#[derive(Clone, Debug)]
pub struct GuildCache {
    /// Guild identity.
    pub id: u64,
    /// Users known to be members of the guild.
    pub member_ids: Vec<u64>,
    /// Regular channels of the guild.
    pub channels: Vec<GuildChannel>,
    /// Threads of the guild.
    pub threads: Vec<GuildThread>,
}

/// First value bound to `key` in an association list, if any.
pub open spec fn spec_assoc_lookup(entries: Seq<(u64, Permissions)>, key: u64) -> Option<
    Permissions,
>
    decreases entries.len(),
{
    if entries.len() == 0 {
        None
    } else if entries[0].0 == key {
        Some(entries[0].1)
    } else {
        spec_assoc_lookup(entries.drop_first(), key)
    }
}

/// The resolved permissions of `user_id` in `channel`: the cached entry, or
/// the empty set when the cache holds none.
pub open spec fn spec_channel_user_permissions(channel: GuildChannel, user_id: u64) -> Permissions {
    match spec_assoc_lookup(channel.user_permissions@, user_id) {
        Some(p) => p,
        None => Permissions { bits: 0 },
    }
}

/// Looks up the resolved permissions of `user_id` in `channel`.
pub fn channel_user_permissions(channel: &GuildChannel, user_id: u64) -> (r: Permissions)
    ensures
        r == spec_channel_user_permissions(*channel, user_id),
{
    proof {
        assert(channel.user_permissions@.skip(0) =~= channel.user_permissions@);
    }
    let mut i: usize = 0;
    let len: usize = channel.user_permissions.len();
    while i < len
        invariant
            i <= len,
            len == channel.user_permissions@.len(),
            spec_assoc_lookup(channel.user_permissions@, user_id) == spec_assoc_lookup(
                channel.user_permissions@.skip(i as int),
                user_id,
            ),
        decreases len - i,
    {
        proof {
            assert(channel.user_permissions@.skip(i as int)[0] == channel.user_permissions@[i as int]);
            assert(channel.user_permissions@.skip(i as int).drop_first() =~= channel
                .user_permissions@.skip(i as int + 1));
        }
        let entry: (u64, Permissions) = channel.user_permissions[i];
        if entry.0 == user_id {
            return entry.1;
        }
        i += 1;
    }
    proof {
        assert(channel.user_permissions@.skip(len as int).len() == 0);
    }
    Permissions { bits: 0 }
}

/// First position of a channel with identity `id`, if any.
pub open spec fn spec_channel_index(channels: Seq<GuildChannel>, id: u64) -> Option<int>
    decreases channels.len(),
{
    if channels.len() == 0 {
        None
    } else if channels[0].id == id {
        Some(0int)
    } else {
        match spec_channel_index(channels.drop_first(), id) {
            Some(i) => Some(i + 1),
            None => None,
        }
    }
}

/// Looks up the first channel with identity `id`.
fn find_channel_index(channels: &Vec<GuildChannel>, id: u64) -> (r: Option<usize>)
    ensures
        match r {
            Some(i) => spec_channel_index(channels@, id) == Some(i as int) && i < channels@.len(),
            None => spec_channel_index(channels@, id) is None,
        },
{
    proof {
        assert(channels@.skip(0) =~= channels@);
    }
    let mut i: usize = 0;
    let len: usize = channels.len();
    while i < len
        invariant
            i <= len,
            len == channels@.len(),
            spec_channel_index(channels@, id) == match spec_channel_index(
                channels@.skip(i as int),
                id,
            ) {
                Some(k) => Some(k + i),
                None => None,
            },
        decreases len - i,
    {
        proof {
            assert(channels@.skip(i as int)[0] == channels@[i as int]);
            assert(channels@.skip(i as int).drop_first() =~= channels@.skip(i as int + 1));
        }
        if channels[i].id == id {
            return Some(i);
        }
        i += 1;
    }
    proof {
        assert(channels@.skip(len as int).len() == 0);
    }
    None
}

/// First position of a thread with identity `id`, if any.
pub open spec fn spec_thread_index(threads: Seq<GuildThread>, id: u64) -> Option<int>
    decreases threads.len(),
{
    if threads.len() == 0 {
        None
    } else if threads[0].id == id {
        Some(0int)
    } else {
        match spec_thread_index(threads.drop_first(), id) {
            Some(i) => Some(i + 1),
            None => None,
        }
    }
}

/// Looks up the first thread with identity `id`.
fn find_thread_index(threads: &Vec<GuildThread>, id: u64) -> (r: Option<usize>)
    ensures
        match r {
            Some(i) => spec_thread_index(threads@, id) == Some(i as int) && i < threads@.len(),
            None => spec_thread_index(threads@, id) is None,
        },
{
    proof {
        assert(threads@.skip(0) =~= threads@);
    }
    let mut i: usize = 0;
    let len: usize = threads.len();
    while i < len
        invariant
            i <= len,
            len == threads@.len(),
            spec_thread_index(threads@, id) == match spec_thread_index(
                threads@.skip(i as int),
                id,
            ) {
                Some(k) => Some(k + i),
                None => None,
            },
        decreases len - i,
    {
        proof {
            assert(threads@.skip(i as int)[0] == threads@[i as int]);
            assert(threads@.skip(i as int).drop_first() =~= threads@.skip(i as int + 1));
        }
        if threads[i].id == id {
            return Some(i);
        }
        i += 1;
    }
    proof {
        assert(threads@.skip(len as int).len() == 0);
    }
    None
}

/// The bot's effective permissions in a channel or thread, read from the
/// guild cache: `None` when the bot is not a cached member, when a thread's
/// parent channel is missing, or when the identity names neither a channel
/// nor a thread. For a thread, the parent channel's permissions apply with
/// the generic send bit replaced by the send-in-threads bit.
pub open spec fn spec_bot_permissions(guild: GuildCache, channel_id: u64, bot_id: u64) -> Option<
    Permissions,
> {
    if !guild.member_ids@.contains(bot_id) {
        None
    } else {
        match spec_channel_index(guild.channels@, channel_id) {
            Some(c) => Some(spec_channel_user_permissions(guild.channels@[c], bot_id)),
            None => match spec_thread_index(guild.threads@, channel_id) {
                Some(t) => match spec_channel_index(
                    guild.channels@,
                    guild.threads@[t].parent_id,
                ) {
                    Some(p) => {
                        let parent = spec_channel_user_permissions(guild.channels@[p], bot_id);
                        Some(
                            Permissions {
                                bits: if parent.bits & SEND_MESSAGES_IN_THREADS != 0 {
                                    parent.bits | SEND_MESSAGES
                                } else {
                                    parent.bits & !SEND_MESSAGES
                                },
                            },
                        )
                    },
                    None => None,
                },
                None => None,
            },
        }
    }
}

/// Resolves the bot's effective permissions in `channel_id` from the guild
/// cache, resolving a thread to its parent channel when necessary.
pub fn get_bot_permissions(guild: &GuildCache, channel_id: u64, bot_id: u64) -> (r: Option<
    Permissions,
>)
    ensures
        r == spec_bot_permissions(*guild, channel_id, bot_id),
{
    let mut i: usize = 0;
    let members: usize = guild.member_ids.len();
    let mut is_member: bool = false;
    while i < members
        invariant
            i <= members,
            members == guild.member_ids@.len(),
            is_member == exists|j: int| 0 <= j < i && guild.member_ids@[j] == bot_id,
        decreases members - i,
    {
        if guild.member_ids[i] == bot_id {
            is_member = true;
        }
        i += 1;
    }
    if !is_member {
        proof {
            assert(!guild.member_ids@.contains(bot_id));
        }
        return None;
    }
    match find_channel_index(&guild.channels, channel_id) {
        Some(c) => Some(channel_user_permissions(&guild.channels[c], bot_id)),
        None => {
            match find_thread_index(&guild.threads, channel_id) {
                Some(t) => {
                    let parent_id: u64 = guild.threads[t].parent_id;
                    match find_channel_index(&guild.channels, parent_id) {
                        Some(p) => {
                            let parent: Permissions = channel_user_permissions(
                                &guild.channels[p],
                                bot_id,
                            );
                            Some(parent.normalized_for_thread())
                        },
                        None => None,
                    }
                },
                None => None,
            }
        },
    }
}

/// The permissions missing for the invoking user and the bot, relative to
/// what a command requires. With nothing required the answer is two empty
/// sets and no lookup matters; otherwise a failed lookup (`fetched` absent)
/// yields `None`, and a side whose lookup was skipped yields the empty set.
pub open spec fn spec_calculate_missing(
    author_required: Permissions,
    bot_required: Permissions,
    fetched: Option<PermissionsInfo>,
) -> Option<(Permissions, Permissions)> {
    if author_required.bits == 0 && bot_required.bits == 0 {
        Some((Permissions { bits: 0 }, Permissions { bits: 0 }))
    } else {
        match fetched {
            None => None,
            Some(info) => {
                let author_missing = match info.author_permissions {
                    Some(p) => Permissions { bits: author_required.bits & !p.bits },
                    None => Permissions { bits: 0 },
                };
                let bot_missing = match info.bot_permissions {
                    Some(p) => Permissions { bits: bot_required.bits & !p.bits },
                    None => Permissions { bits: 0 },
                };
                Some((author_missing, bot_missing))
            },
        }
    }
}

/// Computes the user-side and bot-side permission deficits for a command.
/// `fetched` is the result of the permission lookup the caller ran (or
/// skipped, when nothing is required): `None` means the lookup failed.
pub fn calculate_missing(
    author_required: Permissions,
    bot_required: Permissions,
    fetched: Option<PermissionsInfo>,
) -> (r: Option<(Permissions, Permissions)>)
    ensures
        r == spec_calculate_missing(author_required, bot_required, fetched),
{
    if author_required.is_empty() && bot_required.is_empty() {
        return Some((Permissions::empty(), Permissions::empty()));
    }
    match fetched {
        None => None,
        Some(info) => {
            let author_missing: Permissions = match info.author_permissions {
                Some(p) => author_required.difference(p),
                None => Permissions::empty(),
            };
            let bot_missing: Permissions = match info.bot_permissions {
                Some(p) => bot_required.difference(p),
                None => Permissions::empty(),
            };
            Some((author_missing, bot_missing))
        },
    }
}

} // verus!
