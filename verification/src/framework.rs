//! Global configuration, the framework shell around it, and owner
//! initialization.
//!
//! User callbacks (error handlers, pre/post hooks, checks) and the gateway
//! client live outside this crate; the options record which of them are
//! configured, and the dispatcher takes their outcomes as values.

use vstd::prelude::*;

use crate::command::Command;
use crate::prefix::PrefixFrameworkOptions;
use crate::reply::AllowedMentions;

verus! {

/// Check pipelineway intent bit for receiving message content.
pub const MESSAGE_CONTENT_INTENT: u64 = 0x8000;

/// The role of a member of the application's team.
#[derive(Clone, Copy, Debug, PartialEq, Eq, Structural)]
pub enum TeamMemberRole {
    /// May administrate the application.
    Admin,
    /// May develop the application.
    Developer,
    /// May only read.
    ReadOnly,
}

/// Whether a team member accepted their invitation.
#[derive(Clone, Copy, Debug, PartialEq, Eq, Structural)]
pub enum MembershipState {
    /// Invited but not yet accepted.
    Invited,
    /// Accepted.
    Accepted,
}

/// One member of the application's team.
#[derive(Clone, Copy, Debug, PartialEq, Eq, Structural)]
pub struct TeamMember {
    /// The member's user identity.
    pub user_id: u64,
    /// Whether the member accepted their invitation.
    pub membership_state: MembershipState,
    /// The member's role.
    pub role: TeamMemberRole,
}

/// What the platform reports about the application: its owner and its team.
#[derive(Clone, Debug)]
pub struct ApplicationInfo {
    /// The owning user, if the application is user-owned.
    pub owner_id: Option<u64>,
    /// The owning team's members, if the application is team-owned.
    pub team_members: Option<Vec<TeamMember>>,
}

/// Framework configuration.
#[derive(Debug)]
pub struct FrameworkOptions {
    /// The registered command tree.
    pub commands: Vec<Command>,
    /// Whether a global check callback is configured, run before every
    /// command's own checks.
    pub has_command_check: bool,
    /// Whether every check is skipped for configured owners.
    pub skip_checks_for_owners: bool,
    /// Default mention behavior for responses that choose none.
    pub allowed_mentions: Option<AllowedMentions>,
    /// Whether a callback rewriting every outgoing response is configured.
    pub has_reply_callback: bool,
    /// Whether automatic cooldown handling is disabled globally.
    pub manual_cooldowns: bool,
    /// Whether the guild-only check also requires the guild to be cached.
    pub require_cache_for_guild_check: bool,
    /// Prefix-invocation configuration.
    pub prefix_options: PrefixFrameworkOptions,
    /// Users allowed to run owners-only commands.
    pub owners: Vec<u64>,
    /// Whether owners are initialized from the platform's application info.
    pub initialize_owners: bool,
    /// Which team roles count as owners when initializing; with nothing
    /// set, administrating and developing members count.
    pub initialized_team_roles: Option<Vec<TeamMemberRole>>,
}

impl Default for FrameworkOptions {
    /// No commands; owner initialization on; user pings and replied-user
    /// pings allowed by default.
    fn default() -> (r: FrameworkOptions)
        ensures
            r.commands@.len() == 0,
            !r.has_command_check,
            !r.skip_checks_for_owners,
            r.allowed_mentions == Some(
                AllowedMentions { everyone: false, all_roles: false, all_users: true, replied_user: true },
            ),
            !r.has_reply_callback,
            !r.manual_cooldowns,
            !r.require_cache_for_guild_check,
            r.prefix_options.prefix is None,
            r.prefix_options.additional_prefixes@.len() == 0,
            r.prefix_options.edit_tracker is None,
            r.owners@.len() == 0,
            r.initialize_owners,
            r.initialized_team_roles is None,
    {
        FrameworkOptions {
            commands: Vec::new(),
            has_command_check: false,
            skip_checks_for_owners: false,
            allowed_mentions: Some(
                AllowedMentions {
                    everyone: false,
                    all_roles: false,
                    all_users: true,
                    replied_user: true,
                },
            ),
            has_reply_callback: false,
            manual_cooldowns: false,
            require_cache_for_guild_check: false,
            prefix_options: PrefixFrameworkOptions::default(),
            owners: Vec::new(),
            initialize_owners: true,
            initialized_team_roles: None,
        }
    }
}

/// Whether `id` is in the owner list.
pub open spec fn spec_is_owner(owners: Seq<u64>, id: u64) -> bool {
    owners.contains(id)
}

/// Looks `id` up in the owner list.
pub fn is_owner(owners: &Vec<u64>, id: u64) -> (r: bool)
    ensures
        r == spec_is_owner(owners@, id),
{
    let mut i: usize = 0;
    let len: usize = owners.len();
    while i < len
        invariant
            i <= len,
            len == owners@.len(),
            forall|j: int| 0 <= j < i ==> owners@[j] != id,
        decreases len - i,
    {
        if owners[i] == id {
            return true;
        }
        i += 1;
    }
    proof {
        assert(!owners@.contains(id));
    }
    false
}

/// Whether the application info makes `id` an owner: the owning user, or an
/// accepted team member whose role is selected (with no selection, the
/// administrating and developing roles).
pub open spec fn spec_owner_eligible(
    info: ApplicationInfo,
    initialized_teams: Option<Vec<TeamMemberRole>>,
    id: u64,
) -> bool {
    ||| info.owner_id == Some(id)
    ||| (match info.team_members {
        Some(members) => exists|i: int|
            0 <= i < members@.len() && members@[i].user_id == id && members@[i].membership_state
                == MembershipState::Accepted && (match initialized_teams {
                Some(roles) => roles@.contains(members@[i].role),
                None => members@[i].role == TeamMemberRole::Admin || members@[i].role
                    == TeamMemberRole::Developer,
            }),
        None => false,
    })
}

/// Appending an element extends membership by exactly that element.
proof fn lemma_push_contains(s: Seq<u64>, v: u64)
    ensures
        forall|x: u64| #[trigger] s.push(v).contains(x) <==> (s.contains(x) || x == v),
{
    assert forall|x: u64| #[trigger] s.push(v).contains(x) <==> (s.contains(x) || x == v) by {
        if s.push(v).contains(x) {
            let k = choose|k: int| 0 <= k < s.push(v).len() && s.push(v)[k] == x;
            if k < s.len() {
                assert(s[k] == x);
            }
        }
        if s.contains(x) {
            let k = choose|k: int| 0 <= k < s.len() && s[k] == x;
            assert(s.push(v)[k] == x);
        }
        assert(s.push(v)[s.len() as int] == v);
    }
}

/// Inserts one user into the owner list, unless already present.
fn insert_owner(owners: &mut Vec<u64>, id: u64)
    ensures
        forall|x: u64|
            #[trigger] final(owners)@.contains(x) <==> (old(owners)@.contains(x) || x == id),
{
    if !is_owner(owners, id) {
        proof {
            lemma_push_contains(owners@, id);
        }
        owners.push(id);
    }
}

/// Inserts into `owners` everyone the application info makes an owner.
/// Existing entries stay; nothing is inserted twice.
pub fn insert_owners_from_application_info(
    owners: &mut Vec<u64>,
    info: &ApplicationInfo,
    initialized_teams: &Option<Vec<TeamMemberRole>>,
)
    ensures
        forall|id: u64|
            #[trigger] final(owners)@.contains(id) <==> (old(owners)@.contains(id)
                || spec_owner_eligible(*info, *initialized_teams, id)),
{
    match info.owner_id {
        Some(owner_id) => {
            insert_owner(owners, owner_id);
        },
        None => {},
    }
    let ghost after_owner = owners@;
    proof {
        assert forall|id: u64|
            #[trigger] after_owner.contains(id) <==> (old(owners)@.contains(id) || info.owner_id
                == Some(id)) by {}
    }
    match &info.team_members {
        Some(members) => {
            let mut i: usize = 0;
            let len: usize = members.len();
            while i < len
                invariant
                    i <= len,
                    len == members@.len(),
                    info.team_members == Some(*members),
                    forall|id: u64|
                        #[trigger] owners@.contains(id) <==> (after_owner.contains(id) || (
                        exists|j: int|
                            0 <= j < i && members@[j].user_id == id && members@[j].membership_state
                                == MembershipState::Accepted && (match *initialized_teams {
                                Some(roles) => roles@.contains(members@[j].role),
                                None => members@[j].role == TeamMemberRole::Admin
                                    || members@[j].role == TeamMemberRole::Developer,
                            }))),
                decreases len - i,
            {
                let member: TeamMember = members[i];
                let mut selected: bool = false;
                if member.membership_state == MembershipState::Accepted {
                    match initialized_teams {
                        Some(roles) => {
                            let mut k: usize = 0;
                            let rlen: usize = roles.len();
                            while k < rlen
                                invariant
                                    k <= rlen,
                                    rlen == roles@.len(),
                                    selected == exists|m: int|
                                        0 <= m < k && roles@[m] == member.role,
                                decreases rlen - k,
                            {
                                if roles[k] == member.role {
                                    selected = true;
                                }
                                k += 1;
                            }
                            proof {
                                assert(selected == roles@.contains(member.role));
                            }
                        },
                        None => {
                            selected = member.role == TeamMemberRole::Admin || member.role
                                == TeamMemberRole::Developer;
                        },
                    }
                }
                let ghost before_insert = owners@;
                let ghost eligible_here = member.membership_state == MembershipState::Accepted
                    && (match initialized_teams {
                    Some(roles) => roles@.contains(member.role),
                    None => member.role == TeamMemberRole::Admin || member.role
                        == TeamMemberRole::Developer,
                });
                proof {
                    assert(selected == eligible_here);
                }
                if selected {
                    insert_owner(owners, member.user_id);
                }
                proof {
                    assert(member == members@[i as int]);
                    assert forall|id: u64|
                        #[trigger] owners@.contains(id) <==> (after_owner.contains(id) || (
                        exists|j: int|
                            0 <= j < i + 1 && members@[j].user_id == id
                                && members@[j].membership_state == MembershipState::Accepted && (
                            match *initialized_teams {
                                Some(roles) => roles@.contains(members@[j].role),
                                None => members@[j].role == TeamMemberRole::Admin
                                    || members@[j].role == TeamMemberRole::Developer,
                            }))) by {
                        if owners@.contains(id) {
                            if before_insert.contains(id) {
                                if !after_owner.contains(id) {
                                    let j = choose|j: int|
                                        0 <= j < i && members@[j].user_id == id
                                            && members@[j].membership_state
                                            == MembershipState::Accepted && (
                                        match *initialized_teams {
                                            Some(roles) => roles@.contains(members@[j].role),
                                            None => members@[j].role == TeamMemberRole::Admin
                                                || members@[j].role == TeamMemberRole::Developer,
                                        });
                                    assert(0 <= j < i + 1 && members@[j].user_id == id
                                        && members@[j].membership_state
                                        == MembershipState::Accepted);
                                }
                            } else {
                                assert(selected && id == member.user_id);
                                assert(members@[i as int].user_id == id);
                            }
                        }
                        if exists|j: int|
                            0 <= j < i + 1 && members@[j].user_id == id
                                && members@[j].membership_state == MembershipState::Accepted && (
                            match *initialized_teams {
                                Some(roles) => roles@.contains(members@[j].role),
                                None => members@[j].role == TeamMemberRole::Admin
                                    || members@[j].role == TeamMemberRole::Developer,
                            }) {
                            let j = choose|j: int|
                                0 <= j < i + 1 && members@[j].user_id == id
                                    && members@[j].membership_state == MembershipState::Accepted
                                    && (match *initialized_teams {
                                    Some(roles) => roles@.contains(members@[j].role),
                                    None => members@[j].role == TeamMemberRole::Admin
                                        || members@[j].role == TeamMemberRole::Developer,
                                });
                            if j < i {
                                assert(before_insert.contains(id));
                            } else {
                                assert(j == i);
                                assert(selected && member.user_id == id);
                            }
                        }
                    }
                }
                i += 1;
            }
            proof {
                assert forall|id: u64|
                    #[trigger] owners@.contains(id) <==> (old(owners)@.contains(id)
                        || spec_owner_eligible(*info, *initialized_teams, id)) by {}
            }
        },
        None => {},
    }
}

/// Whether the configuration warrants a warning that prefix invocations can
/// never be received: some prefix strategy is configured, but the gateway
/// intents lack the message-content intent.
pub fn message_content_intent_sanity_check(
    prefix_options: &PrefixFrameworkOptions,
    intents: u64,
) -> (r: bool)
    ensures
        r == ((prefix_options.prefix is Some || prefix_options.has_dynamic_prefix
            || prefix_options.has_stripped_dynamic_prefix) && intents & MESSAGE_CONTENT_INTENT
            == 0),
{
    let is_prefix_configured: bool = prefix_options.prefix.is_some()
        || prefix_options.has_dynamic_prefix || prefix_options.has_stripped_dynamic_prefix;
    let can_receive_message_content: bool = intents & MESSAGE_CONTENT_INTENT != 0;
    is_prefix_configured && !can_receive_message_content
}

/// A read-only view into the framework's configuration, handed to every
/// dispatch, plus the bot's own identity and the embedder's shared data.
#[derive(Debug)]
pub struct FrameworkContext<'a, T> {
    /// The framework configuration, commands included.
    pub options: &'a FrameworkOptions,
    /// The bot's own user identity.
    pub bot_id: u64,
    /// Data the embedding application shares across invocations.
    pub user_data: &'a T,
}

impl<'a, T> FrameworkContext<'a, T> {
    /// The stored framework options, commands included.
    pub fn options(&self) -> (r: &'a FrameworkOptions)
        ensures
            r == self.options,
    {
        self.options
    }

    /// The embedding application's shared data.
    pub fn user_data(&self) -> (r: &'a T)
        ensures
            r == self.user_data,
    {
        self.user_data
    }
}

/// The framework shell: it owns the configuration; the embedding application
/// owns the gateway connection, the background purge timer for the edit
/// tracker, and the dispatch loop that feeds events in.
#[derive(Debug)]
pub struct Framework {
    /// The stored configuration.
    pub options: FrameworkOptions,
}

impl Framework {
    /// A builder for a framework.
    pub fn builder() -> (r: FrameworkBuilder)
        ensures
            r.options is None,
            r.commands@.len() == 0,
            r.initialize_owners,
    {
        FrameworkBuilder::default()
    }

    /// Wraps a configuration.
    pub fn new(options: FrameworkOptions) -> (r: Framework)
        ensures
            r.options == options,
    {
        Framework { options }
    }

    /// The stored framework options, commands included.
    pub fn options(&self) -> (r: &FrameworkOptions)
        ensures
            r == self.options,
    {
        &self.options
    }
}

/// Collects a configuration and commands before the framework starts.
#[derive(Debug)]
pub struct FrameworkBuilder {
    /// The configuration, which must be supplied before building.
    pub options: Option<FrameworkOptions>,
    /// Commands appended to the configuration's own.
    pub commands: Vec<Command>,
    /// Whether owners are initialized from the platform's application info.
    pub initialize_owners: bool,
}

impl Default for FrameworkBuilder {
    /// No configuration yet; owner initialization on.
    fn default() -> (r: FrameworkBuilder)
        ensures
            r.options is None,
            r.commands@.len() == 0,
            r.initialize_owners,
    {
        FrameworkBuilder { options: None, commands: Vec::new(), initialize_owners: true }
    }
}

impl FrameworkBuilder {
    /// Supplies the configuration.
    pub fn options(self, options: FrameworkOptions) -> (r: FrameworkBuilder)
        ensures
            r == (FrameworkBuilder { options: Some(options), ..self }),
    {
        FrameworkBuilder { options: Some(options), ..self }
    }

    /// Chooses whether owners are initialized from the platform's
    /// application info.
    pub fn initialize_owners(self, initialize_owners: bool) -> (r: FrameworkBuilder)
        ensures
            r == (FrameworkBuilder { initialize_owners, ..self }),
    {
        FrameworkBuilder { initialize_owners, ..self }
    }

    /// Builds the framework: the collected commands are appended to the
    /// configuration's own, and the owner-initialization choice is applied.
    /// The configuration must have been supplied.
    pub fn build(self) -> (r: Framework)
        requires
            self.options is Some,
        ensures
            (match self.options {
                Some(o) => {
                    &&& r.options == (FrameworkOptions {
                        commands: r.options.commands,
                        initialize_owners: self.initialize_owners,
                        ..o
                    })
                    &&& r.options.commands@ == o.commands@ + self.commands@
                },
                None => false,
            }),
    {
        let FrameworkBuilder { options, commands, initialize_owners } = self;
        let mut options: FrameworkOptions = match options {
            Some(o) => o,
            None => vstd::pervasive::unreached(),
        };
        let mut commands: Vec<Command> = commands;
        options.commands.append(&mut commands);
        options.initialize_owners = initialize_owners;
        Framework::new(options)
    }
}

} // verus!
