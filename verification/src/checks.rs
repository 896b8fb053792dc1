//! The permission and cooldown checks run before a command executes.
//!
//! The check runs once per ancestor of the resolved command, outermost
//! first, and finally for the command itself: a node is blocked if it or any
//! ancestor fails its own check, and the first failure aborts the rest.
//! Outside work — resolving the channel's age restriction, fetching
//! permission bitsets, running check callbacks — is performed by the caller
//! on demand; its results enter as values. The checks only read cooldown
//! state: starting a cooldown is the caller's move, after argument parsing
//! succeeded, so a malformed invocation never consumes a cooldown slot.

use vstd::prelude::*;

use crate::command::Command;
use crate::cooldown::{CooldownContext, spec_remaining_cooldown};
use crate::error::FrameworkError;
use crate::framework::{FrameworkOptions, is_owner, spec_is_owner};
use crate::lookup::{spec_command_at, spec_path_of, spec_path_valid};
use crate::permissions::{PermissionsInfo, calculate_missing, spec_calculate_missing};

verus! {

broadcast use vstd::std_specs::vec::group_vec_axioms, vstd::seq::group_seq_axioms;

/// What one check callback decided. The caller runs the global check first,
/// then the node's own checks, in order, and hands the outcomes in; entries
/// after the first non-allowing one are never read.
#[derive(Clone, Copy, Debug, PartialEq, Eq, Structural)]
pub enum CheckOutcome {
    /// The callback allowed the invocation.
    Allow,
    /// The callback denied the invocation.
    Deny,
    /// The callback itself failed; treated as a denial, with the error kept
    /// for reporting.
    Errored,
}

/// The per-invocation facts the checks decide over, resolved by the caller.
#[derive(Clone, Copy, Debug, PartialEq, Eq, Structural)]
pub struct CheckInput {
    /// The invoking user.
    pub author_id: u64,
    /// The invocation channel.
    pub channel_id: u64,
    /// The guild, absent in direct messages.
    pub guild_id: Option<u64>,
    /// Whether the guild is present in the local cache.
    pub guild_in_cache: bool,
    /// Whether the invocation channel (a thread resolved to its parent) is
    /// age-restricted; absent when resolution failed, which denies.
    pub channel_nsfw: Option<bool>,
    /// The permission lookup's result; absent when the lookup failed, which
    /// denies conservatively.
    pub fetched_permissions: Option<PermissionsInfo>,
    /// The current time, in seconds.
    pub now: u64,
}

/// The first non-allowing check outcome from position `i` on: whether it
/// was a failure rather than a plain denial.
pub open spec fn spec_first_check_failure(outcomes: Seq<CheckOutcome>, i: int) -> Option<bool>
    decreases outcomes.len() - i,
{
    if i < 0 || i >= outcomes.len() {
        None
    } else {
        match outcomes[i] {
            CheckOutcome::Allow => spec_first_check_failure(outcomes, i + 1),
            CheckOutcome::Deny => Some(false),
            CheckOutcome::Errored => Some(true),
        }
    }
}

/// The decision for one node. The steps run in order and the first
/// failing one decides: owner short-circuit, owners-only, guild-only (with
/// the optional cache requirement), DM-only, age restriction, the user's and
/// the bot's permission deficits, the check callbacks, and finally — unless
/// cooldowns are handled manually, per command or globally — the remaining
/// cooldown, which is read and never started here.
pub open spec fn spec_check_single(
    options: FrameworkOptions,
    cmd: Command,
    input: CheckInput,
    check_outcomes: Seq<CheckOutcome>,
) -> Result<(), FrameworkError> {
    if options.skip_checks_for_owners && spec_is_owner(options.owners@, input.author_id) {
        Ok(())
    } else if cmd.owners_only && !spec_is_owner(options.owners@, input.author_id) {
        Err(FrameworkError::NotAnOwner)
    } else if cmd.guild_only && (input.guild_id is None || (options.require_cache_for_guild_check
        && !input.guild_in_cache)) {
        Err(FrameworkError::GuildOnly)
    } else if cmd.dm_only && input.guild_id is Some {
        Err(FrameworkError::DmOnly)
    } else if cmd.nsfw_only && input.channel_nsfw != Some(true) {
        Err(FrameworkError::NsfwOnly)
    } else {
        match spec_calculate_missing(
            cmd.required_permissions,
            cmd.required_bot_permissions,
            input.fetched_permissions,
        ) {
            None => Err(FrameworkError::PermissionFetchFailed),
            Some((user_missing, bot_missing)) => {
                if user_missing.bits != 0 {
                    Err(
                        FrameworkError::MissingUserPermissions {
                            missing_permissions: Some(user_missing),
                        },
                    )
                } else if bot_missing.bits != 0 {
                    Err(FrameworkError::MissingBotPermissions { missing_permissions: bot_missing })
                } else {
                    match spec_first_check_failure(check_outcomes, 0) {
                        Some(errored) => Err(FrameworkError::CommandCheckFailed { errored }),
                        None => {
                            let manual = match cmd.manual_cooldowns {
                                Some(b) => b,
                                None => options.manual_cooldowns,
                            };
                            if manual {
                                Ok(())
                            } else {
                                match spec_remaining_cooldown(
                                    cmd.cooldowns,
                                    CooldownContext {
                                        user_id: input.author_id,
                                        channel_id: input.channel_id,
                                        guild_id: input.guild_id,
                                    },
                                    cmd.cooldown_config,
                                    input.now,
                                ) {
                                    Some(remaining) => Err(
                                        FrameworkError::CooldownHit {
                                            remaining_seconds: remaining,
                                        },
                                    ),
                                    None => Ok(()),
                                }
                            }
                        },
                    }
                }
            },
        }
    }
}

/// Runs the checks for a single node.
pub fn check_permissions_and_cooldown_single(
    options: &FrameworkOptions,
    cmd: &Command,
    input: &CheckInput,
    check_outcomes: &Vec<CheckOutcome>,
) -> (r: Result<(), FrameworkError>)
    ensures
        r == spec_check_single(*options, *cmd, *input, check_outcomes@),
{
    if options.skip_checks_for_owners && is_owner(&options.owners, input.author_id) {
        return Ok(());
    }
    if cmd.owners_only && !is_owner(&options.owners, input.author_id) {
        return Err(FrameworkError::NotAnOwner);
    }
    if cmd.guild_only {
        match input.guild_id {
            None => {
                return Err(FrameworkError::GuildOnly);
            },
            Some(_) => {
                if options.require_cache_for_guild_check && !input.guild_in_cache {
                    return Err(FrameworkError::GuildOnly);
                }
            },
        }
    }
    if cmd.dm_only && input.guild_id.is_some() {
        return Err(FrameworkError::DmOnly);
    }
    if cmd.nsfw_only && input.channel_nsfw != Some(true) {
        return Err(FrameworkError::NsfwOnly);
    }
    match calculate_missing(
        cmd.required_permissions,
        cmd.required_bot_permissions,
        input.fetched_permissions,
    ) {
        None => Err(FrameworkError::PermissionFetchFailed),
        Some((user_missing, bot_missing)) => {
            if !user_missing.is_empty() {
                return Err(
                    FrameworkError::MissingUserPermissions {
                        missing_permissions: Some(user_missing),
                    },
                );
            }
            if !bot_missing.is_empty() {
                return Err(
                    FrameworkError::MissingBotPermissions { missing_permissions: bot_missing },
                );
            }
            let mut i: usize = 0;
            let olen: usize = check_outcomes.len();
            while i < olen
                invariant
                    i <= olen,
                    olen == check_outcomes@.len(),
                    !(options.skip_checks_for_owners && spec_is_owner(
                        options.owners@,
                        input.author_id,
                    )),
                    !(cmd.owners_only && !spec_is_owner(options.owners@, input.author_id)),
                    !(cmd.guild_only && (input.guild_id is None || (
                    options.require_cache_for_guild_check && !input.guild_in_cache))),
                    !(cmd.dm_only && input.guild_id is Some),
                    !(cmd.nsfw_only && input.channel_nsfw != Some(true)),
                    (match spec_calculate_missing(
                        cmd.required_permissions,
                        cmd.required_bot_permissions,
                        input.fetched_permissions,
                    ) {
                        Some((u, b)) => u.bits == 0 && b.bits == 0,
                        None => false,
                    }),
                    spec_first_check_failure(check_outcomes@, 0) == spec_first_check_failure(
                        check_outcomes@,
                        i as int,
                    ),
                decreases olen - i,
            {
                match check_outcomes[i] {
                    CheckOutcome::Allow => {},
                    CheckOutcome::Deny => {
                        return Err(FrameworkError::CommandCheckFailed { errored: false });
                    },
                    CheckOutcome::Errored => {
                        return Err(FrameworkError::CommandCheckFailed { errored: true });
                    },
                }
                i += 1;
            }
            let manual: bool = match cmd.manual_cooldowns {
                Some(b) => b,
                None => options.manual_cooldowns,
            };
            if manual {
                return Ok(());
            }
            let cooldown_ctx = CooldownContext {
                user_id: input.author_id,
                channel_id: input.channel_id,
                guild_id: input.guild_id,
            };
            match cmd.cooldowns.remaining_cooldown(cooldown_ctx, &cmd.cooldown_config, input.now) {
                Some(remaining) => Err(
                    FrameworkError::CooldownHit { remaining_seconds: remaining },
                ),
                None => Ok(()),
            }
        },
    }
}

/// The decision along a path: the nodes are checked outermost first,
/// each with its own check-callback outcomes, and the first failure decides.
pub open spec fn spec_check_path(
    options: FrameworkOptions,
    commands: Seq<Command>,
    path: Seq<int>,
    input: CheckInput,
    check_outcomes: Seq<Seq<CheckOutcome>>,
) -> Result<(), FrameworkError>
    decreases path.len(),
{
    if path.len() == 0 {
        Ok(())
    } else {
        let outcomes = if check_outcomes.len() > 0 {
            check_outcomes[0]
        } else {
            Seq::empty()
        };
        match spec_check_single(options, commands[path[0]], input, outcomes) {
            Err(e) => Err(e),
            Ok(()) => spec_check_path(
                options,
                commands[path[0]].subcommands@,
                path.drop_first(),
                input,
                check_outcomes.drop_first(),
            ),
        }
    }
}

/// Runs the checks for the resolved command and all its ancestors, outermost
/// first; the first failure aborts the remaining checks. `check_outcomes[k]`
/// holds the callback outcomes for the node at depth `k`.
pub fn check_permissions_and_cooldown(
    options: &FrameworkOptions,
    commands: &Vec<Command>,
    path: &Vec<usize>,
    input: &CheckInput,
    check_outcomes: &Vec<Vec<CheckOutcome>>,
) -> (r: Result<(), FrameworkError>)
    requires
        spec_path_valid(commands@, spec_path_of(path@)),
        check_outcomes@.len() == path@.len(),
    ensures
        r == spec_check_path(
            *options,
            commands@,
            spec_path_of(path@),
            *input,
            check_outcomes@.map_values(|v: Vec<CheckOutcome>| v@),
        ),
{
    let ghost ipath = spec_path_of(path@);
    let ghost all_outcomes = check_outcomes@.map_values(|v: Vec<CheckOutcome>| v@);
    let mut current: &Vec<Command> = commands;
    let mut k: usize = 0;
    let plen: usize = path.len();
    proof {
        assert(ipath.skip(0) =~= ipath);
        assert(all_outcomes.skip(0) =~= all_outcomes);
    }
    while k < plen
        invariant
            k <= plen,
            plen == path@.len(),
            ipath == spec_path_of(path@),
            all_outcomes == check_outcomes@.map_values(|v: Vec<CheckOutcome>| v@),
            ipath.len() == plen,
            all_outcomes.len() == plen,
            forall|j: int| 0 <= j < plen ==> ipath[j] == path@[j] as int,
            k < plen ==> spec_path_valid(current@, ipath.skip(k as int)),
            spec_check_path(*options, commands@, ipath, *input, all_outcomes) == spec_check_path(
                *options,
                current@,
                ipath.skip(k as int),
                *input,
                all_outcomes.skip(k as int),
            ),
        decreases plen - k,
    {
        proof {
            assert(ipath.skip(k as int)[0] == ipath[k as int]);
            assert(ipath.skip(k as int).drop_first() =~= ipath.skip(k as int + 1));
            assert(all_outcomes.skip(k as int)[0] == all_outcomes[k as int]);
            assert(all_outcomes.skip(k as int).drop_first() =~= all_outcomes.skip(k as int + 1));
        }
        let node: &Command = &current[path[k]];
        match check_permissions_and_cooldown_single(options, node, input, &check_outcomes[k]) {
            Err(e) => {
                return Err(e);
            },
            Ok(()) => {},
        }
        current = &node.subcommands;
        k += 1;
    }
    proof {
        assert(ipath.skip(plen as int).len() == 0);
    }
    Ok(())
}

/// Check inheritance: a command is blocked whenever any node along its path
/// — itself or an ancestor — is guild-only and the invocation is outside a
/// guild, unless checks are skipped for an invoking owner. The nodes below
/// the guild-only ancestor need no restriction of their own.
pub proof fn lemma_guild_only_inherited(
    options: FrameworkOptions,
    commands: Seq<Command>,
    path: Seq<int>,
    input: CheckInput,
    check_outcomes: Seq<Seq<CheckOutcome>>,
    k: int,
)
    requires
        spec_path_valid(commands, path),
        0 <= k < path.len(),
        spec_command_at(commands, path.take(k + 1)).guild_only,
        input.guild_id is None,
        !(options.skip_checks_for_owners && spec_is_owner(options.owners@, input.author_id)),
    ensures
        spec_check_path(options, commands, path, input, check_outcomes) is Err,
    decreases path.len(),
{
    let outcomes = if check_outcomes.len() > 0 {
        check_outcomes[0]
    } else {
        Seq::empty()
    };
    if k == 0 {
        assert(path.take(1)[0] == path[0]);
        assert(spec_command_at(commands, path.take(1)) == commands[path[0]]);
        assert(spec_check_single(options, commands[path[0]], input, outcomes) is Err);
    } else {
        match spec_check_single(options, commands[path[0]], input, outcomes) {
            Err(_) => {},
            Ok(()) => {
                assert(path.take(k + 1).drop_first() =~= path.drop_first().take(k));
                assert(path.take(k + 1)[0] == path[0]);
                lemma_guild_only_inherited(
                    options,
                    commands[path[0]].subcommands@,
                    path.drop_first(),
                    input,
                    check_outcomes.drop_first(),
                    k - 1,
                );
            },
        }
    }
}

} // verus!
