use lumi::command::Command;
use lumi::cooldown::{CooldownConfig, CooldownContext, CooldownTracker};
use lumi::error::FrameworkError;
use lumi::framework::FrameworkOptions;
use lumi::checks::{
    check_permissions_and_cooldown, check_permissions_and_cooldown_single, CheckOutcome, CheckInput,
};
use lumi::permissions::{Permissions, PermissionsInfo};

fn named(name: &str) -> Command {
    let mut c = Command::default();
    c.name = String::from(name);
    c
}

fn benign_input() -> CheckInput {
    CheckInput {
        author_id: 7,
        channel_id: 40,
        guild_id: Some(900),
        guild_in_cache: true,
        channel_nsfw: Some(false),
        fetched_permissions: Some(PermissionsInfo {
            author_permissions: Some(Permissions { bits: u64::MAX }),
            bot_permissions: Some(Permissions { bits: u64::MAX }),
        }),
        now: 1000,
    }
}

#[test]
fn guild_only_parent_blocks_unrestricted_subcommand() {
    let mut parent = named("admin");
    parent.guild_only = true;
    parent.subcommands.push(named("status"));
    let mut options = FrameworkOptions::default();
    options.commands = vec![parent];

    let mut input = benign_input();
    input.guild_id = None; // invoked from a DM

    let path = vec![0usize, 0usize];
    let outcomes = vec![Vec::new(), Vec::new()];
    let r = check_permissions_and_cooldown(&options, &options.commands, &path, &input, &outcomes);
    assert!(matches!(r, Err(FrameworkError::GuildOnly)));
}

#[test]
fn unrestricted_path_is_allowed() {
    let mut parent = named("admin");
    parent.subcommands.push(named("status"));
    let mut options = FrameworkOptions::default();
    options.commands = vec![parent];

    let path = vec![0usize, 0usize];
    let outcomes = vec![Vec::new(), Vec::new()];
    let r = check_permissions_and_cooldown(
        &options,
        &options.commands,
        &path,
        &benign_input(),
        &outcomes,
    );
    assert!(r.is_ok());
}

#[test]
fn owner_skip_short_circuits_every_restriction() {
    let mut cmd = named("secret");
    cmd.guild_only = true;
    cmd.owners_only = true;
    let mut options = FrameworkOptions::default();
    options.skip_checks_for_owners = true;
    options.owners = vec![7];

    let mut input = benign_input();
    input.guild_id = None;
    let r = check_permissions_and_cooldown_single(&options, &cmd, &input, &Vec::new());
    assert!(r.is_ok());
}

#[test]
fn owners_only_denies_non_owner() {
    let mut cmd = named("secret");
    cmd.owners_only = true;
    let options = FrameworkOptions::default();
    let r = check_permissions_and_cooldown_single(&options, &cmd, &benign_input(), &Vec::new());
    assert!(matches!(r, Err(FrameworkError::NotAnOwner)));
}

#[test]
fn dm_only_denies_in_guild() {
    let mut cmd = named("private");
    cmd.dm_only = true;
    let options = FrameworkOptions::default();
    let r = check_permissions_and_cooldown_single(&options, &cmd, &benign_input(), &Vec::new());
    assert!(matches!(r, Err(FrameworkError::DmOnly)));
}

#[test]
fn nsfw_only_denies_unrestricted_and_unresolved_channels() {
    let mut cmd = named("lewd");
    cmd.nsfw_only = true;
    let options = FrameworkOptions::default();

    let r = check_permissions_and_cooldown_single(&options, &cmd, &benign_input(), &Vec::new());
    assert!(matches!(r, Err(FrameworkError::NsfwOnly)));

    // Resolution failure denies rather than crashing.
    let mut unresolved = benign_input();
    unresolved.channel_nsfw = None;
    let r = check_permissions_and_cooldown_single(&options, &cmd, &unresolved, &Vec::new());
    assert!(matches!(r, Err(FrameworkError::NsfwOnly)));

    let mut ok = benign_input();
    ok.channel_nsfw = Some(true);
    let r = check_permissions_and_cooldown_single(&options, &cmd, &ok, &Vec::new());
    assert!(r.is_ok());
}

#[test]
fn missing_permissions_carry_the_deficit() {
    let mut cmd = named("kick");
    cmd.required_permissions = Permissions { bits: 0b1100 };
    let options = FrameworkOptions::default();

    let mut input = benign_input();
    input.fetched_permissions = Some(PermissionsInfo {
        author_permissions: Some(Permissions { bits: 0b0100 }),
        bot_permissions: Some(Permissions { bits: 0 }),
    });
    let r = check_permissions_and_cooldown_single(&options, &cmd, &input, &Vec::new());
    match r {
        Err(FrameworkError::MissingUserPermissions {
            missing_permissions: Some(p),
        }) => assert_eq!(p.bits, 0b1000),
        other => panic!("unexpected: {:?}", other),
    }
}

#[test]
fn failed_permission_fetch_denies_conservatively() {
    let mut cmd = named("kick");
    cmd.required_permissions = Permissions { bits: 1 };
    let options = FrameworkOptions::default();
    let mut input = benign_input();
    input.fetched_permissions = None;
    let r = check_permissions_and_cooldown_single(&options, &cmd, &input, &Vec::new());
    assert!(matches!(r, Err(FrameworkError::PermissionFetchFailed)));
}

#[test]
fn check_callbacks_deny_and_error() {
    let cmd = named("x");
    let options = FrameworkOptions::default();

    let deny = vec![CheckOutcome::Allow, CheckOutcome::Deny];
    let r = check_permissions_and_cooldown_single(&options, &cmd, &benign_input(), &deny);
    assert!(matches!(
        r,
        Err(FrameworkError::CommandCheckFailed { errored: false })
    ));

    let errored = vec![CheckOutcome::Errored];
    let r = check_permissions_and_cooldown_single(&options, &cmd, &benign_input(), &errored);
    assert!(matches!(
        r,
        Err(FrameworkError::CommandCheckFailed { errored: true })
    ));
}

#[test]
fn cooldown_read_never_starts_a_timer() {
    let mut cmd = named("slow");
    cmd.cooldown_config = CooldownConfig {
        global: None,
        user: Some(30),
        guild: None,
        channel: None,
        member: None,
    };
    let ctx = CooldownContext {
        user_id: 7,
        channel_id: 40,
        guild_id: Some(900),
    };
    cmd.cooldowns.start_cooldown(ctx, 990);

    let options = FrameworkOptions::default();
    let input = benign_input(); // now == 1000, 20 seconds left

    for _ in 0..5 {
        let r = check_permissions_and_cooldown_single(&options, &cmd, &input, &Vec::new());
        match r {
            Err(FrameworkError::CooldownHit { remaining_seconds }) => {
                assert_eq!(remaining_seconds, 20)
            }
            other => panic!("unexpected: {:?}", other),
        }
    }
}

#[test]
fn manual_cooldowns_disable_the_cooldown_step() {
    let mut cmd = named("slow");
    cmd.cooldown_config.user = Some(30);
    cmd.manual_cooldowns = Some(true);
    let ctx = CooldownContext {
        user_id: 7,
        channel_id: 40,
        guild_id: Some(900),
    };
    cmd.cooldowns.start_cooldown(ctx, 990);
    let options = FrameworkOptions::default();
    let r = check_permissions_and_cooldown_single(&options, &cmd, &benign_input(), &Vec::new());
    assert!(r.is_ok());
}

#[test]
fn remaining_cooldown_formula() {
    let mut tracker = CooldownTracker::new();
    let ctx = CooldownContext {
        user_id: 1,
        channel_id: 2,
        guild_id: Some(3),
    };
    let config = CooldownConfig {
        global: Some(10),
        user: Some(50),
        guild: None,
        channel: Some(20),
        member: None,
    };
    assert_eq!(tracker.remaining_cooldown(ctx, &config, 0), None);

    tracker.start_cooldown(ctx, 100);
    // The worst bucket decides: user bucket has 50 - 10 = 40 left.
    assert_eq!(tracker.remaining_cooldown(ctx, &config, 110), Some(40));
    assert_eq!(tracker.remaining_cooldown(ctx, &config, 149), Some(1));
    assert_eq!(tracker.remaining_cooldown(ctx, &config, 150), None);

    // A different user shares only the global and channel buckets.
    let other = CooldownContext {
        user_id: 9,
        channel_id: 2,
        guild_id: Some(3),
    };
    assert_eq!(tracker.remaining_cooldown(other, &config, 110), Some(10));
}

#[test]
fn missing_bot_permissions_carry_the_deficit() {
    let mut cmd = named("announce");
    cmd.required_bot_permissions = Permissions { bits: 0b11 };
    let options = FrameworkOptions::default();
    let mut input = benign_input();
    input.fetched_permissions = Some(PermissionsInfo {
        author_permissions: Some(Permissions { bits: u64::MAX }),
        bot_permissions: Some(Permissions { bits: 0b01 }),
    });
    let r = check_permissions_and_cooldown_single(&options, &cmd, &input, &Vec::new());
    match r {
        Err(FrameworkError::MissingBotPermissions {
            missing_permissions,
        }) => assert_eq!(missing_permissions.bits, 0b10),
        other => panic!("unexpected: {:?}", other),
    }
}

#[test]
fn guild_only_can_require_the_cache() {
    let mut cmd = named("info");
    cmd.guild_only = true;
    let mut options = FrameworkOptions::default();
    options.require_cache_for_guild_check = true;
    let mut input = benign_input();
    input.guild_in_cache = false;
    let r = check_permissions_and_cooldown_single(&options, &cmd, &input, &Vec::new());
    assert!(matches!(r, Err(FrameworkError::GuildOnly)));

    options.require_cache_for_guild_check = false;
    let r = check_permissions_and_cooldown_single(&options, &cmd, &input, &Vec::new());
    assert!(r.is_ok());
}
