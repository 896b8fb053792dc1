use lumi::command::Command;
use lumi::error::{on_error, ErrorResponse, FrameworkError};
use lumi::framework::{
    insert_owners_from_application_info, message_content_intent_sanity_check, ApplicationInfo,
    Framework, FrameworkOptions, MembershipState, TeamMember, TeamMemberRole,
    MESSAGE_CONTENT_INTENT,
};
use lumi::permissions::{
    calculate_missing, get_author_and_bot_permissions, get_bot_permissions, is_thread, ChannelType,
    GuildCache, GuildChannel, GuildThread, InteractionPermissions, Permissions, PermissionsInfo,
    SEND_MESSAGES, SEND_MESSAGES_IN_THREADS,
};

fn named(name: &str) -> Command {
    let mut c = Command::default();
    c.name = String::from(name);
    c
}

#[test]
fn builder_appends_commands_and_owner_choice() {
    let mut options = FrameworkOptions::default();
    options.commands = vec![named("a")];
    let framework = Framework::builder()
        .options(options)
        .initialize_owners(false)
        .build();
    assert_eq!(framework.options.commands.len(), 1);
    assert!(!framework.options.initialize_owners);
}

#[test]
fn owners_come_from_owner_and_accepted_team_members() {
    let mut owners = vec![1];
    let info = ApplicationInfo {
        owner_id: Some(2),
        team_members: Some(vec![
            TeamMember {
                user_id: 3,
                membership_state: MembershipState::Accepted,
                role: TeamMemberRole::Admin,
            },
            TeamMember {
                user_id: 4,
                membership_state: MembershipState::Invited,
                role: TeamMemberRole::Admin,
            },
            TeamMember {
                user_id: 5,
                membership_state: MembershipState::Accepted,
                role: TeamMemberRole::ReadOnly,
            },
            TeamMember {
                user_id: 1,
                membership_state: MembershipState::Accepted,
                role: TeamMemberRole::Developer,
            },
        ]),
    };
    insert_owners_from_application_info(&mut owners, &info, &None);
    // 1 stays (not duplicated), 2 is the owner, 3 is an accepted admin,
    // 4 never accepted, 5 has a read-only role.
    assert_eq!(owners, vec![1, 2, 3]);
}

#[test]
fn owner_team_roles_can_be_selected() {
    let mut owners = Vec::new();
    let info = ApplicationInfo {
        owner_id: None,
        team_members: Some(vec![
            TeamMember {
                user_id: 3,
                membership_state: MembershipState::Accepted,
                role: TeamMemberRole::Admin,
            },
            TeamMember {
                user_id: 5,
                membership_state: MembershipState::Accepted,
                role: TeamMemberRole::ReadOnly,
            },
        ]),
    };
    insert_owners_from_application_info(&mut owners, &info, &Some(vec![TeamMemberRole::ReadOnly]));
    assert_eq!(owners, vec![5]);
}

#[test]
fn intent_sanity_check_fires_only_for_prefix_setups() {
    let mut options = FrameworkOptions::default();
    assert!(!message_content_intent_sanity_check(&options.prefix_options, 0));
    options.prefix_options.prefix = Some(String::from("!"));
    assert!(message_content_intent_sanity_check(&options.prefix_options, 0));
    assert!(!message_content_intent_sanity_check(
        &options.prefix_options,
        MESSAGE_CONTENT_INTENT
    ));
}

#[test]
fn dm_permissions_apply_to_both_sides() {
    let info = PermissionsInfo::dm_permissions();
    assert_eq!(info.author_permissions, info.bot_permissions);
    let p = info.author_permissions.unwrap();
    assert_ne!(p.bits & SEND_MESSAGES, 0);
}

#[test]
fn thread_override_swaps_the_send_bit() {
    let data = InteractionPermissions {
        author: Permissions {
            bits: SEND_MESSAGES | SEND_MESSAGES_IN_THREADS,
        },
        bot: Permissions {
            bits: SEND_MESSAGES,
        },
        channel_kind: Some(ChannelType::PublicThread),
    };
    let info = get_author_and_bot_permissions(&data);
    // The author may send in threads, so the generic bit stays set.
    assert_ne!(info.author_permissions.unwrap().bits & SEND_MESSAGES, 0);
    // The bot may not send in threads: its generic bit is cleared.
    assert_eq!(info.bot_permissions.unwrap().bits & SEND_MESSAGES, 0);

    // Outside a thread nothing changes.
    let plain = InteractionPermissions {
        channel_kind: Some(ChannelType::Text),
        ..data
    };
    let info = get_author_and_bot_permissions(&plain);
    assert_eq!(info.bot_permissions.unwrap().bits, SEND_MESSAGES);
}

#[test]
fn thread_kinds() {
    assert!(is_thread(ChannelType::NewsThread));
    assert!(is_thread(ChannelType::PublicThread));
    assert!(is_thread(ChannelType::PrivateThread));
    assert!(!is_thread(ChannelType::Text));
    assert!(!is_thread(ChannelType::Private));
}

#[test]
fn bot_permissions_resolve_threads_to_their_parent() {
    let guild = GuildCache {
        id: 900,
        member_ids: vec![4242],
        channels: vec![GuildChannel {
            id: 40,
            nsfw: false,
            user_permissions: vec![(4242, Permissions { bits: SEND_MESSAGES })],
        }],
        threads: vec![GuildThread {
            id: 41,
            parent_id: 40,
        }],
    };
    // Directly in the channel: the cached bitset.
    assert_eq!(
        get_bot_permissions(&guild, 40, 4242).unwrap().bits,
        SEND_MESSAGES
    );
    // In the thread: the parent's bitset with the send bit replaced by the
    // send-in-threads bit, which the bot lacks.
    assert_eq!(get_bot_permissions(&guild, 41, 4242).unwrap().bits, 0);
    // Unknown channels and non-members resolve to nothing.
    assert!(get_bot_permissions(&guild, 99, 4242).is_none());
    assert!(get_bot_permissions(&guild, 40, 1).is_none());
}

#[test]
fn calculate_missing_cases() {
    let empty = Permissions { bits: 0 };
    let need = Permissions { bits: 0b110 };
    // Nothing required: no lookup matters.
    assert_eq!(
        calculate_missing(empty, empty, None),
        Some((empty, empty))
    );
    // Lookup failed while something was required.
    assert_eq!(calculate_missing(need, empty, None), None);
    // Deficit arithmetic.
    let fetched = Some(PermissionsInfo {
        author_permissions: Some(Permissions { bits: 0b100 }),
        bot_permissions: None,
    });
    let (user_missing, bot_missing) = calculate_missing(need, empty, fetched).unwrap();
    assert_eq!(user_missing.bits, 0b010);
    assert_eq!(bot_missing.bits, 0);
}

#[test]
fn error_messages_render_exactly() {
    let e = FrameworkError::CooldownHit {
        remaining_seconds: 125,
    };
    assert_eq!(
        e.message("!ping"),
        "cooldown hit in command `!ping` (125 seconds remaining)"
    );
    let e = FrameworkError::GuildOnly;
    assert_eq!(e.message("!kick"), "guild-only command `!kick` cannot run in DMs");
    let e = FrameworkError::UnknownCommand {
        msg_content: String::from("pong"),
    };
    assert_eq!(e.message(""), "unknown command `pong`");
    let e = FrameworkError::MissingBotPermissions {
        missing_permissions: Permissions { bits: 2048 },
    };
    assert_eq!(
        e.message("!say"),
        "bot is missing permissions (2048) to execute command `!say`"
    );
}

#[test]
fn default_error_handler_routes_each_kind() {
    let denial = on_error(&FrameworkError::NotAnOwner, "!x", &None);
    match denial {
        ErrorResponse::SendReply { reply } => {
            assert_eq!(reply.content.as_deref(), Some("Only bot owners can call this command"));
            assert_eq!(reply.ephemeral, Some(true));
        }
        other => panic!("unexpected: {:?}", other),
    }

    let parse_error = on_error(
        &FrameworkError::ArgumentParse {
            input: Some(String::from("abc")),
        },
        "!age",
        &Some(String::from("usage: !age <years>")),
    );
    match parse_error {
        ErrorResponse::SendReply { reply } => {
            assert_eq!(
                reply.content.as_deref(),
                Some("failed to parse argument in command `!age` on input `abc`\nusage: !age <years>")
            );
            // Echoed input must not ping anyone.
            let mentions = reply.allowed_mentions.unwrap();
            assert!(!mentions.everyone && !mentions.all_roles && !mentions.all_users);
        }
        other => panic!("unexpected: {:?}", other),
    }

    let panic_report = on_error(&FrameworkError::CommandPanic { payload: None }, "!x", &None);
    match panic_report {
        ErrorResponse::SendReply { reply } => {
            assert!(reply.content.is_none());
            assert_eq!(reply.embeds.len(), 1);
            assert_eq!(reply.embeds[0].title.as_deref(), Some("Internal error"));
        }
        other => panic!("unexpected: {:?}", other),
    }

    assert!(matches!(
        on_error(&FrameworkError::DynamicPrefix, "", &None),
        ErrorResponse::LogError { .. }
    ));
    assert!(matches!(
        on_error(
            &FrameworkError::UnknownCommand {
                msg_content: String::from("zzz")
            },
            "",
            &None
        ),
        ErrorResponse::LogWarn { .. }
    ));
    assert!(matches!(
        on_error(
            &FrameworkError::CommandStructureMismatch {
                description: String::from("expected a subcommand")
            },
            "/cfg",
            &None
        ),
        ErrorResponse::LogError { .. }
    ));
}
