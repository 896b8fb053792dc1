use lumi::command::Command;
use lumi::dispatch::{
    message_update_trigger, parse_invocation, rerun_action, run_invocation, ApplicationContext,
    CommandType, Context, InvocationPlan, MessageDispatchTrigger, PrefixContext, RerunAction,
    Interaction, ResolvedTargetKind, PartialContext,
};
use lumi::error::FrameworkError;
use lumi::framework::FrameworkOptions;
use lumi::checks::CheckInput;
use lumi::permissions::{Permissions, PermissionsInfo};
use lumi::prefix::{DynamicPrefixOutcome, StrippedDynamicOutcome};
use lumi::reply::CommandInteractionType;
use lumi::track_edits::{EditTracker, Message};

fn named(name: &str) -> Command {
    let mut c = Command::default();
    c.name = String::from(name);
    c
}

fn msg(id: u64, content: &str) -> Message {
    Message {
        id,
        channel_id: 40,
        guild_id: Some(900),
        author_id: 7,
        author_is_bot: false,
        content: String::from(content),
        timestamp: 100,
        edited_timestamp: None,
        thread_creation: false,
    }
}

fn options_with_bang_ping() -> FrameworkOptions {
    let mut ping = named("ping");
    ping.has_prefix_action = true;
    let mut options = FrameworkOptions::default();
    options.prefix_options.prefix = Some(String::from("!"));
    options.commands = vec![ping];
    options
}

fn benign_input() -> CheckInput {
    CheckInput {
        author_id: 7,
        channel_id: 40,
        guild_id: Some(900),
        guild_in_cache: true,
        channel_nsfw: Some(false),
        fetched_permissions: Some(PermissionsInfo {
            author_permissions: Some(Permissions { bits: u64::MAX }),
            bot_permissions: Some(Permissions { bits: u64::MAX }),
        }),
        now: 1000,
    }
}

fn parse(
    options: &FrameworkOptions,
    m: &Message,
) -> Result<Option<PrefixContext>, FrameworkError> {
    parse_invocation(
        options,
        4242,
        m,
        MessageDispatchTrigger::MessageCreate,
        &DynamicPrefixOutcome::NotConfigured,
        &Vec::new(),
        &StrippedDynamicOutcome::NotConfigured,
    )
}

#[test]
fn bang_ping_dispatches_ping_end_to_end() {
    let options = options_with_bang_ping();
    let ctx = parse(&options, &msg(1, "!ping")).unwrap().unwrap();

    assert_eq!(ctx.prefix, "!");
    assert_eq!(ctx.invoked_command_name, "ping");
    assert_eq!(ctx.command_path, vec![0]); // no ancestors
    assert_eq!(ctx.args, "");
    assert_eq!(ctx.mod_chars, "");

    let plan = run_invocation(&options, &ctx, &benign_input(), &vec![Vec::new()]);
    match plan {
        InvocationPlan::Run {
            broadcast_typing,
            track_command,
            track_deletion,
        } => {
            assert!(!broadcast_typing);
            assert!(!track_command); // no edit tracker configured
            assert!(!track_deletion);
        }
        other => panic!("unexpected: {:?}", other),
    }
}

#[test]
fn non_command_messages_are_not_invocations() {
    let options = options_with_bang_ping();
    assert!(parse(&options, &msg(1, "hello there")).unwrap().is_none());
}

#[test]
fn unknown_command_after_prefix_is_an_error() {
    let options = options_with_bang_ping();
    let r = parse(&options, &msg(1, "!pong 1 2"));
    match r {
        Err(FrameworkError::UnknownCommand { msg_content }) => {
            assert_eq!(msg_content, "pong 1 2")
        }
        other => panic!("unexpected: {:?}", other),
    }
}

#[test]
fn bot_and_self_messages_are_skipped() {
    let options = options_with_bang_ping();

    let mut from_bot = msg(1, "!ping");
    from_bot.author_is_bot = true;
    assert!(parse(&options, &from_bot).unwrap().is_none());

    let mut from_self = msg(1, "!ping");
    from_self.author_id = 4242; // the bot's own identity
    assert!(parse(&options, &from_self).unwrap().is_none());

    let mut thread_note = msg(1, "!ping");
    thread_note.thread_creation = true;
    assert!(parse(&options, &thread_note).unwrap().is_none());
}

#[test]
fn command_without_prefix_action_is_not_invocable_by_message() {
    let mut options = options_with_bang_ping();
    options.commands[0].has_prefix_action = false;
    assert!(parse(&options, &msg(1, "!ping")).unwrap().is_none());
}

#[test]
fn whitespace_after_prefix_is_tolerated() {
    let options = options_with_bang_ping();
    let ctx = parse(&options, &msg(1, "!   ping  now")).unwrap().unwrap();
    assert_eq!(ctx.invoked_command_name, "ping");
    assert_eq!(ctx.args, "now");
}

#[test]
fn edits_only_rerun_when_configured() {
    let options = options_with_bang_ping();
    let mut ctx = parse(&options, &msg(1, "!ping")).unwrap().unwrap();

    ctx.trigger = MessageDispatchTrigger::MessageEdit;
    let plan = run_invocation(&options, &ctx, &benign_input(), &vec![Vec::new()]);
    assert!(matches!(plan, InvocationPlan::Skip));

    ctx.trigger = MessageDispatchTrigger::MessageEditFromInvalid;
    let plan = run_invocation(&options, &ctx, &benign_input(), &vec![Vec::new()]);
    assert!(matches!(plan, InvocationPlan::Skip));

    let mut options = options_with_bang_ping();
    options.commands[0].invoke_on_edit = true;
    ctx.trigger = MessageDispatchTrigger::MessageEdit;
    let plan = run_invocation(&options, &ctx, &benign_input(), &vec![Vec::new()]);
    assert!(matches!(plan, InvocationPlan::Run { .. }));
}

#[test]
fn bare_group_with_required_subcommand_is_denied() {
    let mut group = named("config");
    group.has_prefix_action = true;
    group.subcommand_required = true;
    group.subcommands.push(named("show"));
    let mut options = FrameworkOptions::default();
    options.prefix_options.prefix = Some(String::from("!"));
    options.commands = vec![group];

    let ctx = parse(&options, &msg(1, "!config")).unwrap().unwrap();
    let plan = run_invocation(&options, &ctx, &benign_input(), &vec![Vec::new()]);
    assert!(matches!(
        plan,
        InvocationPlan::Denied(FrameworkError::SubcommandRequired)
    ));
}

#[test]
fn update_trigger_mapping() {
    let mut tracker = EditTracker::for_timespan(3600);
    tracker.set_bot_response(&msg(1, "!ping"), msg(900, "pong"), false);

    assert_eq!(
        message_update_trigger(&mut tracker, &msg(1, "!ping 2"), true),
        Some(MessageDispatchTrigger::MessageEdit)
    );
    assert_eq!(
        message_update_trigger(&mut tracker, &msg(2, "!other"), false),
        Some(MessageDispatchTrigger::MessageEditFromInvalid)
    );
    assert_eq!(
        message_update_trigger(&mut tracker, &msg(2, "!other"), true),
        None
    );
}

#[test]
fn rerun_picks_the_matching_action() {
    let mut cmd = named("hello");
    cmd.has_slash_action = true;
    cmd.has_prefix_action = true;

    let interaction = Interaction {
        id: 1,
        name: String::from("hello"),
        channel_id: 40,
        guild_id: None,
        user_id: 7,
        kind: CommandType::ChatInput,
        target: None,
        locale: None,
        created_at: 100,
    };
    let app_ctx = Context::Application(ApplicationContext {
        interaction,
        interaction_type: CommandInteractionType::Command,
        command_path: vec![0],
    });
    assert_eq!(rerun_action(&app_ctx, &cmd), RerunAction::Slash);

    let auto_ctx = match app_ctx {
        Context::Application(mut a) => {
            a.interaction_type = CommandInteractionType::Autocomplete;
            Context::Application(a)
        }
        _ => unreachable!(),
    };
    assert_eq!(rerun_action(&auto_ctx, &cmd), RerunAction::Nothing);

    let mut menu_cmd = named("inspect");
    menu_cmd.context_menu_action = Some(lumi::command::ContextMenuCommandAction::User);
    let menu_ctx = Context::Application(ApplicationContext {
        interaction: Interaction {
            id: 1,
            name: String::from("inspect"),
            channel_id: 40,
            guild_id: None,
            user_id: 7,
            kind: CommandType::User,
            target: Some(ResolvedTargetKind::User),
            locale: None,
            created_at: 100,
        },
        interaction_type: CommandInteractionType::Command,
        command_path: vec![0],
    });
    assert_eq!(rerun_action(&menu_ctx, &menu_cmd), RerunAction::ContextMenuUser);
}

#[test]
fn partial_context_reduces_a_prefix_invocation() {
    let options = options_with_bang_ping();
    let ctx = parse(&options, &msg(1, "!ping")).unwrap().unwrap();
    let partial = PartialContext::of_context(&Context::Prefix(ctx));
    assert_eq!(partial.channel_id, 40);
    assert_eq!(partial.guild_id, Some(900));
    assert_eq!(partial.author_id, 7);
}
