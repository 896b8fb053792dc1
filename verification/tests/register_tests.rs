use lumi::command::{
    Command, CommandOptionType, CommandParameter, CommandParameterChoice, ContextMenuCommandAction,
    InteractionContext,
};
use lumi::dispatch::CommandType;
use lumi::register::{
    create_application_commands, create_as_context_menu_command, create_as_slash_command,
    create_as_slash_command_option,
};
use lumi::text::u64_to_string;

fn named(name: &str) -> Command {
    let mut c = Command::default();
    c.name = String::from(name);
    c
}

fn parameter(name: &str, kind: Option<CommandOptionType>) -> CommandParameter {
    CommandParameter {
        name: String::from(name),
        name_localizations: Vec::new(),
        description: None,
        description_localizations: Vec::new(),
        required: true,
        channel_types: None,
        choices: Vec::new(),
        type_setter: kind,
        has_autocomplete: false,
    }
}

#[test]
fn parameter_serializes_with_positional_choice_values() {
    let mut p = parameter("level", Some(CommandOptionType::Integer));
    p.choices.push(CommandParameterChoice {
        name: String::from("low"),
        localizations: Vec::new(),
    });
    p.choices.push(CommandParameterChoice {
        name: String::from("high"),
        localizations: Vec::new(),
    });
    let b = create_as_slash_command_option(&p).unwrap();
    assert_eq!(b.kind, CommandOptionType::Integer);
    assert_eq!(b.name, "level");
    assert_eq!(b.description, "A slash command parameter");
    assert!(b.required);
    assert_eq!(b.choices.len(), 2);
    assert_eq!(b.choices[0].name, "low");
    assert_eq!(b.choices[0].value, 0);
    assert_eq!(b.choices[1].name, "high");
    assert_eq!(b.choices[1].value, 1);
}

#[test]
fn unrepresentable_parameter_aborts_its_command() {
    assert!(create_as_slash_command_option(&parameter("x", None)).is_none());

    let mut cmd = named("age");
    cmd.has_slash_action = true;
    cmd.parameters.push(parameter("years", None));
    assert!(create_as_slash_command(&cmd).is_none());
}

#[test]
fn slash_command_carries_its_parameters() {
    let mut cmd = named("age");
    cmd.has_slash_action = true;
    cmd.description = Some(String::from("how old"));
    cmd.parameters
        .push(parameter("years", Some(CommandOptionType::Integer)));
    let b = create_as_slash_command(&cmd).unwrap();
    assert_eq!(b.name, "age");
    assert_eq!(b.description, "how old");
    assert!(b.kind.is_none());
    assert_eq!(b.options.len(), 1);
    assert_eq!(b.options[0].name, "years");
    assert!(b.default_member_permissions.is_none());
}

#[test]
fn group_drops_unbuildable_children_silently() {
    let mut shown = named("show");
    shown.has_slash_action = true;
    let hidden = named("hidden"); // no slash action
    let mut group = named("config");
    group.has_slash_action = true;
    group.subcommands.push(hidden);
    group.subcommands.push(shown);

    let b = create_as_slash_command(&group).unwrap();
    assert_eq!(b.options.len(), 1);
    assert_eq!(b.options[0].name, "show");
    assert_eq!(b.options[0].kind, CommandOptionType::SubCommand);
}

#[test]
fn nested_groups_use_group_kind() {
    let mut leaf = named("value");
    leaf.has_slash_action = true;
    let mut middle = named("get");
    middle.has_slash_action = true;
    middle.subcommands.push(leaf);
    let mut root = named("config");
    root.has_slash_action = true;
    root.subcommands.push(middle);

    let b = create_as_slash_command(&root).unwrap();
    assert_eq!(b.options[0].kind, CommandOptionType::SubCommandGroup);
    assert_eq!(b.options[0].sub_options.len(), 1);
    assert_eq!(b.options[0].sub_options[0].kind, CommandOptionType::SubCommand);
}

#[test]
fn guild_only_registers_for_guild_contexts() {
    let mut cmd = named("kick");
    cmd.has_slash_action = true;
    cmd.guild_only = true;
    let b = create_as_slash_command(&cmd).unwrap();
    assert_eq!(b.contexts.unwrap(), vec![InteractionContext::Guild]);

    let mut dm = named("whisper");
    dm.has_slash_action = true;
    dm.dm_only = true;
    let b = create_as_slash_command(&dm).unwrap();
    assert_eq!(b.contexts.unwrap(), vec![InteractionContext::BotDm]);
}

#[test]
fn context_menu_command_uses_menu_name_and_kind() {
    let mut cmd = named("inspect");
    cmd.context_menu_action = Some(ContextMenuCommandAction::User);
    cmd.context_menu_name = Some(String::from("Inspect profile"));
    let b = create_as_context_menu_command(&cmd).unwrap();
    assert_eq!(b.name, "Inspect profile");
    assert_eq!(b.kind, Some(CommandType::User));
    assert!(b.options.is_empty());

    assert!(create_as_context_menu_command(&named("plain")).is_none());
}

#[test]
fn application_commands_collect_nested_context_menus() {
    let mut sub = named("report");
    sub.context_menu_action = Some(ContextMenuCommandAction::Message);
    let mut root = named("mod");
    root.has_slash_action = true;
    root.subcommands.push(sub);
    let plain = named("invisible"); // neither slash nor menu

    let out = create_application_commands(&vec![root, plain]);
    // The root's slash command, then the nested context-menu entry.
    assert_eq!(out.len(), 2);
    assert_eq!(out[0].name, "mod");
    assert!(out[0].kind.is_none());
    assert_eq!(out[1].name, "report");
    assert_eq!(out[1].kind, Some(CommandType::Message));
}

#[test]
fn decimal_rendering_is_exact() {
    assert_eq!(u64_to_string(0), "0");
    assert_eq!(u64_to_string(7), "7");
    assert_eq!(u64_to_string(40960), "40960");
    assert_eq!(u64_to_string(u64::MAX), "18446744073709551615");
}
