use lumi::command::Command;
use lumi::lookup::{command_at, find_command, starts_with, starts_with_ignore_ascii_case};

fn named(name: &str) -> Command {
    let mut c = Command::default();
    c.name = String::from(name);
    c
}

#[test]
fn lookup_is_deterministic() {
    let mut parent = named("config");
    parent.subcommands.push(named("show"));
    let commands = vec![parent, named("ping")];

    let a = find_command(&commands, "config show rest", false).unwrap();
    let b = find_command(&commands, "config show rest", false).unwrap();
    assert_eq!(a.path, b.path);
    assert_eq!(a.mod_chars, b.mod_chars);
    assert_eq!(a.invoked_name, b.invoked_name);
    assert_eq!(a.args, b.args);
}

#[test]
fn modifier_match_splits_token() {
    let mut ban = named("ban");
    ban.has_modifier = true;
    let commands = vec![ban];

    let m = find_command(&commands, "bantemp 5 @user", false).unwrap();
    assert_eq!(m.path, vec![0]);
    assert_eq!(command_at(&commands, &m.path).name, "ban");
    assert_eq!(m.mod_chars, "temp");
    assert_eq!(m.invoked_name, "bantemp");
    assert_eq!(m.args, "5 @user");
}

#[test]
fn alias_resolves_into_subcommand() {
    let mut parent = named("config");
    parent.aliases.push(String::from("cfg"));
    parent.subcommands.push(named("show"));
    let commands = vec![parent];

    let m = find_command(&commands, "cfg show", false).unwrap();
    assert_eq!(m.path, vec![0, 0]);
    assert_eq!(command_at(&commands, &m.path).name, "show");
    // The ancestors are the proper prefixes of the path: just `config`.
    assert_eq!(command_at(&commands, &vec![0]).name, "config");
    assert_eq!(m.invoked_name, "show");
    assert_eq!(m.args, "");
    assert_eq!(m.mod_chars, "");
}

#[test]
fn parent_matches_when_no_subcommand_matches() {
    let mut parent = named("config");
    parent.subcommands.push(named("show"));
    let commands = vec![parent];

    let m = find_command(&commands, "config list", false).unwrap();
    assert_eq!(m.path, vec![0]);
    assert_eq!(m.invoked_name, "config");
    assert_eq!(m.args, "list");
}

#[test]
fn case_insensitive_lookup() {
    let commands = vec![named("Ping")];
    assert!(find_command(&commands, "ping", false).is_none());
    let m = find_command(&commands, "pInG now", true).unwrap();
    assert_eq!(m.path, vec![0]);
    assert_eq!(m.args, "now");
}

#[test]
fn unknown_command_is_none() {
    let commands = vec![named("ping")];
    assert!(find_command(&commands, "pong", false).is_none());
    assert!(find_command(&vec![], "ping", false).is_none());
}

#[test]
fn modifier_mode_needs_leaf() {
    // A node with subcommands never matches in modifier mode.
    let mut parent = named("rem");
    parent.has_modifier = true;
    parent.subcommands.push(named("list"));
    let commands = vec![parent];
    assert!(find_command(&commands, "remme", false).is_none());
}

#[test]
fn modifier_match_via_alias() {
    let mut remind = named("remind");
    remind.has_modifier = true;
    remind.aliases.push(String::from("rem"));
    let commands = vec![remind];

    let m = find_command(&commands, "remme tomorrow", false).unwrap();
    assert_eq!(m.mod_chars, "me");
    assert_eq!(m.args, "tomorrow");
}

#[test]
fn first_sibling_wins() {
    let commands = vec![named("a"), named("a")];
    let m = find_command(&commands, "a", false).unwrap();
    assert_eq!(m.path, vec![0]);
}

#[test]
fn starts_with_returns_modifier_tail() {
    let (hit, tail) = starts_with("ban", "bantemp", false);
    assert!(hit);
    assert_eq!(tail, "temp");
    let (miss, empty) = starts_with("ban", "bat", false);
    assert!(!miss);
    assert_eq!(empty, "");
    let (hit_ci, tail_ci) = starts_with_ignore_ascii_case("BAN", "banTEMP");
    assert!(hit_ci);
    assert_eq!(tail_ci, "TEMP");
}

#[test]
fn qualified_names_join_ancestor_chain() {
    let mut show = named("show");
    show.subcommands.push(named("all"));
    let mut config = named("config");
    config.qualified_name = String::from("config");
    config.subcommands.push(show);
    let mut commands = vec![config];

    lumi::command::set_qualified_names(&mut commands);

    assert_eq!(commands[0].qualified_name, "config");
    assert_eq!(commands[0].subcommands[0].qualified_name, "config show");
    assert_eq!(
        commands[0].subcommands[0].subcommands[0].qualified_name,
        "config show all"
    );
    // Everything else is untouched.
    assert_eq!(commands[0].subcommands[0].name, "show");
}
