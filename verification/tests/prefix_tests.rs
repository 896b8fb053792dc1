use lumi::prefix::{strip_prefix, DynamicPrefixOutcome, Prefix, StrippedDynamicOutcome};

fn strip(
    content: &str,
    dynamic: DynamicPrefixOutcome,
    prefix: Option<&str>,
    additional: Vec<Prefix>,
    engine_results: Vec<Option<(usize, usize)>>,
    stripped_dynamic: StrippedDynamicOutcome,
    mention_as_prefix: bool,
) -> Option<(String, String)> {
    strip_prefix(
        content,
        &dynamic,
        &prefix.map(String::from),
        &additional,
        &engine_results,
        &stripped_dynamic,
        mention_as_prefix,
        4242,
    )
}

fn plain(content: &str, prefix: Option<&str>) -> Option<(String, String)> {
    strip(
        content,
        DynamicPrefixOutcome::NotConfigured,
        prefix,
        Vec::new(),
        Vec::new(),
        StrippedDynamicOutcome::NotConfigured,
        true,
    )
}

#[test]
fn literal_prefix_splits_the_message() {
    let (p, rest) = plain("!ping now", Some("!")).unwrap();
    assert_eq!(p, "!");
    assert_eq!(rest, "ping now");
}

#[test]
fn no_strategy_no_invocation() {
    assert!(plain("ping", Some("!")).is_none());
    assert!(plain("!ping", None).is_none());
    assert!(strip(
        "ping",
        DynamicPrefixOutcome::NotConfigured,
        None,
        Vec::new(),
        Vec::new(),
        StrippedDynamicOutcome::NotConfigured,
        false,
    )
    .is_none());
}

#[test]
fn dynamic_prefix_wins_over_static() {
    let r = strip(
        "??ping",
        DynamicPrefixOutcome::Returned(Some(String::from("??"))),
        Some("?"),
        Vec::new(),
        Vec::new(),
        StrippedDynamicOutcome::NotConfigured,
        false,
    )
    .unwrap();
    assert_eq!(r.0, "??");
    assert_eq!(r.1, "ping");
}

#[test]
fn failed_dynamic_prefix_falls_through() {
    let r = strip(
        "!ping",
        DynamicPrefixOutcome::Failed,
        Some("!"),
        Vec::new(),
        Vec::new(),
        StrippedDynamicOutcome::NotConfigured,
        false,
    )
    .unwrap();
    assert_eq!(r.0, "!");
    assert_eq!(r.1, "ping");
}

#[test]
fn additional_literals_are_tried_in_order() {
    let r = strip(
        ">>ping",
        DynamicPrefixOutcome::NotConfigured,
        Some("!"),
        vec![
            Prefix::Literal(String::from(">")),
            Prefix::Literal(String::from(">>")),
        ],
        vec![None, None],
        StrippedDynamicOutcome::NotConfigured,
        false,
    )
    .unwrap();
    // The first matching entry wins, even though a longer one follows.
    assert_eq!(r.0, ">");
    assert_eq!(r.1, ">ping");
}

#[test]
fn pattern_prefix_must_match_at_the_start() {
    let entries = vec![Prefix::Pattern(String::from("[0-9]+"))];
    // The engine found a match, but not at the first character: no prefix.
    let r = strip(
        "x12 ping",
        DynamicPrefixOutcome::NotConfigured,
        None,
        entries.clone(),
        vec![Some((1, 3))],
        StrippedDynamicOutcome::NotConfigured,
        false,
    );
    assert!(r.is_none());

    // Anchored match: split at its end.
    let r = strip(
        "12 ping",
        DynamicPrefixOutcome::NotConfigured,
        None,
        entries,
        vec![Some((0, 2))],
        StrippedDynamicOutcome::NotConfigured,
        false,
    )
    .unwrap();
    assert_eq!(r.0, "12");
    assert_eq!(r.1, " ping");
}

#[test]
fn stripped_dynamic_pair_is_taken_verbatim() {
    let r = strip(
        "hey bot ping",
        DynamicPrefixOutcome::NotConfigured,
        None,
        Vec::new(),
        Vec::new(),
        StrippedDynamicOutcome::Returned(Some((
            String::from("hey bot "),
            String::from("ping"),
        ))),
        false,
    )
    .unwrap();
    assert_eq!(r.0, "hey bot ");
    assert_eq!(r.1, "ping");
}

#[test]
fn mention_prefix_matches_the_bot_identity() {
    let (p, rest) = plain("<@4242> ping", None).unwrap();
    assert_eq!(p, "<@4242>");
    assert_eq!(rest, " ping");

    let (p, rest) = plain("<@!4242>ping", None).unwrap();
    assert_eq!(p, "<@!4242>");
    assert_eq!(rest, "ping");

    // Another user's mention is not a prefix.
    assert!(plain("<@9999> ping", None).is_none());
    // Unterminated mentions are not prefixes.
    assert!(plain("<@4242 ping", None).is_none());
}

#[test]
fn mention_prefix_can_be_disabled() {
    assert!(strip(
        "<@4242> ping",
        DynamicPrefixOutcome::NotConfigured,
        None,
        Vec::new(),
        Vec::new(),
        StrippedDynamicOutcome::NotConfigured,
        false,
    )
    .is_none());
}
