use lumi::reply::{
    send_application_reply, send_prefix_reply, ActionRow, AllowedMentions, ApplicationReplyAction,
    Attachment, CommandInteractionType, CreateInteractionResponseMessage, CreateReply, Embed,
    EditMessage, MessageReference, Poll, PrefixReplyAction,
};
use lumi::track_edits::Message;

fn embed(title: &str) -> Embed {
    Embed {
        title: Some(String::from(title)),
        description: None,
        color: None,
    }
}

fn reference() -> MessageReference {
    MessageReference {
        message_id: 1,
        channel_id: 40,
    }
}

fn bot_msg(id: u64) -> Message {
    Message {
        id,
        channel_id: 40,
        guild_id: Some(900),
        author_id: 4242,
        author_is_bot: true,
        content: String::from("pong"),
        timestamp: 100,
        edited_timestamp: None,
        thread_creation: false,
    }
}

#[test]
fn two_sends_give_one_initial_then_one_followup() {
    let first = send_application_reply(
        CreateReply::new().content(String::from("a")),
        CommandInteractionType::Command,
        false,
    );
    let (action1, flag1) = first;
    assert!(matches!(action1, ApplicationReplyAction::SendInitial(_)));
    assert!(flag1);

    let (action2, flag2) = send_application_reply(
        CreateReply::new().content(String::from("b")),
        CommandInteractionType::Command,
        flag1,
    );
    assert!(matches!(action2, ApplicationReplyAction::SendFollowup(_)));
    assert!(flag2);
}

#[test]
fn autocomplete_context_sends_nothing() {
    let (action, flag) = send_application_reply(
        CreateReply::new().content(String::from("a")),
        CommandInteractionType::Autocomplete,
        false,
    );
    assert!(matches!(action, ApplicationReplyAction::AutocompleteNoOp));
    assert!(!flag);
}

#[test]
fn prefix_reply_edits_cached_response_on_cleared_base() {
    let reply = CreateReply::new().content(String::from("new text"));
    let cached = bot_msg(900);
    let action = send_prefix_reply(reply, true, Some(&cached), reference());
    match action {
        PrefixReplyAction::EditExisting {
            response_id,
            builder,
        } => {
            assert_eq!(response_id, 900);
            assert_eq!(builder.content.as_deref(), Some("new text"));
            // The cleared base leaves no stale embeds, components or files.
            assert!(builder.embeds.is_empty());
            assert!(builder.components.as_ref().unwrap().is_empty());
            assert!(builder.attachments.is_empty());
        }
        other => panic!("unexpected: {:?}", other),
    }
}

#[test]
fn prefix_reply_clears_stale_content_when_new_reply_omits_it() {
    let reply = CreateReply::new().embed(embed("only an embed"));
    let cached = bot_msg(900);
    let action = send_prefix_reply(reply, true, Some(&cached), reference());
    match action {
        PrefixReplyAction::EditExisting { builder, .. } => {
            assert_eq!(builder.content.as_deref(), Some(""));
            assert_eq!(builder.embeds.len(), 1);
        }
        other => panic!("unexpected: {:?}", other),
    }
}

#[test]
fn prefix_reply_sends_new_message_without_reuse() {
    let reply = CreateReply::new().content(String::from("x")).reply(true);
    let cached = bot_msg(900);
    // Even with a cached response, reuse off means a fresh message.
    let action = send_prefix_reply(reply, false, Some(&cached), reference());
    match action {
        PrefixReplyAction::SendNew(b) => {
            assert_eq!(b.reference_message, Some(reference()));
            assert_eq!(b.content.as_deref(), Some("x"));
        }
        other => panic!("unexpected: {:?}", other),
    }

    let reply = CreateReply::new().content(String::from("x"));
    let action = send_prefix_reply(reply, true, None, reference());
    match action {
        PrefixReplyAction::SendNew(b) => assert_eq!(b.reference_message, None),
        other => panic!("unexpected: {:?}", other),
    }
}

#[test]
fn initial_response_keeps_builder_fields_the_reply_omits() {
    let base = CreateInteractionResponseMessage {
        content: Some(String::from("base")),
        embeds: vec![embed("base embed")],
        attachments: Vec::new(),
        components: None,
        ephemeral: Some(false),
        allowed_mentions: None,
        poll: Some(Poll {
            question: String::from("q"),
        }),
        flags: Some(2),
    };
    let reply = CreateReply::new()
        .content(String::from("override"))
        .attachment(Attachment {
            filename: String::from("a.txt"),
        });
    let out = reply.to_slash_initial_response(base);
    assert_eq!(out.content.as_deref(), Some("override"));
    assert_eq!(out.flags, Some(2)); // kept from the builder
    assert_eq!(out.ephemeral, Some(false));
    assert_eq!(out.embeds.len(), 0); // embeds are replaced wholesale
    assert_eq!(out.attachments.len(), 1); // files are added
    assert!(out.poll.is_some());
}

#[test]
fn prefix_edit_drops_what_cannot_be_edited() {
    let reply = CreateReply::new()
        .content(String::from("text"))
        .ephemeral(true)
        .poll(Poll {
            question: String::from("q"),
        })
        .reply(true)
        .flags(4)
        .components(vec![ActionRow {
            custom_id: String::from("row"),
        }])
        .attachment(Attachment {
            filename: String::from("b.txt"),
        });
    let out = reply.to_prefix_edit(EditMessage::new());
    assert_eq!(out.content.as_deref(), Some("text"));
    assert_eq!(out.flags, Some(4));
    assert_eq!(out.attachments.len(), 1); // replaced by exactly the new files
    assert_eq!(out.components.as_ref().unwrap().len(), 1);
}

#[test]
fn invocation_defaults_fill_only_missing_fields() {
    let mentions = AllowedMentions {
        everyone: false,
        all_roles: false,
        all_users: true,
        replied_user: true,
    };
    let filled = CreateReply::new().with_invocation_defaults(true, Some(mentions));
    assert_eq!(filled.ephemeral, Some(true));
    assert_eq!(filled.allowed_mentions, Some(mentions));

    let explicit = CreateReply::new()
        .ephemeral(false)
        .with_invocation_defaults(true, Some(mentions));
    assert_eq!(explicit.ephemeral, Some(false));
}

#[test]
fn builder_setters_compose() {
    let reply = CreateReply::new()
        .content(String::from("hi"))
        .embed(embed("one"))
        .embed(embed("two"))
        .reply(true);
    assert_eq!(reply.content.as_deref(), Some("hi"));
    assert_eq!(reply.embeds.len(), 2);
    assert_eq!(reply.embeds[1].title.as_deref(), Some("two"));
    assert!(reply.reply);
}
