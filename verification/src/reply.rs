//! Building responses and choosing how to send them.
//!
//! [`CreateReply`] abstracts over the response builders of the two
//! invocation channels. The `to_*` functions say exactly which of its fields
//! survive into which kind of platform request. The send planners decide,
//! per channel kind, whether a reply becomes the one-shot initial
//! interaction response, a followup, an edit of a previous response, or a
//! fresh message; the caller performs the send and records the result in the
//! edit tracker.

use vstd::prelude::*;

use crate::track_edits::Message;

verus! {

/// Whether an interaction invocation is a command run or an autocomplete
/// request.
#[derive(Clone, Copy, Debug, PartialEq, Eq, Structural)]
pub enum CommandInteractionType {
    /// A command invocation.
    Command,
    /// An autocomplete request; nothing may be sent in response.
    Autocomplete,
}

/// An embed, reduced to the fields composed here.
#[derive(Clone, Debug)]
pub struct Embed {
    /// Title text.
    pub title: Option<String>,
    /// Body text.
    pub description: Option<String>,
    /// Accent color, as red/green/blue.
    pub color: Option<(u8, u8, u8)>,
}

/// A file attached to a response.
#[derive(Clone, Debug)]
pub struct Attachment {
    /// The name the file is attached under.
    pub filename: String,
}

/// One row of interactive components.
#[derive(Clone, Debug)]
pub struct ActionRow {
    /// An identifier for the row's content.
    pub custom_id: String,
}

/// Which mentions in a response may ping.
#[derive(Clone, Copy, Debug, PartialEq, Eq, Structural)]
pub struct AllowedMentions {
    /// Whether `@everyone` pings.
    pub everyone: bool,
    /// Whether role mentions ping.
    pub all_roles: bool,
    /// Whether user mentions ping.
    pub all_users: bool,
    /// Whether the author of a replied-to message is pinged.
    pub replied_user: bool,
}

/// A poll attached to a response.
#[derive(Clone, Debug)]
pub struct Poll {
    /// The poll's question.
    pub question: String,
}

/// A pointer to the message a response replies to.
#[derive(Clone, Copy, Debug, PartialEq, Eq, Structural)]
pub struct MessageReference {
    /// The referenced message.
    pub message_id: u64,
    /// Its channel.
    pub channel_id: u64,
}

/// A response under construction, independent of the invocation channel.
#[derive(Debug)]
pub struct CreateReply {
    /// Text content.
    pub content: Option<String>,
    /// Embeds; appended to, never replaced, by [`CreateReply::embed`].
    pub embeds: Vec<Embed>,
    /// Attached files.
    pub attachments: Vec<Attachment>,
    /// Whether only the invoking user sees the response (interactions only).
    pub ephemeral: Option<bool>,
    /// Component rows; replaced wholesale by [`CreateReply::components`].
    pub components: Option<Vec<ActionRow>>,
    /// Mention behavior.
    pub allowed_mentions: Option<AllowedMentions>,
    /// An attached poll.
    pub poll: Option<Poll>,
    /// Whether to format the response as a reply to the invocation message
    /// (prefix invocations only).
    pub reply: bool,
    /// Raw message flags.
    pub flags: Option<u64>,
}

impl Default for CreateReply {
    /// A blank response.
    fn default() -> (r: CreateReply)
        ensures
            r.content is None,
            r.embeds@.len() == 0,
            r.attachments@.len() == 0,
            r.ephemeral is None,
            r.components is None,
            r.allowed_mentions is None,
            r.poll is None,
            !r.reply,
            r.flags is None,
    {
        CreateReply {
            content: None,
            embeds: Vec::new(),
            attachments: Vec::new(),
            ephemeral: None,
            components: None,
            allowed_mentions: None,
            poll: None,
            reply: false,
            flags: None,
        }
    }
}

impl CreateReply {
    /// A blank response.
    pub fn new() -> (r: CreateReply)
        ensures
            r.content is None,
            r.embeds@.len() == 0,
            r.attachments@.len() == 0,
            r.ephemeral is None,
            r.components is None,
            r.allowed_mentions is None,
            r.poll is None,
            !r.reply,
            r.flags is None,
    {
        CreateReply::default()
    }

    /// Sets the text content.
    pub fn content(self, content: String) -> (r: CreateReply)
        ensures
            r == (CreateReply { content: Some(content), ..self }),
    {
        CreateReply { content: Some(content), ..self }
    }

    /// Adds an embed; existing embeds are kept.
    pub fn embed(self, embed: Embed) -> (r: CreateReply)
        ensures
            r == (CreateReply { embeds: r.embeds, ..self }),
            r.embeds@ == self.embeds@.push(embed),
    {
        let mut this = self;
        this.embeds.push(embed);
        this
    }

    /// Sets the raw message flags.
    pub fn flags(self, flags: u64) -> (r: CreateReply)
        ensures
            r == (CreateReply { flags: Some(flags), ..self }),
    {
        CreateReply { flags: Some(flags), ..self }
    }

    /// Sets the component rows, replacing any previous ones.
    pub fn components(self, components: Vec<ActionRow>) -> (r: CreateReply)
        ensures
            r == (CreateReply { components: Some(components), ..self }),
    {
        CreateReply { components: Some(components), ..self }
    }

    /// Adds an attachment; existing attachments are kept.
    pub fn attachment(self, attachment: Attachment) -> (r: CreateReply)
        ensures
            r == (CreateReply { attachments: r.attachments, ..self }),
            r.attachments@ == self.attachments@.push(attachment),
    {
        let mut this = self;
        this.attachments.push(attachment);
        this
    }

    /// Sets whether the response is ephemeral (interactions only).
    pub fn ephemeral(self, ephemeral: bool) -> (r: CreateReply)
        ensures
            r == (CreateReply { ephemeral: Some(ephemeral), ..self }),
    {
        CreateReply { ephemeral: Some(ephemeral), ..self }
    }

    /// Sets the mention behavior.
    pub fn allowed_mentions(self, allowed_mentions: AllowedMentions) -> (r: CreateReply)
        ensures
            r == (CreateReply { allowed_mentions: Some(allowed_mentions), ..self }),
    {
        CreateReply { allowed_mentions: Some(allowed_mentions), ..self }
    }

    /// Attaches a poll; only one fits a response.
    pub fn poll(self, poll: Poll) -> (r: CreateReply)
        ensures
            r == (CreateReply { poll: Some(poll), ..self }),
    {
        CreateReply { poll: Some(poll), ..self }
    }

    /// Sets whether to format the response as a reply to the invocation
    /// message (prefix invocations only).
    pub fn reply(self, reply: bool) -> (r: CreateReply)
        ensures
            r == (CreateReply { reply, ..self }),
    {
        CreateReply { reply, ..self }
    }
}

/// A request for the one-shot initial response of an interaction.
#[derive(Debug)]
pub struct CreateInteractionResponseMessage {
    /// Text content.
    pub content: Option<String>,
    /// Embeds.
    pub embeds: Vec<Embed>,
    /// Attached files.
    pub attachments: Vec<Attachment>,
    /// Component rows.
    pub components: Option<Vec<ActionRow>>,
    /// Visibility.
    pub ephemeral: Option<bool>,
    /// Mention behavior.
    pub allowed_mentions: Option<AllowedMentions>,
    /// An attached poll.
    pub poll: Option<Poll>,
    /// Raw message flags.
    pub flags: Option<u64>,
}

impl CreateInteractionResponseMessage {
    /// An empty request.
    pub fn new() -> (r: CreateInteractionResponseMessage)
        ensures
            r.content is None,
            r.embeds@.len() == 0,
            r.attachments@.len() == 0,
            r.components is None,
            r.ephemeral is None,
            r.allowed_mentions is None,
            r.poll is None,
            r.flags is None,
    {
        CreateInteractionResponseMessage {
            content: None,
            embeds: Vec::new(),
            attachments: Vec::new(),
            components: None,
            ephemeral: None,
            allowed_mentions: None,
            poll: None,
            flags: None,
        }
    }
}

/// A request for a followup message of an interaction.
#[derive(Debug)]
pub struct CreateInteractionResponseFollowup {
    /// Text content.
    pub content: Option<String>,
    /// Embeds.
    pub embeds: Vec<Embed>,
    /// Attached files.
    pub attachments: Vec<Attachment>,
    /// Component rows.
    pub components: Option<Vec<ActionRow>>,
    /// Visibility.
    pub ephemeral: Option<bool>,
    /// Mention behavior.
    pub allowed_mentions: Option<AllowedMentions>,
    /// An attached poll.
    pub poll: Option<Poll>,
    /// Raw message flags.
    pub flags: Option<u64>,
}

impl CreateInteractionResponseFollowup {
    /// An empty request.
    pub fn new() -> (r: CreateInteractionResponseFollowup)
        ensures
            r.content is None,
            r.embeds@.len() == 0,
            r.attachments@.len() == 0,
            r.components is None,
            r.ephemeral is None,
            r.allowed_mentions is None,
            r.poll is None,
            r.flags is None,
    {
        CreateInteractionResponseFollowup {
            content: None,
            embeds: Vec::new(),
            attachments: Vec::new(),
            components: None,
            ephemeral: None,
            allowed_mentions: None,
            poll: None,
            flags: None,
        }
    }
}

/// A request editing the initial response of an interaction.
#[derive(Debug)]
pub struct EditInteractionResponse {
    /// Text content.
    pub content: Option<String>,
    /// Embeds.
    pub embeds: Vec<Embed>,
    /// Files newly attached by the edit.
    pub attachments: Vec<Attachment>,
    /// Component rows.
    pub components: Option<Vec<ActionRow>>,
    /// Mention behavior.
    pub allowed_mentions: Option<AllowedMentions>,
}

impl EditInteractionResponse {
    /// An empty request.
    pub fn new() -> (r: EditInteractionResponse)
        ensures
            r.content is None,
            r.embeds@.len() == 0,
            r.attachments@.len() == 0,
            r.components is None,
            r.allowed_mentions is None,
    {
        EditInteractionResponse {
            content: None,
            embeds: Vec::new(),
            attachments: Vec::new(),
            components: None,
            allowed_mentions: None,
        }
    }
}

/// A request editing a regular chat message.
#[derive(Debug)]
pub struct EditMessage {
    /// Text content.
    pub content: Option<String>,
    /// Embeds.
    pub embeds: Vec<Embed>,
    /// The attachment list the message ends up with.
    pub attachments: Vec<Attachment>,
    /// Component rows.
    pub components: Option<Vec<ActionRow>>,
    /// Mention behavior.
    pub allowed_mentions: Option<AllowedMentions>,
    /// Raw message flags.
    pub flags: Option<u64>,
}

impl EditMessage {
    /// An empty request: nothing is changed by it.
    pub fn new() -> (r: EditMessage)
        ensures
            r.content is None,
            r.embeds@.len() == 0,
            r.attachments@.len() == 0,
            r.components is None,
            r.allowed_mentions is None,
            r.flags is None,
    {
        EditMessage {
            content: None,
            embeds: Vec::new(),
            attachments: Vec::new(),
            components: None,
            allowed_mentions: None,
            flags: None,
        }
    }
}

/// A request sending a fresh chat message.
#[derive(Debug)]
pub struct CreateMessage {
    /// Text content.
    pub content: Option<String>,
    /// Embeds.
    pub embeds: Vec<Embed>,
    /// Attached files.
    pub attachments: Vec<Attachment>,
    /// Component rows.
    pub components: Option<Vec<ActionRow>>,
    /// Mention behavior.
    pub allowed_mentions: Option<AllowedMentions>,
    /// An attached poll.
    pub poll: Option<Poll>,
    /// Raw message flags.
    pub flags: Option<u64>,
    /// The message this one replies to, if reply formatting was asked for.
    pub reference_message: Option<MessageReference>,
}

impl CreateReply {
    /// Serializes into an initial interaction response: set fields override
    /// the builder's, attachments are added to it, embeds replace its own;
    /// the reply-formatting flag has no interaction equivalent and is
    /// dropped.
    pub fn to_slash_initial_response(
        self,
        builder: CreateInteractionResponseMessage,
    ) -> (r: CreateInteractionResponseMessage)
        ensures
            r.content == (if self.content is Some {
                self.content
            } else {
                builder.content
            }),
            r.allowed_mentions == (if self.allowed_mentions is Some {
                self.allowed_mentions
            } else {
                builder.allowed_mentions
            }),
            r.components == (if self.components is Some {
                self.components
            } else {
                builder.components
            }),
            r.ephemeral == (if self.ephemeral is Some {
                self.ephemeral
            } else {
                builder.ephemeral
            }),
            r.poll == (if self.poll is Some {
                self.poll
            } else {
                builder.poll
            }),
            r.flags == (if self.flags is Some {
                self.flags
            } else {
                builder.flags
            }),
            r.attachments@ == builder.attachments@ + self.attachments@,
            r.embeds@ == self.embeds@,
    {
        let mut builder = builder;
        let mut this = self;
        match this.content {
            Some(content) => {
                builder.content = Some(content);
            },
            None => {},
        }
        match this.allowed_mentions {
            Some(mentions) => {
                builder.allowed_mentions = Some(mentions);
            },
            None => {},
        }
        match this.components {
            Some(components) => {
                builder.components = Some(components);
            },
            None => {},
        }
        match this.ephemeral {
            Some(ephemeral) => {
                builder.ephemeral = Some(ephemeral);
            },
            None => {},
        }
        match this.poll {
            Some(poll) => {
                builder.poll = Some(poll);
            },
            None => {},
        }
        match this.flags {
            Some(flags) => {
                builder.flags = Some(flags);
            },
            None => {},
        }
        builder.attachments.append(&mut this.attachments);
        builder.embeds = this.embeds;
        builder
    }

    /// Serializes into an interaction followup: as the initial response,
    /// except that the followup's embeds are also replaced wholesale.
    pub fn to_slash_followup_response(
        self,
        builder: CreateInteractionResponseFollowup,
    ) -> (r: CreateInteractionResponseFollowup)
        ensures
            r.content == (if self.content is Some {
                self.content
            } else {
                builder.content
            }),
            r.allowed_mentions == (if self.allowed_mentions is Some {
                self.allowed_mentions
            } else {
                builder.allowed_mentions
            }),
            r.components == (if self.components is Some {
                self.components
            } else {
                builder.components
            }),
            r.ephemeral == (if self.ephemeral is Some {
                self.ephemeral
            } else {
                builder.ephemeral
            }),
            r.poll == (if self.poll is Some {
                self.poll
            } else {
                builder.poll
            }),
            r.flags == (if self.flags is Some {
                self.flags
            } else {
                builder.flags
            }),
            r.attachments@ == builder.attachments@ + self.attachments@,
            r.embeds@ == self.embeds@,
    {
        let mut builder = builder;
        let mut this = self;
        match this.content {
            Some(content) => {
                builder.content = Some(content);
            },
            None => {},
        }
        builder.embeds = this.embeds;
        match this.components {
            Some(components) => {
                builder.components = Some(components);
            },
            None => {},
        }
        match this.allowed_mentions {
            Some(mentions) => {
                builder.allowed_mentions = Some(mentions);
            },
            None => {},
        }
        match this.ephemeral {
            Some(ephemeral) => {
                builder.ephemeral = Some(ephemeral);
            },
            None => {},
        }
        match this.poll {
            Some(poll) => {
                builder.poll = Some(poll);
            },
            None => {},
        }
        match this.flags {
            Some(flags) => {
                builder.flags = Some(flags);
            },
            None => {},
        }
        builder.attachments.append(&mut this.attachments);
        builder
    }

    /// Serializes into an edit of the initial interaction response.
    /// Visibility, polls, flags and reply formatting cannot be edited in
    /// retrospect and are dropped.
    pub fn to_slash_initial_response_edit(
        self,
        builder: EditInteractionResponse,
    ) -> (r: EditInteractionResponse)
        ensures
            r.content == (if self.content is Some {
                self.content
            } else {
                builder.content
            }),
            r.components == (if self.components is Some {
                self.components
            } else {
                builder.components
            }),
            r.allowed_mentions == (if self.allowed_mentions is Some {
                self.allowed_mentions
            } else {
                builder.allowed_mentions
            }),
            r.attachments@ == builder.attachments@ + self.attachments@,
            r.embeds@ == self.embeds@,
    {
        let mut builder = builder;
        let mut this = self;
        match this.content {
            Some(content) => {
                builder.content = Some(content);
            },
            None => {},
        }
        match this.components {
            Some(components) => {
                builder.components = Some(components);
            },
            None => {},
        }
        match this.allowed_mentions {
            Some(mentions) => {
                builder.allowed_mentions = Some(mentions);
            },
            None => {},
        }
        builder.attachments.append(&mut this.attachments);
        builder.embeds = this.embeds;
        builder
    }

    /// Serializes into an edit of a chat message. The attachment list is
    /// replaced by exactly this response's attachments; visibility, polls
    /// and reply formatting have no edit equivalent and are dropped.
    pub fn to_prefix_edit(self, builder: EditMessage) -> (r: EditMessage)
        ensures
            r.content == (if self.content is Some {
                self.content
            } else {
                builder.content
            }),
            r.allowed_mentions == (if self.allowed_mentions is Some {
                self.allowed_mentions
            } else {
                builder.allowed_mentions
            }),
            r.components == (if self.components is Some {
                self.components
            } else {
                builder.components
            }),
            r.flags == (if self.flags is Some {
                self.flags
            } else {
                builder.flags
            }),
            r.attachments@ == self.attachments@,
            r.embeds@ == self.embeds@,
    {
        let mut builder = builder;
        let this = self;
        match this.content {
            Some(content) => {
                builder.content = Some(content);
            },
            None => {},
        }
        match this.allowed_mentions {
            Some(mentions) => {
                builder.allowed_mentions = Some(mentions);
            },
            None => {},
        }
        match this.components {
            Some(components) => {
                builder.components = Some(components);
            },
            None => {},
        }
        match this.flags {
            Some(flags) => {
                builder.flags = Some(flags);
            },
            None => {},
        }
        builder.attachments = this.attachments;
        builder.embeds = this.embeds;
        builder
    }

    /// Serializes into a fresh chat message. The invocation message is
    /// referenced exactly when reply formatting was asked for; visibility
    /// has no chat equivalent and is dropped.
    pub fn to_prefix(self, invocation_message: MessageReference) -> (r: CreateMessage)
        ensures
            r.content == self.content,
            r.allowed_mentions == self.allowed_mentions,
            r.components == self.components,
            r.poll == self.poll,
            r.flags == self.flags,
            r.attachments@ == self.attachments@,
            r.embeds@ == self.embeds@,
            r.reference_message == (if self.reply {
                Some(invocation_message)
            } else {
                None
            }),
    {
        let reference: Option<MessageReference> = if self.reply {
            Some(invocation_message)
        } else {
            None
        };
        CreateMessage {
            content: self.content,
            embeds: self.embeds,
            attachments: self.attachments,
            components: self.components,
            allowed_mentions: self.allowed_mentions,
            poll: self.poll,
            flags: self.flags,
            reference_message: reference,
        }
    }

    /// Fills the defaults an invocation context supplies: the command's
    /// ephemeral default where none was chosen, and the globally configured
    /// mention behavior where none was chosen.
    pub fn with_invocation_defaults(
        self,
        command_ephemeral: bool,
        default_allowed_mentions: Option<AllowedMentions>,
    ) -> (r: CreateReply)
        ensures
            r == (CreateReply {
                ephemeral: if self.ephemeral is Some {
                    self.ephemeral
                } else {
                    Some(command_ephemeral)
                },
                allowed_mentions: if self.allowed_mentions is Some {
                    self.allowed_mentions
                } else {
                    default_allowed_mentions
                },
                ..self
            }),
    {
        let mut this = self;
        match this.ephemeral {
            Some(_) => {},
            None => {
                this.ephemeral = Some(command_ephemeral);
            },
        }
        match this.allowed_mentions {
            Some(_) => {},
            None => {
                this.allowed_mentions = default_allowed_mentions;
            },
        }
        this
    }
}

/// What an interaction reply turns into.
#[derive(Debug)]
pub enum ApplicationReplyAction {
    /// Autocomplete contexts take no responses: do nothing.
    AutocompleteNoOp,
    /// Send the one-shot initial interaction response.
    SendInitial(CreateInteractionResponseMessage),
    /// Send a followup message.
    SendFollowup(CreateInteractionResponseFollowup),
}

/// The decision of [`send_application_reply`]: the send to perform and the
/// new value of the has-sent-initial-response flag.
pub open spec fn spec_application_reply_kind(
    interaction_type: CommandInteractionType,
    has_sent_initial_response: bool,
    r: (ApplicationReplyAction, bool),
) -> bool {
    match interaction_type {
        CommandInteractionType::Autocomplete => r.0 is AutocompleteNoOp && r.1
            == has_sent_initial_response,
        CommandInteractionType::Command => {
            if has_sent_initial_response {
                r.0 is SendFollowup && r.1
            } else {
                r.0 is SendInitial && r.1
            }
        },
    }
}

/// Plans an interaction reply. In an autocomplete context nothing is sent.
/// Otherwise the first reply of an invocation becomes the initial response
/// and flips the flag; every later one becomes a followup. The caller owns
/// the flag's atomicity: it must hand the current value in and store the
/// returned one under the same exclusive access.
pub fn send_application_reply(
    reply: CreateReply,
    interaction_type: CommandInteractionType,
    has_sent_initial_response: bool,
) -> (r: (ApplicationReplyAction, bool))
    ensures
        spec_application_reply_kind(interaction_type, has_sent_initial_response, r),
        (match r.0 {
            ApplicationReplyAction::SendInitial(b) => {
                &&& b.embeds@ == reply.embeds@
                &&& b.content == reply.content
                &&& b.ephemeral == reply.ephemeral
                &&& b.attachments@ == reply.attachments@
                &&& b.components == reply.components
                &&& b.allowed_mentions == reply.allowed_mentions
                &&& b.poll == reply.poll
                &&& b.flags == reply.flags
            },
            ApplicationReplyAction::SendFollowup(b) => {
                &&& b.embeds@ == reply.embeds@
                &&& b.content == reply.content
                &&& b.ephemeral == reply.ephemeral
                &&& b.attachments@ == reply.attachments@
                &&& b.components == reply.components
                &&& b.allowed_mentions == reply.allowed_mentions
                &&& b.poll == reply.poll
                &&& b.flags == reply.flags
            },
            ApplicationReplyAction::AutocompleteNoOp => true,
        }),
{
    match interaction_type {
        CommandInteractionType::Autocomplete => (
            ApplicationReplyAction::AutocompleteNoOp,
            has_sent_initial_response,
        ),
        CommandInteractionType::Command => {
            if has_sent_initial_response {
                let builder = reply.to_slash_followup_response(
                    CreateInteractionResponseFollowup::new(),
                );
                (ApplicationReplyAction::SendFollowup(builder), true)
            } else {
                let builder = reply.to_slash_initial_response(
                    CreateInteractionResponseMessage::new(),
                );
                (ApplicationReplyAction::SendInitial(builder), true)
            }
        },
    }
}

/// Replying twice in an interaction context sends one initial response and
/// then one followup, in that order — never two initial responses: once the
/// flag is set, every later plan is a followup and keeps the flag set.
pub proof fn lemma_initial_response_once(
    first: (ApplicationReplyAction, bool),
    second: (ApplicationReplyAction, bool),
)
    requires
        spec_application_reply_kind(CommandInteractionType::Command, false, first),
        spec_application_reply_kind(CommandInteractionType::Command, first.1, second),
    ensures
        first.0 is SendInitial,
        second.0 is SendFollowup,
        second.1,
{
}

/// What a prefix-invocation reply turns into.
#[derive(Debug)]
pub enum PrefixReplyAction {
    /// Edit the cached previous response, after clearing its content,
    /// embeds, components and attachments so nothing stale bleeds through.
    EditExisting {
        /// The cached response message to edit.
        response_id: u64,
        /// The edit to apply.
        builder: EditMessage,
    },
    /// Send a fresh message.
    SendNew(CreateMessage),
}

/// The base an edit of a previous response starts from: everything cleared,
/// so fields the new response omits do not survive from the old one.
pub fn reset_edit_base() -> (r: EditMessage)
    ensures
        (match r.content {
            Some(c) => c@.len() == 0,
            None => false,
        }),
        r.embeds@.len() == 0,
        (match r.components {
            Some(c) => c@.len() == 0,
            None => false,
        }),
        r.attachments@.len() == 0,
        r.allowed_mentions is None,
        r.flags is None,
{
    EditMessage {
        content: Some(String::new()),
        embeds: Vec::new(),
        attachments: Vec::new(),
        components: Some(Vec::new()),
        allowed_mentions: None,
        flags: None,
    }
}

/// Plans a prefix reply. When the command reuses responses and a previous
/// response is cached for the invocation message, that response is edited —
/// on a cleared base, so stale fields vanish; otherwise a fresh message is
/// sent, referencing the invocation when reply formatting was asked for.
/// Either way the caller must record the resulting message in the edit
/// tracker afterwards, so deletion tracking keeps working.
pub fn send_prefix_reply(
    reply: CreateReply,
    reuse_response: bool,
    cached_response: Option<&Message>,
    invocation_message: MessageReference,
) -> (r: PrefixReplyAction)
    ensures
        (match (reuse_response, cached_response) {
            (true, Some(response)) => (match r {
                PrefixReplyAction::EditExisting { response_id, builder } => response_id
                    == response.id,
                PrefixReplyAction::SendNew(_) => false,
            }),
            _ => (match r {
                PrefixReplyAction::SendNew(b) => b.reference_message == (if reply.reply {
                    Some(invocation_message)
                } else {
                    None
                }) && b.content == reply.content && b.embeds@ == reply.embeds@ && b.attachments@
                    == reply.attachments@ && b.poll == reply.poll,
                PrefixReplyAction::EditExisting { .. } => false,
            }),
        }),
        (match r {
            PrefixReplyAction::EditExisting { response_id, builder } => {
                &&& builder.embeds@ == reply.embeds@
                &&& builder.attachments@ == reply.attachments@
                &&& builder.flags == reply.flags
                &&& builder.allowed_mentions == reply.allowed_mentions
                &&& (match builder.content {
                    Some(c) => if reply.content is Some {
                        Some(c) == reply.content
                    } else {
                        c@.len() == 0
                    },
                    None => false,
                })
                &&& (match builder.components {
                    Some(c) => if reply.components is Some {
                        Some(c) == reply.components
                    } else {
                        c@.len() == 0
                    },
                    None => false,
                })
            },
            PrefixReplyAction::SendNew(_) => true,
        }),
{
    match cached_response {
        Some(response) => {
            if reuse_response {
                let builder = reply.to_prefix_edit(reset_edit_base());
                PrefixReplyAction::EditExisting { response_id: response.id, builder }
            } else {
                let builder = reply.to_prefix(invocation_message);
                PrefixReplyAction::SendNew(builder)
            }
        },
        None => {
            let builder = reply.to_prefix(invocation_message);
            PrefixReplyAction::SendNew(builder)
        },
    }
}

} // verus!
