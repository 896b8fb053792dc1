//! Turning one inbound event into one decided invocation.
//!
//! The embedding application owns the event loop, the locks and every
//! network call; per event it calls into this module: [`parse_invocation`]
//! decides whether a message invokes a command and resolves it,
//! [`run_invocation`] checks the resolved invocation and says what to do,
//! [`message_update_trigger`] decides whether an edited message re-runs, and
//! the edit tracker's own operations handle deletion and response
//! bookkeeping.

use vstd::prelude::*;

use crate::command::{Command, ContextMenuCommandAction};
use crate::cooldown::CooldownContext;
use crate::error::FrameworkError;
use crate::framework::FrameworkOptions;
use crate::checks::{CheckOutcome, CheckInput, check_permissions_and_cooldown, spec_check_path};
use crate::lookup::{
    CommandMatch, find_command, spec_command_at, spec_find_command, spec_path_of, spec_path_valid,
    lemma_find_command_path_valid,
};
use crate::prefix::{DynamicPrefixOutcome, StrippedDynamicOutcome, strip_prefix, spec_strip_prefix};
use crate::reply::CommandInteractionType;
use crate::text::{leading_whitespace, spec_leading_whitespace};
use crate::track_edits::{EditTracker, Message};

verus! {

/// Which event kind triggered a message-based dispatch.
#[derive(Clone, Copy, Debug, PartialEq, Eq, Structural)]
pub enum MessageDispatchTrigger {
    /// A newly sent message.
    MessageCreate,
    /// An edit of a message whose invocation is tracked.
    MessageEdit,
    /// An edit of a message that was not tracked.
    MessageEditFromInvalid,
}

/// The platform-side type of a registered command.
#[derive(Clone, Copy, Debug, PartialEq, Eq, Structural)]
pub enum CommandType {
    /// A slash command.
    ChatInput,
    /// A context-menu entry on a user.
    User,
    /// A context-menu entry on a message.
    Message,
}

/// What a context-menu interaction was opened on.
#[derive(Clone, Copy, Debug, PartialEq, Eq, Structural)]
pub enum ResolvedTargetKind {
    /// Opened on a user.
    User,
    /// Opened on a message.
    Message,
}

/// An interaction, reduced to the fields dispatch reads.
#[derive(Clone, Debug)]
pub struct Interaction {
    /// Interaction identity.
    pub id: u64,
    /// The invoked command's name.
    pub name: String,
    /// The invocation channel.
    pub channel_id: u64,
    /// The guild, absent in direct messages.
    pub guild_id: Option<u64>,
    /// The invoking user.
    pub user_id: u64,
    /// The platform-side command type.
    pub kind: CommandType,
    /// What a context-menu interaction was opened on.
    pub target: Option<ResolvedTargetKind>,
    /// The invoking user's selected locale, when known.
    pub locale: Option<String>,
    /// Creation time, in seconds.
    pub created_at: i64,
}

/// A resolved prefix-style invocation: everything the command body and the
/// post-hooks need, as plain data.
#[derive(Debug)]
pub struct PrefixContext {
    /// The triggering message.
    pub msg: Message,
    /// The prefix the invocation used.
    pub prefix: String,
    /// The verbatim name or alias the command was invoked with.
    pub invoked_command_name: String,
    /// The modifier tail, for modifier-mode matches.
    pub mod_chars: String,
    /// The argument text.
    pub args: String,
    /// The matched command, as its index path; proper prefixes of the path
    /// are the ancestors, outermost first.
    pub command_path: Vec<usize>,
    /// Which event kind triggered the invocation.
    pub trigger: MessageDispatchTrigger,
}

/// A resolved interaction invocation.
#[derive(Debug)]
pub struct ApplicationContext {
    /// The triggering interaction.
    pub interaction: Interaction,
    /// Whether this is a command run or an autocomplete request.
    pub interaction_type: CommandInteractionType,
    /// The matched command, as its index path.
    pub command_path: Vec<usize>,
}

/// One resolved invocation, of either style.
#[derive(Debug)]
pub enum Context {
    /// An interaction invocation.
    Application(ApplicationContext),
    /// A prefix-message invocation.
    Prefix(PrefixContext),
}

impl Context {
    /// The invocation channel.
    pub fn channel_id(&self) -> (r: u64)
        ensures
            r == (match *self {
                Context::Application(ref a) => a.interaction.channel_id,
                Context::Prefix(ref p) => p.msg.channel_id,
            }),
    {
        match self {
            Context::Application(a) => a.interaction.channel_id,
            Context::Prefix(p) => p.msg.channel_id,
        }
    }

    /// The guild the invocation happened in, absent in direct messages.
    pub fn guild_id(&self) -> (r: Option<u64>)
        ensures
            r == (match *self {
                Context::Application(ref a) => a.interaction.guild_id,
                Context::Prefix(ref p) => p.msg.guild_id,
            }),
    {
        match self {
            Context::Application(a) => a.interaction.guild_id,
            Context::Prefix(p) => p.msg.guild_id,
        }
    }

    /// The invoking user.
    pub fn author_id(&self) -> (r: u64)
        ensures
            r == (match *self {
                Context::Application(ref a) => a.interaction.user_id,
                Context::Prefix(ref p) => p.msg.author_id,
            }),
    {
        match self {
            Context::Application(a) => a.interaction.user_id,
            Context::Prefix(p) => p.msg.author_id,
        }
    }

    /// The matched command's index path.
    pub fn command_path(&self) -> (r: &Vec<usize>)
        ensures
            r == (match *self {
                Context::Application(ref a) => &a.command_path,
                Context::Prefix(ref p) => &p.command_path,
            }),
    {
        match self {
            Context::Application(a) => &a.command_path,
            Context::Prefix(p) => &p.command_path,
        }
    }

    /// The scope cooldowns are tracked over for this invocation.
    pub fn cooldown_context(&self) -> (r: CooldownContext)
        ensures
            r == (CooldownContext {
                user_id: (match *self {
                    Context::Application(ref a) => a.interaction.user_id,
                    Context::Prefix(ref p) => p.msg.author_id,
                }),
                channel_id: (match *self {
                    Context::Application(ref a) => a.interaction.channel_id,
                    Context::Prefix(ref p) => p.msg.channel_id,
                }),
                guild_id: (match *self {
                    Context::Application(ref a) => a.interaction.guild_id,
                    Context::Prefix(ref p) => p.msg.guild_id,
                }),
            }),
    {
        CooldownContext {
            user_id: self.author_id(),
            channel_id: self.channel_id(),
            guild_id: self.guild_id(),
        }
    }
}

/// A trimmed-down view of an invocation, for callbacks that run before a
/// command is resolved.
#[derive(Clone, Copy, Debug, PartialEq, Eq, Structural)]
pub struct PartialContext {
    /// The guild, absent in direct messages.
    pub guild_id: Option<u64>,
    /// The invocation channel.
    pub channel_id: u64,
    /// The invoking user.
    pub author_id: u64,
}

impl PartialContext {
    /// The trimmed-down view of a resolved invocation.
    pub fn of_context(ctx: &Context) -> (r: PartialContext)
        ensures
            r.channel_id == (match *ctx {
                Context::Application(ref a) => a.interaction.channel_id,
                Context::Prefix(ref p) => p.msg.channel_id,
            }),
            r.guild_id == (match *ctx {
                Context::Application(ref a) => a.interaction.guild_id,
                Context::Prefix(ref p) => p.msg.guild_id,
            }),
            r.author_id == (match *ctx {
                Context::Application(ref a) => a.interaction.user_id,
                Context::Prefix(ref p) => p.msg.author_id,
            }),
    {
        PartialContext {
            guild_id: ctx.guild_id(),
            channel_id: ctx.channel_id(),
            author_id: ctx.author_id(),
        }
    }
}

/// Whether dispatch ignores a message outright: bot authors (when
/// configured), the bot's own messages (unless configured), and
/// thread-creation messages (when configured).
pub open spec fn spec_message_skipped(options: FrameworkOptions, bot_id: u64, msg: Message) -> bool {
    ||| (msg.author_is_bot && options.prefix_options.ignore_bots)
    ||| (bot_id == msg.author_id && !options.prefix_options.execute_self_messages)
    ||| (msg.thread_creation && options.prefix_options.ignore_thread_creation)
}

/// The invocation text after the prefix, with leading whitespace removed.
pub open spec fn spec_trimmed(content: Seq<char>) -> Seq<char> {
    content.skip(spec_leading_whitespace(content))
}

/// Parses a message into a resolved prefix invocation.
///
/// `Ok(None)`: the message is not a command invocation (skipped outright, no
/// prefix matched, or the matched command has no prefix-style action).
/// `Err`: the prefix was recognized but no command matched the rest.
/// Otherwise the resolved invocation is returned, ready for
/// [`run_invocation`]. The prefix-callback outcomes and the pattern engine's
/// results are produced by the caller, as in
/// [`strip_prefix`](crate::prefix::strip_prefix).
pub fn parse_invocation(
    options: &FrameworkOptions,
    bot_id: u64,
    msg: &Message,
    trigger: MessageDispatchTrigger,
    dynamic: &DynamicPrefixOutcome,
    engine_results: &Vec<Option<(usize, usize)>>,
    stripped_dynamic: &StrippedDynamicOutcome,
) -> (r: Result<Option<PrefixContext>, FrameworkError>)
    requires
        engine_results@.len() == options.prefix_options.additional_prefixes@.len(),
    ensures
        ({
            let stripped = spec_strip_prefix(
                msg.content@,
                *dynamic,
                options.prefix_options.prefix,
                options.prefix_options.additional_prefixes@,
                engine_results@,
                *stripped_dynamic,
                options.prefix_options.mention_as_prefix,
                bot_id,
            );
            match r {
                Ok(None) => {
                    ||| spec_message_skipped(*options, bot_id, *msg)
                    ||| stripped is None
                    ||| (match stripped {
                        Some((p, content)) => (match spec_find_command(
                            options.commands@,
                            spec_trimmed(content),
                            options.prefix_options.case_insensitive_commands,
                        ) {
                            Some((path, m, n, a)) => !spec_command_at(
                                options.commands@,
                                path,
                            ).has_prefix_action,
                            None => false,
                        }),
                        None => false,
                    })
                },
                Ok(Some(ctx)) => {
                    &&& !spec_message_skipped(*options, bot_id, *msg)
                    &&& (match stripped {
                        Some((p, content)) => {
                            &&& ctx.prefix@ == p
                            &&& spec_find_command(
                                options.commands@,
                                spec_trimmed(content),
                                options.prefix_options.case_insensitive_commands,
                            ) == Some(
                                (
                                    spec_path_of(ctx.command_path@),
                                    ctx.mod_chars@,
                                    ctx.invoked_command_name@,
                                    ctx.args@,
                                ),
                            )
                            &&& spec_path_valid(options.commands@, spec_path_of(ctx.command_path@))
                            &&& spec_command_at(
                                options.commands@,
                                spec_path_of(ctx.command_path@),
                            ).has_prefix_action
                        },
                        None => false,
                    })
                    &&& ctx.msg == *msg
                    &&& ctx.trigger == trigger
                },
                Err(e) => {
                    &&& !spec_message_skipped(*options, bot_id, *msg)
                    &&& (match stripped {
                        Some((p, content)) => {
                            &&& spec_find_command(
                                options.commands@,
                                spec_trimmed(content),
                                options.prefix_options.case_insensitive_commands,
                            ) is None
                            &&& (match e {
                                FrameworkError::UnknownCommand { msg_content } => msg_content@
                                    == spec_trimmed(content),
                                _ => false,
                            })
                        },
                        None => false,
                    })
                },
            }
        }),
{
    if msg.author_is_bot && options.prefix_options.ignore_bots {
        return Ok(None);
    }
    if bot_id == msg.author_id && !options.prefix_options.execute_self_messages {
        return Ok(None);
    }
    if msg.thread_creation && options.prefix_options.ignore_thread_creation {
        return Ok(None);
    }
    let stripped: Option<(String, String)> = strip_prefix(
        msg.content.as_str(),
        dynamic,
        &options.prefix_options.prefix,
        &options.prefix_options.additional_prefixes,
        engine_results,
        stripped_dynamic,
        options.prefix_options.mention_as_prefix,
        bot_id,
    );
    let (prefix, content) = match stripped {
        Some(pair) => pair,
        None => {
            return Ok(None);
        },
    };
    let lead: usize = leading_whitespace(content.as_str());
    let content_len: usize = content.as_str().unicode_len();
    proof {
        crate::text::lemma_leading_whitespace(content@);
    }
    let msg_content: &str = content.as_str().substring_char(lead, content_len);
    proof {
        assert(msg_content@ =~= spec_trimmed(content@));
    }
    let found: Option<CommandMatch> = find_command(
        &options.commands,
        msg_content,
        options.prefix_options.case_insensitive_commands,
    );
    match found {
        None => Err(FrameworkError::UnknownCommand { msg_content: String::from_str(msg_content) }),
        Some(m) => {
            proof {
                lemma_find_command_path_valid(
                    options.commands@,
                    msg_content@,
                    options.prefix_options.case_insensitive_commands,
                );
            }
            let command: &Command = crate::lookup::command_at(&options.commands, &m.path);
            if !command.has_prefix_action {
                return Ok(None);
            }
            Ok(
                Some(
                    PrefixContext {
                        msg: msg.duplicate(),
                        prefix,
                        invoked_command_name: m.invoked_name,
                        mod_chars: m.mod_chars,
                        args: m.args,
                        command_path: m.path,
                        trigger,
                    },
                ),
            )
        },
    }
}

/// What to do with a resolved prefix invocation.
#[derive(Debug)]
pub enum InvocationPlan {
    /// Do nothing: the triggering edit is not configured to re-run.
    Skip,
    /// Report the error; the command does not run.
    Denied(FrameworkError),
    /// Run the command.
    Run {
        /// Whether to broadcast a typing indicator while it runs.
        broadcast_typing: bool,
        /// Whether to record the invocation in the edit tracker first, so
        /// an edit arriving before the response is not mistaken for an
        /// untracked edit.
        track_command: bool,
        /// Whether the entry asks for deletion tracking.
        track_deletion: bool,
    },
}

/// The decision of [`run_invocation`]: edits re-run only when configured,
/// a command that requires a subcommand refuses to run bare, the checks run
/// for every node along the path, and a permitted invocation runs with its
/// typing and tracking flags.
pub open spec fn spec_run_invocation(
    options: FrameworkOptions,
    cmd: Command,
    path: Seq<int>,
    trigger: MessageDispatchTrigger,
    input: CheckInput,
    check_outcomes: Seq<Seq<CheckOutcome>>,
) -> InvocationPlan {
    if trigger == MessageDispatchTrigger::MessageEdit && !cmd.invoke_on_edit {
        InvocationPlan::Skip
    } else if trigger == MessageDispatchTrigger::MessageEditFromInvalid
        && !options.prefix_options.execute_untracked_edits {
        InvocationPlan::Skip
    } else if cmd.subcommand_required {
        InvocationPlan::Denied(FrameworkError::SubcommandRequired)
    } else {
        match spec_check_path(options, options.commands@, path, input, check_outcomes) {
            Err(e) => InvocationPlan::Denied(e),
            Ok(()) => InvocationPlan::Run {
                broadcast_typing: cmd.broadcast_typing,
                track_command: options.prefix_options.edit_tracker is Some,
                track_deletion: cmd.track_deletion,
            },
        }
    }
}

/// Decides what to do with a resolved prefix invocation: filter edits,
/// demand a subcommand where one is required, check the whole ancestor path,
/// and hand back the run flags. The check inputs and check-callback outcomes
/// are resolved by the caller as in
/// [`check_permissions_and_cooldown`](crate::checks::check_permissions_and_cooldown).
pub fn run_invocation(
    options: &FrameworkOptions,
    ctx: &PrefixContext,
    input: &CheckInput,
    check_outcomes: &Vec<Vec<CheckOutcome>>,
) -> (r: InvocationPlan)
    requires
        spec_path_valid(options.commands@, spec_path_of(ctx.command_path@)),
        check_outcomes@.len() == ctx.command_path@.len(),
    ensures
        r == spec_run_invocation(
            *options,
            spec_command_at(options.commands@, spec_path_of(ctx.command_path@)),
            spec_path_of(ctx.command_path@),
            ctx.trigger,
            *input,
            check_outcomes@.map_values(|v: Vec<CheckOutcome>| v@),
        ),
{
    let command: &Command = crate::lookup::command_at(&options.commands, &ctx.command_path);
    if ctx.trigger == MessageDispatchTrigger::MessageEdit && !command.invoke_on_edit {
        return InvocationPlan::Skip;
    }
    if ctx.trigger == MessageDispatchTrigger::MessageEditFromInvalid
        && !options.prefix_options.execute_untracked_edits {
        return InvocationPlan::Skip;
    }
    if command.subcommand_required {
        return InvocationPlan::Denied(FrameworkError::SubcommandRequired);
    }
    match check_permissions_and_cooldown(
        options,
        &options.commands,
        &ctx.command_path,
        input,
        check_outcomes,
    ) {
        Err(e) => InvocationPlan::Denied(e),
        Ok(()) => InvocationPlan::Run {
            broadcast_typing: command.broadcast_typing,
            track_command: options.prefix_options.edit_tracker.is_some(),
            track_deletion: command.track_deletion,
        },
    }
}

/// Maps the edit tracker's decision about an edited message onto the
/// dispatch trigger: a tracked content change re-runs as a tracked edit, an
/// untracked edit re-runs as such (caller policy decides whether to act),
/// and anything else does not re-run.
pub fn message_update_trigger(
    tracker: &mut EditTracker,
    new_message: &Message,
    ignore_edits_if_not_yet_responded: bool,
) -> (r: Option<MessageDispatchTrigger>)
    requires
        old(tracker).wf(),
    ensures
        final(tracker).wf(),
        final(tracker).max_duration_secs == old(tracker).max_duration_secs,
        ({
            let (decision, entries) = EditTracker::spec_process_message_update(
                old(tracker).entries(),
                *new_message,
                ignore_edits_if_not_yet_responded,
            );
            &&& final(tracker).entries() == entries
            &&& r == (match decision {
                Some(true) => Some(MessageDispatchTrigger::MessageEdit),
                Some(false) => Some(MessageDispatchTrigger::MessageEditFromInvalid),
                None => None::<MessageDispatchTrigger>,
            })
        }),
{
    match tracker.process_message_update(new_message, ignore_edits_if_not_yet_responded) {
        Some(true) => Some(MessageDispatchTrigger::MessageEdit),
        Some(false) => Some(MessageDispatchTrigger::MessageEditFromInvalid),
        None => None,
    }
}

/// Which action of a command a re-run of an invocation calls: the slash
/// action for a chat-input interaction, the matching context-menu action for
/// a context-menu interaction, the prefix action for a message invocation —
/// and nothing for autocomplete contexts or commands lacking the action.
#[derive(Clone, Copy, Debug, PartialEq, Eq, Structural)]
pub enum RerunAction {
    /// Nothing runs.
    Nothing,
    /// The slash-style action runs.
    Slash,
    /// The user context-menu action runs.
    ContextMenuUser,
    /// The message context-menu action runs.
    ContextMenuMessage,
    /// The prefix-style action runs.
    Prefix,
}

/// Decides which action a re-run of this invocation calls.
pub fn rerun_action(ctx: &Context, command: &Command) -> (r: RerunAction)
    ensures
        r == (match *ctx {
            Context::Application(ref a) => {
                if a.interaction_type == CommandInteractionType::Autocomplete {
                    RerunAction::Nothing
                } else if a.interaction.kind == CommandType::ChatInput {
                    if command.has_slash_action {
                        RerunAction::Slash
                    } else {
                        RerunAction::Nothing
                    }
                } else {
                    match (command.context_menu_action, a.interaction.target) {
                        (
                            Some(ContextMenuCommandAction::User),
                            Some(ResolvedTargetKind::User),
                        ) => RerunAction::ContextMenuUser,
                        (
                            Some(ContextMenuCommandAction::Message),
                            Some(ResolvedTargetKind::Message),
                        ) => RerunAction::ContextMenuMessage,
                        _ => RerunAction::Nothing,
                    }
                }
            },
            Context::Prefix(ref p) => {
                if command.has_prefix_action {
                    RerunAction::Prefix
                } else {
                    RerunAction::Nothing
                }
            },
        }),
{
    match ctx {
        Context::Application(a) => {
            if a.interaction_type == CommandInteractionType::Autocomplete {
                return RerunAction::Nothing;
            }
            if a.interaction.kind == CommandType::ChatInput {
                if command.has_slash_action {
                    return RerunAction::Slash;
                }
                return RerunAction::Nothing;
            }
            match (command.context_menu_action, a.interaction.target) {
                (Some(ContextMenuCommandAction::User), Some(ResolvedTargetKind::User)) => {
                    RerunAction::ContextMenuUser
                },
                (Some(ContextMenuCommandAction::Message), Some(ResolvedTargetKind::Message)) => {
                    RerunAction::ContextMenuMessage
                },
                _ => RerunAction::Nothing,
            }
        },
        Context::Prefix(_) => {
            if command.has_prefix_action {
                RerunAction::Prefix
            } else {
                RerunAction::Nothing
            }
        },
    }
}

} // verus!
