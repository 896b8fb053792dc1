//! The errors dispatch can produce, the text each one renders to, and the
//! default handling of each kind.
//!
//! Every error has exactly one designated handling path: the embedding
//! application routes it to a per-command override or the global handler;
//! [`on_error`] is the default global handler's decision, mapping each error
//! to the response to send or the line to log. Nothing is dropped silently
//! and nothing is retried here.

use vstd::prelude::*;

use crate::permissions::Permissions;
use crate::reply::{AllowedMentions, CreateReply, Embed};
use crate::text::{spec_u64_digits, u64_to_string};

verus! {

/// Everything that can go wrong while dispatching, checking or running a
/// command. Payloads raised by user code stay outside this crate; each
/// variant carries the plain facts of its kind.
#[derive(Debug)]
pub enum FrameworkError {
    /// The command body failed.
    Command,
    /// The command requires a subcommand and none was given.
    SubcommandRequired,
    /// The command body panicked; the payload text, when one was carried.
    CommandPanic {
        /// The panic payload, when it was text.
        payload: Option<String>,
    },
    /// An argument failed to parse.
    ArgumentParse {
        /// The input that failed to parse, when available.
        input: Option<String>,
    },
    /// The registered command shape disagrees with what the platform sent.
    CommandStructureMismatch {
        /// What was expected and not found.
        description: String,
    },
    /// The command is still cooling down.
    CooldownHit {
        /// Seconds until the command may run again in this scope.
        remaining_seconds: u64,
    },
    /// The bot lacks permissions the command requires.
    MissingBotPermissions {
        /// The missing permissions.
        missing_permissions: Permissions,
    },
    /// The invoking user lacks permissions the command requires.
    MissingUserPermissions {
        /// The missing permissions; absent when the lookup failed and the
        /// denial is conservative.
        missing_permissions: Option<Permissions>,
    },
    /// The permission lookup itself failed.
    PermissionFetchFailed,
    /// A non-owner invoked an owners-only command.
    NotAnOwner,
    /// A guild-only command was invoked outside a guild.
    GuildOnly,
    /// A DM-only command was invoked inside a guild.
    DmOnly,
    /// An age-restricted command was invoked in an unrestricted channel.
    NsfwOnly,
    /// A check callback denied the invocation or failed.
    CommandCheckFailed {
        /// Whether the callback failed rather than denied.
        errored: bool,
    },
    /// The dynamic-prefix callback failed.
    DynamicPrefix,
    /// The prefix was recognized but no command matched the rest.
    UnknownCommand {
        /// The text after the prefix that matched nothing.
        msg_content: String,
    },
    /// An interaction named a command that is not registered.
    UnknownInteraction {
        /// The name the interaction carried.
        name: String,
    },
    /// The handler for non-command messages failed.
    NonCommandMessage,
}

/// The text an error renders to, given the invoked command's full name
/// (prefix and qualified name joined).
pub open spec fn spec_error_message(e: FrameworkError, name: Seq<char>) -> Seq<char> {
    match e {
        FrameworkError::Command => "error in command `"@ + name + "`"@,
        FrameworkError::SubcommandRequired => "expected subcommand for command `"@ + name + "`"@,
        FrameworkError::CommandPanic { .. } => "panic in command `"@ + name + "`"@,
        FrameworkError::ArgumentParse { input } => match input {
            Some(i) => "failed to parse argument in command `"@ + name + "` on input `"@ + i@
                + "`"@,
            None => "failed to parse argument in command `"@ + name + "`"@,
        },
        FrameworkError::CommandStructureMismatch { description } => (
        "unexpected application command structure in command `"@ + name + "`: "@ + description@),
        FrameworkError::CooldownHit { remaining_seconds } => "cooldown hit in command `"@ + name
            + "` ("@ + spec_u64_digits(remaining_seconds) + " seconds remaining)"@,
        FrameworkError::MissingBotPermissions { missing_permissions } => (
        "bot is missing permissions ("@ + spec_u64_digits(missing_permissions.bits)
            + ") to execute command `"@ + name + "`"@),
        FrameworkError::MissingUserPermissions { missing_permissions } => match missing_permissions {
            Some(p) => "user is or may be missing permissions ("@ + spec_u64_digits(p.bits)
                + ") to execute command `"@ + name + "`"@,
            None => "user may be missing permissions to execute command `"@ + name + "`"@,
        },
        FrameworkError::PermissionFetchFailed => (
        "an error occurred when trying to fetch permissions for `"@ + name + "`"@),
        FrameworkError::NotAnOwner => "owner-only command `"@ + name
            + "` cannot be run by non-owners"@,
        FrameworkError::GuildOnly => "guild-only command `"@ + name + "` cannot run in DMs"@,
        FrameworkError::DmOnly => "DM-only command `"@ + name + "` cannot run in guilds"@,
        FrameworkError::NsfwOnly => "nsfw-only command `"@ + name
            + "` cannot run in non-nsfw channels"@,
        FrameworkError::CommandCheckFailed { .. } => "pre-command check for command `"@ + name
            + "` either denied access or errored"@,
        FrameworkError::DynamicPrefix => "dynamic prefix callback errored"@,
        FrameworkError::UnknownCommand { msg_content } => "unknown command `"@ + msg_content@
            + "`"@,
        FrameworkError::UnknownInteraction { name: interaction_name } => "unknown interaction `"@
            + interaction_name@ + "`"@,
        FrameworkError::NonCommandMessage => "error in non-command message handler"@,
    }
}

impl FrameworkError {
    /// Renders the error as one line of text, given the invoked command's
    /// full name (prefix and qualified name joined).
    pub fn message(&self, full_command_name: &str) -> (r: String)
        ensures
            r@ == spec_error_message(*self, full_command_name@),
    {
        match self {
            FrameworkError::Command => String::from_str("error in command `").concat(
                full_command_name,
            ).concat("`"),
            FrameworkError::SubcommandRequired => String::from_str(
                "expected subcommand for command `",
            ).concat(full_command_name).concat("`"),
            FrameworkError::CommandPanic { .. } => String::from_str("panic in command `").concat(
                full_command_name,
            ).concat("`"),
            FrameworkError::ArgumentParse { input } => match input {
                Some(i) => String::from_str("failed to parse argument in command `").concat(
                    full_command_name,
                ).concat("` on input `").concat(i.as_str()).concat("`"),
                None => String::from_str("failed to parse argument in command `").concat(
                    full_command_name,
                ).concat("`"),
            },
            FrameworkError::CommandStructureMismatch { description } => String::from_str(
                "unexpected application command structure in command `",
            ).concat(full_command_name).concat("`: ").concat(description.as_str()),
            FrameworkError::CooldownHit { remaining_seconds } => String::from_str(
                "cooldown hit in command `",
            ).concat(full_command_name).concat("` (").concat(
                u64_to_string(*remaining_seconds).as_str(),
            ).concat(" seconds remaining)"),
            FrameworkError::MissingBotPermissions { missing_permissions } => String::from_str(
                "bot is missing permissions (",
            ).concat(u64_to_string(missing_permissions.bits).as_str()).concat(
                ") to execute command `",
            ).concat(full_command_name).concat("`"),
            FrameworkError::MissingUserPermissions { missing_permissions } => match missing_permissions {
                Some(p) => String::from_str("user is or may be missing permissions (").concat(
                    u64_to_string(p.bits).as_str(),
                ).concat(") to execute command `").concat(full_command_name).concat("`"),
                None => String::from_str(
                    "user may be missing permissions to execute command `",
                ).concat(full_command_name).concat("`"),
            },
            FrameworkError::PermissionFetchFailed => String::from_str(
                "an error occurred when trying to fetch permissions for `",
            ).concat(full_command_name).concat("`"),
            FrameworkError::NotAnOwner => String::from_str("owner-only command `").concat(
                full_command_name,
            ).concat("` cannot be run by non-owners"),
            FrameworkError::GuildOnly => String::from_str("guild-only command `").concat(
                full_command_name,
            ).concat("` cannot run in DMs"),
            FrameworkError::DmOnly => String::from_str("DM-only command `").concat(
                full_command_name,
            ).concat("` cannot run in guilds"),
            FrameworkError::NsfwOnly => String::from_str("nsfw-only command `").concat(
                full_command_name,
            ).concat("` cannot run in non-nsfw channels"),
            FrameworkError::CommandCheckFailed { .. } => String::from_str(
                "pre-command check for command `",
            ).concat(full_command_name).concat("` either denied access or errored"),
            FrameworkError::DynamicPrefix => String::from_str("dynamic prefix callback errored"),
            FrameworkError::UnknownCommand { msg_content } => String::from_str(
                "unknown command `",
            ).concat(msg_content.as_str()).concat("`"),
            FrameworkError::UnknownInteraction { name: interaction_name } => String::from_str(
                "unknown interaction `",
            ).concat(interaction_name.as_str()).concat("`"),
            FrameworkError::NonCommandMessage => String::from_str(
                "error in non-command message handler",
            ),
        }
    }
}

/// What the default error handler does with an error.
#[derive(Debug)]
pub enum ErrorResponse {
    /// Answer the invocation with a response.
    SendReply {
        /// The response to send.
        reply: CreateReply,
    },
    /// Log one line at error severity.
    LogError {
        /// The line to log.
        text: String,
    },
    /// Log one line at warning severity.
    LogWarn {
        /// The line to log.
        text: String,
    },
}

/// Mention behavior that pings nobody.
pub fn suppress_all_mentions() -> (r: AllowedMentions)
    ensures
        r == (AllowedMentions {
            everyone: false,
            all_roles: false,
            all_users: false,
            replied_user: false,
        }),
{
    AllowedMentions { everyone: false, all_roles: false, all_users: false, replied_user: false }
}

/// The default error handler's decision: which errors answer the invocation
/// (and how the response looks) and which are only logged. User-facing
/// denials are ephemeral; texts that echo user input suppress every mention.
pub fn on_error(
    error: &FrameworkError,
    full_command_name: &str,
    help_text: &Option<String>,
) -> (r: ErrorResponse)
    ensures
        (match *error {
            FrameworkError::Command => (match r {
                ErrorResponse::SendReply { reply } => {
                    &&& (match reply.content {
                        Some(c) => c@ == spec_error_message(*error, full_command_name@),
                        None => false,
                    })
                    &&& reply.allowed_mentions == Some(
                        AllowedMentions {
                            everyone: false,
                            all_roles: false,
                            all_users: false,
                            replied_user: false,
                        },
                    )
                },
                _ => false,
            }),
            FrameworkError::SubcommandRequired => (match r {
                ErrorResponse::SendReply { reply } => reply.ephemeral == Some(true) && (
                match reply.content {
                    Some(c) => c@ == "you must specify a subcommand of `"@ + full_command_name@
                        + "`"@,
                    None => false,
                }),
                _ => false,
            }),
            FrameworkError::CommandPanic { .. } => (match r {
                ErrorResponse::SendReply { reply } => {
                    &&& reply.ephemeral == Some(true)
                    &&& reply.content is None
                    &&& reply.embeds@.len() == 1
                    &&& (match reply.embeds@[0].title {
                        Some(t) => t@ == "Internal error"@,
                        None => false,
                    })
                    &&& reply.embeds@[0].color == Some((255u8, 0u8, 0u8))
                    &&& (match reply.embeds@[0].description {
                        Some(d) => d@ == "An unexpected internal error has occurred."@,
                        None => false,
                    })
                },
                _ => false,
            }),
            FrameworkError::ArgumentParse { input } => (match r {
                ErrorResponse::SendReply { reply } => {
                    &&& reply.allowed_mentions == Some(
                        AllowedMentions {
                            everyone: false,
                            all_roles: false,
                            all_users: false,
                            replied_user: false,
                        },
                    )
                    &&& (match reply.content {
                        Some(c) => c@ == spec_error_message(*error, full_command_name@) + "\n"@
                            + (match *help_text {
                            Some(h) => h@,
                            None => "Please check the help menu for usage information"@,
                        }),
                        None => false,
                    })
                },
                _ => false,
            }),
            FrameworkError::CommandStructureMismatch { .. } => (match r {
                ErrorResponse::LogError { text } => text@ == spec_error_message(
                    *error,
                    full_command_name@,
                ),
                _ => false,
            }),
            FrameworkError::CommandCheckFailed { .. } => (match r {
                ErrorResponse::LogError { text } => text@ == spec_error_message(
                    *error,
                    full_command_name@,
                ),
                _ => false,
            }),
            FrameworkError::CooldownHit { .. } => (match r {
                ErrorResponse::SendReply { reply } => reply.ephemeral == Some(true) && (
                match reply.content {
                    Some(c) => c@ == spec_error_message(*error, full_command_name@),
                    None => false,
                }),
                _ => false,
            }),
            FrameworkError::MissingBotPermissions { .. } => (match r {
                ErrorResponse::SendReply { reply } => reply.ephemeral == Some(true) && (
                match reply.content {
                    Some(c) => c@ == spec_error_message(*error, full_command_name@),
                    None => false,
                }),
                _ => false,
            }),
            FrameworkError::MissingUserPermissions { .. } => (match r {
                ErrorResponse::SendReply { reply } => reply.ephemeral == Some(true) && (
                match reply.content {
                    Some(c) => c@ == spec_error_message(*error, full_command_name@),
                    None => false,
                }),
                _ => false,
            }),
            FrameworkError::PermissionFetchFailed => (match r {
                ErrorResponse::SendReply { reply } => (match reply.content {
                    Some(c) => c@ == "An error occurred when fetching permissions."@,
                    None => false,
                }),
                _ => false,
            }),
            FrameworkError::NotAnOwner => (match r {
                ErrorResponse::SendReply { reply } => reply.ephemeral == Some(true) && (
                match reply.content {
                    Some(c) => c@ == "Only bot owners can call this command"@,
                    None => false,
                }),
                _ => false,
            }),
            FrameworkError::GuildOnly => (match r {
                ErrorResponse::SendReply { reply } => reply.ephemeral == Some(true) && (
                match reply.content {
                    Some(c) => c@ == "You cannot run this command in DMs."@,
                    None => false,
                }),
                _ => false,
            }),
            FrameworkError::DmOnly => (match r {
                ErrorResponse::SendReply { reply } => reply.ephemeral == Some(true) && (
                match reply.content {
                    Some(c) => c@ == "You cannot run this command outside DMs."@,
                    None => false,
                }),
                _ => false,
            }),
            FrameworkError::NsfwOnly => (match r {
                ErrorResponse::SendReply { reply } => reply.ephemeral == Some(true) && (
                match reply.content {
                    Some(c) => c@ == "You cannot run this command outside NSFW channels."@,
                    None => false,
                }),
                _ => false,
            }),
            FrameworkError::DynamicPrefix => (match r {
                ErrorResponse::LogError { text } => text@ == spec_error_message(
                    *error,
                    full_command_name@,
                ),
                _ => false,
            }),
            FrameworkError::UnknownCommand { .. } => (match r {
                ErrorResponse::LogWarn { text } => text@ == spec_error_message(
                    *error,
                    full_command_name@,
                ),
                _ => false,
            }),
            FrameworkError::UnknownInteraction { .. } => (match r {
                ErrorResponse::LogWarn { text } => text@ == spec_error_message(
                    *error,
                    full_command_name@,
                ),
                _ => false,
            }),
            FrameworkError::NonCommandMessage => (match r {
                ErrorResponse::LogWarn { text } => text@ == spec_error_message(
                    *error,
                    full_command_name@,
                ),
                _ => false,
            }),
        }),
{
    match error {
        FrameworkError::Command => {
            let reply = CreateReply::new().content(error.message(full_command_name))
                .allowed_mentions(suppress_all_mentions());
            ErrorResponse::SendReply { reply }
        },
        FrameworkError::SubcommandRequired => {
            let content = String::from_str("you must specify a subcommand of `").concat(
                full_command_name,
            ).concat("`");
            let reply = CreateReply::new().content(content).ephemeral(true);
            ErrorResponse::SendReply { reply }
        },
        FrameworkError::CommandPanic { .. } => {
            let embed = Embed {
                title: Some(String::from_str("Internal error")),
                description: Some(
                    String::from_str("An unexpected internal error has occurred."),
                ),
                color: Some((255, 0, 0)),
            };
            let reply = CreateReply::new().embed(embed).ephemeral(true);
            ErrorResponse::SendReply { reply }
        },
        FrameworkError::ArgumentParse { .. } => {
            let usage: String = match help_text {
                Some(h) => h.clone(),
                None => String::from_str("Please check the help menu for usage information"),
            };
            let content = error.message(full_command_name).concat("\n").concat(usage.as_str());
            let reply = CreateReply::new().content(content).allowed_mentions(
                suppress_all_mentions(),
            );
            ErrorResponse::SendReply { reply }
        },
        FrameworkError::CommandStructureMismatch { .. } => ErrorResponse::LogError {
            text: error.message(full_command_name),
        },
        FrameworkError::CommandCheckFailed { .. } => ErrorResponse::LogError {
            text: error.message(full_command_name),
        },
        FrameworkError::CooldownHit { .. } => {
            let reply = CreateReply::new().content(error.message(full_command_name)).ephemeral(
                true,
            );
            ErrorResponse::SendReply { reply }
        },
        FrameworkError::MissingBotPermissions { .. } => {
            let reply = CreateReply::new().content(error.message(full_command_name)).ephemeral(
                true,
            );
            ErrorResponse::SendReply { reply }
        },
        FrameworkError::MissingUserPermissions { .. } => {
            let reply = CreateReply::new().content(error.message(full_command_name)).ephemeral(
                true,
            );
            ErrorResponse::SendReply { reply }
        },
        FrameworkError::PermissionFetchFailed => {
            let reply = CreateReply::new().content(
                String::from_str("An error occurred when fetching permissions."),
            );
            ErrorResponse::SendReply { reply }
        },
        FrameworkError::NotAnOwner => {
            let reply = CreateReply::new().content(
                String::from_str("Only bot owners can call this command"),
            ).ephemeral(true);
            ErrorResponse::SendReply { reply }
        },
        FrameworkError::GuildOnly => {
            let reply = CreateReply::new().content(
                String::from_str("You cannot run this command in DMs."),
            ).ephemeral(true);
            ErrorResponse::SendReply { reply }
        },
        FrameworkError::DmOnly => {
            let reply = CreateReply::new().content(
                String::from_str("You cannot run this command outside DMs."),
            ).ephemeral(true);
            ErrorResponse::SendReply { reply }
        },
        FrameworkError::NsfwOnly => {
            let reply = CreateReply::new().content(
                String::from_str("You cannot run this command outside NSFW channels."),
            ).ephemeral(true);
            ErrorResponse::SendReply { reply }
        },
        FrameworkError::DynamicPrefix => ErrorResponse::LogError {
            text: error.message(full_command_name),
        },
        FrameworkError::UnknownCommand { .. } => ErrorResponse::LogWarn {
            text: error.message(full_command_name),
        },
        FrameworkError::UnknownInteraction { .. } => ErrorResponse::LogWarn {
            text: error.message(full_command_name),
        },
        FrameworkError::NonCommandMessage => ErrorResponse::LogWarn {
            text: error.message(full_command_name),
        },
    }
}

} // verus!
