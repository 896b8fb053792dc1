//! Command-dispatch core for chat-platform bots.
//!
//! Given a stream of inbound events (new message, edited message, deleted
//! message, interaction), the library decides whether an event is a command
//! invocation, resolves it against a registered command tree, runs it through
//! permission and cooldown checks, and correlates the bot's response back to
//! the triggering message so later edits and deletes can be reconciled.
//!
//! All platform I/O (network sends, cache reads, user callbacks) happens
//! outside this crate; the functions here are decision and bookkeeping logic
//! over plain values, with contracts verified by Verus.

pub mod command;
pub mod cooldown;
pub mod dispatch;
pub mod error;
pub mod framework;
pub mod checks;
pub mod lookup;
pub mod permissions;
pub mod prefix;
pub mod register;
pub mod reply;
pub mod text;
pub mod track_edits;
