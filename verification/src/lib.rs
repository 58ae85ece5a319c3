//! Inbound message dispatch core for a chat bot.
//!
//! The library decides, for every incoming message event, whether the
//! message is a command directed at the bot: it recognizes the configured
//! command prefix (with word-boundary handling), filters messages through
//! an access gate (guild allow-list, self-message and bot-author checks),
//! and plans the replies owed to the requesting user, including the fixed
//! fault notice owed when a command handler terminates abnormally.
//! Network transport, configuration loading and command business logic are
//! external collaborators driven by a thin unverified shell.

pub mod config;
pub mod dispatch;
pub mod gate;
pub mod handler;
pub mod prefix;
