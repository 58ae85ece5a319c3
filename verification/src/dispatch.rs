//! Dispatch of validated command text, and the panic-safe guard.
//!
//! Once a message has been admitted and its command text sliced off, an
//! external parser turns the text into a structured command or a parse
//! error, and an external handler executes the command. This module owns
//! the decisions around those calls: which single reply the requesting
//! user is owed for each parse outcome, and the guard that owes the fixed
//! fault notice when — and only when — a handler terminates abnormally.
//! For every dispatch that begins, exactly one notification path fires:
//! the handler's normal response, a rendering of a recoverable error, or
//! the fault notice.

use vstd::prelude::*;

verus! {

/// A structured role-management command, as the external parser returns it.
#[derive(Clone, Debug, PartialEq, Eq)]
pub enum RoleCommand {
    /// Help on role commands, for an optional topic.
    Help { topic: Vec<u8> },
    /// List the available roles.
    List,
    /// Show the roles of one user.
    Show { user: Vec<u8> },
    /// Add roles to a user.
    Add { user: Vec<u8>, roles: Vec<Vec<u8>> },
    /// Remove roles from a user.
    Remove { user: Vec<u8>, roles: Vec<Vec<u8>> },
}

/// A structured command, as the external parser returns it.
#[derive(Clone, Debug, PartialEq, Eq)]
pub enum Command {
    /// General help, for an optional topic.
    Help { topic: Vec<u8> },
    /// A role-management command.
    Role { command: RoleCommand },
    /// A message to relay to the moderators.
    Modmail { message: Vec<u8> },
}

/// The kind of a command, the unit dispatch routes by.
#[derive(Clone, Copy, Debug, PartialEq, Eq, Structural)]
pub enum CommandKind {
    /// General help.
    Help,
    /// Help on role commands.
    RoleHelp,
    /// Listing the available roles.
    RoleList,
    /// Showing one user's roles.
    RoleShow,
    /// Adding roles to a user.
    RoleAdd,
    /// Removing roles from a user.
    RoleRemove,
    /// Relaying a message to the moderators.
    Modmail,
}

/// The kind of a command.
pub open spec fn command_kind_spec(cmd: Command) -> CommandKind {
    match cmd {
        Command::Help { .. } => CommandKind::Help,
        Command::Role { command } => match command {
            RoleCommand::Help { .. } => CommandKind::RoleHelp,
            RoleCommand::List => CommandKind::RoleList,
            RoleCommand::Show { .. } => CommandKind::RoleShow,
            RoleCommand::Add { .. } => CommandKind::RoleAdd,
            RoleCommand::Remove { .. } => CommandKind::RoleRemove,
        },
        Command::Modmail { .. } => CommandKind::Modmail,
    }
}

/// Routes a command by its kind, exhaustively over the closed variant set.
pub fn command_kind(cmd: &Command) -> (r: CommandKind)
    ensures
        r == command_kind_spec(*cmd),
{
    match cmd {
        Command::Help { .. } => CommandKind::Help,
        Command::Role { command } => match command {
            RoleCommand::Help { .. } => CommandKind::RoleHelp,
            RoleCommand::List => CommandKind::RoleList,
            RoleCommand::Show { .. } => CommandKind::RoleShow,
            RoleCommand::Add { .. } => CommandKind::RoleAdd,
            RoleCommand::Remove { .. } => CommandKind::RoleRemove,
        },
        Command::Modmail { .. } => CommandKind::Modmail,
    }
}

/// The terminal outcome of routing a command to its handler. Every kind's
/// handler is an external collaborator and none is wired up yet, so every
/// command is reported back as recognized but not available, never
/// silently dropped.
#[derive(Clone, Copy, Debug, PartialEq, Eq, Structural)]
pub enum CommandOutcome {
    /// The command was recognized, but its handler is not available.
    Unsupported(CommandKind),
}

/// Routes a command: with no handler wired up, every kind yields an
/// explicit not-available outcome.
pub fn route_command(cmd: &Command) -> (r: CommandOutcome)
    ensures
        r == CommandOutcome::Unsupported(command_kind_spec(*cmd)),
{
    CommandOutcome::Unsupported(command_kind(cmd))
}

/// What the external parser made of the command text.
#[derive(Clone, Debug, PartialEq, Eq)]
pub enum ParseOutcome {
    /// A structured command.
    Parsed(Command),
    /// A parse error, already rendered for the requesting user.
    Failed(Vec<u8>),
}

/// How a command handler's scope exited.
#[derive(Clone, Copy, Debug, PartialEq, Eq, Structural)]
pub enum HandlerEnd {
    /// The handler returned normally.
    Completed,
    /// The handler terminated abnormally (a crash mid-execution).
    Faulted,
}

/// What a reply to the requesting channel says.
#[derive(Clone, Debug, PartialEq, Eq)]
pub enum ReplyBody {
    /// A rendering of the parse error, sent back verbatim.
    ParseError(Vec<u8>),
    /// The command is recognized but its handler is not available.
    Unsupported(CommandKind),
    /// The fixed fault notice, sent when a handler terminated abnormally.
    FaultNotice,
}

/// One reply owed to the channel a message arrived in.
#[derive(Clone, Debug, PartialEq, Eq)]
pub struct Reply {
    /// The channel the reply is owed to: always the originating channel.
    pub channel_id: u64,
    /// What the reply says.
    pub body: ReplyBody,
}

/// The single reply owed for a parse outcome when the handler completes
/// normally: the rendered parse error, or the routing outcome.
pub open spec fn normal_reply_spec(channel_id: u64, parse: ParseOutcome) -> Reply {
    match parse {
        ParseOutcome::Failed(text) => Reply {
            channel_id,
            body: ReplyBody::ParseError(text),
        },
        ParseOutcome::Parsed(cmd) => Reply {
            channel_id,
            body: ReplyBody::Unsupported(command_kind_spec(cmd)),
        },
    }
}

/// Plans the reply owed for `parse` on the originating channel, consuming
/// the parse outcome.
pub fn plan_normal_reply(channel_id: u64, parse: ParseOutcome) -> (r: Reply)
    ensures
        r == normal_reply_spec(channel_id, parse),
{
    match parse {
        ParseOutcome::Failed(text) => Reply { channel_id, body: ReplyBody::ParseError(text) },
        ParseOutcome::Parsed(cmd) => Reply {
            channel_id,
            body: ReplyBody::Unsupported(command_kind(&cmd)),
        },
    }
}

/// The guard around one handler invocation. It captures the originating
/// channel by value before the handler runs, so the fault notice can still
/// be addressed when the handler's own state is gone, and it owes that
/// notice exactly on abnormal termination.
pub struct DispatchGuard {
    /// The channel captured before the handler ran.
    pub channel_id: u64,
}

impl DispatchGuard {
    /// Captures the originating channel before the handler is invoked.
    pub fn new(channel_id: u64) -> (r: DispatchGuard)
        ensures
            r.channel_id == channel_id,
    {
        DispatchGuard { channel_id }
    }

    /// The notification owed when the guarded scope exits: the fixed fault
    /// notice to the captured channel exactly when the exit was abnormal,
    /// and nothing on a normal return.
    pub fn on_scope_exit(&self, end: HandlerEnd) -> (r: Option<Reply>)
        ensures
            r is Some <==> end is Faulted,
            end is Faulted ==> r == Some(
                Reply { channel_id: self.channel_id, body: ReplyBody::FaultNotice },
            ),
    {
        match end {
            HandlerEnd::Faulted => Some(
                Reply { channel_id: self.channel_id, body: ReplyBody::FaultNotice },
            ),
            HandlerEnd::Completed => None,
        }
    }
}

/// The fixed fault notice, as a sequence of characters.
pub open spec fn fault_notice_spec() -> Seq<char> {
    "**ERROR:** thread panicked while servicing your request"@
}

/// The fixed diagnostic sent when a handler terminates abnormally. It
/// never describes the underlying cause.
pub fn fault_notice_text() -> (r: &'static str)
    ensures
        r@ == fault_notice_spec(),
{
    "**ERROR:** thread panicked while servicing your request"
}

/// The text reported for a command whose handler is not available.
pub open spec fn unsupported_notice_spec() -> Seq<char> {
    "that command is recognized but not available yet"@
}

/// The fixed notice sent for a recognized command with no handler wired
/// up.
pub fn unsupported_notice_text() -> (r: &'static str)
    ensures
        r@ == unsupported_notice_spec(),
{
    "that command is recognized but not available yet"
}

/// Every notification a dispatch terminates with, over all exits: on a
/// normal completion the single normal reply, on an abnormal one the
/// single fault notice.
pub open spec fn terminal_replies_spec(
    channel_id: u64,
    parse: ParseOutcome,
    end: HandlerEnd,
) -> Seq<Reply> {
    match end {
        HandlerEnd::Completed => seq![normal_reply_spec(channel_id, parse)],
        HandlerEnd::Faulted => seq![Reply { channel_id, body: ReplyBody::FaultNotice }],
    }
}

/// For any dispatch that begins, exactly one notification fires — never
/// silence and never two — and it is the fault notice exactly on abnormal
/// termination.
pub proof fn lemma_exactly_one_notification(channel_id: u64, parse: ParseOutcome, end: HandlerEnd)
    ensures
        terminal_replies_spec(channel_id, parse, end).len() == 1,
        (terminal_replies_spec(channel_id, parse, end)[0].body is FaultNotice) <==> (
        end is Faulted),
{
}

/// Every notification of a dispatch targets the channel the message
/// arrived in: replies never leak across channels.
pub proof fn lemma_replies_stay_on_channel(channel_id: u64, parse: ParseOutcome, end: HandlerEnd)
    ensures
        forall|i: int|
            0 <= i < terminal_replies_spec(channel_id, parse, end).len()
                ==> terminal_replies_spec(channel_id, parse, end)[i].channel_id == channel_id,
{
}

} // verus!
