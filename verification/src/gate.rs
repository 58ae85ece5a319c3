//! The access gate: which incoming messages are eligible for dispatch.
//!
//! Policy, evaluated in order with the first rejection winning: the
//! message's guild must be absent (a direct message) or the allow-listed
//! guild; the author must not be the bot itself; and the author must not
//! be an automated account. The bot's own identity may still be unknown
//! (before the ready event); an unknown identity never equals any author.

use vstd::prelude::*;

verus! {

/// The fields of an incoming message event that dispatch reads.
pub struct MessageInfo {
    /// The platform id of the message's author.
    pub author_id: u64,
    /// Whether the platform flags the author as an automated account.
    pub author_is_bot: bool,
    /// The guild the message arrived in; `None` for a direct message.
    pub guild_id: Option<u64>,
    /// The channel the message arrived in, where replies are owed.
    pub channel_id: u64,
    /// The raw message text.
    pub content: Vec<u8>,
}

/// The read-only dispatch policy: the single allow-listed guild.
pub struct AccessPolicy {
    /// The only guild whose messages are serviced, besides direct messages.
    pub allowed_guild: u64,
}

/// The ruling on one incoming message: admission, or the earliest rejection.
#[derive(Clone, Copy, Debug, PartialEq, Eq, Structural)]
pub enum GateDecision {
    /// The message is eligible for prefix and command evaluation.
    Admit,
    /// The message arrived in a guild outside the allow-list.
    RejectGuild,
    /// The message was authored by the bot itself.
    RejectSelf,
    /// The message was authored by another automated account.
    RejectBot,
}

/// The message's guild is acceptable: absent, or the allow-listed one.
pub open spec fn guild_allowed(policy: AccessPolicy, msg: MessageInfo) -> bool {
    msg.guild_id is None || msg.guild_id == Some(policy.allowed_guild)
}

/// The author is the bot itself. An unknown identity (`None`, before the
/// ready event) equals no author.
pub open spec fn is_self_message(me: Option<u64>, msg: MessageInfo) -> bool {
    me == Some(msg.author_id)
}

/// The ruling on a message, evaluated in order: guild allow-list, then
/// self-author, then bot-author; the earliest rejection wins.
pub open spec fn gate_decision_spec(
    policy: AccessPolicy,
    me: Option<u64>,
    msg: MessageInfo,
) -> GateDecision {
    if !guild_allowed(policy, msg) {
        GateDecision::RejectGuild
    } else if is_self_message(me, msg) {
        GateDecision::RejectSelf
    } else if msg.author_is_bot {
        GateDecision::RejectBot
    } else {
        GateDecision::Admit
    }
}

/// Decides whether `msg` is eligible for dispatch under `policy`, given
/// the currently loaded bot identity `me` (`None` while still unknown),
/// and reports which check rejected it.
pub fn gate_decision(policy: &AccessPolicy, me: Option<u64>, msg: &MessageInfo) -> (r: GateDecision)
    ensures
        r == gate_decision_spec(*policy, me, *msg),
{
    let guild_ok = match msg.guild_id {
        None => true,
        Some(g) => g == policy.allowed_guild,
    };
    if !guild_ok {
        return GateDecision::RejectGuild;
    }
    let from_self = match me {
        Some(id) => id == msg.author_id,
        None => false,
    };
    if from_self {
        return GateDecision::RejectSelf;
    }
    if msg.author_is_bot {
        return GateDecision::RejectBot;
    }
    GateDecision::Admit
}

/// Whether `msg` is eligible for dispatch under every criterion.
pub fn admitted(policy: &AccessPolicy, me: Option<u64>, msg: &MessageInfo) -> (r: bool)
    ensures
        r == (gate_decision_spec(*policy, me, *msg) is Admit),
{
    matches!(gate_decision(policy, me, msg), GateDecision::Admit)
}

/// A message whose guild is set and not the allow-listed guild is
/// rejected, whatever its author and bot flag, and whatever identity is
/// loaded.
pub proof fn lemma_foreign_guild_rejected(policy: AccessPolicy, me: Option<u64>, msg: MessageInfo)
    requires
        msg.guild_id is Some,
        msg.guild_id != Some(policy.allowed_guild),
    ensures
        gate_decision_spec(policy, me, msg) == GateDecision::RejectGuild,
{
}

/// A message authored by the loaded bot identity is rejected as a
/// self-message; the same message is admitted while the identity is still
/// unknown, since an unknown identity never equals a real author.
pub proof fn lemma_self_message_gate(policy: AccessPolicy, msg: MessageInfo)
    requires
        guild_allowed(policy, msg),
    ensures
        gate_decision_spec(policy, Some(msg.author_id), msg) == GateDecision::RejectSelf,
        gate_decision_spec(policy, None, msg) != GateDecision::RejectSelf,
        !msg.author_is_bot ==> gate_decision_spec(policy, None, msg) == GateDecision::Admit,
{
}

} // verus!
