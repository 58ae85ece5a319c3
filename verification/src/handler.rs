//! The event handler: per-event decisions of the dispatch core.
//!
//! The handler owns the configured prefix, the superuser id and the bot's
//! own identity, which is unknown until the ready event stores it. For
//! each message event it decides — gate, then prefix, then the private
//! channel fallback — whether the message carries command text and where
//! that text begins.

use vstd::prelude::*;

use crate::config::ConfigError;
use crate::gate::AccessPolicy;
use crate::gate::GateDecision;
use crate::gate::MessageInfo;
use crate::gate::gate_decision;
use crate::gate::gate_decision_spec;
use crate::prefix::find_command_start;
use crate::prefix::find_spec;
use crate::prefix::render_command;
use crate::prefix::render_spec;

verus! {

/// The dispatch core's per-process state: the configured prefix, the
/// superuser id, and the bot's own identity once known.
#[derive(Clone)]
pub struct Handler {
    /// The configured command prefix, as raw bytes.
    pub prefix: Vec<u8>,
    /// The superuser's platform id, from configuration.
    pub superuser: u64,
    /// The bot's own platform id; `None` until the ready event stores it.
    pub me: Option<u64>,
}

/// What the handler decided of one message event.
#[derive(Clone, Copy, Debug, PartialEq, Eq, Structural)]
pub enum MessageStep {
    /// The access gate rejected the message, for the reason given.
    Rejected { decision: GateDecision },
    /// The message is prefixed: its command text begins at `start`.
    Dispatch { start: usize },
    /// The message is admitted but not prefixed: whether it is command
    /// text depends on the channel being private, which only the platform
    /// client can resolve.
    NeedChannelKind,
}

/// The handler's decision for one message event, given the policy and the
/// loaded identity.
pub open spec fn message_step_spec(h: Handler, policy: AccessPolicy, msg: MessageInfo) -> MessageStep {
    let decision = gate_decision_spec(policy, h.me, msg);
    if !(decision is Admit) {
        MessageStep::Rejected { decision }
    } else {
        match find_spec(h.prefix@, msg.content@) {
            Some(k) => MessageStep::Dispatch { start: k as usize },
            None => MessageStep::NeedChannelKind,
        }
    }
}

/// The follow-up decision once the channel's kind is known: in a private
/// channel the whole message text is command text, with no prefix
/// required; elsewhere an unprefixed message is not a command.
#[derive(Clone, Copy, Debug, PartialEq, Eq, Structural)]
pub enum ChannelStep {
    /// Dispatch the entire message text as command text.
    DispatchWhole,
    /// The message is not a command; drop it.
    Ignore,
}

impl Handler {
    /// Builds the handler from the configured prefix and superuser id.
    /// Any prefix is accepted: the matcher recognizes it literally, so
    /// construction always succeeds; the identity starts unknown.
    pub fn new(prefix: Vec<u8>, superuser: u64) -> (r: Result<Handler, ConfigError>)
        ensures
            r is Ok,
            r->Ok_0.prefix@ == prefix@,
            r->Ok_0.superuser == superuser,
            r->Ok_0.me is None,
    {
        Ok(Handler { prefix, superuser, me: None })
    }

    /// Renders the invocation of `command` under the configured prefix,
    /// with a separating space inserted whenever direct concatenation
    /// would not be recognized; the result always matches the prefix.
    pub fn prefix_command(&self, command: &Vec<u8>) -> (r: Vec<u8>)
        ensures
            r@ == render_spec(self.prefix@, command@),
            find_spec(self.prefix@, r@) is Some,
    {
        render_command(&self.prefix, command)
    }

    /// Finds where command text begins in `text` under the configured
    /// prefix; `None` when the text is not prefixed.
    pub fn find_command_start(&self, text: &Vec<u8>) -> (r: Option<usize>)
        ensures
            match r {
                Some(k) => find_spec(self.prefix@, text@) == Some(k as int) && k <= text@.len(),
                None => find_spec(self.prefix@, text@) is None,
            },
    {
        find_command_start(&self.prefix, text)
    }

    /// Stores the bot's own id when the ready event fires. The prefix and
    /// superuser are untouched; from here on the identity is known.
    pub fn ready(&mut self, id: u64)
        ensures
            final(self).me == Some(id),
            final(self).prefix@ == old(self).prefix@,
            final(self).superuser == old(self).superuser,
    {
        self.me = Some(id);
    }

    /// The currently loaded identity: `None` until the ready event has
    /// stored it.
    pub fn load_me(&self) -> (r: Option<u64>)
        ensures
            r == self.me,
    {
        self.me
    }

    /// Decides one message event: applies the access gate under the loaded
    /// identity, then looks for the prefix; an admitted, unprefixed
    /// message is deferred to the channel-kind check.
    pub fn message_step(&self, policy: &AccessPolicy, msg: &MessageInfo) -> (r: MessageStep)
        ensures
            r == message_step_spec(*self, *policy, *msg),
    {
        let decision = gate_decision(policy, self.load_me(), msg);
        if !matches!(decision, GateDecision::Admit) {
            return MessageStep::Rejected { decision };
        }
        match self.find_command_start(&msg.content) {
            Some(k) => MessageStep::Dispatch { start: k },
            None => MessageStep::NeedChannelKind,
        }
    }
}

/// Decides an admitted, unprefixed message once the channel's kind is
/// known: in a private channel the whole text is dispatched as command
/// text, elsewhere the message is dropped.
pub fn private_channel_step(is_private: bool) -> (r: ChannelStep)
    ensures
        r == (if is_private {
            ChannelStep::DispatchWhole
        } else {
            ChannelStep::Ignore
        }),
{
    if is_private {
        ChannelStep::DispatchWhole
    } else {
        ChannelStep::Ignore
    }
}

/// A message in a private channel with no matching prefix is still
/// treated as command text: an admitted message the matcher does not
/// recognize is deferred to the channel-kind check, and a private channel
/// dispatches the whole text.
pub proof fn lemma_private_unprefixed_is_command(h: Handler, policy: AccessPolicy, msg: MessageInfo)
    requires
        gate_decision_spec(policy, h.me, msg) is Admit,
        find_spec(h.prefix@, msg.content@) is None,
    ensures
        message_step_spec(h, policy, msg) is NeedChannelKind,
{
}

} // verus!
