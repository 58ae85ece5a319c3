//! End-to-end exercises of the dispatch core: prefix recognition and
//! rendering, the access gate, the per-message decisions, reply planning
//! and the fault guard.

use bot_george::config::config_path;
use bot_george::dispatch::Command;
use bot_george::dispatch::CommandKind;
use bot_george::dispatch::CommandOutcome;
use bot_george::dispatch::DispatchGuard;
use bot_george::dispatch::HandlerEnd;
use bot_george::dispatch::ParseOutcome;
use bot_george::dispatch::Reply;
use bot_george::dispatch::ReplyBody;
use bot_george::dispatch::RoleCommand;
use bot_george::dispatch::fault_notice_text;
use bot_george::dispatch::plan_normal_reply;
use bot_george::dispatch::route_command;
use bot_george::dispatch::unsupported_notice_text;
use bot_george::gate::AccessPolicy;
use bot_george::gate::GateDecision;
use bot_george::gate::MessageInfo;
use bot_george::gate::admitted;
use bot_george::gate::gate_decision;
use bot_george::handler::ChannelStep;
use bot_george::handler::Handler;
use bot_george::handler::MessageStep;
use bot_george::handler::private_channel_step;
use bot_george::prefix::find_command_start;
use bot_george::prefix::render_command;

const GUILD: u64 = 7001;

fn handler_with_prefix(prefix: &[u8]) -> Handler {
    Handler::new(prefix.to_vec(), 11).expect("construction never fails")
}

fn message(author_id: u64, author_is_bot: bool, guild_id: Option<u64>, content: &[u8]) -> MessageInfo {
    MessageInfo {
        author_id,
        author_is_bot,
        guild_id,
        channel_id: 42,
        content: content.to_vec(),
    }
}

fn policy() -> AccessPolicy {
    AccessPolicy { allowed_guild: GUILD }
}

// Prefix matching and rendering.

#[test]
fn punctuation_prefix_round_trip() {
    let prefix = b"!".to_vec();
    let command = b"help".to_vec();
    let rendered = render_command(&prefix, &command);
    assert_eq!(rendered, b"!help".to_vec());
    let start = find_command_start(&prefix, &rendered).expect("rendered text must match");
    assert_eq!(start, 1);
    assert_eq!(&rendered[start..], b"help");
}

#[test]
fn word_prefix_round_trip_inserts_separator() {
    let prefix = b"bot".to_vec();
    let command = b"help".to_vec();
    let rendered = render_command(&prefix, &command);
    assert_eq!(rendered, b"bot help".to_vec());
    let start = find_command_start(&prefix, &rendered).expect("rendered text must match");
    assert_eq!(start, 3);
    assert_eq!(&rendered[start..], b" help");
}

#[test]
fn word_prefix_fused_does_not_match() {
    let prefix = b"bot".to_vec();
    assert_eq!(find_command_start(&prefix, &b"bothelp".to_vec()), None);
}

#[test]
fn word_prefix_matches_at_end_of_text() {
    let prefix = b"bot".to_vec();
    assert_eq!(find_command_start(&prefix, &b"bot".to_vec()), Some(3));
}

#[test]
fn word_prefix_matches_before_non_word_byte() {
    let prefix = b"bot".to_vec();
    assert_eq!(find_command_start(&prefix, &b"bot: x".to_vec()), Some(3));
}

#[test]
fn leading_whitespace_is_skipped() {
    let prefix = b"!".to_vec();
    let text = b" \t !help".to_vec();
    assert_eq!(find_command_start(&prefix, &text), Some(4));
}

#[test]
fn unrelated_text_does_not_match() {
    let prefix = b"!".to_vec();
    assert_eq!(find_command_start(&prefix, &b"role list".to_vec()), None);
    assert_eq!(find_command_start(&prefix, &b"x !help".to_vec()), None);
}

#[test]
fn empty_prefix_matches_past_leading_whitespace() {
    let prefix = b"".to_vec();
    assert_eq!(find_command_start(&prefix, &b"  x".to_vec()), Some(2));
    assert_eq!(find_command_start(&prefix, &b"x".to_vec()), Some(0));
}

#[test]
fn word_prefix_before_non_word_command_needs_no_separator() {
    let prefix = b"bot".to_vec();
    let command = b"!x".to_vec();
    let rendered = render_command(&prefix, &command);
    assert_eq!(rendered, b"bot!x".to_vec());
    assert_eq!(find_command_start(&prefix, &rendered), Some(3));
}

#[test]
fn handler_prefix_command_renders_invocation() {
    let handler = handler_with_prefix(b"bot");
    let rendered = handler.prefix_command(&b"help".to_vec());
    assert_eq!(rendered, b"bot help".to_vec());
    assert_eq!(handler.find_command_start(&rendered), Some(3));
}

// The access gate.

#[test]
fn foreign_guild_rejected_for_all_author_kinds() {
    let p = policy();
    for &author in &[1u64, 99] {
        for &bot in &[false, true] {
            for &me in &[None, Some(1u64)] {
                let msg = message(author, bot, Some(GUILD + 1), b"!help");
                assert_eq!(gate_decision(&p, me, &msg), GateDecision::RejectGuild);
                assert!(!admitted(&p, me, &msg));
            }
        }
    }
}

#[test]
fn allowed_guild_and_direct_messages_pass_the_guild_check() {
    let p = policy();
    let in_guild = message(1, false, Some(GUILD), b"!help");
    let direct = message(1, false, None, b"!help");
    assert_eq!(gate_decision(&p, None, &in_guild), GateDecision::Admit);
    assert_eq!(gate_decision(&p, None, &direct), GateDecision::Admit);
}

#[test]
fn self_message_rejected_once_identity_is_loaded() {
    let p = policy();
    let msg = message(500, false, None, b"!help");
    assert_eq!(gate_decision(&p, Some(500), &msg), GateDecision::RejectSelf);
    assert!(!admitted(&p, Some(500), &msg));
}

#[test]
fn same_message_admitted_before_identity_is_stored() {
    let p = policy();
    let msg = message(500, false, None, b"!help");
    assert_eq!(gate_decision(&p, None, &msg), GateDecision::Admit);
    assert!(admitted(&p, None, &msg));
}

#[test]
fn bot_author_rejected() {
    let p = policy();
    let msg = message(500, true, None, b"!help");
    assert_eq!(gate_decision(&p, Some(7), &msg), GateDecision::RejectBot);
}

#[test]
fn guild_rejection_wins_over_other_checks() {
    let p = policy();
    let msg = message(500, true, Some(GUILD + 3), b"!help");
    assert_eq!(gate_decision(&p, Some(500), &msg), GateDecision::RejectGuild);
}

// Per-message decisions of the handler.

#[test]
fn prefixed_message_dispatches_after_the_prefix() {
    let mut handler = handler_with_prefix(b"!");
    handler.ready(900);
    let msg = message(1, false, Some(GUILD), b"!role list");
    let step = handler.message_step(&policy(), &msg);
    assert_eq!(step, MessageStep::Dispatch { start: 1 });
    assert_eq!(&msg.content[1..], b"role list");
}

#[test]
fn private_unprefixed_message_is_whole_command_text() {
    let handler = handler_with_prefix(b"!");
    let msg = message(1, false, None, b"role list");
    let step = handler.message_step(&policy(), &msg);
    assert_eq!(step, MessageStep::NeedChannelKind);
    assert_eq!(private_channel_step(true), ChannelStep::DispatchWhole);
    assert_eq!(&msg.content[..], b"role list");
}

#[test]
fn guild_unprefixed_message_is_ignored() {
    let handler = handler_with_prefix(b"!");
    let msg = message(1, false, Some(GUILD), b"role list");
    let step = handler.message_step(&policy(), &msg);
    assert_eq!(step, MessageStep::NeedChannelKind);
    assert_eq!(private_channel_step(false), ChannelStep::Ignore);
}

#[test]
fn rejected_message_is_never_dispatched() {
    let mut handler = handler_with_prefix(b"!");
    handler.ready(77);
    let msg = message(77, false, None, b"!help");
    let step = handler.message_step(&policy(), &msg);
    assert_eq!(step, MessageStep::Rejected { decision: GateDecision::RejectSelf });
}

#[test]
fn identity_starts_unknown_and_is_stored_by_ready() {
    let mut handler = handler_with_prefix(b"!");
    assert_eq!(handler.load_me(), None);
    handler.ready(12345);
    assert_eq!(handler.load_me(), Some(12345));
}

// Routing and reply planning.

#[test]
fn every_command_kind_reports_unsupported() {
    let commands = vec![
        (Command::Help { topic: b"roles".to_vec() }, CommandKind::Help),
        (Command::Role { command: RoleCommand::Help { topic: vec![] } }, CommandKind::RoleHelp),
        (Command::Role { command: RoleCommand::List }, CommandKind::RoleList),
        (Command::Role { command: RoleCommand::Show { user: b"u".to_vec() } }, CommandKind::RoleShow),
        (
            Command::Role {
                command: RoleCommand::Add { user: b"u".to_vec(), roles: vec![b"r".to_vec()] },
            },
            CommandKind::RoleAdd,
        ),
        (
            Command::Role {
                command: RoleCommand::Remove { user: b"u".to_vec(), roles: vec![b"r".to_vec()] },
            },
            CommandKind::RoleRemove,
        ),
        (Command::Modmail { message: b"hi".to_vec() }, CommandKind::Modmail),
    ];
    for (cmd, kind) in commands {
        assert_eq!(route_command(&cmd), CommandOutcome::Unsupported(kind));
    }
}

#[test]
fn parse_failure_is_reported_verbatim_to_the_channel() {
    let reply = plan_normal_reply(42, ParseOutcome::Failed(b"expected a command".to_vec()));
    assert_eq!(
        reply,
        Reply { channel_id: 42, body: ReplyBody::ParseError(b"expected a command".to_vec()) },
    );
}

#[test]
fn parsed_command_is_reported_not_available() {
    let reply = plan_normal_reply(42, ParseOutcome::Parsed(Command::Role {
        command: RoleCommand::List,
    }));
    assert_eq!(reply, Reply { channel_id: 42, body: ReplyBody::Unsupported(CommandKind::RoleList) });
}

// The fault guard.

#[test]
fn faulted_handler_owes_exactly_the_fault_notice() {
    let guard = DispatchGuard::new(42);
    let owed = guard.on_scope_exit(HandlerEnd::Faulted);
    assert_eq!(owed, Some(Reply { channel_id: 42, body: ReplyBody::FaultNotice }));
}

#[test]
fn completed_handler_owes_no_fault_notice() {
    let guard = DispatchGuard::new(42);
    assert_eq!(guard.on_scope_exit(HandlerEnd::Completed), None);
}

#[test]
fn fault_notice_is_the_fixed_generic_text() {
    assert_eq!(fault_notice_text(), "**ERROR:** thread panicked while servicing your request");
    assert_eq!(unsupported_notice_text(), "that command is recognized but not available yet");
}

#[test]
fn concurrent_channels_get_their_own_replies_only() {
    let channels = [101u64, 202, 303];
    let guards: Vec<DispatchGuard> = channels.iter().map(|&c| DispatchGuard::new(c)).collect();
    // The middle handler faults; the others complete with their own replies.
    let ends = [HandlerEnd::Completed, HandlerEnd::Faulted, HandlerEnd::Completed];
    let mut notices = vec![];
    for (guard, &end) in guards.iter().zip(ends.iter()) {
        if let Some(reply) = guard.on_scope_exit(end) {
            notices.push(reply);
        }
    }
    assert_eq!(notices, vec![Reply { channel_id: 202, body: ReplyBody::FaultNotice }]);
    for (&channel, &end) in channels.iter().zip(ends.iter()) {
        if end == HandlerEnd::Completed {
            let reply = plan_normal_reply(channel, ParseOutcome::Failed(b"e".to_vec()));
            assert_eq!(reply.channel_id, channel);
        }
    }
}

// Configuration.

#[test]
fn config_path_defaults_and_overrides() {
    assert_eq!(config_path(None), "config.toml");
    assert_eq!(config_path(Some("elsewhere.toml".to_string())), "elsewhere.toml");
}

// Edge cases of matching and rendering.

#[test]
fn empty_command_renders_and_matches_at_text_end() {
    let prefix = b"bot".to_vec();
    let rendered = render_command(&prefix, &b"".to_vec());
    assert_eq!(rendered, b"bot".to_vec());
    assert_eq!(find_command_start(&prefix, &rendered), Some(3));
}

#[test]
fn whitespace_prefix_consumes_leading_whitespace_greedily() {
    let prefix = b" ".to_vec();
    // Both offsets 0 and 1 carry the prefix; the match takes the later one.
    assert_eq!(find_command_start(&prefix, &b"  x".to_vec()), Some(2));
}

#[test]
fn empty_message_in_private_channel_is_still_command_text() {
    let handler = handler_with_prefix(b"!");
    let msg = message(1, false, None, b"");
    assert_eq!(handler.message_step(&policy(), &msg), MessageStep::NeedChannelKind);
    assert_eq!(private_channel_step(true), ChannelStep::DispatchWhole);
}

#[test]
fn whitespace_only_message_does_not_match_a_word_prefix() {
    let prefix = b"bot".to_vec();
    assert_eq!(find_command_start(&prefix, &b"   ".to_vec()), None);
}
