//! With the daemon or without it: how a command is carried out, and what is said where it cannot
//! be.
use crate::client::command::Command;
use crate::protocol::frame::PROTOCOL_VERSION;
use crate::text::{decimal, decimal_of, starts, starts_with};
use vstd::prelude::*;
use vstd::string::*;

verus! {

/// How a command is carried out: by the daemon, or without it for a reason.
#[derive(Debug)]
pub enum ExecutionMode {
    Daemon,
    Local(String),
}

/// What has to be done before a command, to know how it is carried out.
#[derive(Clone, Copy, Debug, PartialEq, Eq, Structural)]
pub enum Preparation {
    /// Nothing: the daemon is used as it is.
    UseDaemon,
    /// The daemon is started if it is not there.
    StartDaemon,
    /// The daemon is asked, and done without if it does not answer as it should.
    AskDaemon,
    /// The daemon is started if it is not there, and has to answer as it should.
    RequireDaemon,
}

/// Whether a command can be carried out without the daemon.
pub open spec fn works_locally(command: Option<Command>) -> bool {
    match command {
        Some(Command::Kill { .. }) => true,
        Some(Command::Logs { .. }) => true,
        Some(Command::Events { .. }) => true,
        Some(Command::List) => true,
        Some(Command::Status { .. }) => true,
        _ => false,
    }
}

/// Whether a command can be carried out without the daemon.
pub fn command_supports_local_mode(command: &Option<Command>) -> (r: bool)
    ensures
        r == works_locally(*command),
{
    match command {
        Some(Command::Kill { .. }) => true,
        Some(Command::Logs { .. }) => true,
        Some(Command::Events { .. }) => true,
        Some(Command::List) => true,
        Some(Command::Status { .. }) => true,
        _ => false,
    }
}

/// What has to be done before a command.
pub open spec fn preparation(command: Option<Command>) -> Preparation {
    match command {
        Some(Command::DaemonUpgrade) => Preparation::UseDaemon,
        Some(Command::DaemonInfo) => Preparation::StartDaemon,
        Some(Command::DaemonRestart { .. }) => Preparation::StartDaemon,
        other => if works_locally(other) {
            Preparation::AskDaemon
        } else {
            Preparation::RequireDaemon
        },
    }
}

/// What has to be done before a command.
pub fn resolve_execution_mode(command: &Option<Command>) -> (r: Preparation)
    ensures
        r == preparation(*command),
{
    match command {
        Some(Command::DaemonUpgrade) => Preparation::UseDaemon,
        Some(Command::DaemonInfo) => Preparation::StartDaemon,
        Some(Command::DaemonRestart { .. }) => Preparation::StartDaemon,
        _ => if command_supports_local_mode(command) {
            Preparation::AskDaemon
        } else {
            Preparation::RequireDaemon
        },
    }
}

/// What asking the daemon came to.
#[derive(Debug)]
pub enum DaemonState {
    /// It answers, with a version of the protocol.
    Answers(u16),
    /// It is there and could not be asked, for a reason.
    Unclear(String),
    /// It was not there; now it is, or it is not.
    Started(bool),
}

/// Why the daemon is done without; nothing where it is used.
pub open spec fn degraded_reason(state: DaemonState) -> Option<Seq<char>> {
    match state {
        DaemonState::Answers(version) => if version == PROTOCOL_VERSION {
            None
        } else {
            Some(
                "agentd protocol version "@ + decimal(version as nat)
                    + " is incompatible with agent protocol version "@ + decimal(
                    PROTOCOL_VERSION as nat,
                ),
            )
        },
        DaemonState::Unclear(reason) => Some("agentd could not be queried: "@ + reason@),
        DaemonState::Started(usable) => if usable {
            None
        } else {
            Some("agentd is unavailable"@)
        },
    }
}

/// Why the daemon is done without.
pub fn degraded_mode_reason(state: &DaemonState) -> (r: Option<String>)
    ensures
        crate::text::opt_view(r) == degraded_reason(*state),
{
    match state {
        DaemonState::Answers(version) => {
            if *version == PROTOCOL_VERSION {
                return None;
            }
            let mut text = "agentd protocol version ".to_string();
            text.append(decimal_of(*version as u64).as_str());
            text.append(" is incompatible with agent protocol version ");
            text.append(decimal_of(PROTOCOL_VERSION as u64).as_str());
            Some(text)
        },
        DaemonState::Unclear(reason) => {
            let mut text = "agentd could not be queried: ".to_string();
            text.append(reason.as_str());
            Some(text)
        },
        DaemonState::Started(usable) => {
            if *usable {
                None
            } else {
                Some("agentd is unavailable".to_string())
            }
        },
    }
}

/// The commands that say so when they do without the daemon.
#[derive(Clone, Copy, Debug, PartialEq, Eq, Structural)]
pub enum DegradedNoticeCommand {
    Kill,
    List,
    Status,
}

/// Whether a command says that it does without the daemon: the one that stops a session does not
/// where the daemon could not be asked.
pub fn should_print_degraded_notice(command: DegradedNoticeCommand, reason: &str) -> (r: bool)
    ensures
        r == (command != DegradedNoticeCommand::Kill || !starts(
            reason@,
            "agentd could not be queried:"@,
        )),
{
    command != DegradedNoticeCommand::Kill || !starts_with(reason, "agentd could not be queried:")
}

/// What a command says that does without the daemon.
pub fn degraded_notice(reason: &str) -> (r: String)
    ensures
        r@ == "agent: "@ + reason@
            + "; using local degraded mode for metadata/log/session cleanup commands"@,
{
    let mut text = "agent: ".to_string();
    text.append(reason);
    text.append("; using local degraded mode for metadata/log/session cleanup commands");
    text
}

/// What is said of a command that needs a session's terminal.
pub open spec fn live_refusal(reason: Seq<char>) -> Seq<char> {
    reason
        + ". this command needs a compatible daemon with a live PTY; use `agent sessions` and `agent kill` first"@
}

/// What is said of a command that needs a session's terminal.
pub fn bail_live_command(reason: &str) -> (r: String)
    ensures
        r@ == live_refusal(reason@),
{
    let mut text = reason.to_string();
    text.append(
        ". this command needs a compatible daemon with a live PTY; use `agent sessions` and `agent kill` first",
    );
    text
}

/// What is said of a command that needs the daemon.
pub open spec fn daemon_refusal(reason: Seq<char>, command: Seq<char>) -> Seq<char> {
    reason + ". `"@ + command + "` requires a compatible daemon"@
}

/// What is said of a command that needs the daemon.
pub fn bail_daemon_command(reason: &str, command: &str) -> (r: String)
    ensures
        r@ == daemon_refusal(reason@, command@),
{
    let mut text = reason.to_string();
    text.append(". `");
    text.append(command);
    text.append("` requires a compatible daemon");
    text
}

} // verus!
