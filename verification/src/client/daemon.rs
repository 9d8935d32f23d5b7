//! The daemon as a client sees it: whether it can be used, started, stopped and replaced.
use crate::client::exchange::ClientResponse;
use crate::paths::AppPaths;
use crate::protocol::frame::PROTOCOL_VERSION;
use crate::protocol::management::{DaemonManagementResponse, DaemonManagementStatus};
use crate::protocol::record::DaemonInfo;
use crate::session::{SessionRecord, SessionStatus};
use crate::text::{
    decimal, decimal_of, number_of, parse_i32, parse_u32, signed_decimal, signed_decimal_of,
    signed_number_of, trim, trimmed,
};
use vstd::prelude::*;
use vstd::string::*;

verus! {

// ---------------------------------------------------------------------------
// The files of a daemon
// ---------------------------------------------------------------------------
/// The process that a daemon's file names: none where it is blank.
pub fn daemon_pid(contents: &str, paths: &AppPaths) -> (r: Result<Option<u32>, String>)
    ensures
        if trimmed(contents@).len() == 0 {
            r == Ok::<Option<u32>, String>(None)
        } else {
            match number_of(trimmed(contents@), u32::MAX as int) {
                Some(pid) => r == Ok::<Option<u32>, String>(Some(pid as u32)),
                None => r matches Err(message) && message@ == "failed to parse pid from "@
                    + paths.pid_file@,
            }
        },
{
    let raw = trim(contents);
    if raw.as_str().unicode_len() == 0 {
        return Ok(None);
    }
    match parse_u32(raw.as_str()) {
        Some(pid) => Ok(Some(pid)),
        None => {
            let mut message = "failed to parse pid from ".to_string();
            message.append(paths.pid_file.as_str());
            Err(message)
        },
    }
}

/// The process to end that a daemon's file names.
pub fn daemon_pid_to_end(contents: &str) -> (r: Result<i32, String>)
    ensures
        match signed_number_of(trimmed(contents@), i32::MIN as int, i32::MAX as int) {
            Some(pid) => r == Ok::<i32, String>(pid as i32),
            None => r matches Err(message) && message@ == "invalid daemon pid file"@,
        },
{
    match parse_i32(trim(contents).as_str()) {
        Some(pid) => Ok(pid),
        None => Err("invalid daemon pid file".to_string()),
    }
}

/// Why a daemon's files cannot be cleared away: its process is still there.
pub open spec fn not_stale(pid: u32, socket_exists: bool, socket: Seq<char>) -> Seq<char> {
    if socket_exists {
        "agentd is running (pid "@ + decimal(pid as nat)
            + ") but not responding; restart the daemon"@
    } else {
        "agentd is running (pid "@ + decimal(pid as nat) + ") but socket "@ + socket
            + " is missing; restart the daemon"@
    }
}

/// Asks that a daemon's files may be cleared away: `running` says whether the process that they
/// name is there.
pub fn check_stale_daemon(
    pid: Option<u32>,
    running: bool,
    socket_exists: bool,
    paths: &AppPaths,
) -> (r: Result<(), String>)
    ensures
        match pid {
            Some(pid) => if running {
                r matches Err(message) && message@ == not_stale(
                    pid,
                    socket_exists,
                    paths.socket@,
                )
            } else {
                r is Ok
            },
            None => r is Ok,
        },
{
    if let Some(pid) = pid {
        if running {
            let mut message = "agentd is running (pid ".to_string();
            message.append(decimal_of(pid as u64).as_str());
            if socket_exists {
                message.append(") but not responding; restart the daemon");
                return Err(message);
            }
            message.append(") but socket ");
            message.append(paths.socket.as_str());
            message.append(" is missing; restart the daemon");
            return Err(message);
        }
    }
    Ok(())
}

/// Whether waiting for the daemon is over: nothing where it has to be looked for again.
pub fn wait_for_daemon(arrived: bool, deadline_passed: bool, starts: bool) -> (r: Option<
    Result<(), String>,
>)
    ensures
        if arrived {
            r == Some(Ok::<(), String>(()))
        } else if deadline_passed {
            r matches Some(Err(message)) && message@ == (if starts {
                "timed out waiting for agentd to start"@
            } else {
                "timed out waiting for agentd to stop"@
            })
        } else {
            r is None
        },
{
    if arrived {
        return Some(Ok(()));
    }
    if deadline_passed {
        let message = if starts {
            "timed out waiting for agentd to start"
        } else {
            "timed out waiting for agentd to stop"
        };
        return Some(Err(message.to_string()));
    }
    None
}

// ---------------------------------------------------------------------------
// Answers
// ---------------------------------------------------------------------------
/// What came of a request: an answer, a failure on the way, or nothing in time.
#[derive(Debug)]
pub enum Reply<T> {
    Answer(T),
    Failed,
    TimedOut,
}

/// Why an answer is none.
#[derive(Debug)]
pub enum ReplyFault<T> {
    /// The daemon refuses, in its own words.
    Refused(String),
    /// The request failed on the way, or was not answered in time.
    Broken(&'static str),
    /// The daemon answers something else.
    Unexpected(T),
}

/// What is said of a daemon that does not understand its client.
pub fn incompatible_daemon_message() -> (r: &'static str)
    ensures
        r@ == "agentd is out of date with the client; try upgrading the daemon"@,
{
    "agentd is out of date with the client; try upgrading the daemon"
}

/// Which daemon answers.
pub fn daemon_info(reply: Reply<ClientResponse>) -> (r: Result<
    DaemonInfo,
    ReplyFault<ClientResponse>,
>)
    ensures
        match reply {
            Reply::Answer(ClientResponse::DaemonInfo { info }) => r matches Ok(found) && found
                == info,
            Reply::Answer(ClientResponse::Error { message }) => r matches Err(
                ReplyFault::Refused(text),
            ) && text == message,
            Reply::Answer(other) => r matches Err(ReplyFault::Unexpected(response)) && response
                == other,
            _ => r matches Err(ReplyFault::Broken(text)) && text@
                == "agentd is out of date with the client; try upgrading the daemon"@,
        },
{
    match reply {
        Reply::Answer(ClientResponse::DaemonInfo { info }) => Ok(info),
        Reply::Answer(ClientResponse::Error { message }) => Err(ReplyFault::Refused(message)),
        Reply::Answer(other) => Err(ReplyFault::Unexpected(other)),
        _ => Err(ReplyFault::Broken(incompatible_daemon_message())),
    }
}

/// How the daemon is, by its management protocol.
pub fn management_status(reply: Reply<DaemonManagementResponse>) -> (r: Result<
    DaemonManagementStatus,
    ReplyFault<DaemonManagementResponse>,
>)
    ensures
        match reply {
            Reply::Answer(DaemonManagementResponse::Status { status }) => r matches Ok(found)
                && found == status,
            Reply::Answer(DaemonManagementResponse::Error { message }) => r matches Err(
                ReplyFault::Refused(text),
            ) && text == message,
            Reply::Answer(other) => r matches Err(ReplyFault::Unexpected(response)) && response
                == other,
            Reply::Failed => r matches Err(ReplyFault::Broken(text)) && text@
                == "daemon management status request failed"@,
            Reply::TimedOut => r matches Err(ReplyFault::Broken(text)) && text@
                == "timed out waiting for daemon management status"@,
        },
{
    match reply {
        Reply::Answer(DaemonManagementResponse::Status { status }) => Ok(status),
        Reply::Answer(DaemonManagementResponse::Error { message }) => Err(
            ReplyFault::Refused(message),
        ),
        Reply::Answer(other) => Err(ReplyFault::Unexpected(other)),
        Reply::Failed => Err(ReplyFault::Broken("daemon management status request failed")),
        Reply::TimedOut => Err(ReplyFault::Broken("timed out waiting for daemon management status")),
    }
}

/// Whether the daemon stops, by its management protocol.
pub fn management_shutdown(reply: Reply<DaemonManagementResponse>) -> (r: Result<
    (),
    ReplyFault<DaemonManagementResponse>,
>)
    ensures
        match reply {
            Reply::Answer(
                DaemonManagementResponse::Shutdown { stopped, running_sessions, message },
            ) => if stopped {
                r is Ok
            } else {
                r matches Err(ReplyFault::Refused(text)) && text == message
            },
            Reply::Answer(DaemonManagementResponse::Error { message }) => r matches Err(
                ReplyFault::Refused(text),
            ) && text == message,
            Reply::Answer(other) => r matches Err(ReplyFault::Unexpected(response)) && response
                == other,
            Reply::Failed => r matches Err(ReplyFault::Broken(text)) && text@
                == "daemon management shutdown request failed"@,
            Reply::TimedOut => r matches Err(ReplyFault::Broken(text)) && text@
                == "timed out waiting for daemon management shutdown"@,
        },
{
    match reply {
        Reply::Answer(DaemonManagementResponse::Shutdown { stopped, message, .. }) => {
            if stopped {
                Ok(())
            } else {
                Err(ReplyFault::Refused(message))
            }
        },
        Reply::Answer(DaemonManagementResponse::Error { message }) => Err(
            ReplyFault::Refused(message),
        ),
        Reply::Answer(other) => Err(ReplyFault::Unexpected(other)),
        Reply::Failed => Err(ReplyFault::Broken("daemon management shutdown request failed")),
        Reply::TimedOut => Err(
            ReplyFault::Broken("timed out waiting for daemon management shutdown"),
        ),
    }
}

/// What follows the request that a daemon without a management protocol stop.
#[derive(Debug)]
pub enum ShutdownNext {
    /// It stops: it is waited for.
    Wait,
    /// It does not understand: its process is ended.
    EndProcess,
    /// It refuses.
    Refused(String),
}

/// What follows the request that a daemon without a management protocol stop.
pub fn plain_shutdown(reply: Reply<ClientResponse>) -> (r: ShutdownNext)
    ensures
        r == match reply {
            Reply::Answer(ClientResponse::Done) => ShutdownNext::Wait,
            Reply::Answer(ClientResponse::Error { message }) => ShutdownNext::Refused(message),
            _ => ShutdownNext::EndProcess,
        },
{
    match reply {
        Reply::Answer(ClientResponse::Done) => ShutdownNext::Wait,
        Reply::Answer(ClientResponse::Error { message }) => ShutdownNext::Refused(message),
        _ => ShutdownNext::EndProcess,
    }
}

/// Whether any session runs.
pub open spec fn any_running(sessions: Seq<SessionRecord>) -> bool {
    exists|i: int|
        0 <= i < sessions.len() && (#[trigger] sessions[i]).status == SessionStatus::Running
}

/// Whether any session of a daemon runs.
pub fn daemon_has_running_sessions(reply: Reply<ClientResponse>) -> (r: Result<
    bool,
    ReplyFault<ClientResponse>,
>)
    ensures
        match reply {
            Reply::Answer(ClientResponse::Sessions { sessions }) => r matches Ok(running)
                && running == any_running(sessions@),
            Reply::Answer(ClientResponse::Error { message }) => r matches Err(
                ReplyFault::Refused(text),
            ) && text == message,
            Reply::Answer(other) => r matches Err(ReplyFault::Unexpected(response)) && response
                == other,
            _ => r matches Err(ReplyFault::Broken(text)) && text@
                == "agentd is out of date with the client; try upgrading the daemon"@,
        },
{
    match reply {
        Reply::Answer(ClientResponse::Sessions { sessions }) => Ok(is_any_running(&sessions)),
        Reply::Answer(ClientResponse::Error { message }) => Err(ReplyFault::Refused(message)),
        Reply::Answer(other) => Err(ReplyFault::Unexpected(other)),
        _ => Err(ReplyFault::Broken(incompatible_daemon_message())),
    }
}

fn is_any_running(sessions: &Vec<SessionRecord>) -> (r: bool)
    ensures
        r == any_running(sessions@),
{
    let mut i: usize = 0;
    while i < sessions.len()
        invariant
            i <= sessions.len(),
            forall|k: int|
                0 <= k < i ==> (#[trigger] sessions@[k]).status != SessionStatus::Running,
        decreases sessions.len() - i,
    {
        if sessions[i].status == SessionStatus::Running {
            return true;
        }
        i = i + 1;
    }
    false
}

// ---------------------------------------------------------------------------
// Versions
// ---------------------------------------------------------------------------
/// Asks that a daemon speaks the client's protocol.
pub fn check_compatible(info: &DaemonInfo, client_version: &str) -> (r: Result<(), String>)
    ensures
        if info.protocol_version == PROTOCOL_VERSION {
            r is Ok
        } else {
            r matches Err(message) && message@ == "agentd `"@ + info.daemon_version@
                + "` is out of date with agent `"@ + client_version@
                + "`; try upgrading the daemon"@
        },
{
    if info.protocol_version == PROTOCOL_VERSION {
        return Ok(());
    }
    let mut message = "agentd `".to_string();
    message.append(info.daemon_version.as_str());
    message.append("` is out of date with agent `");
    message.append(client_version);
    message.append("`; try upgrading the daemon");
    Err(message)
}

/// Asks that a daemon which does not speak the client's protocol may be replaced: not while its
/// sessions run. `info` is nothing where the daemon does not tell what it is.
pub fn check_replaceable(info: &Option<DaemonInfo>, running: bool, client_version: &str) -> (r:
    Result<(), String>)
    ensures
        if running {
            r matches Err(message) && message@ == "agentd `"@ + (match info {
                Some(info) => info.daemon_version@,
                None => "legacy"@,
            }) + "` is incompatible with agentctl `"@ + client_version@
                + "` and cannot be restarted while sessions are running"@
        } else {
            r is Ok
        },
{
    if !running {
        return Ok(());
    }
    let mut message = "agentd `".to_string();
    match info {
        Some(info) => message.append(info.daemon_version.as_str()),
        None => message.append("legacy"),
    }
    message.append("` is incompatible with agentctl `");
    message.append(client_version);
    message.append("` and cannot be restarted while sessions are running");
    Err(message)
}

/// Asks that the daemon which took another's place speaks the client's protocol.
pub fn check_replaced(info: &DaemonInfo) -> (r: Result<(), String>)
    ensures
        if info.protocol_version == PROTOCOL_VERSION {
            r is Ok
        } else {
            r matches Err(message) && message@ == "agentd `"@ + info.daemon_version@
                + "` still reports incompatible protocol version "@ + decimal(
                info.protocol_version as nat,
            )
        },
{
    if info.protocol_version == PROTOCOL_VERSION {
        return Ok(());
    }
    let mut message = "agentd `".to_string();
    message.append(info.daemon_version.as_str());
    message.append("` still reports incompatible protocol version ");
    message.append(decimal_of(info.protocol_version as u64).as_str());
    Err(message)
}

/// Asks that a daemon may be restarted: while sessions run, only by force.
pub fn check_restart(running_sessions: bool, force: bool) -> (r: Result<(), String>)
    ensures
        if running_sessions && !force {
            r matches Err(message) && message@ == "cannot restart agentd while sessions are running"@
        } else {
            r is Ok
        },
{
    if running_sessions && !force {
        return Err("cannot restart agentd while sessions are running".to_string());
    }
    Ok(())
}

/// Whether the program that upgrades the daemon did its work: `code` is what it ended with, nothing
/// where a signal ended it.
pub fn check_upgrade(success: bool, code: Option<i32>) -> (r: Result<(), String>)
    ensures
        if success {
            r is Ok
        } else {
            match code {
                Some(code) => r matches Err(message) && message@
                    == "agentd upgrade exited with status "@ + signed_decimal(code as int),
                None => r matches Err(message) && message@
                    == "agentd upgrade terminated by signal"@,
            }
        },
{
    if success {
        return Ok(());
    }
    match code {
        Some(code) => {
            let mut message = "agentd upgrade exited with status ".to_string();
            message.append(signed_decimal_of(code as i64).as_str());
            Err(message)
        },
        None => Err("agentd upgrade terminated by signal".to_string()),
    }
}

} // verus!
