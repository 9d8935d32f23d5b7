//! Restarting and replacing the daemon, step by step.
use crate::client::daemon::{
    check_compatible, check_replaceable, check_replaced, check_restart, ShutdownNext,
};
use crate::protocol::frame::PROTOCOL_VERSION;
use crate::protocol::record::DaemonInfo;
use crate::text::decimal;
use vstd::prelude::*;

verus! {

// ---------------------------------------------------------------------------
// Restarting
// ---------------------------------------------------------------------------
/// How far a restart has come: what is being done.
#[derive(Debug)]
pub enum Restart {
    /// The daemon is looked for.
    Connecting,
    /// It is asked whether sessions run.
    Asking,
    /// It is stopped, and waited for.
    Stopping,
    /// A new one is started, and waited for.
    Starting,
    /// The new one is asked what it is.
    Checking,
    /// All is done.
    Finished,
    /// The restart is refused, with a message.
    Refused(String),
    /// What was being done has failed.
    Broken,
}

/// What came of what was being done.
#[derive(Debug)]
pub enum RestartEvent {
    /// Whether a daemon was found.
    Connected(bool),
    /// Whether sessions run.
    Running(bool),
    /// The daemon has stopped.
    Stopped,
    /// A daemon has started.
    Started,
    /// What the daemon is.
    Info(DaemonInfo),
    /// It failed.
    Failed,
}

/// The model of a restart.
pub enum RestartView {
    Connecting,
    Asking,
    Stopping,
    Starting,
    Checking,
    Finished,
    Refused(Seq<char>),
    Broken,
}

impl View for Restart {
    type V = RestartView;

    open spec fn view(&self) -> RestartView {
        match *self {
            Restart::Connecting => RestartView::Connecting,
            Restart::Asking => RestartView::Asking,
            Restart::Stopping => RestartView::Stopping,
            Restart::Starting => RestartView::Starting,
            Restart::Checking => RestartView::Checking,
            Restart::Finished => RestartView::Finished,
            Restart::Refused(message) => RestartView::Refused(message@),
            Restart::Broken => RestartView::Broken,
        }
    }
}

/// What is said of a daemon that does not speak the client's protocol.
pub open spec fn out_of_date(info: DaemonInfo, client_version: Seq<char>) -> Seq<char> {
    "agentd `"@ + info.daemon_version@ + "` is out of date with agent `"@ + client_version
        + "`; try upgrading the daemon"@
}

impl RestartView {
    /// Whether nothing is left to do.
    pub open spec fn ended(self) -> bool {
        self is Finished || self is Refused || self is Broken
    }

    /// How far a restart has come after an event. An event that does not answer what was being
    /// done changes nothing.
    pub open spec fn after(
        self,
        event: RestartEvent,
        force: bool,
        client_version: Seq<char>,
    ) -> RestartView {
        match (self, event) {
            (RestartView::Connecting, RestartEvent::Connected(found)) => if found {
                RestartView::Asking
            } else {
                RestartView::Starting
            },
            (RestartView::Asking, RestartEvent::Running(running)) => if running && !force {
                RestartView::Refused("cannot restart agentd while sessions are running"@)
            } else {
                RestartView::Stopping
            },
            (RestartView::Stopping, RestartEvent::Stopped) => RestartView::Starting,
            (RestartView::Starting, RestartEvent::Started) => RestartView::Checking,
            (RestartView::Checking, RestartEvent::Info(info)) => if info.protocol_version
                == PROTOCOL_VERSION {
                RestartView::Finished
            } else {
                RestartView::Refused(out_of_date(info, client_version))
            },
            (state, RestartEvent::Failed) => if state.ended() {
                state
            } else {
                RestartView::Broken
            },
            (state, _) => state,
        }
    }

    /// How many answers are still awaited at most.
    pub open spec fn left(self) -> nat {
        match self {
            RestartView::Connecting => 5,
            RestartView::Asking => 4,
            RestartView::Stopping => 3,
            RestartView::Starting => 2,
            RestartView::Checking => 1,
            _ => 0,
        }
    }
}

impl Restart {
    /// How far a restart has come after an event.
    pub fn next(self, event: RestartEvent, force: bool, client_version: &str) -> (r: Restart)
        ensures
            r@ == self@.after(event, force, client_version@),
    {
        match (self, event) {
            (Restart::Connecting, RestartEvent::Connected(found)) => if found {
                Restart::Asking
            } else {
                Restart::Starting
            },
            (Restart::Asking, RestartEvent::Running(running)) => match check_restart(
                running,
                force,
            ) {
                Ok(_) => Restart::Stopping,
                Err(message) => Restart::Refused(message),
            },
            (Restart::Stopping, RestartEvent::Stopped) => Restart::Starting,
            (Restart::Starting, RestartEvent::Started) => Restart::Checking,
            (Restart::Checking, RestartEvent::Info(info)) => match check_compatible(
                &info,
                client_version,
            ) {
                Ok(_) => Restart::Finished,
                Err(message) => Restart::Refused(message),
            },
            (Restart::Finished, RestartEvent::Failed) => Restart::Finished,
            (Restart::Refused(message), RestartEvent::Failed) => Restart::Refused(message),
            (_, RestartEvent::Failed) => Restart::Broken,
            (state, _) => state,
        }
    }
}

// ---------------------------------------------------------------------------
// Replacing
// ---------------------------------------------------------------------------
/// How far the replacement of a daemon that may not understand its client has come: what is being
/// done.
#[derive(Debug)]
pub enum Replacement {
    /// The daemon is asked what it is.
    Checking,
    /// It is asked whether sessions run; what it is, where it told that.
    Asking(Option<DaemonInfo>),
    /// It is told to stop.
    Stopping,
    /// Its process is ended.
    Ending,
    /// It is waited for.
    Waiting,
    /// A new one is started, and waited for.
    Starting,
    /// The new one is asked what it is.
    Verifying,
    /// All is done.
    Finished,
    /// The replacement is refused, with a message.
    Refused(String),
    /// What was being done has failed.
    Broken,
}

/// What came of what was being done.
#[derive(Debug)]
pub enum ReplacementEvent {
    /// What the daemon is.
    Info(DaemonInfo),
    /// Whether sessions run.
    Running(bool),
    /// What the daemon says to being stopped.
    Shutdown(ShutdownNext),
    /// Its process was told to end.
    Ended,
    /// The daemon has stopped.
    Stopped,
    /// A daemon has started.
    Started,
    /// It failed.
    Failed,
}

/// The model of a replacement.
pub enum ReplacementView {
    Checking,
    Asking(Option<DaemonInfo>),
    Stopping,
    Ending,
    Waiting,
    Starting,
    Verifying,
    Finished,
    Refused(Seq<char>),
    Broken,
}

impl View for Replacement {
    type V = ReplacementView;

    open spec fn view(&self) -> ReplacementView {
        match *self {
            Replacement::Checking => ReplacementView::Checking,
            Replacement::Asking(info) => ReplacementView::Asking(info),
            Replacement::Stopping => ReplacementView::Stopping,
            Replacement::Ending => ReplacementView::Ending,
            Replacement::Waiting => ReplacementView::Waiting,
            Replacement::Starting => ReplacementView::Starting,
            Replacement::Verifying => ReplacementView::Verifying,
            Replacement::Finished => ReplacementView::Finished,
            Replacement::Refused(message) => ReplacementView::Refused(message@),
            Replacement::Broken => ReplacementView::Broken,
        }
    }
}

/// What is said of a daemon that cannot be replaced while its sessions run.
pub open spec fn not_replaceable(info: Option<DaemonInfo>, client_version: Seq<char>) -> Seq<char> {
    "agentd `"@ + (match info {
        Some(info) => info.daemon_version@,
        None => "legacy"@,
    }) + "` is incompatible with agentctl `"@ + client_version
        + "` and cannot be restarted while sessions are running"@
}

/// What is said of a daemon that took another's place and is no better.
pub open spec fn still_incompatible(info: DaemonInfo) -> Seq<char> {
    "agentd `"@ + info.daemon_version@ + "` still reports incompatible protocol version "@
        + decimal(info.protocol_version as nat)
}

impl ReplacementView {
    /// Whether nothing is left to do.
    pub open spec fn ended(self) -> bool {
        self is Finished || self is Refused || self is Broken
    }

    /// How far a replacement has come after an event. A daemon that does not tell what it is has to
    /// be replaced. An event that does not answer what was being done changes nothing.
    pub open spec fn after(self, event: ReplacementEvent, client_version: Seq<char>) -> ReplacementView {
        match (self, event) {
            (ReplacementView::Checking, ReplacementEvent::Info(info)) => if info.protocol_version
                == PROTOCOL_VERSION {
                ReplacementView::Finished
            } else {
                ReplacementView::Asking(Some(info))
            },
            (ReplacementView::Checking, ReplacementEvent::Failed) => ReplacementView::Asking(None),
            (ReplacementView::Asking(info), ReplacementEvent::Running(running)) => if running {
                ReplacementView::Refused(not_replaceable(info, client_version))
            } else {
                ReplacementView::Stopping
            },
            (ReplacementView::Stopping, ReplacementEvent::Shutdown(next)) => match next {
                ShutdownNext::Wait => ReplacementView::Waiting,
                ShutdownNext::EndProcess => ReplacementView::Ending,
                ShutdownNext::Refused(message) => ReplacementView::Refused(message@),
            },
            (ReplacementView::Ending, ReplacementEvent::Ended) => ReplacementView::Waiting,
            (ReplacementView::Waiting, ReplacementEvent::Stopped) => ReplacementView::Starting,
            (ReplacementView::Starting, ReplacementEvent::Started) => ReplacementView::Verifying,
            (ReplacementView::Verifying, ReplacementEvent::Info(info)) => if info.protocol_version
                == PROTOCOL_VERSION {
                ReplacementView::Finished
            } else {
                ReplacementView::Refused(still_incompatible(info))
            },
            (state, ReplacementEvent::Failed) => if state.ended() {
                state
            } else {
                ReplacementView::Broken
            },
            (state, _) => state,
        }
    }

    /// How many answers are still awaited at most.
    pub open spec fn left(self) -> nat {
        match self {
            ReplacementView::Checking => 7,
            ReplacementView::Asking(_) => 6,
            ReplacementView::Stopping => 5,
            ReplacementView::Ending => 4,
            ReplacementView::Waiting => 3,
            ReplacementView::Starting => 2,
            ReplacementView::Verifying => 1,
            _ => 0,
        }
    }
}

impl Replacement {
    /// How far a replacement has come after an event.
    pub fn next(self, event: ReplacementEvent, client_version: &str) -> (r: Replacement)
        ensures
            r@ == self@.after(event, client_version@),
    {
        match (self, event) {
            (Replacement::Checking, ReplacementEvent::Info(info)) => {
                if info.protocol_version == PROTOCOL_VERSION {
                    Replacement::Finished
                } else {
                    Replacement::Asking(Some(info))
                }
            },
            (Replacement::Checking, ReplacementEvent::Failed) => Replacement::Asking(None),
            (Replacement::Asking(info), ReplacementEvent::Running(running)) => {
                match check_replaceable(&info, running, client_version) {
                    Ok(_) => Replacement::Stopping,
                    Err(message) => Replacement::Refused(message),
                }
            },
            (Replacement::Stopping, ReplacementEvent::Shutdown(next)) => match next {
                ShutdownNext::Wait => Replacement::Waiting,
                ShutdownNext::EndProcess => Replacement::Ending,
                ShutdownNext::Refused(message) => Replacement::Refused(message),
            },
            (Replacement::Ending, ReplacementEvent::Ended) => Replacement::Waiting,
            (Replacement::Waiting, ReplacementEvent::Stopped) => Replacement::Starting,
            (Replacement::Starting, ReplacementEvent::Started) => Replacement::Verifying,
            (Replacement::Verifying, ReplacementEvent::Info(info)) => match check_replaced(&info) {
                Ok(_) => Replacement::Finished,
                Err(message) => Replacement::Refused(message),
            },
            (Replacement::Finished, ReplacementEvent::Failed) => Replacement::Finished,
            (Replacement::Refused(message), ReplacementEvent::Failed) => Replacement::Refused(
                message,
            ),
            (_, ReplacementEvent::Failed) => Replacement::Broken,
            (state, _) => state,
        }
    }
}

// ---------------------------------------------------------------------------
// Laws
// ---------------------------------------------------------------------------
/// A daemon whose sessions run is stopped by a restart only by force, and by a replacement never.
pub proof fn running_sessions_are_spared(
    restart: RestartView,
    event: RestartEvent,
    force: bool,
    replacement: ReplacementView,
    other: ReplacementEvent,
    client_version: Seq<char>,
)
    ensures
        restart.after(event, force, client_version) is Stopping && !(restart is Stopping)
            ==> restart is Asking && (event == RestartEvent::Running(false) || (force && event
            == RestartEvent::Running(true))),
        replacement.after(other, client_version) is Stopping && !(replacement is Stopping)
            ==> replacement is Asking && other == ReplacementEvent::Running(false),
        replacement.after(other, client_version) is Ending && !(replacement is Ending)
            ==> replacement is Stopping,
{
}

/// A restart and a replacement come to an end: every answer that changes anything leaves fewer to
/// wait for, and what has ended stays so.
pub proof fn lifecycles_end(
    restart: RestartView,
    event: RestartEvent,
    force: bool,
    replacement: ReplacementView,
    other: ReplacementEvent,
    client_version: Seq<char>,
)
    ensures
        restart.left() == 0 <==> restart.ended(),
        restart.after(event, force, client_version) != restart ==> restart.after(
            event,
            force,
            client_version,
        ).left() < restart.left(),
        restart.ended() ==> restart.after(event, force, client_version) == restart,
        replacement.left() == 0 <==> replacement.ended(),
        replacement.after(other, client_version) != replacement ==> replacement.after(
            other,
            client_version,
        ).left() < replacement.left(),
        replacement.ended() ==> replacement.after(other, client_version) == replacement,
{
}

/// A restart or a replacement that is finished has left a daemon that speaks the client's protocol.
pub proof fn finished_daemons_are_compatible(
    restart: RestartView,
    event: RestartEvent,
    force: bool,
    replacement: ReplacementView,
    other: ReplacementEvent,
    client_version: Seq<char>,
)
    ensures
        restart.after(event, force, client_version) is Finished && !(restart is Finished) ==> (
        event matches RestartEvent::Info(info) && info.protocol_version == PROTOCOL_VERSION),
        replacement.after(other, client_version) is Finished && !(replacement is Finished) ==> (
        other matches ReplacementEvent::Info(info) && info.protocol_version == PROTOCOL_VERSION),
{
}

} // verus!
