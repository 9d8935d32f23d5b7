//! The terminal of the session in focus, and what its connection to the daemon says.
use crate::protocol::field::WireStatus;
use crate::protocol::request::Request;
use crate::protocol::response::Response;
use crate::style::{colored, line_views, raw, styled, Color, Line, SpanView, Style};
use crate::terminal::screen::{blank_screen, can_steps, larger, shown, steps, Screen};
use crate::terminal::surface::TerminalSurface;
use crate::text::lossy_text;
use crate::text::opt_view;
use vstd::prelude::*;
use vstd::string::*;

verus! {

/// What is asked of the connection.
#[derive(Debug, PartialEq, Eq)]
pub enum PtyCommand {
    Input(Vec<u8>),
    Resize { cols: u16, rows: u16 },
    Close,
}

/// What the connection says.
#[derive(Debug, PartialEq, Eq)]
pub enum PtyEvent {
    /// What the terminal showed when the client attached.
    Snapshot(Vec<u8>),
    /// What the terminal printed since.
    Output(Vec<u8>),
    /// The session has ended.
    Ended(String),
    /// Something went wrong.
    Error(String),
    /// The connection is closed.
    Closed,
}

/// How far the connection has come.
#[derive(Clone, Copy, Debug, PartialEq, Eq, Structural)]
pub enum PtyStage {
    /// The daemon has not answered yet.
    Attaching,
    /// The client is attached.
    Following,
    /// The connection has ended.
    Closed,
}

/// What happens to the connection.
#[derive(Debug, PartialEq)]
pub enum PtyInput {
    /// It could not be made, or it broke, for a reason.
    Failed(String),
    /// The daemon answers; nothing where it has closed the connection.
    Response(Option<Response>),
    /// The client asks for something; nothing where it is gone.
    Command(Option<PtyCommand>),
}

/// What the connection does next, once it has told what there is to tell.
#[derive(Debug, PartialEq)]
pub enum PtyAction {
    /// It goes on.
    GoOn,
    /// It sends a request and goes on.
    Send(Request),
    /// It tells the daemon the size of the terminal and goes on.
    Resize { cols: u16, rows: u16 },
    /// It was answered what it did not ask for, and fails with a description of that.
    Describe(Response),
    /// It ends.
    Stop,
}

/// The name of a state.
pub open spec fn wire_status_name(status: WireStatus) -> Seq<char> {
    match status {
        WireStatus::Creating => "creating"@,
        WireStatus::Running => "running"@,
        WireStatus::Paused => "paused"@,
        WireStatus::Exited => "exited"@,
        WireStatus::Failed => "failed"@,
        WireStatus::UnknownRecovered => "unknown_recovered"@,
    }
}

/// What is said of a session that has ended.
pub open spec fn ended_text(status: WireStatus) -> Seq<char> {
    "session ended: "@ + wire_status_name(status)
}

fn ended_message(status: WireStatus) -> (r: String)
    ensures
        r@ == ended_text(status),
{
    let mut r = "session ended: ".to_string();
    r.append(
        match status {
            WireStatus::Creating => "creating",
            WireStatus::Running => "running",
            WireStatus::Paused => "paused",
            WireStatus::Exited => "exited",
            WireStatus::Failed => "failed",
            WireStatus::UnknownRecovered => "unknown_recovered",
        },
    );
    r
}

/// The model of what the connection says.
pub enum EventView {
    Snapshot(Seq<u8>),
    Output(Seq<u8>),
    Ended(Seq<char>),
    Error(Seq<char>),
    Closed,
}

impl View for PtyEvent {
    type V = EventView;

    open spec fn view(&self) -> EventView {
        match *self {
            PtyEvent::Snapshot(bytes) => EventView::Snapshot(bytes@),
            PtyEvent::Output(bytes) => EventView::Output(bytes@),
            PtyEvent::Ended(text) => EventView::Ended(text@),
            PtyEvent::Error(text) => EventView::Error(text@),
            PtyEvent::Closed => EventView::Closed,
        }
    }
}

/// The models of what the connection says.
pub open spec fn event_views(events: Seq<PtyEvent>) -> Seq<EventView> {
    Seq::new(events.len(), |i: int| events[i]@)
}

/// The end of the connection, with a last word.
pub open spec fn closing(last: EventView) -> (PtyStage, Seq<EventView>, PtyAction) {
    (PtyStage::Closed, seq![last, EventView::Closed], PtyAction::Stop)
}

/// The end of the connection, without a last word.
pub open spec fn quiet_end() -> (PtyStage, Seq<EventView>, PtyAction) {
    (PtyStage::Closed, seq![EventView::Closed], PtyAction::Stop)
}

impl PtyStage {
    /// What the first answer of the daemon comes to.
    pub open spec fn first_answer(self, response: Option<Response>) -> (
        PtyStage,
        Seq<EventView>,
        PtyAction,
    ) {
        match response {
            None => closing(EventView::Error("agentd closed the connection"@)),
            Some(Response::Attached { snapshot }) => (
                PtyStage::Following,
                seq![EventView::Snapshot(snapshot@)],
                PtyAction::GoOn,
            ),
            Some(Response::SessionEnded { status, .. }) => closing(
                EventView::Ended(ended_text(status)),
            ),
            Some(Response::Error { message }) => closing(EventView::Error(message@)),
            Some(other) => (self, seq![], PtyAction::Describe(other)),
        }
    }

    /// What a later answer of the daemon comes to.
    pub open spec fn later_answer(self, response: Option<Response>) -> (
        PtyStage,
        Seq<EventView>,
        PtyAction,
    ) {
        match response {
            None => quiet_end(),
            Some(Response::PtyOutput { data }) => (
                self,
                seq![EventView::Output(data@)],
                PtyAction::GoOn,
            ),
            Some(Response::SessionEnded { status, error, .. }) => closing(
                EventView::Ended(
                    match error {
                        Some(error) => error@,
                        None => ended_text(status),
                    },
                ),
            ),
            Some(Response::EndOfStream) => quiet_end(),
            Some(Response::Error { message }) => closing(EventView::Error(message@)),
            Some(other) => (self, seq![], PtyAction::Describe(other)),
        }
    }

    /// What an event comes to: how far the connection has come then, what it tells, and what it
    /// does. What is asked of it before the daemon has answered, or after its end, changes nothing.
    pub open spec fn after(self, input: PtyInput) -> (PtyStage, Seq<EventView>, PtyAction) {
        match (self, input) {
            (PtyStage::Closed, _) => (self, seq![], PtyAction::Stop),
            (_, PtyInput::Failed(text)) => closing(EventView::Error(text@)),
            (PtyStage::Attaching, PtyInput::Response(response)) => self.first_answer(response),
            (PtyStage::Attaching, PtyInput::Command(_)) => (self, seq![], PtyAction::GoOn),
            (PtyStage::Following, PtyInput::Response(response)) => self.later_answer(response),
            (PtyStage::Following, PtyInput::Command(command)) => match command {
                Some(PtyCommand::Input(data)) => (
                    self,
                    seq![],
                    PtyAction::Send(Request::AttachInput { data }),
                ),
                Some(PtyCommand::Resize { cols, rows }) => (
                    self,
                    seq![],
                    PtyAction::Resize { cols, rows },
                ),
                Some(PtyCommand::Close) | None => quiet_end(),
            },
        }
    }
}

fn no_events() -> (r: Vec<PtyEvent>)
    ensures
        event_views(r@) == Seq::<EventView>::empty(),
{
    let events: Vec<PtyEvent> = Vec::new();
    assert(event_views(events@) =~= Seq::empty());
    events
}

fn one_event(event: PtyEvent) -> (r: Vec<PtyEvent>)
    ensures
        event_views(r@) == seq![event@],
{
    let events = vec![event];
    assert(event_views(events@) =~= seq![event@]);
    events
}

fn last_events(event: PtyEvent) -> (r: Vec<PtyEvent>)
    ensures
        event_views(r@) == seq![event@, EventView::Closed],
{
    let events = vec![event, PtyEvent::Closed];
    assert(event_views(events@) =~= seq![event@, EventView::Closed]);
    events
}

/// A connection to the daemon for the terminal of a session.
#[derive(Debug)]
pub struct PtyConnection {
    pub stage: PtyStage,
}

/// What a connection asks first, for the session that it is to follow.
pub fn opening_request(session_id: String) -> (r: Request)
    ensures
        r == (Request::AttachSession { session_id }),
{
    Request::AttachSession { session_id }
}

impl PtyConnection {
    /// A connection that is about to be made.
    pub fn new() -> (r: PtyConnection)
        ensures
            r.stage == PtyStage::Attaching,
    {
        PtyConnection { stage: PtyStage::Attaching }
    }

    fn close(&mut self, last: PtyEvent) -> (r: (Vec<PtyEvent>, PtyAction))
        ensures
            (final(self).stage, event_views(r.0@), r.1) == closing(last@),
    {
        self.stage = PtyStage::Closed;
        (last_events(last), PtyAction::Stop)
    }

    fn close_quietly(&mut self) -> (r: (Vec<PtyEvent>, PtyAction))
        ensures
            (final(self).stage, event_views(r.0@), r.1) == quiet_end(),
    {
        self.stage = PtyStage::Closed;
        (one_event(PtyEvent::Closed), PtyAction::Stop)
    }

    fn first_response(&mut self, response: Option<Response>) -> (r: (Vec<PtyEvent>, PtyAction))
        ensures
            (final(self).stage, event_views(r.0@), r.1) == old(self).stage.first_answer(response),
    {
        match response {
            None => self.close(PtyEvent::Error("agentd closed the connection".to_string())),
            Some(Response::Attached { snapshot }) => {
                self.stage = PtyStage::Following;
                (one_event(PtyEvent::Snapshot(snapshot)), PtyAction::GoOn)
            },
            Some(Response::SessionEnded { status, .. }) => self.close(
                PtyEvent::Ended(ended_message(status)),
            ),
            Some(Response::Error { message }) => self.close(PtyEvent::Error(message)),
            Some(other) => (no_events(), PtyAction::Describe(other)),
        }
    }

    fn next_response(&mut self, response: Option<Response>) -> (r: (Vec<PtyEvent>, PtyAction))
        ensures
            (final(self).stage, event_views(r.0@), r.1) == old(self).stage.later_answer(response),
    {
        match response {
            None => self.close_quietly(),
            Some(Response::PtyOutput { data }) => (
                one_event(PtyEvent::Output(data)),
                PtyAction::GoOn,
            ),
            Some(Response::SessionEnded { status, error, .. }) => {
                let text = match error {
                    Some(error) => error,
                    None => ended_message(status),
                };
                self.close(PtyEvent::Ended(text))
            },
            Some(Response::EndOfStream) => self.close_quietly(),
            Some(Response::Error { message }) => self.close(PtyEvent::Error(message)),
            Some(other) => (no_events(), PtyAction::Describe(other)),
        }
    }

    /// What an event comes to: what the connection tells, in this order, and what it does then.
    pub fn handle(&mut self, input: PtyInput) -> (r: (Vec<PtyEvent>, PtyAction))
        ensures
            (final(self).stage, event_views(r.0@), r.1) == old(self).stage.after(input),
    {
        match (self.stage, input) {
            (PtyStage::Closed, _) => (no_events(), PtyAction::Stop),
            (_, PtyInput::Failed(text)) => self.close(PtyEvent::Error(text)),
            (PtyStage::Attaching, PtyInput::Response(response)) => self.first_response(response),
            (PtyStage::Attaching, PtyInput::Command(_)) => (no_events(), PtyAction::GoOn),
            (PtyStage::Following, PtyInput::Response(response)) => self.next_response(response),
            (PtyStage::Following, PtyInput::Command(command)) => match command {
                Some(PtyCommand::Input(data)) => (
                    no_events(),
                    PtyAction::Send(Request::AttachInput { data }),
                ),
                Some(PtyCommand::Resize { cols, rows }) => (
                    no_events(),
                    PtyAction::Resize { cols, rows },
                ),
                Some(PtyCommand::Close) | None => self.close_quietly(),
            },
        }
    }
}

/// The terminal of the session in focus.
#[derive(Debug)]
pub struct FocusedPty {
    pub session_id: String,
    pub terminal: TerminalSurface,
    pub connected: bool,
    pub last_error: Option<String>,
}

/// The model of the terminal of the session in focus.
pub struct PtyView {
    pub session_id: Seq<char>,
    pub screen: Screen,
    pub connected: bool,
    pub last_error: Option<Seq<char>>,
}

impl View for FocusedPty {
    type V = PtyView;

    open spec fn view(&self) -> PtyView {
        PtyView {
            session_id: self.session_id@,
            screen: self.terminal@,
            connected: self.connected,
            last_error: opt_view(self.last_error),
        }
    }
}

/// What a terminal shows after some bytes: as before where they cannot all be taken.
pub open spec fn after_bytes(screen: Screen, bytes: Seq<u8>) -> Screen {
    if can_steps(screen, lossy_text(bytes)) {
        steps(screen, lossy_text(bytes))
    } else {
        screen
    }
}

/// What is shown of the terminal of the session in focus: the terminal, with its cursor while it
/// is connected, and below it what went wrong.
pub open spec fn pty_lines(pty: PtyView) -> Seq<Seq<SpanView>> {
    shown(pty.screen, pty.connected) + (match pty.last_error {
        Some(error) => seq![seq![raw(""@)], seq![styled(error, colored(Color::Red))]],
        None => Seq::empty(),
    })
}

impl FocusedPty {
    /// The terminal of a session that a connection is made to.
    pub fn new(session_id: String) -> (r: FocusedPty)
        ensures
            r@ == (PtyView {
                session_id: session_id@,
                screen: blank_screen(80, 24),
                connected: true,
                last_error: None,
            }),
            r@.screen.wf(),
    {
        FocusedPty {
            session_id,
            terminal: TerminalSurface::new(80, 24),
            connected: true,
            last_error: None,
        }
    }

    /// Shows what bytes print on an empty terminal, and tells whether they could be taken.
    pub fn replace(&mut self, bytes: &[u8]) -> (r: bool)
        requires
            old(self)@.screen.wf(),
        ensures
            ({
                let blank = blank_screen(old(self)@.screen.cols, old(self)@.screen.rows);
                &&& r == can_steps(blank, lossy_text(bytes@))
                &&& final(self)@ == (PtyView {
                    screen: after_bytes(blank, bytes@),
                    ..old(self)@
                })
            }),
            final(self)@.screen.wf(),
    {
        self.terminal.reset();
        self.terminal.process_if_possible(bytes)
    }

    /// Shows what more bytes print, and tells whether they could be taken.
    pub fn push(&mut self, bytes: &[u8]) -> (r: bool)
        requires
            old(self)@.screen.wf(),
        ensures
            r == can_steps(old(self)@.screen, lossy_text(bytes@)),
            final(self)@ == (PtyView {
                screen: after_bytes(old(self)@.screen, bytes@),
                ..old(self)@
            }),
            final(self)@.screen.wf(),
    {
        self.terminal.process_if_possible(bytes)
    }

    /// Gives the terminal another size.
    pub fn resize(&mut self, cols: u16, rows: u16)
        requires
            old(self)@.screen.wf(),
        ensures
            final(self)@ == (PtyView {
                screen: old(self)@.screen.resized(larger(cols as int, 1), larger(rows as int, 1)),
                ..old(self)@
            }),
            final(self)@.screen.wf(),
    {
        self.terminal.resize(cols, rows);
    }

    /// Takes what the connection says, and tells whether all bytes could be taken.
    pub fn handle_event(&mut self, event: PtyEvent) -> (r: bool)
        requires
            old(self)@.screen.wf(),
        ensures
            ({
                let blank = blank_screen(old(self)@.screen.cols, old(self)@.screen.rows);
                match event {
                    PtyEvent::Snapshot(bytes) => r == can_steps(blank, lossy_text(bytes@))
                        && final(self)@ == (PtyView {
                        screen: after_bytes(blank, bytes@),
                        ..old(self)@
                    }),
                    PtyEvent::Output(bytes) => r == can_steps(
                        old(self)@.screen,
                        lossy_text(bytes@),
                    ) && final(self)@ == (PtyView {
                        screen: after_bytes(old(self)@.screen, bytes@),
                        ..old(self)@
                    }),
                    PtyEvent::Ended(text) | PtyEvent::Error(text) => r && final(self)@ == (PtyView {
                        connected: false,
                        last_error: Some(text@),
                        ..old(self)@
                    }),
                    PtyEvent::Closed => r && final(self)@ == (PtyView {
                        connected: false,
                        ..old(self)@
                    }),
                }
            }),
            final(self)@.screen.wf(),
    {
        match event {
            PtyEvent::Snapshot(bytes) => self.replace(bytes.as_slice()),
            PtyEvent::Output(bytes) => self.push(bytes.as_slice()),
            PtyEvent::Ended(text) | PtyEvent::Error(text) => {
                self.connected = false;
                self.last_error = Some(text);
                true
            },
            PtyEvent::Closed => {
                self.connected = false;
                true
            },
        }
    }

    /// What is shown of the terminal.
    pub fn rendered_lines(&self) -> (r: Vec<Line>)
        requires
            self@.screen.wf(),
        ensures
            line_views(r@) == pty_lines(self@),
    {
        let mut lines = self.terminal.render_lines(self.connected);
        let ghost before = lines@;
        match &self.last_error {
            Some(error) => {
                lines.push(Line::raw(""));
                lines.push(Line::styled(error.as_str(), Style::color(Color::Red)));
            },
            None => {},
        }
        assert(line_views(lines@) =~= pty_lines(self@));
        lines
    }
}

// ---------------------------------------------------------------------------
// Laws
// ---------------------------------------------------------------------------
/// How far a connection has come after events, and all that it has told.
pub open spec fn told(inputs: Seq<PtyInput>) -> (PtyStage, Seq<EventView>)
    decreases inputs.len(),
{
    if inputs.len() == 0 {
        (PtyStage::Attaching, Seq::empty())
    } else {
        let (stage, events) = told(inputs.drop_last());
        let (next, more, _) = stage.after(inputs.last());
        (next, events + more)
    }
}

/// What the terminal printed while the client was attached, piece by piece.
pub open spec fn printed(inputs: Seq<PtyInput>) -> Seq<Seq<u8>>
    decreases inputs.len(),
{
    if inputs.len() == 0 {
        Seq::empty()
    } else {
        let front = printed(inputs.drop_last());
        match (told(inputs.drop_last()).0, inputs.last()) {
            (
                PtyStage::Following,
                PtyInput::Response(Some(Response::PtyOutput { data })),
            ) => front.push(data@),
            _ => front,
        }
    }
}

/// What is told before the end: nothing, or what the terminal showed and then each piece that it
/// printed.
pub open spec fn is_shown(events: Seq<EventView>, pieces: Seq<Seq<u8>>) -> bool {
    if events.len() == 0 {
        pieces.len() == 0
    } else {
        &&& events[0] is Snapshot
        &&& events.len() == pieces.len() + 1
        &&& forall|i: int|
            0 <= i < pieces.len() ==> #[trigger] events[i + 1] == EventView::Output(pieces[i])
    }
}

/// Whether a last word is told: that the session has ended, or what went wrong.
pub open spec fn is_last_word(event: EventView) -> bool {
    event is Ended || event is Error
}

/// Whether what was told is in order: what the terminal showed, at most once and first; each piece
/// that it printed, in order and only behind that; at most one last word; and, exactly where the
/// connection has ended, that it is closed, once and last.
pub open spec fn in_order(stage: PtyStage, events: Seq<EventView>, pieces: Seq<Seq<u8>>) -> bool {
    match stage {
        PtyStage::Attaching => events.len() == 0 && pieces.len() == 0,
        PtyStage::Following => events.len() > 0 && is_shown(events, pieces),
        PtyStage::Closed => {
            let before = events.drop_last();
            &&& events.len() > 0
            &&& events.last() == EventView::Closed
            &&& is_shown(before, pieces) || (before.len() > 0 && is_last_word(before.last())
                && is_shown(before.drop_last(), pieces))
        },
    }
}

/// What a connection tells is always in order, whatever happens to it.
pub proof fn connections_tell_in_order(inputs: Seq<PtyInput>)
    ensures
        in_order(told(inputs).0, told(inputs).1, printed(inputs)),
    decreases inputs.len(),
{
    if inputs.len() > 0 {
        let front = inputs.drop_last();
        connections_tell_in_order(front);
        let (stage, events) = told(front);
        let (next, more, _) = stage.after(inputs.last());
        let pieces = printed(front);
        let all = events + more;
        if more.len() == 0 {
            assert(all =~= events);
        } else if more.len() == 2 {
            assert(all.drop_last() =~= events.push(more[0]));
            assert(all.drop_last().drop_last() =~= events);
            assert(all.last() == more[1]);
        } else if next == PtyStage::Closed {
            assert(all.drop_last() =~= events);
        } else if stage == PtyStage::Following {
            let after = printed(inputs);
            assert forall|i: int| 0 <= i < after.len() implies #[trigger] all[i + 1]
                == EventView::Output(after[i]) by {
                if i < pieces.len() {
                    assert(events[i + 1] == EventView::Output(pieces[i]));
                }
            }
        }
    }
}

/// A connection stops exactly with its end: it has told then that it is closed, and tells nothing
/// more; and a failure ends every connection that has not ended.
pub proof fn connections_close_once(stage: PtyStage, input: PtyInput)
    ensures
        ({
            let (next, events, action) = stage.after(input);
            &&& action == PtyAction::Stop <==> next == PtyStage::Closed
            &&& stage == PtyStage::Closed ==> next == PtyStage::Closed && events.len() == 0
            &&& stage != PtyStage::Closed && next == PtyStage::Closed ==> events.len() > 0
                && events.last() == EventView::Closed
            &&& input is Failed ==> next == PtyStage::Closed
        }),
{
}

} // verus!
