//! A client that is attached to a session: what it shows, where it goes next, and how it ends.
use crate::attach_input::{
    action_views, actions_of, tokens, ActionView, AttachInputAction, AttachInputParser, Hotkey,
};
use crate::client::exchange::{ClientRequest, ClientResponse, SessionEndSummary};
use crate::session::{ApplyState, AttachmentKind, SessionRecord, SessionStatus};
use crate::session_list::{ordered, ordered_sessions, pointed_to};
use crate::text::{same, signed_decimal, signed_decimal_of};
use vstd::prelude::*;
use vstd::string::*;
use vstd::utf8::*;

verus! {

/// Asks the terminal to tell keys apart that would be alike otherwise.
pub const AGENTD_ATTACH_ENTER_SEQUENCE: &'static str = "\x1b[>1u";

/// Takes back what a session may have asked of the terminal.
pub const AGENTD_ATTACH_RESTORE_SEQUENCE: &'static str =
    "\x1b[?1000l\x1b[?1002l\x1b[?1003l\x1b[?1006l\x1b[?2004l\x1b[?1004l\x1b[<u\x1b[?25h";

/// Clears the terminal.
pub const AGENTD_ATTACH_CLEAR_SEQUENCE: &'static str = "\x1b[2J\x1b[H";

/// The title of the terminal once no session is attached.
pub const AGENTD_ATTACH_EXIT_TITLE: &'static str = "agentd";

/// Two runs of bytes, one behind the other.
fn append_bytes(bytes: &mut Vec<u8>, more: &[u8])
    ensures
        final(bytes)@ == old(bytes)@ + more@,
{
    let ghost before = bytes@;
    bytes.extend_from_slice(more);
    assert(bytes@ =~= before + more@);
}

/// What a client asks first in order to attach to a session.
pub fn opening_request(session_id: String, cols: u16, rows: u16) -> (r: ClientRequest)
    ensures
        r == (ClientRequest::AttachSession {
            session_id,
            kind: AttachmentKind::Attach,
            cols,
            rows,
        }),
{
    ClientRequest::AttachSession { session_id, kind: AttachmentKind::Attach, cols, rows }
}

/// What is written to the terminal when a client attaches.
pub fn attach_startup_bytes(snapshot: &[u8]) -> (r: Vec<u8>)
    ensures
        r@ == encode_utf8(AGENTD_ATTACH_ENTER_SEQUENCE@) + encode_utf8(
            AGENTD_ATTACH_CLEAR_SEQUENCE@,
        ) + snapshot@,
{
    let mut bytes: Vec<u8> = Vec::new();
    append_bytes(&mut bytes, AGENTD_ATTACH_ENTER_SEQUENCE.as_bytes());
    assert(bytes@ =~= encode_utf8(AGENTD_ATTACH_ENTER_SEQUENCE@));
    append_bytes(&mut bytes, AGENTD_ATTACH_CLEAR_SEQUENCE.as_bytes());
    append_bytes(&mut bytes, snapshot);
    bytes
}

/// The title of the terminal while a session is attached.
pub fn format_attach_title(session_id: &str) -> (r: String)
    ensures
        r@ == session_id@ + " - "@ + "agentd"@,
{
    let mut title = session_id.to_string();
    title.append(" - ");
    title.append(AGENTD_ATTACH_EXIT_TITLE);
    title
}

/// What sets the title of a terminal: once for the window and its icon, once for the window.
pub fn terminal_title_bytes(title: &str) -> (r: Vec<u8>)
    ensures
        r@ == encode_utf8("\x1b]0;"@) + encode_utf8(title@) + seq![7u8] + encode_utf8("\x1b]2;"@)
            + encode_utf8(title@) + seq![7u8],
{
    let mut bytes: Vec<u8> = Vec::new();
    append_bytes(&mut bytes, "\x1b]0;".as_bytes());
    assert(bytes@ =~= encode_utf8("\x1b]0;"@));
    append_bytes(&mut bytes, title.as_bytes());
    let ghost before = bytes@;
    bytes.push(7);
    assert(bytes@ =~= before + seq![7u8]);
    append_bytes(&mut bytes, "\x1b]2;".as_bytes());
    append_bytes(&mut bytes, title.as_bytes());
    let ghost before = bytes@;
    bytes.push(7);
    assert(bytes@ =~= before + seq![7u8]);
    bytes
}

/// What the user is told once a client is attached.
pub fn attached_notice(session_id: &str, attach_id: &Option<String>) -> (r: String)
    ensures
        r@ == "attached to "@ + session_id@ + (match attach_id {
            Some(attach_id) => " ("@ + attach_id@ + ")"@,
            None => ""@,
        }) + "; Ctrl-\\\\ detaches, Ctrl-[/Ctrl-] switch running sessions"@,
{
    let mut text = "attached to ".to_string();
    text.append(session_id);
    match attach_id {
        Some(attach_id) => {
            let mut part = " (".to_string();
            part.append(attach_id.as_str());
            part.append(")");
            text.append(part.as_str());
        },
        None => {
            text.append("");
        },
    }
    text.append("; Ctrl-\\\\ detaches, Ctrl-[/Ctrl-] switch running sessions");
    text
}

// ---------------------------------------------------------------------------
// The end of a session
// ---------------------------------------------------------------------------
/// What the user is told of a session's end.
pub open spec fn end_text(summary: SessionEndSummary) -> Seq<char> {
    let start = "session "@ + summary.session_id@;
    match summary.status {
        SessionStatus::Failed => match summary.error {
            Some(error) => start + " failed: "@ + error@,
            None => start + " failed"@,
        },
        SessionStatus::Exited
        | SessionStatus::UnknownRecovered
        | SessionStatus::Paused => if summary.apply_state == ApplyState::Applied {
            start + " merged from "@ + summary.branch@ + " ("@ + summary.worktree@ + ")"@
        } else if summary.has_commits {
            start + " finished with changes on "@ + summary.branch@ + " ("@ + summary.worktree@
                + ")\nrun: agent diff "@ + summary.session_id@ + " | agent merge "@
                + summary.session_id@ + " | agent discard "@ + summary.session_id@
        } else {
            match summary.exit_code {
                Some(code) => start + " finished (exit "@ + signed_decimal(code as int) + ")"@,
                None => start + " finished"@,
            }
        },
        SessionStatus::Creating
        | SessionStatus::Running
        | SessionStatus::NeedsInput => start + " ended"@,
    }
}

/// What the user is told of a session's end.
pub fn format_session_end_summary(summary: &SessionEndSummary) -> (r: String)
    ensures
        r@ == end_text(*summary),
{
    let mut text = "session ".to_string();
    text.append(summary.session_id.as_str());
    match summary.status {
        SessionStatus::Failed => {
            match &summary.error {
                Some(error) => {
                    text.append(" failed: ");
                    text.append(error.as_str());
                },
                None => {
                    text.append(" failed");
                },
            }
        },
        SessionStatus::Exited | SessionStatus::UnknownRecovered | SessionStatus::Paused => {
            if summary.apply_state == ApplyState::Applied {
                text.append(" merged from ");
                text.append(summary.branch.as_str());
                text.append(" (");
                text.append(summary.worktree.as_str());
                text.append(")");
            } else if summary.has_commits {
                text.append(" finished with changes on ");
                text.append(summary.branch.as_str());
                text.append(" (");
                text.append(summary.worktree.as_str());
                text.append(")\nrun: agent diff ");
                text.append(summary.session_id.as_str());
                text.append(" | agent merge ");
                text.append(summary.session_id.as_str());
                text.append(" | agent discard ");
                text.append(summary.session_id.as_str());
            } else {
                match summary.exit_code {
                    Some(code) => {
                        text.append(" finished (exit ");
                        text.append(signed_decimal_of(code as i64).as_str());
                        text.append(")");
                    },
                    None => {
                        text.append(" finished");
                    },
                }
            }
        },
        SessionStatus::Creating | SessionStatus::Running | SessionStatus::NeedsInput => {
            text.append(" ended");
        },
    }
    text
}

// ---------------------------------------------------------------------------
// The sessions next to one
// ---------------------------------------------------------------------------
/// In which direction the next session is looked for.
#[derive(Clone, Copy, Debug, PartialEq, Eq, Structural)]
pub enum AttachSessionDirection {
    Previous,
    Next,
}

/// Where the first session with a name stands; the number of sessions where there is none.
pub open spec fn position_of(sessions: Seq<SessionRecord>, id: Seq<char>) -> int
    decreases sessions.len(),
{
    if sessions.len() == 0 || sessions[0].session_id@ == id {
        0
    } else {
        1 + position_of(sessions.skip(1), id)
    }
}

/// The place next to another, round and round.
pub open spec fn next_place(at: int, len: int, direction: AttachSessionDirection) -> int {
    match direction {
        AttachSessionDirection::Previous => if at == 0 {
            len - 1
        } else {
            at - 1
        },
        AttachSessionDirection::Next => if at + 1 == len {
            0
        } else {
            at + 1
        },
    }
}

/// The session next to another; nothing where there is no other, or where the one is not there.
pub open spec fn adjacent(
    sessions: Seq<SessionRecord>,
    current: Seq<char>,
    direction: AttachSessionDirection,
) -> Option<Seq<char>> {
    let at = position_of(sessions, current);
    if sessions.len() <= 1 || at >= sessions.len() {
        None
    } else {
        Some(sessions[next_place(at, sessions.len() as int, direction)].session_id@)
    }
}

/// The session next to another.
pub fn adjacent_live_session_id_in(
    sessions: &Vec<&SessionRecord>,
    current_session_id: &str,
    direction: AttachSessionDirection,
) -> (r: Option<String>)
    ensures
        match adjacent(pointed_to(sessions@), current_session_id@, direction) {
            Some(id) => r matches Some(found) && found@ == id,
            None => r is None,
        },
{
    let ghost all = pointed_to(sessions@);
    if sessions.len() <= 1 {
        return None;
    }
    let mut at: usize = 0;
    assert(all.skip(0) =~= all);
    while at < sessions.len() && !same(sessions[at].session_id.as_str(), current_session_id)
        invariant
            at <= sessions.len(),
            all == pointed_to(sessions@),
            position_of(all, current_session_id@) == at + position_of(
                all.skip(at as int),
                current_session_id@,
            ),
        decreases sessions.len() - at,
    {
        assert(all[at as int] == *sessions@[at as int]);
        assert(all.skip(at as int).skip(1) =~= all.skip(at as int + 1));
        at = at + 1;
    }
    if at >= sessions.len() {
        return None;
    }
    assert(all[at as int] == *sessions@[at as int]);
    let target: usize = match direction {
        AttachSessionDirection::Previous => if at == 0 {
            sessions.len() - 1
        } else {
            at - 1
        },
        AttachSessionDirection::Next => if at + 1 == sessions.len() {
            0
        } else {
            at + 1
        },
    };
    assert(all[target as int] == *sessions@[target as int]);
    Some(sessions[target].session_id.clone())
}

/// The sessions that run, in their order.
pub open spec fn live(sessions: Seq<SessionRecord>) -> Seq<SessionRecord>
    decreases sessions.len(),
{
    if sessions.len() == 0 {
        Seq::empty()
    } else if sessions.last().status == SessionStatus::Running {
        live(sessions.drop_last()).push(sessions.last())
    } else {
        live(sessions.drop_last())
    }
}

/// The sessions that run, in their order.
pub fn live_sessions(sessions: &Vec<SessionRecord>) -> (r: Vec<SessionRecord>)
    ensures
        r@ == live(sessions@),
{
    let mut found: Vec<SessionRecord> = Vec::new();
    let mut i: usize = 0;
    assert(sessions@.take(0) =~= Seq::empty());
    while i < sessions.len()
        invariant
            i <= sessions.len(),
            found@ == live(sessions@.take(i as int)),
        decreases sessions.len() - i,
    {
        assert(sessions@.take(i as int + 1).drop_last() =~= sessions@.take(i as int));
        if sessions[i].status == SessionStatus::Running {
            found.push(sessions[i].clone());
        }
        i = i + 1;
    }
    assert(sessions@.take(i as int) =~= sessions@);
    found
}

/// The running session next to another, in the order of the list.
pub fn adjacent_live_session_id(
    sessions: &Vec<SessionRecord>,
    current_session_id: &str,
    direction: AttachSessionDirection,
) -> (r: Option<String>)
    ensures
        match adjacent(ordered(live(sessions@)), current_session_id@, direction) {
            Some(id) => r matches Some(found) && found@ == id,
            None => r is None,
        },
{
    let running = live_sessions(sessions);
    let rows = ordered_sessions(&running);
    adjacent_live_session_id_in(&rows, current_session_id, direction)
}

// ---------------------------------------------------------------------------
// The conversation with the daemon
// ---------------------------------------------------------------------------
/// How an attachment ended.
#[derive(Debug)]
pub enum AttachOutcome {
    Detached,
    SessionEnded(SessionEndSummary),
    SwitchSession(String),
}

/// What the first response came to.
#[derive(Debug)]
pub enum AttachHandshake {
    Attached { attach_id: Option<String>, snapshot: Vec<u8> },
    Ended(SessionEndSummary),
    Failed(String),
    Unexpected(ClientResponse),
}

/// What an attached client does next.
#[derive(Debug)]
pub enum AttachStep {
    /// It goes on.
    Continue,
    /// It shows what the session printed.
    Show(Vec<u8>),
    /// It sends what was typed.
    Send(Vec<u8>),
    /// It tells the size of its terminal.
    Resize { cols: u16, rows: u16 },
    /// It looks for the session next to its own.
    LookFor(AttachSessionDirection),
    /// It leaves.
    Leave(AttachOutcome),
    /// It fails with a message.
    Fail(String),
    /// It was answered what it did not ask for.
    Unexpected(ClientResponse),
}

/// What the first response came to; a daemon that closes the connection instead is a failure.
pub fn attach_handshake(response: Option<ClientResponse>) -> (r: AttachHandshake)
    ensures
        match response {
            None => r matches AttachHandshake::Failed(message) && message@
                == "agentd closed the connection"@,
            Some(ClientResponse::Attached { attach_id, snapshot }) => r == (
            AttachHandshake::Attached { attach_id, snapshot }),
            Some(ClientResponse::SessionEnded { summary }) => r == AttachHandshake::Ended(summary),
            Some(ClientResponse::Error { message }) => r == AttachHandshake::Failed(message),
            Some(other) => r == AttachHandshake::Unexpected(other),
        },
{
    match response {
        None => AttachHandshake::Failed("agentd closed the connection".to_string()),
        Some(ClientResponse::Attached { attach_id, snapshot }) => AttachHandshake::Attached {
            attach_id,
            snapshot,
        },
        Some(ClientResponse::SessionEnded { summary }) => AttachHandshake::Ended(summary),
        Some(ClientResponse::Error { message }) => AttachHandshake::Failed(message),
        Some(other) => AttachHandshake::Unexpected(other),
    }
}

/// What an attached client does about a response; a closed connection is an end.
pub fn attach_response(response: Option<ClientResponse>) -> (r: AttachStep)
    ensures
        is_step_after(r, response),
{
    match response {
        None => AttachStep::Leave(AttachOutcome::Detached),
        Some(ClientResponse::PtyOutput { data }) => AttachStep::Show(data),
        Some(ClientResponse::SwitchSession { session_id }) => AttachStep::Leave(
            AttachOutcome::SwitchSession(session_id),
        ),
        Some(ClientResponse::SessionEnded { summary }) => AttachStep::Leave(
            AttachOutcome::SessionEnded(summary),
        ),
        Some(ClientResponse::EndOfStream) => AttachStep::Leave(AttachOutcome::Detached),
        Some(ClientResponse::Error { message }) => AttachStep::Fail(message),
        Some(other) => AttachStep::Unexpected(other),
    }
}

/// What an attached client does about what was typed.
pub fn attach_action(action: AttachInputAction) -> (r: AttachStep)
    ensures
        is_step_for(r, action@),
{
    match action {
        AttachInputAction::Data(data) => AttachStep::Send(data),
        AttachInputAction::Detach => AttachStep::Leave(AttachOutcome::Detached),
        AttachInputAction::PreviousSession => AttachStep::LookFor(AttachSessionDirection::Previous),
        AttachInputAction::NextSession => AttachStep::LookFor(AttachSessionDirection::Next),
    }
}

/// What an attached client does about the session that was looked for.
pub fn attach_target(sessions: &Vec<SessionRecord>, current: &str, direction: AttachSessionDirection)
    -> (r: AttachStep)
    ensures
        match adjacent(ordered(live(sessions@)), current@, direction) {
            Some(id) => r matches AttachStep::Leave(AttachOutcome::SwitchSession(found))
                && found@ == id,
            None => r == AttachStep::Continue,
        },
{
    match adjacent_live_session_id(sessions, current, direction) {
        Some(id) => AttachStep::Leave(AttachOutcome::SwitchSession(id)),
        None => AttachStep::Continue,
    }
}

/// What happens to an attached client.
#[derive(Debug)]
pub enum AttachEvent {
    /// Something was typed; nothing where the input has ended.
    Input(Option<Vec<u8>>),
    /// The terminal has another size; nothing where it cannot be watched any more.
    Resized(Option<(u16, u16)>),
    /// The daemon says something; nothing where it has closed the connection.
    Response(Option<ClientResponse>),
    /// The sessions, among which the one next to its own is looked for.
    Sessions(Vec<SessionRecord>, AttachSessionDirection),
}

/// Whether a step is what a client does about what was typed.
pub open spec fn is_step_for(step: AttachStep, action: ActionView) -> bool {
    match action {
        ActionView::Data(bytes) => step matches AttachStep::Send(data) && data@ == bytes,
        ActionView::Key(Hotkey::Detach) => step == AttachStep::Leave(AttachOutcome::Detached),
        ActionView::Key(Hotkey::PreviousSession) => step == AttachStep::LookFor(
            AttachSessionDirection::Previous,
        ),
        ActionView::Key(Hotkey::NextSession) => step == AttachStep::LookFor(
            AttachSessionDirection::Next,
        ),
    }
}

/// Whether steps are what a client does about all that was typed, in its order.
pub open spec fn are_steps_for(steps: Seq<AttachStep>, actions: Seq<ActionView>) -> bool {
    &&& steps.len() == actions.len()
    &&& forall|i: int| 0 <= i < steps.len() ==> is_step_for(#[trigger] steps[i], actions[i])
}

/// Whether a step is what a client does about a response.
pub open spec fn is_step_after(step: AttachStep, response: Option<ClientResponse>) -> bool {
    step == match response {
        None => AttachStep::Leave(AttachOutcome::Detached),
        Some(ClientResponse::PtyOutput { data }) => AttachStep::Show(data),
        Some(ClientResponse::SwitchSession { session_id }) => AttachStep::Leave(
            AttachOutcome::SwitchSession(session_id),
        ),
        Some(ClientResponse::SessionEnded { summary }) => AttachStep::Leave(
            AttachOutcome::SessionEnded(summary),
        ),
        Some(ClientResponse::EndOfStream) => AttachStep::Leave(AttachOutcome::Detached),
        Some(ClientResponse::Error { message }) => AttachStep::Fail(message),
        Some(other) => AttachStep::Unexpected(other),
    }
}

/// A client that is attached to a session, and what was typed that may become a key.
#[derive(Debug)]
pub struct AttachClient {
    pub session_id: String,
    pub input: AttachInputParser,
}

impl AttachClient {
    /// A client that was just attached.
    pub fn new(session_id: String) -> (r: AttachClient)
        ensures
            r.session_id == session_id,
            r.input.pending_escape@ == Seq::<u8>::empty(),
    {
        AttachClient { session_id, input: AttachInputParser::default() }
    }

    /// What the client does about an event, step by step. It has left with the first step that
    /// leaves, fails or was not expected.
    pub fn handle(&mut self, event: AttachEvent) -> (r: Vec<AttachStep>)
        requires
            event matches AttachEvent::Input(Some(bytes)) ==> old(self).input.pending_escape@.len()
                + bytes@.len() <= usize::MAX,
        ensures
            final(self).session_id == old(self).session_id,
            event matches AttachEvent::Input(Some(bytes)) ==> {
                let (pieces, left) = tokens(old(self).input.pending_escape@ + bytes@);
                are_steps_for(r@, actions_of(pieces)) && final(self).input.pending_escape@ == left
            },
            !(event matches AttachEvent::Input(Some(_))) ==> r@.len() == 1
                && final(self).input.pending_escape@ == old(self).input.pending_escape@,
            match event {
                AttachEvent::Input(Some(_)) => true,
                AttachEvent::Input(None) => r@[0] == AttachStep::Leave(AttachOutcome::Detached),
                AttachEvent::Resized(Some((cols, rows))) => r@[0] == (AttachStep::Resize {
                    cols,
                    rows,
                }),
                AttachEvent::Resized(None) => r@[0] == AttachStep::Leave(AttachOutcome::Detached),
                AttachEvent::Response(response) => is_step_after(r@[0], response),
                AttachEvent::Sessions(sessions, direction) => match adjacent(
                    ordered(live(sessions@)),
                    old(self).session_id@,
                    direction,
                ) {
                    Some(id) => r@[0] matches AttachStep::Leave(
                        AttachOutcome::SwitchSession(found),
                    ) && found@ == id,
                    None => r@[0] == AttachStep::Continue,
                },
            },
    {
        match event {
            AttachEvent::Input(Some(bytes)) => {
                let actions = self.input.push_bytes(bytes.as_slice());
                attach_actions(actions)
            },
            AttachEvent::Input(None) => vec![AttachStep::Leave(AttachOutcome::Detached)],
            AttachEvent::Resized(Some((cols, rows))) => vec![AttachStep::Resize { cols, rows }],
            AttachEvent::Resized(None) => vec![AttachStep::Leave(AttachOutcome::Detached)],
            AttachEvent::Response(response) => vec![attach_response(response)],
            AttachEvent::Sessions(sessions, direction) => vec![
                attach_target(&sessions, self.session_id.as_str(), direction),
            ],
        }
    }
}

fn attach_actions(actions: Vec<AttachInputAction>) -> (r: Vec<AttachStep>)
    ensures
        are_steps_for(r@, action_views(actions@)),
{
    let ghost all = actions@;
    let mut rest = actions;
    let mut steps: Vec<AttachStep> = Vec::new();
    let ghost mut done: int = 0;
    while rest.len() > 0
        invariant
            0 <= done <= all.len(),
            done + rest@.len() == all.len(),
            rest@ == all.skip(done),
            steps@.len() == done,
            forall|i: int|
                0 <= i < done ==> is_step_for(#[trigger] steps@[i], action_views(all)[i]),
        decreases rest.len(),
    {
        let next = rest.remove(0);
        assert(next == all[done]);
        assert(action_views(all)[done] == next@);
        steps.push(attach_action(next));
        proof {
            done = done + 1;
        }
        assert(rest@ =~= all.skip(done));
    }
    steps
}

/// What follows an attachment: another one, or a last word.
#[derive(Debug)]
pub enum AttachNext {
    Attach(String),
    Say(String),
    Stop,
}

/// What follows an attachment.
pub fn after_attachment(outcome: AttachOutcome) -> (r: AttachNext)
    ensures
        match outcome {
            AttachOutcome::Detached => r == AttachNext::Stop,
            AttachOutcome::SessionEnded(summary) => r matches AttachNext::Say(text) && text@
                == end_text(summary),
            AttachOutcome::SwitchSession(session_id) => r == AttachNext::Attach(session_id),
        },
{
    match outcome {
        AttachOutcome::Detached => AttachNext::Stop,
        AttachOutcome::SessionEnded(summary) => AttachNext::Say(
            format_session_end_summary(&summary),
        ),
        AttachOutcome::SwitchSession(session_id) => AttachNext::Attach(session_id),
    }
}

// ---------------------------------------------------------------------------
// Input in blocks
// ---------------------------------------------------------------------------
/// The byte of Ctrl-], which ends the input of a client without hotkeys.
pub const DETACH_BYTE: u8 = 29;

/// What a block of input asks for.
#[derive(Debug, PartialEq, Eq)]
pub enum AttachInput {
    Data(Vec<u8>),
    Detach,
}

/// Where the first byte that detaches stands; the number of bytes where there is none.
pub open spec fn detach_at(bytes: Seq<u8>) -> int
    decreases bytes.len(),
{
    if bytes.len() == 0 || bytes[0] == DETACH_BYTE {
        0
    } else {
        1 + detach_at(bytes.skip(1))
    }
}

/// The model of what a block of input asks for.
pub enum InputView {
    Data(Seq<u8>),
    Detach,
}

impl View for AttachInput {
    type V = InputView;

    open spec fn view(&self) -> InputView {
        match *self {
            AttachInput::Data(data) => InputView::Data(data@),
            AttachInput::Detach => InputView::Detach,
        }
    }
}

/// The models of what blocks of input ask for.
pub open spec fn input_views(inputs: Seq<AttachInput>) -> Seq<InputView> {
    Seq::new(inputs.len(), |i: int| inputs[i]@)
}

/// Whether a block of input detaches. An empty block is the end of the input, and detaches too.
pub open spec fn detaches(bytes: Seq<u8>) -> bool {
    bytes.len() == 0 || detach_at(bytes) < bytes.len()
}

/// What a block asks for: what stands before the byte that detaches, and the detaching.
pub open spec fn block_inputs(bytes: Seq<u8>) -> Seq<InputView> {
    let before = bytes.take(detach_at(bytes));
    let data = if before.len() > 0 {
        seq![InputView::Data(before)]
    } else {
        seq![]
    };
    if detaches(bytes) {
        data.push(InputView::Detach)
    } else {
        data
    }
}

/// What a block of input asks for.
pub fn read_attach_stdin(bytes: &[u8]) -> (r: Vec<AttachInput>)
    ensures
        input_views(r@) == block_inputs(bytes@),
{
    let mut at: usize = 0;
    let mut data: Vec<u8> = Vec::new();
    assert(bytes@.skip(0) =~= bytes@);
    while at < bytes.len() && bytes[at] != DETACH_BYTE
        invariant
            at <= bytes@.len(),
            data@ == bytes@.take(at as int),
            detach_at(bytes@) == at + detach_at(bytes@.skip(at as int)),
        decreases bytes.len() - at,
    {
        assert(bytes@.skip(at as int).skip(1) =~= bytes@.skip(at as int + 1));
        data.push(bytes[at]);
        assert(data@ =~= bytes@.take(at as int + 1));
        at = at + 1;
    }
    let mut inputs: Vec<AttachInput> = Vec::new();
    let ends = at == 0 || at < bytes.len();
    if at > 0 {
        inputs.push(AttachInput::Data(data));
    }
    if ends {
        inputs.push(AttachInput::Detach);
    }
    assert(input_views(inputs@) =~= block_inputs(bytes@));
    inputs
}

// ---------------------------------------------------------------------------
// Laws
// ---------------------------------------------------------------------------
/// Whether no two sessions have the same name.
pub open spec fn distinct_names(sessions: Seq<SessionRecord>) -> bool {
    forall|i: int, j: int|
        0 <= i < j < sessions.len() ==> (#[trigger] sessions[i]).session_id@ != (
        #[trigger] sessions[j]).session_id@
}

/// A session stands where its name is first found.
proof fn position_is_first(sessions: Seq<SessionRecord>, id: Seq<char>)
    ensures
        0 <= position_of(sessions, id) <= sessions.len(),
        position_of(sessions, id) < sessions.len() ==> sessions[position_of(
            sessions,
            id,
        )].session_id@ == id,
        forall|i: int|
            0 <= i < position_of(sessions, id) ==> (#[trigger] sessions[i]).session_id@ != id,
    decreases sessions.len(),
{
    if sessions.len() > 0 && sessions[0].session_id@ != id {
        position_is_first(sessions.skip(1), id);
        assert forall|i: int| 0 <= i < position_of(sessions, id) implies (
        #[trigger] sessions[i]).session_id@ != id by {
            if i > 0 {
                assert(sessions[i] == sessions.skip(1)[i - 1]);
            }
        }
    }
}

/// The next session's previous one, and the previous one's next, is the session itself; and both
/// are others than it, wherever there are two sessions or more, with names of their own.
pub proof fn neighbours_are_mutual(sessions: Seq<SessionRecord>, at: int)
    requires
        2 <= sessions.len(),
        0 <= at < sessions.len(),
        distinct_names(sessions),
    ensures
        ({
            let id = sessions[at].session_id@;
            let next = adjacent(sessions, id, AttachSessionDirection::Next);
            let previous = adjacent(sessions, id, AttachSessionDirection::Previous);
            &&& next is Some && previous is Some
            &&& next->0 != id && previous->0 != id
            &&& adjacent(sessions, next->0, AttachSessionDirection::Previous) == Some(id)
            &&& adjacent(sessions, previous->0, AttachSessionDirection::Next) == Some(id)
        }),
{
    let id = sessions[at].session_id@;
    let len = sessions.len() as int;
    let next = next_place(at, len, AttachSessionDirection::Next);
    let previous = next_place(at, len, AttachSessionDirection::Previous);
    position_is_first(sessions, id);
    position_is_first(sessions, sessions[next].session_id@);
    position_is_first(sessions, sessions[previous].session_id@);
    assert(position_of(sessions, id) == at);
    assert(position_of(sessions, sessions[next].session_id@) == next);
    assert(position_of(sessions, sessions[previous].session_id@) == previous);
}

/// While an attached client is typed at, it leaves only by the key that detaches.
pub proof fn typing_leaves_by_the_detach_key(steps: Seq<AttachStep>, actions: Seq<ActionView>)
    requires
        are_steps_for(steps, actions),
    ensures
        forall|i: int|
            0 <= i < steps.len() ==> ((#[trigger] steps[i] is Leave) <==> actions[i]
                == ActionView::Key(Hotkey::Detach)),
{
    assert forall|i: int| 0 <= i < steps.len() implies ((#[trigger] steps[i] is Leave)
        <==> actions[i] == ActionView::Key(Hotkey::Detach)) by {
        assert(is_step_for(steps[i], actions[i]));
    }
}

/// What blocks of input ask for, one after the other, until one detaches.
pub open spec fn blocks_inputs(blocks: Seq<Seq<u8>>) -> Seq<InputView>
    decreases blocks.len(),
{
    if blocks.len() == 0 {
        Seq::empty()
    } else if detaches(blocks[0]) {
        block_inputs(blocks[0])
    } else {
        block_inputs(blocks[0]) + blocks_inputs(blocks.skip(1))
    }
}

/// The bytes of blocks up to the first that is empty, which is the end of the input.
pub open spec fn bytes_of(blocks: Seq<Seq<u8>>) -> Seq<u8>
    decreases blocks.len(),
{
    if blocks.len() == 0 || blocks[0].len() == 0 {
        Seq::empty()
    } else {
        blocks[0] + bytes_of(blocks.skip(1))
    }
}

/// Whether one of the blocks is empty.
pub open spec fn has_end(blocks: Seq<Seq<u8>>) -> bool {
    exists|i: int| 0 <= i < blocks.len() && (#[trigger] blocks[i]).len() == 0
}

/// The bytes that go out, one run behind the other.
pub open spec fn sent(inputs: Seq<InputView>) -> Seq<u8>
    decreases inputs.len(),
{
    if inputs.len() == 0 {
        Seq::empty()
    } else {
        sent(inputs.drop_last()) + match inputs.last() {
            InputView::Data(data) => data,
            InputView::Detach => Seq::empty(),
        }
    }
}

/// However the input is cut into blocks, its bytes go out in order up to the first that detaches,
/// or up to its end; and exactly one detaching follows, as the last of all, where there is such a
/// byte or an end.
pub proof fn blocks_are_sent_until_detached(blocks: Seq<Seq<u8>>)
    ensures
        ({
            let inputs = blocks_inputs(blocks);
            let bytes = bytes_of(blocks);
            let due = detach_at(bytes) < bytes.len() || has_end(blocks);
            &&& sent(inputs) == bytes.take(detach_at(bytes))
            &&& due <==> inputs.len() > 0 && inputs.last() == InputView::Detach
            &&& forall|i: int|
                0 <= i < inputs.len() - 1 ==> (#[trigger] inputs[i]) is Data
        }),
    decreases blocks.len(),
{
    let inputs = blocks_inputs(blocks);
    let bytes = bytes_of(blocks);
    if blocks.len() == 0 {
        assert(bytes.take(detach_at(bytes)) =~= Seq::empty());
        assert(!has_end(blocks));
    } else {
        let block = blocks[0];
        let rest = blocks.skip(1);
        detach_bounds(block);
        let data = if detach_at(block) > 0 {
            seq![InputView::Data(block.take(detach_at(block)))]
        } else {
            seq![]
        };
        one_run(block.take(detach_at(block)));
        if block.len() == 0 {
            assert(has_end(blocks));
            assert(inputs =~= seq![InputView::Detach]);
            assert(inputs.drop_last() =~= Seq::empty());
            assert(sent(inputs) =~= Seq::empty());
            assert(bytes.take(detach_at(bytes)) =~= Seq::empty());
        } else {
            detach_joined(block, bytes_of(rest));
            detach_bounds(bytes_of(rest));
            if detaches(block) {
                assert(inputs =~= data.push(InputView::Detach));
                assert(inputs.drop_last() =~= data);
                assert(sent(inputs) =~= sent(data));
                assert(bytes.take(detach_at(bytes)) =~= block.take(detach_at(block)));
            } else {
                blocks_are_sent_until_detached(rest);
                let more = blocks_inputs(rest);
                assert(block.take(detach_at(block)) =~= block);
                assert(inputs =~= data + more);
                sent_joined(data, more);
                assert(bytes.take(detach_at(bytes)) =~= block + bytes_of(rest).take(
                    detach_at(bytes_of(rest)),
                ));
                if has_end(rest) {
                    let i = choose|i: int| 0 <= i < rest.len() && (#[trigger] rest[i]).len() == 0;
                    assert(blocks[i + 1] == rest[i]);
                }
                if has_end(blocks) {
                    let i = choose|i: int|
                        0 <= i < blocks.len() && (#[trigger] blocks[i]).len() == 0;
                    assert(rest[i - 1] == blocks[i]);
                }
                assert forall|i: int| 0 <= i < inputs.len() - 1 implies (
                #[trigger] inputs[i]) is Data by {
                    if i > 0 {
                        assert(inputs[i] == more[i - 1]);
                    }
                }
            }
        }
    }
}

proof fn detach_bounds(bytes: Seq<u8>)
    ensures
        0 <= detach_at(bytes) <= bytes.len(),
    decreases bytes.len(),
{
    if bytes.len() > 0 {
        detach_bounds(bytes.skip(1));
    }
}

proof fn detach_joined(a: Seq<u8>, b: Seq<u8>)
    ensures
        detach_at(a + b) == (if detach_at(a) < a.len() {
            detach_at(a)
        } else {
            a.len() + detach_at(b)
        }),
    decreases a.len(),
{
    if a.len() == 0 {
        assert(a + b =~= b);
    } else {
        assert((a + b)[0] == a[0]);
        assert((a + b).skip(1) =~= a.skip(1) + b);
        detach_joined(a.skip(1), b);
    }
}

proof fn one_run(bytes: Seq<u8>)
    ensures
        sent(seq![InputView::Data(bytes)]) == bytes,
        sent(Seq::<InputView>::empty()) == Seq::<u8>::empty(),
{
    let one = seq![InputView::Data(bytes)];
    let none = one.drop_last();
    assert(none.len() == 0);
    assert(sent(none) == Seq::<u8>::empty());
    assert(sent(one) == sent(none) + bytes);
    assert(sent(none) + bytes =~= bytes);
}

proof fn sent_joined(a: Seq<InputView>, b: Seq<InputView>)
    ensures
        sent(a + b) == sent(a) + sent(b),
    decreases b.len(),
{
    if b.len() == 0 {
        assert(a + b =~= a);
        assert(sent(a) + sent(b) =~= sent(a));
    } else {
        sent_joined(a, b.drop_last());
        assert((a + b).drop_last() =~= a + b.drop_last());
        assert(sent(a + b) =~= sent(a) + sent(b));
    }
}

} // verus!
