//! Which keys an attached client takes for itself, and what becomes of the rest.
use crate::attach_input::{
    actions_of, alternates_end, decimal_at, digits_end, hotkey, hotkey_end, hotkey_event,
    hotkey_modifiers, hotkey_text, number, tokens, ActionView, AttachCsiUParse, Hotkey, Token,
};
use crate::client::attach::{detach_at, detaches};
use crate::protocol::field::WireStatus;
use crate::protocol::request::Request;
use crate::protocol::response::Response;
use crate::session::{SessionRecord, SessionStatus};
use crate::switcher::{choices, choices_are_the_others, switch_key, EffectView};
use crate::keys::{KeyCode, KeyEvent};
use crate::tui::pty::{ended_text, EventView, PtyAction, PtyCommand, PtyInput, PtyStage};
use vstd::prelude::*;

verus! {

// ---------------------------------------------------------------------------
// Keys as single bytes
// ---------------------------------------------------------------------------
/// The byte of Ctrl-\ detaches and that of Ctrl-] goes to the next session, whatever follows. Every
/// other byte but the one that starts an escape sequence goes to the session.
pub proof fn bytes_are_told_apart(b: Seq<u8>)
    requires
        b.len() > 0,
        b[0] != 27,
    ensures
        ({
            let (pieces, left) = tokens(b);
            let (rest, rest_left) = tokens(b.skip(1));
            &&& left == rest_left
            &&& b[0] == 28 ==> pieces == seq![Token::Key(Hotkey::Detach)] + rest
            &&& b[0] == 29 ==> pieces == seq![Token::Key(Hotkey::NextSession)] + rest
            &&& b[0] != 28 && b[0] != 29 ==> pieces == seq![Token::Byte(b[0])] + rest
        }),
{
}

/// What was typed before a key goes to the session first, and all at once; then the key is taken.
pub proof fn input_before_a_key_goes_first(run: Seq<u8>, key: Hotkey)
    requires
        run.len() > 0,
    ensures
        actions_of(
            Seq::new(run.len(), |i: int| Token::Byte(run[i])).push(Token::Key(key)),
        ) == seq![ActionView::Data(run), ActionView::Key(key)],
        actions_of(seq![Token::Key(key)]) == seq![ActionView::Key(key)],
{
    let bytes = Seq::new(run.len(), |i: int| Token::Byte(run[i]));
    run_is_open(run);
    assert(bytes.push(Token::Key(key)).drop_last() =~= bytes);
    assert(actions_of(bytes.push(Token::Key(key))) =~= seq![
        ActionView::Data(run),
        ActionView::Key(key),
    ]);
    assert(seq![Token::Key(key)].drop_last() =~= Seq::empty());
    reveal_with_fuel(crate::attach_input::grouped, 2);
    assert(actions_of(seq![Token::Key(key)]) =~= seq![ActionView::Key(key)]);
}

proof fn run_is_open(run: Seq<u8>)
    ensures
        crate::attach_input::grouped(Seq::new(run.len(), |i: int| Token::Byte(run[i]))) == (
            Seq::<ActionView>::empty(),
            run,
        ),
    decreases run.len(),
{
    let bytes = Seq::new(run.len(), |i: int| Token::Byte(run[i]));
    if run.len() > 0 {
        let front = run.drop_last();
        run_is_open(front);
        assert(bytes.drop_last() =~= Seq::new(front.len(), |i: int| Token::Byte(front[i])));
        assert(front.push(run.last()) =~= run);
    } else {
        assert(run =~= Seq::empty());
    }
}

// ---------------------------------------------------------------------------
// Keys as escape sequences
// ---------------------------------------------------------------------------
/// The code of a key, in digits.
pub open spec fn code_digits(key: Hotkey) -> Seq<u8> {
    match key {
        Hotkey::PreviousSession => seq![57u8, 49u8],
        Hotkey::Detach => seq![57u8, 50u8],
        Hotkey::NextSession => seq![57u8, 51u8],
    }
}

/// The number that digits are.
pub open spec fn value(digits: Seq<u8>) -> nat
    decreases digits.len(),
{
    if digits.len() == 0 {
        0
    } else {
        value(digits.drop_last()) * 10 + (digits.last() - 48) as nat
    }
}

/// Whether bytes are digits of a number of thirty-two bits.
pub open spec fn is_number(digits: Seq<u8>) -> bool {
    digits.len() > 0 && value(digits) <= u32::MAX && forall|i: int|
        0 <= i < digits.len() ==> 48 <= #[trigger] digits[i] <= 57
}

/// A key as a terminal writes it: its code, its modifiers, and what follows up to the end.
pub open spec fn key_bytes(code: Seq<u8>, modifiers: Seq<u8>, rest: Seq<u8>) -> Seq<u8> {
    seq![27u8, 91u8] + code + seq![59u8] + modifiers + rest
}

proof fn value_is_number(b: Seq<u8>, i: int, digits: Seq<u8>)
    requires
        0 <= i,
        i + digits.len() <= b.len(),
        b.subrange(i, i + digits.len()) == digits,
    ensures
        number(b, i, i + digits.len()) == value(digits),
    decreases digits.len(),
{
    if digits.len() > 0 {
        let front = digits.drop_last();
        let whole = b.subrange(i, i + digits.len());
        assert(b.subrange(i, i + front.len()) =~= whole.drop_last());
        value_is_number(b, i, front);
        assert(whole[digits.len() - 1] == b[i + digits.len() - 1]);
    }
}

proof fn digits_stop(b: Seq<u8>, i: int, n: int)
    requires
        0 <= i,
        0 <= n,
        i + n < b.len(),
        forall|k: int| i <= k < i + n ==> 48 <= #[trigger] b[k] <= 57,
        !(48 <= b[i + n] <= 57),
    ensures
        digits_end(b, i) == i + n,
    decreases n,
{
    if n > 0 {
        assert(48 <= b[i] <= 57);
        digits_stop(b, i + 1, n - 1);
    }
}

proof fn number_is_read(b: Seq<u8>, i: int, digits: Seq<u8>)
    requires
        0 <= i,
        is_number(digits),
        i + digits.len() < b.len(),
        b.subrange(i, i + digits.len()) == digits,
        !(48 <= b[i + digits.len()] <= 57),
    ensures
        decimal_at(b, i) == Some(value(digits)),
        digits_end(b, i) == i + digits.len(),
{
    assert forall|k: int| i <= k < i + digits.len() implies 48 <= #[trigger] b[k] <= 57 by {
        assert(b.subrange(i, i + digits.len())[k - i] == digits[k - i]);
    }
    digits_stop(b, i, digits.len() as int);
    value_is_number(b, i, digits);
}

proof fn modifiers_are_read(code: Seq<u8>, modifiers: Seq<u8>, rest: Seq<u8>, key: Hotkey)
    requires
        code == code_digits(key),
        is_number(modifiers),
        rest.len() > 0,
        !(48 <= rest[0] <= 57),
    ensures
        ({
            let b = key_bytes(code, modifiers, rest);
            let held = value(modifiers) > 0 && (value(modifiers) - 1) % 64 == 4;
            hotkey(b) == (if held {
                hotkey_event(key, b, 5 + modifiers.len() as int)
            } else {
                None
            })
        }),
{
    let b = key_bytes(code, modifiers, rest);
    assert(b[0] == 27 && b[1] == 91 && b[4] == 59);
    assert(b.subrange(2, 4) =~= code);
    value_of_code(key);
    number_is_read(b, 2, code);
    assert(b.subrange(5, 5 + modifiers.len() as int) =~= modifiers);
    assert(b[5 + modifiers.len() as int] == rest[0]);
    number_is_read(b, 5, modifiers);
    assert(alternates_end(b, 4) == Some(4int));
    assert(hotkey(b) == hotkey_modifiers(key, b, 4));
}

proof fn value_of_code(key: Hotkey)
    ensures
        is_number(code_digits(key)),
        value(code_digits(key)) == (match key {
            Hotkey::PreviousSession => 91nat,
            Hotkey::Detach => 92nat,
            Hotkey::NextSession => 93nat,
        }),
{
    let d = code_digits(key);
    assert(d.drop_last() =~= seq![57u8]);
    assert(seq![57u8].drop_last() =~= Seq::empty());
    reveal_with_fuel(value, 3);
    assert(value(seq![57u8]) == 9);
}

/// A terminal that tells keys apart writes the keys `[`, `\` and `]` by their codes. With Ctrl, and
/// with no other key held but the locks, the first goes to the previous session, the second
/// detaches, and the third goes to the next session. With other keys held it is none of these.
pub proof fn control_keys_are_taken(key: Hotkey, modifiers: Seq<u8>)
    requires
        is_number(modifiers),
        modifiers.len() < 100,
    ensures
        ({
            let b = key_bytes(code_digits(key), modifiers, seq![117u8]);
            let held = value(modifiers) > 0 && (value(modifiers) - 1) % 64 == 4;
            &&& held ==> hotkey(b) == Some(AttachCsiUParse::Action(key, b.len() as usize))
            &&& !held ==> hotkey(b) is None
        }),
{
    let rest = seq![117u8];
    let b = key_bytes(code_digits(key), modifiers, rest);
    modifiers_are_read(code_digits(key), modifiers, rest, key);
    let i = 5 + modifiers.len() as int;
    assert(b[i] == 117);
    assert(hotkey_event(key, b, i) == hotkey_text(key, b, i));
    assert(hotkey_text(key, b, i) == hotkey_end(key, b, i));
}

/// A key counts when it goes down and while it is held, not when it is let go.
pub proof fn keys_count_when_pressed(key: Hotkey, modifiers: Seq<u8>, event: Seq<u8>)
    requires
        is_number(modifiers),
        is_number(event),
        modifiers.len() < 100,
        event.len() < 100,
        value(modifiers) > 0 && (value(modifiers) - 1) % 64 == 4,
    ensures
        ({
            let b = key_bytes(code_digits(key), modifiers, seq![58u8] + event + seq![117u8]);
            &&& value(event) == 3 ==> hotkey(b) is None
            &&& value(event) != 3 ==> hotkey(b) == Some(
                AttachCsiUParse::Action(key, b.len() as usize),
            )
        }),
{
    let rest = seq![58u8] + event + seq![117u8];
    let b = key_bytes(code_digits(key), modifiers, rest);
    assert(rest[0] == 58);
    modifiers_are_read(code_digits(key), modifiers, rest, key);
    let i = 5 + modifiers.len() as int;
    let n = event.len() as int;
    assert(b[i] == rest[0]);
    assert(b.subrange(i + 1, i + 1 + n) =~= event);
    assert(b[i + 1 + n] == 117);
    number_is_read(b, i + 1, event);
    assert(hotkey_event(key, b, i) == (if value(event) == 3 {
        None
    } else {
        hotkey_text(key, b, i + 1 + n)
    }));
    assert(hotkey_text(key, b, i + 1 + n) == hotkey_end(key, b, i + 1 + n));
}

/// No key with another code is taken.
pub proof fn other_keys_are_not_taken(code: Seq<u8>, modifiers: Seq<u8>, rest: Seq<u8>)
    requires
        is_number(code),
        value(code) != 91,
        value(code) != 92,
        value(code) != 93,
    ensures
        hotkey(key_bytes(code, modifiers, rest)) is None,
{
    let b = key_bytes(code, modifiers, rest);
    assert(b[0] == 27 && b[1] == 91);
    assert(b.subrange(2, 2 + code.len() as int) =~= code);
    assert(b[2 + code.len() as int] == 59);
    number_is_read(b, 2, code);
}

// ---------------------------------------------------------------------------
// Going to another session from within
// ---------------------------------------------------------------------------
/// The sessions that can be gone to are those that run, but for the one that is left.
pub proof fn running_sessions_are_offered(
    sessions: Seq<SessionRecord>,
    current: Seq<char>,
    session: SessionRecord,
)
    ensures
        choices(sessions, current).contains(session) <==> sessions.contains(session)
            && session.status == SessionStatus::Running && session.session_id@ != current,
{
    choices_are_the_others(sessions, current, session);
}

/// Enter goes to the session that is marked, and nothing else goes anywhere. Escape and Ctrl-c leave
/// the list. Up and Down move the mark by one and stop at the ends; what is typed goes behind what
/// was typed, Backspace takes the last character off, and both put the mark on the first match.
pub proof fn list_of_sessions_is_used(
    query: Seq<char>,
    selected: int,
    key: KeyEvent,
    found: Seq<(int, SessionRecord)>,
    id: Seq<char>,
    c: char,
)
    requires
        0 <= selected,
    ensures
        ({
            let (typed, at, effect) = switch_key(query, selected, key, found);
            let cancels = key.code == KeyCode::Esc || key.code == KeyCode::Char('c')
                && key.modifiers.control;
            let types = key.code == KeyCode::Char(c) && !key.modifiers.control
                && !key.modifiers.other;
            &&& effect == EffectView::Switch(id) <==> key.code == KeyCode::Enter && selected
                < found.len() && found[selected].1.session_id@ == id
            &&& effect == EffectView::Cancel <==> cancels
            &&& types ==> typed == query.push(c) && at == 0
            &&& key.code == KeyCode::Backspace && query.len() > 0 ==> typed == query.drop_last()
                && at == 0
            &&& key.code == KeyCode::Up ==> typed == query && at == (if selected > 0 {
                selected - 1
            } else {
                0
            })
            &&& key.code == KeyCode::Down ==> typed == query && at == (if selected + 1 < found.len() {
                selected + 1
            } else {
                selected
            })
            &&& key.code == KeyCode::Enter || cancels ==> typed == query && at == selected
        }),
{
}

// ---------------------------------------------------------------------------
// The connection to a terminal
// ---------------------------------------------------------------------------
/// What is typed at a terminal that is followed goes to the daemon as it is, and nothing else does.
pub proof fn typed_input_is_sent(stage: PtyStage, input: PtyInput, request: Request)
    ensures
        stage.after(input).2 == PtyAction::Send(request) <==> stage == PtyStage::Following
            && exists|data: Vec<u8>|
            input == PtyInput::Command(Some(PtyCommand::Input(data))) && request == (
            #[trigger] input_request(data)),
{
    if stage == PtyStage::Following {
        if let PtyInput::Command(Some(PtyCommand::Input(data))) = input {
            assert(stage.after(input).2 == PtyAction::Send(input_request(data)));
        }
    }
}

/// The request that sends input.
pub open spec fn input_request(data: Vec<u8>) -> Request {
    Request::AttachInput { data }
}

/// The first answer of the daemon has to attach; then the terminal is shown as it was, and what it
/// prints as it comes. The end of the session, of the stream or of the connection is the end, a
/// failure is told, and closing ends it without a word.
pub proof fn terminals_are_followed(stage: PtyStage, data: Vec<u8>, text: String, status: WireStatus)
    ensures
        PtyStage::Attaching.after(
            PtyInput::Response(Some(Response::Attached { snapshot: data })),
        ) == (PtyStage::Following, seq![EventView::Snapshot(data@)], PtyAction::GoOn),
        PtyStage::Following.after(PtyInput::Response(Some(Response::PtyOutput { data }))) == (
            PtyStage::Following,
            seq![EventView::Output(data@)],
            PtyAction::GoOn,
        ),
        PtyStage::Following.after(PtyInput::Response(Some(Response::EndOfStream))) == (
            PtyStage::Closed,
            seq![EventView::Closed],
            PtyAction::Stop,
        ),
        PtyStage::Following.after(PtyInput::Response(None)) == (
            PtyStage::Closed,
            seq![EventView::Closed],
            PtyAction::Stop,
        ),
        PtyStage::Following.after(PtyInput::Command(Some(PtyCommand::Close))) == (
            PtyStage::Closed,
            seq![EventView::Closed],
            PtyAction::Stop,
        ),
        stage != PtyStage::Closed ==> stage.after(PtyInput::Failed(text)) == (
            PtyStage::Closed,
            seq![EventView::Error(text@), EventView::Closed],
            PtyAction::Stop,
        ),
        stage != PtyStage::Closed ==> stage.after(
            PtyInput::Response(Some(Response::Error { message: text })),
        ) == (
            PtyStage::Closed,
            seq![EventView::Error(text@), EventView::Closed],
            PtyAction::Stop,
        ),
        PtyStage::Following.after(
            PtyInput::Response(
                Some(
                    Response::SessionEnded {
                        session_id: text,
                        status,
                        exit_code: None,
                        error: Some(text),
                    },
                ),
            ),
        ).1 == seq![EventView::Ended(text@), EventView::Closed],
        PtyStage::Following.after(
            PtyInput::Response(
                Some(
                    Response::SessionEnded {
                        session_id: text,
                        status,
                        exit_code: None,
                        error: None,
                    },
                ),
            ),
        ).1 == seq![EventView::Ended(ended_text(status)), EventView::Closed],
        status == WireStatus::Failed ==> ended_text(status) == "session ended: "@ + "failed"@,
        status == WireStatus::Exited ==> ended_text(status) == "session ended: "@ + "exited"@,
        PtyStage::Closed.after(PtyInput::Response(Some(Response::PtyOutput { data }))).1.len() == 0,
{
}

// ---------------------------------------------------------------------------
// Input in blocks
// ---------------------------------------------------------------------------
/// A client without hotkeys is detached by the first byte of Ctrl-], and by no byte before it.
pub proof fn blocks_end_at_the_detaching_byte(bytes: Seq<u8>)
    ensures
        0 <= detach_at(bytes) <= bytes.len(),
        forall|i: int| 0 <= i < detach_at(bytes) ==> #[trigger] bytes[i] != 29,
        detach_at(bytes) < bytes.len() ==> bytes[detach_at(bytes)] == 29,
        detaches(bytes) <==> bytes.len() == 0 || exists|i: int|
            0 <= i < bytes.len() && #[trigger] bytes[i] == 29,
    decreases bytes.len(),
{
    if bytes.len() > 0 && bytes[0] != 29 {
        let rest = bytes.skip(1);
        blocks_end_at_the_detaching_byte(rest);
        assert forall|i: int| 0 <= i < detach_at(bytes) implies #[trigger] bytes[i] != 29 by {
            if i > 0 {
                assert(bytes[i] == rest[i - 1]);
            }
        }
        if detach_at(rest) < rest.len() {
            assert(bytes[detach_at(bytes)] == rest[detach_at(rest)]);
        }
        if exists|i: int| 0 <= i < bytes.len() && #[trigger] bytes[i] == 29 {
            let i = choose|i: int| 0 <= i < bytes.len() && #[trigger] bytes[i] == 29;
            assert(rest[i - 1] == 29);
        }
    }
}

} // verus!
