//! What a client types while it is attached: bytes for the session, and keys for the client.
use vstd::prelude::*;
use vstd::slice::slice_subrange;

verus! {

/// The byte of Ctrl-\, which detaches.
pub const ATTACH_DETACH_BYTE: u8 = 0x1c;

/// The byte of Ctrl-], which goes to the next session.
pub const ATTACH_NEXT_SESSION_BYTE: u8 = 0x1d;

/// The code of the key `[`, which with Ctrl goes to the previous session.
pub const ATTACH_PREVIOUS_SESSION_CODEPOINT: u32 = 91;

/// The code of the key `\`, which with Ctrl detaches.
pub const ATTACH_DETACH_CODEPOINT: u32 = 92;

/// The code of the key `]`, which with Ctrl goes to the next session.
pub const ATTACH_NEXT_SESSION_CODEPOINT: u32 = 93;

/// The byte that starts an escape sequence.
pub const ESCAPE: u8 = 0x1b;

/// What a piece of input asks for.
#[derive(Debug, PartialEq, Eq)]
pub enum AttachInputAction {
    /// Bytes for the session.
    Data(Vec<u8>),
    Detach,
    PreviousSession,
    NextSession,
}

/// The keys that the client takes for itself.
#[derive(Clone, Copy, Debug, PartialEq, Eq, Structural)]
pub enum Hotkey {
    Detach,
    PreviousSession,
    NextSession,
}

/// What the start of some input is.
#[derive(Clone, Copy, Debug, PartialEq, Eq, Structural)]
pub enum AttachCsiUParse {
    /// A key, written with so many bytes.
    Action(Hotkey, usize),
    /// What may become a key with more input.
    Incomplete,
}

/// A piece of input: a byte for the session, or a key for the client.
pub enum Token {
    Byte(u8),
    Key(Hotkey),
}

/// The model of an action.
pub enum ActionView {
    Data(Seq<u8>),
    Key(Hotkey),
}

impl View for AttachInputAction {
    type V = ActionView;

    open spec fn view(&self) -> ActionView {
        match *self {
            AttachInputAction::Data(data) => ActionView::Data(data@),
            AttachInputAction::Detach => ActionView::Key(Hotkey::Detach),
            AttachInputAction::PreviousSession => ActionView::Key(Hotkey::PreviousSession),
            AttachInputAction::NextSession => ActionView::Key(Hotkey::NextSession),
        }
    }
}

// ---------------------------------------------------------------------------
// Keys as escape sequences: ESC [ code (: alternate)* ; modifiers (: event)? (; text)? u
// ---------------------------------------------------------------------------
/// Whether a byte is a decimal digit.
pub open spec fn is_digit(b: u8) -> bool {
    48 <= b <= 57
}

/// Where the digits that start at `i` end.
pub open spec fn digits_end(b: Seq<u8>, i: int) -> int
    decreases b.len() - i,
{
    if 0 <= i < b.len() && is_digit(b[i]) {
        digits_end(b, i + 1)
    } else {
        i
    }
}

/// The number that the digits from `i` to `j` are.
pub open spec fn number(b: Seq<u8>, i: int, j: int) -> nat
    decreases j - i,
{
    if j <= i {
        0
    } else {
        number(b, i, j - 1) * 10 + (b[j - 1] - 48) as nat
    }
}

/// The number that starts at `i`, if there is one and it is not too large.
pub open spec fn decimal_at(b: Seq<u8>, i: int) -> Option<nat> {
    let end = digits_end(b, i);
    if end == i || number(b, i, end) > u32::MAX {
        None
    } else {
        Some(number(b, i, end))
    }
}

/// Where the alternate codes of a key end that start at `i`; nothing if one is too large.
pub open spec fn alternates_end(b: Seq<u8>, i: int) -> Option<int>
    decreases b.len() - i,
    when 0 <= i
    via alternates_shrink
{
    if i < b.len() && b[i] == 58 {
        let end = digits_end(b, i + 1);
        if number(b, i + 1, end) > u32::MAX {
            None
        } else {
            alternates_end(b, end)
        }
    } else {
        Some(i)
    }
}

#[via_fn]
proof fn alternates_shrink(b: Seq<u8>, i: int) {
    if i < b.len() && b[i] == 58 {
        digits_end_bounds(b, i + 1);
    }
}

/// Digits end at or behind their start and within the input.
pub proof fn digits_end_bounds(b: Seq<u8>, i: int)
    ensures
        i <= digits_end(b, i),
        0 <= i <= b.len() ==> digits_end(b, i) <= b.len(),
        forall|k: int| 0 <= i <= k < digits_end(b, i) ==> is_digit(#[trigger] b[k]),
    decreases b.len() - i,
{
    if 0 <= i < b.len() && is_digit(b[i]) {
        digits_end_bounds(b, i + 1);
    }
}

/// Where the text of a key event ends that starts at `i`.
pub open spec fn text_end(b: Seq<u8>, i: int) -> int
    decreases b.len() - i,
{
    if 0 <= i < b.len() && (is_digit(b[i]) || b[i] == 58) {
        text_end(b, i + 1)
    } else {
        i
    }
}

/// The key with the given code.
pub open spec fn key_of(code: nat) -> Option<Hotkey> {
    if code == ATTACH_PREVIOUS_SESSION_CODEPOINT {
        Some(Hotkey::PreviousSession)
    } else if code == ATTACH_DETACH_CODEPOINT {
        Some(Hotkey::Detach)
    } else if code == ATTACH_NEXT_SESSION_CODEPOINT {
        Some(Hotkey::NextSession)
    } else {
        None
    }
}

/// What the start of some input is: a key and the number of its bytes, or nothing yet; nothing at
/// all where the input does not start with a key.
pub open spec fn hotkey(b: Seq<u8>) -> Option<AttachCsiUParse> {
    if b.len() < 2 || b[0] != ESCAPE || b[1] != 91 {
        None
    } else {
        match decimal_at(b, 2) {
            Some(code) => match key_of(code) {
                Some(key) => match alternates_end(b, digits_end(b, 2)) {
                    Some(i) => hotkey_modifiers(key, b, i),
                    None => Some(AttachCsiUParse::Incomplete),
                },
                None => None,
            },
            None => None,
        }
    }
}

/// The same behind the codes of the key: a semicolon, and modifiers of which Ctrl alone counts
/// (the lock keys are left aside).
pub open spec fn hotkey_modifiers(key: Hotkey, b: Seq<u8>, i: int) -> Option<AttachCsiUParse> {
    if i >= b.len() {
        Some(AttachCsiUParse::Incomplete)
    } else if b[i] != 59 {
        None
    } else if i + 1 >= b.len() {
        Some(AttachCsiUParse::Incomplete)
    } else {
        match decimal_at(b, i + 1) {
            Some(modifiers) => if modifiers > 0 && (modifiers - 1) % 64 == 4 {
                hotkey_event(key, b, digits_end(b, i + 1))
            } else {
                None
            },
            None => None,
        }
    }
}

/// The same behind the modifiers: what happened to the key, which must not be its release.
pub open spec fn hotkey_event(key: Hotkey, b: Seq<u8>, i: int) -> Option<AttachCsiUParse> {
    if i < b.len() && b[i] == 58 {
        if i + 1 >= b.len() {
            Some(AttachCsiUParse::Incomplete)
        } else {
            match decimal_at(b, i + 1) {
                Some(event) => if event == 3 {
                    None
                } else {
                    hotkey_text(key, b, digits_end(b, i + 1))
                },
                None => None,
            }
        }
    } else {
        hotkey_text(key, b, i)
    }
}

/// The same behind the event: the text that the key stands for, which is passed over.
pub open spec fn hotkey_text(key: Hotkey, b: Seq<u8>, i: int) -> Option<AttachCsiUParse> {
    if i < b.len() && b[i] == 59 {
        if i + 1 >= b.len() {
            Some(AttachCsiUParse::Incomplete)
        } else {
            hotkey_end(key, b, text_end(b, i + 1))
        }
    } else {
        hotkey_end(key, b, i)
    }
}

/// The same behind the text: the letter that ends the sequence.
pub open spec fn hotkey_end(key: Hotkey, b: Seq<u8>, i: int) -> Option<AttachCsiUParse> {
    if i >= b.len() {
        Some(AttachCsiUParse::Incomplete)
    } else if b[i] != 117 {
        None
    } else {
        Some(AttachCsiUParse::Action(key, (i + 1) as usize))
    }
}

/// The number at a position. Behind a number, the position is that of the first byte after it.
pub fn parse_csi_u_decimal(bytes: &[u8], index: &mut usize) -> (r: Option<u32>)
    requires
        *old(index) <= bytes@.len(),
    ensures
        match decimal_at(bytes@, *old(index) as int) {
            Some(value) => r == Some(value as u32),
            None => r is None,
        },
        r is Some || digits_end(bytes@, *old(index) as int) == *old(index) ==> *final(index)
            == digits_end(bytes@, *old(index) as int),
{
    let start: usize = *index;
    let mut value: u32 = 0;
    proof {
        digits_end_bounds(bytes@, start as int);
    }
    while *index < bytes.len() && 48 <= bytes[*index] && bytes[*index] <= 57
        invariant
            start <= *index <= digits_end(bytes@, start as int) <= bytes@.len(),
            digits_end(bytes@, *index as int) == digits_end(bytes@, start as int),
            value == number(bytes@, start as int, *index as int),
            start == *old(index),
        decreases bytes@.len() - *index,
    {
        let ghost end = digits_end(bytes@, start as int);
        let digit: u32 = (bytes[*index] - 48) as u32;
        proof {
            digits_end_bounds(bytes@, *index + 1);
            number_grows(bytes@, start as int, *index + 1, end);
        }
        let shifted: u32 = match value.checked_mul(10) {
            Some(shifted) => shifted,
            None => {
                return None;
            },
        };
        value = match shifted.checked_add(digit) {
            Some(value) => value,
            None => {
                return None;
            },
        };
        *index = *index + 1;
    }
    if *index == start {
        None
    } else {
        Some(value)
    }
}

/// A number does not get smaller with more digits.
proof fn number_grows(b: Seq<u8>, i: int, j: int, k: int)
    requires
        i <= j <= k,
    ensures
        number(b, i, j) <= number(b, i, k),
    decreases k - j,
{
    if j < k {
        number_grows(b, i, j, k - 1);
        assert(number(b, i, k) == number(b, i, k - 1) * 10 + (b[k - 1] - 48) as nat);
    }
}

/// The number at a position, if there is one; nothing at all if it is too large. Behind a number,
/// the position is that of the first byte after it.
pub fn parse_csi_u_decimal_optional(bytes: &[u8], index: &mut usize) -> (r: Option<Option<u32>>)
    requires
        *old(index) <= bytes@.len(),
    ensures
        ({
            let start = *old(index) as int;
            let end = digits_end(bytes@, start);
            if number(bytes@, start, end) > u32::MAX {
                r is None
            } else {
                &&& r == Some(
                    if end == start {
                        None
                    } else {
                        Some(number(bytes@, start, end) as u32)
                    },
                )
                &&& *final(index) == end
            }
        }),
{
    let start: usize = *index;
    if start >= bytes.len() || !(48 <= bytes[start] && bytes[start] <= 57) {
        return Some(None);
    }
    proof {
        digits_end_bounds(bytes@, start + 1);
    }
    match parse_csi_u_decimal(bytes, index) {
        Some(value) => Some(Some(value)),
        None => None,
    }
}

/// What the start of some input is: a key and the number of its bytes, or what may become one.
pub fn parse_attach_hotkey_csi_u(bytes: &[u8]) -> (r: Option<AttachCsiUParse>)
    ensures
        r == hotkey(bytes@),
{
    if bytes.len() < 2 || bytes[0] != ESCAPE || bytes[1] != 91 {
        return None;
    }
    let mut index: usize = 2;
    let key_code: u32 = match parse_csi_u_decimal(bytes, &mut index) {
        Some(key_code) => key_code,
        None => {
            return None;
        },
    };
    let action = if key_code == ATTACH_PREVIOUS_SESSION_CODEPOINT {
        Hotkey::PreviousSession
    } else if key_code == ATTACH_DETACH_CODEPOINT {
        Hotkey::Detach
    } else if key_code == ATTACH_NEXT_SESSION_CODEPOINT {
        Hotkey::NextSession
    } else {
        return None;
    };
    proof {
        digits_end_bounds(bytes@, 2);
    }
    while index < bytes.len() && bytes[index] == 58
        invariant
            2 <= index <= bytes@.len(),
            alternates_end(bytes@, digits_end(bytes@, 2)) == alternates_end(bytes@, index as int),
            hotkey(bytes@) == (match alternates_end(bytes@, digits_end(bytes@, 2)) {
                Some(i) => hotkey_modifiers(action, bytes@, i),
                None => Some(AttachCsiUParse::Incomplete),
            }),
        decreases bytes@.len() - index,
    {
        proof {
            digits_end_bounds(bytes@, index + 1);
        }
        index = index + 1;
        if parse_csi_u_decimal_optional(bytes, &mut index).is_none() {
            return Some(AttachCsiUParse::Incomplete);
        }
    }
    assert(hotkey(bytes@) == hotkey_modifiers(action, bytes@, index as int));
    if index >= bytes.len() {
        return Some(AttachCsiUParse::Incomplete);
    }
    if bytes[index] != 59 {
        return None;
    }
    index = index + 1;
    if index >= bytes.len() {
        return Some(AttachCsiUParse::Incomplete);
    }
    proof {
        digits_end_bounds(bytes@, index as int);
    }
    let mod_encoded: u32 = match parse_csi_u_decimal(bytes, &mut index) {
        Some(mod_encoded) => mod_encoded,
        None => {
            return None;
        },
    };
    if mod_encoded == 0 {
        return None;
    }
    let modifiers: u32 = mod_encoded - 1;
    if modifiers % 64 != 4 {
        return None;
    }
    assert(hotkey(bytes@) == hotkey_event(action, bytes@, index as int));
    if index < bytes.len() && bytes[index] == 58 {
        index = index + 1;
        if index >= bytes.len() {
            return Some(AttachCsiUParse::Incomplete);
        }
        proof {
            digits_end_bounds(bytes@, index as int);
        }
        let event_type: u32 = match parse_csi_u_decimal(bytes, &mut index) {
            Some(event_type) => event_type,
            None => {
                return None;
            },
        };
        if event_type == 3 {
            return None;
        }
    }
    assert(hotkey(bytes@) == hotkey_text(action, bytes@, index as int));
    if index < bytes.len() && bytes[index] == 59 {
        index = index + 1;
        if index >= bytes.len() {
            return Some(AttachCsiUParse::Incomplete);
        }
        let ghost start = index as int;
        while index < bytes.len() && ((48 <= bytes[index] && bytes[index] <= 57) || bytes[index]
            == 58)
            invariant
                index <= bytes@.len(),
                text_end(bytes@, start) == text_end(bytes@, index as int),
            decreases bytes@.len() - index,
        {
            index = index + 1;
        }
    }
    assert(hotkey(bytes@) == hotkey_end(action, bytes@, index as int));
    if index >= bytes.len() {
        return Some(AttachCsiUParse::Incomplete);
    }
    if bytes[index] != 117 {
        return None;
    }
    Some(AttachCsiUParse::Action(action, index + 1))
}

// ---------------------------------------------------------------------------
// Input as a whole
// ---------------------------------------------------------------------------
/// A key is written with at least three bytes, all of them in the input.
pub proof fn hotkey_bounds(b: Seq<u8>)
    requires
        b.len() <= usize::MAX,
    ensures
        hotkey(b) matches Some(AttachCsiUParse::Action(_, n)) ==> 2 < n <= b.len(),
{
    if hotkey(b) matches Some(AttachCsiUParse::Action(_, _)) {
        digits_end_bounds(b, 2);
        alternates_end_bounds(b, digits_end(b, 2));
        let i = alternates_end(b, digits_end(b, 2))->0;
        digits_end_bounds(b, i + 1);
        let j = digits_end(b, i + 1);
        digits_end_bounds(b, j + 1);
        let k = if j < b.len() && b[j] == 58 {
            digits_end(b, j + 1)
        } else {
            j
        };
        text_end_bounds(b, k + 1);
    }
}

proof fn alternates_end_bounds(b: Seq<u8>, i: int)
    requires
        0 <= i <= b.len(),
    ensures
        alternates_end(b, i) matches Some(end) ==> i <= end <= b.len(),
    decreases b.len() - i,
{
    if i < b.len() && b[i] == 58 {
        digits_end_bounds(b, i + 1);
        alternates_end_bounds(b, digits_end(b, i + 1));
    }
}

proof fn text_end_bounds(b: Seq<u8>, i: int)
    ensures
        i <= text_end(b, i),
        0 <= i <= b.len() ==> text_end(b, i) <= b.len(),
    decreases b.len() - i,
{
    if 0 <= i < b.len() && (is_digit(b[i]) || b[i] == 58) {
        text_end_bounds(b, i + 1);
    }
}

/// What the start of some input is, with the number of its bytes: a key or a byte for the
/// session; nothing where more input is needed to tell.
pub open spec fn first_token(b: Seq<u8>) -> Option<(Token, int)> {
    match hotkey(b) {
        Some(AttachCsiUParse::Action(key, n)) => Some((Token::Key(key), n as int)),
        Some(AttachCsiUParse::Incomplete) => None,
        None => if b[0] == ATTACH_DETACH_BYTE {
            Some((Token::Key(Hotkey::Detach), 1))
        } else if b[0] == ATTACH_NEXT_SESSION_BYTE {
            Some((Token::Key(Hotkey::NextSession), 1))
        } else {
            Some((Token::Byte(b[0]), 1))
        },
    }
}

/// The pieces of some input, and what is left over until more input comes.
pub open spec fn tokens(b: Seq<u8>) -> (Seq<Token>, Seq<u8>)
    decreases b.len(),
{
    if b.len() == 0 {
        (Seq::empty(), Seq::empty())
    } else {
        match first_token(b) {
            Some((token, n)) => if 0 < n <= b.len() {
                let (more, left) = tokens(b.skip(n));
                (seq![token] + more, left)
            } else {
                (Seq::empty(), b)
            },
            None => (Seq::empty(), b),
        }
    }
}

/// Actions with the bytes of a run behind them, if there are any.
pub open spec fn flushed(actions: Seq<ActionView>, run: Seq<u8>) -> Seq<ActionView> {
    if run.len() > 0 {
        actions.push(ActionView::Data(run))
    } else {
        actions
    }
}

/// Pieces of input as actions, and the run of bytes at the end that is still open.
pub open spec fn grouped(pieces: Seq<Token>) -> (Seq<ActionView>, Seq<u8>)
    decreases pieces.len(),
{
    if pieces.len() == 0 {
        (Seq::empty(), Seq::empty())
    } else {
        let (actions, run) = grouped(pieces.drop_last());
        match pieces.last() {
            Token::Byte(byte) => (actions, run.push(byte)),
            Token::Key(key) => (flushed(actions, run).push(ActionView::Key(key)), Seq::empty()),
        }
    }
}

/// Pieces of input as actions: bytes that follow each other become one.
pub open spec fn actions_of(pieces: Seq<Token>) -> Seq<ActionView> {
    flushed(grouped(pieces).0, grouped(pieces).1)
}

/// The models of actions.
pub open spec fn action_views(actions: Seq<AttachInputAction>) -> Seq<ActionView> {
    Seq::new(actions.len(), |i: int| actions[i]@)
}

/// Hands the bytes of a run over as an action.
pub fn flush_attach_bytes(actions: &mut Vec<AttachInputAction>, forwarded: &mut Vec<u8>)
    ensures
        action_views(final(actions)@) == flushed(action_views(old(actions)@), old(forwarded)@),
        final(forwarded)@ == Seq::<u8>::empty(),
{
    if forwarded.len() > 0 {
        let mut run: Vec<u8> = Vec::new();
        run.append(forwarded);
        assert(run@ =~= old(forwarded)@);
        actions.push(AttachInputAction::Data(run));
        assert(action_views(actions@) =~= flushed(action_views(old(actions)@), old(forwarded)@));
    } else {
        assert(forwarded@ =~= Seq::<u8>::empty());
    }
}

/// Reads input in pieces as they come.
#[derive(Debug)]
pub struct AttachInputParser {
    pub pending_escape: Vec<u8>,
}

impl Default for AttachInputParser {
    fn default() -> (r: AttachInputParser)
        ensures
            r.pending_escape@ == Seq::<u8>::empty(),
    {
        AttachInputParser { pending_escape: Vec::new() }
    }
}

fn push_key(actions: &mut Vec<AttachInputAction>, key: Hotkey)
    ensures
        action_views(final(actions)@) == action_views(old(actions)@).push(ActionView::Key(key)),
{
    actions.push(
        match key {
            Hotkey::Detach => AttachInputAction::Detach,
            Hotkey::PreviousSession => AttachInputAction::PreviousSession,
            Hotkey::NextSession => AttachInputAction::NextSession,
        },
    );
    assert(action_views(actions@) =~= action_views(old(actions)@).push(ActionView::Key(key)));
}

impl AttachInputParser {
    /// Takes more input, behind what was left over, and tells what it asks for.
    pub fn push_bytes(&mut self, bytes: &[u8]) -> (r: Vec<AttachInputAction>)
        requires
            old(self).pending_escape@.len() + bytes@.len() <= usize::MAX,
        ensures
            ({
                let (pieces, left) = tokens(old(self).pending_escape@ + bytes@);
                &&& action_views(r@) == actions_of(pieces)
                &&& final(self).pending_escape@ == left
            }),
    {
        let mut actions: Vec<AttachInputAction> = Vec::new();
        let mut forwarded: Vec<u8> = Vec::new();
        let mut input: Vec<u8> = Vec::new();
        input.append(&mut self.pending_escape);
        let mut copied: usize = 0;
        while copied < bytes.len()
            invariant
                copied <= bytes@.len(),
                input@ == old(self).pending_escape@ + bytes@.take(copied as int),
                self.pending_escape@ == Seq::<u8>::empty(),
            decreases bytes@.len() - copied,
        {
            input.push(bytes[copied]);
            copied = copied + 1;
            assert(input@ =~= old(self).pending_escape@ + bytes@.take(copied as int));
        }
        assert(bytes@.take(bytes@.len() as int) =~= bytes@);
        let ghost whole = input@;
        let ghost mut pieces = Seq::<Token>::empty();
        let mut index: usize = 0;
        assert(whole.skip(0) =~= whole);
        assert(Seq::<Token>::empty() + tokens(whole).0 =~= tokens(whole).0);
        assert(action_views(actions@) =~= Seq::<ActionView>::empty());
        while index < input.len()
            invariant_except_break
                self.pending_escape@ == Seq::<u8>::empty(),
            invariant
                index <= input@.len(),
                input@ == whole,
                whole.len() <= usize::MAX,
                whole == old(self).pending_escape@ + bytes@,
                tokens(whole).0 == pieces + tokens(whole.skip(index as int)).0,
                tokens(whole).1 == tokens(whole.skip(index as int)).1,
                grouped(pieces).0 == action_views(actions@),
                grouped(pieces).1 == forwarded@,
            ensures
                tokens(whole).0 == pieces,
                tokens(whole).1 == self.pending_escape@,
            decreases input@.len() - index,
        {
            let ghost rest = whole.skip(index as int);
            let tail = slice_subrange(input.as_slice(), index, input.len());
            assert(tail@ =~= rest);
            proof {
                hotkey_bounds(rest);
            }
            let ghost before = pieces;
            if input[index] == ESCAPE {
                match parse_attach_hotkey_csi_u(tail) {
                    Some(AttachCsiUParse::Action(action, consumed)) => {
                        flush_attach_bytes(&mut actions, &mut forwarded);
                        push_key(&mut actions, action);
                        proof {
                            pieces = before.push(Token::Key(action));
                            assert(pieces.drop_last() =~= before);
                            assert(rest.skip(consumed as int) =~= whole.skip(index + consumed));
                            assert(pieces + tokens(whole.skip(index + consumed)).0 =~= before
                                + tokens(rest).0);
                        }
                        index = index + consumed;
                        continue;
                    },
                    Some(AttachCsiUParse::Incomplete) => {
                        let mut i: usize = index;
                        while i < input.len()
                            invariant
                                index <= i <= input@.len(),
                                input@ == whole,
                                self.pending_escape@ == whole.subrange(index as int, i as int),
                            decreases input@.len() - i,
                        {
                            self.pending_escape.push(input[i]);
                            i = i + 1;
                            assert(self.pending_escape@ =~= whole.subrange(index as int, i as int));
                        }
                        assert(self.pending_escape@ =~= rest);
                        assert(pieces + tokens(rest).0 =~= pieces);
                        break;
                    },
                    None => {},
                }
            }
            proof {
                assert(rest.skip(1) =~= whole.skip(index + 1));
            }
            if input[index] == ATTACH_DETACH_BYTE {
                flush_attach_bytes(&mut actions, &mut forwarded);
                push_key(&mut actions, Hotkey::Detach);
                proof {
                    pieces = before.push(Token::Key(Hotkey::Detach));
                }
            } else if input[index] == ATTACH_NEXT_SESSION_BYTE {
                flush_attach_bytes(&mut actions, &mut forwarded);
                push_key(&mut actions, Hotkey::NextSession);
                proof {
                    pieces = before.push(Token::Key(Hotkey::NextSession));
                }
            } else {
                forwarded.push(input[index]);
                proof {
                    pieces = before.push(Token::Byte(rest[0]));
                }
            }
            proof {
                assert(pieces.drop_last() =~= before);
                assert(pieces + tokens(whole.skip(index + 1)).0 =~= before + tokens(rest).0);
            }
            index = index + 1;
            proof {
                if index == input@.len() {
                    assert(whole.skip(index as int) =~= Seq::empty());
                    assert(pieces + Seq::<Token>::empty() =~= pieces);
                }
            }
        }
        flush_attach_bytes(&mut actions, &mut forwarded);
        actions
    }
}

// ---------------------------------------------------------------------------
// Laws
// ---------------------------------------------------------------------------
/// Whether a byte is none of those that a key or an escape sequence starts with.
pub open spec fn is_plain(byte: u8) -> bool {
    byte != ESCAPE && byte != ATTACH_DETACH_BYTE && byte != ATTACH_NEXT_SESSION_BYTE
}

/// Input without keys and escape sequences goes to the session as it is, and all at once.
pub proof fn plain_input_is_forwarded(b: Seq<u8>)
    requires
        b.len() > 0,
        forall|i: int| 0 <= i < b.len() ==> is_plain(#[trigger] b[i]),
    ensures
        actions_of(tokens(b).0) == seq![ActionView::Data(b)],
        tokens(b).1 == Seq::<u8>::empty(),
{
    plain_tokens(b);
    plain_groups(b);
    assert(actions_of(tokens(b).0) =~= seq![ActionView::Data(b)]);
}

spec fn as_tokens(b: Seq<u8>) -> Seq<Token> {
    Seq::new(b.len(), |i: int| Token::Byte(b[i]))
}

proof fn plain_tokens(b: Seq<u8>)
    requires
        forall|i: int| 0 <= i < b.len() ==> is_plain(#[trigger] b[i]),
    ensures
        tokens(b) == (as_tokens(b), Seq::<u8>::empty()),
    decreases b.len(),
{
    if b.len() > 0 {
        assert(is_plain(b[0]));
        plain_tokens(b.skip(1));
        assert(seq![Token::Byte(b[0])] + as_tokens(b.skip(1)) =~= as_tokens(b));
    } else {
        assert(as_tokens(b) =~= Seq::empty());
    }
}

proof fn plain_groups(b: Seq<u8>)
    ensures
        grouped(as_tokens(b)) == (Seq::<ActionView>::empty(), b),
    decreases b.len(),
{
    if b.len() > 0 {
        plain_groups(b.drop_last());
        assert(as_tokens(b).drop_last() =~= as_tokens(b.drop_last()));
        assert(b.drop_last().push(b.last()) =~= b);
    } else {
        assert(as_tokens(b) =~= Seq::empty());
        assert(b =~= Seq::empty());
    }
}

/// Where some input ends within a key, it does not matter that the rest comes later: the pieces
/// of both parts are those of the whole.
pub proof fn input_is_resumed(a: Seq<u8>, b: Seq<u8>)
    requires
        a.len() + b.len() <= usize::MAX,
        tokens(a).1.len() > 0,
    ensures
        tokens(a + b).0 == tokens(a).0 + tokens(tokens(a).1 + b).0,
        tokens(a + b).1 == tokens(tokens(a).1 + b).1,
    decreases a.len(),
{
    hotkey_bounds(a);
    hotkey_bounds(a + b);
    match first_token(a) {
        Some((token, n)) => {
            let rest = a.skip(n);
            let m = left_over_start(rest) + n;
            left_over_is_suffix(rest);
            assert(rest[m - n] == a[m]);
            if hotkey(a) matches Some(AttachCsiUParse::Action(_, _)) {
                hotkey_ends_with_u(a);
                hotkey_is_settled(a, b, n - 1);
            } else {
                hotkey_is_settled(a, b, m);
            }
            assert((a + b)[0] == a[0]);
            assert(first_token(a + b) == first_token(a));
            assert((a + b).skip(n) =~= rest + b);
            input_is_resumed(rest, b);
            assert(seq![token] + (tokens(rest).0 + tokens(tokens(rest).1 + b).0) =~= (seq![token]
                + tokens(rest).0) + tokens(tokens(rest).1 + b).0);
        },
        None => {
            assert(Seq::<Token>::empty() + tokens(a + b).0 =~= tokens(a + b).0);
        },
    }
}

/// Parts of some input, one behind the other.
pub open spec fn run_together(parts: Seq<Seq<u8>>) -> Seq<u8>
    decreases parts.len(),
{
    if parts.len() == 0 {
        Seq::empty()
    } else {
        run_together(parts.drop_last()) + parts.last()
    }
}

/// Whether bytes are how a key is written.
pub open spec fn writes_key(bytes: Seq<u8>, key: Hotkey) -> bool {
    ||| bytes == seq![ATTACH_DETACH_BYTE] && key == Hotkey::Detach
    ||| bytes == seq![ATTACH_NEXT_SESSION_BYTE] && key == Hotkey::NextSession
    ||| hotkey(bytes) == Some(AttachCsiUParse::Action(key, bytes.len() as usize))
}

/// Whether an action stands for bytes of the input.
pub open spec fn stands_for(action: ActionView, bytes: Seq<u8>) -> bool {
    match action {
        ActionView::Data(data) => data == bytes,
        ActionView::Key(key) => writes_key(bytes, key),
    }
}

/// Whether each action stands for one of the parts.
pub open spec fn stand_for(actions: Seq<ActionView>, parts: Seq<Seq<u8>>) -> bool {
    &&& actions.len() == parts.len()
    &&& forall|i: int| 0 <= i < actions.len() ==> stands_for(#[trigger] actions[i], parts[i])
}

/// Whether no run of bytes is empty, and no two follow each other.
pub open spec fn runs_are_whole(actions: Seq<ActionView>) -> bool {
    &&& forall|i: int|
        0 <= i < actions.len() ==> (#[trigger] actions[i] matches ActionView::Data(data) ==> data.len()
            > 0)
    &&& forall|i: int|
        0 <= i < actions.len() - 1 ==> !((#[trigger] actions[i]) is Data && actions[i + 1] is Data)
}

/// No input is lost, doubled or put in another order: what was left over and what has come are,
/// together, the bytes that the actions stand for and what is left over then. No run of bytes is
/// empty, and no two follow each other.
pub proof fn input_is_conserved(pending: Seq<u8>, bytes: Seq<u8>)
    requires
        pending.len() + bytes.len() <= usize::MAX,
    ensures
        ({
            let (pieces, left) = tokens(pending + bytes);
            let actions = actions_of(pieces);
            &&& runs_are_whole(actions)
            &&& exists|parts: Seq<Seq<u8>>|
                #[trigger] stand_for(actions, parts) && run_together(parts) + left == pending
                    + bytes
        }),
{
    let b = pending + bytes;
    let (pieces, left) = tokens(b);
    let written = token_parts(b);
    let (parts, run) = group_parts(pieces, written);
    let (actions, open) = grouped(pieces);
    if open.len() > 0 {
        let all = parts.push(run);
        assert(all.drop_last() =~= parts);
        assert(stand_for(actions_of(pieces), all));
        assert(run_together(all) + left =~= b);
    } else {
        assert(run_together(parts) + run =~= run_together(parts));
        assert(stand_for(actions_of(pieces), parts));
        assert(run_together(parts) + left == b);
    }
}

/// Whether a piece of input is written with the given bytes.
spec fn is_written(token: Token, bytes: Seq<u8>) -> bool {
    match token {
        Token::Byte(byte) => bytes == seq![byte],
        Token::Key(key) => writes_key(bytes, key),
    }
}

/// Whether each piece of input is written with one of the parts.
spec fn are_written(pieces: Seq<Token>, parts: Seq<Seq<u8>>) -> bool {
    &&& pieces.len() == parts.len()
    &&& forall|i: int| 0 <= i < pieces.len() ==> is_written(#[trigger] pieces[i], parts[i])
}

/// One part more at the front.
proof fn runs_from_the_front(first: Seq<u8>, parts: Seq<Seq<u8>>)
    ensures
        run_together(seq![first] + parts) == first + run_together(parts),
    decreases parts.len(),
{
    let all = seq![first] + parts;
    if parts.len() == 0 {
        let none = all.drop_last();
        assert(none.len() == 0);
        assert(run_together(none) == Seq::<u8>::empty());
        assert(run_together(all) == run_together(none) + first);
        assert(run_together(all) =~= first + run_together(parts));
    } else {
        runs_from_the_front(first, parts.drop_last());
        assert(all.drop_last() =~= seq![first] + parts.drop_last());
        assert(run_together(all) =~= first + run_together(parts));
    }
}

/// The first piece of some input is written with its first bytes.
proof fn first_is_written(b: Seq<u8>)
    requires
        0 < b.len() <= usize::MAX,
        first_token(b) is Some,
    ensures
        ({
            let (token, n) = first_token(b)->0;
            0 < n <= b.len() && is_written(token, b.take(n))
        }),
{
    hotkey_bounds(b);
    let (token, n) = first_token(b)->0;
    let first = b.take(n);
    if hotkey(b) matches Some(AttachCsiUParse::Action(_, _)) {
        hotkey_ends_with_u(b);
        assert(first + b.skip(n) =~= b);
        hotkey_is_settled(first, b.skip(n), n - 1);
    } else {
        assert(first =~= seq![b[0]]);
    }
}

/// The pieces of some input, behind the first.
proof fn tokens_from_the_front(b: Seq<u8>)
    requires
        0 < b.len() <= usize::MAX,
        first_token(b) is Some,
    ensures
        ({
            let (token, n) = first_token(b)->0;
            let (more, left) = tokens(b.skip(n));
            tokens(b) == (seq![token] + more, left)
        }),
{
    first_is_written(b);
}

/// The bytes that the pieces of some input are written with.
proof fn token_parts(b: Seq<u8>) -> (parts: Seq<Seq<u8>>)
    requires
        b.len() <= usize::MAX,
    ensures
        are_written(tokens(b).0, parts),
        run_together(parts) + tokens(b).1 == b,
    decreases b.len(),
{
    if b.len() == 0 || first_token(b) is None {
        assert(Seq::<u8>::empty() + tokens(b).1 =~= b);
        Seq::empty()
    } else {
        first_is_written(b);
        tokens_from_the_front(b);
        let (token, n) = first_token(b)->0;
        let rest = b.skip(n);
        let more = token_parts(rest);
        parts_from_the_front(token, b.take(n), tokens(rest).0, more);
        runs_from_the_front(b.take(n), more);
        assert(b.take(n) + run_together(more) + tokens(rest).1 =~= b.take(n) + (run_together(more)
            + tokens(rest).1));
        assert(b.take(n) + rest =~= b);
        seq![b.take(n)] + more
    }
}

/// One piece more at the front.
proof fn parts_from_the_front(
    token: Token,
    first: Seq<u8>,
    pieces: Seq<Token>,
    parts: Seq<Seq<u8>>,
)
    requires
        is_written(token, first),
        are_written(pieces, parts),
    ensures
        are_written(seq![token] + pieces, seq![first] + parts),
{
    let all = seq![token] + pieces;
    assert forall|i: int| 0 <= i < all.len() implies is_written(
        #[trigger] all[i],
        (seq![first] + parts)[i],
    ) by {
        if i > 0 {
            assert(all[i] == pieces[i - 1]);
            assert((seq![first] + parts)[i] == parts[i - 1]);
        }
    }
}

/// The bytes that actions stand for, and those of the run that is still open.
proof fn group_parts(pieces: Seq<Token>, written: Seq<Seq<u8>>) -> (r: (Seq<Seq<u8>>, Seq<u8>))
    requires
        are_written(pieces, written),
    ensures
        stand_for(grouped(pieces).0, r.0),
        r.1 == grouped(pieces).1,
        run_together(r.0) + r.1 == run_together(written),
        runs_are_whole(grouped(pieces).0),
        runs_are_whole(flushed(grouped(pieces).0, grouped(pieces).1)),
        grouped(pieces).0.len() > 0 ==> grouped(pieces).0.last() is Key,
    decreases pieces.len(),
{
    if pieces.len() == 0 {
        assert(run_together(Seq::<Seq<u8>>::empty()) + Seq::<u8>::empty() =~= run_together(
            written,
        ));
        (Seq::empty(), Seq::empty())
    } else {
        let front = pieces.drop_last();
        assert forall|i: int| 0 <= i < front.len() implies is_written(
            #[trigger] front[i],
            written.drop_last()[i],
        ) by {
            assert(is_written(pieces[i], written[i]));
        }
        let (parts, run) = group_parts(front, written.drop_last());
        let (actions, open) = grouped(front);
        assert(is_written(pieces[pieces.len() - 1], written[pieces.len() - 1]));
        match pieces.last() {
            Token::Byte(byte) => {
                assert(run_together(parts) + run.push(byte) =~= run_together(written));
                (parts, run.push(byte))
            },
            Token::Key(key) => {
                let flat = if open.len() > 0 {
                    parts.push(run)
                } else {
                    parts
                };
                let all = flat.push(written.last());
                assert(all.drop_last() =~= flat);
                if open.len() > 0 {
                    assert(flat.drop_last() =~= parts);
                }
                assert(run_together(flat) =~= run_together(parts) + run);
                assert(run_together(all) + Seq::<u8>::empty() =~= run_together(written));
                assert(stand_for(flushed(actions, open), flat));
                assert(stand_for(grouped(pieces).0, all));
                (all, Seq::empty())
            },
        }
    }
}

/// Where what is left over of some input starts.
spec fn left_over_start(a: Seq<u8>) -> int {
    a.len() - tokens(a).1.len()
}

proof fn left_over_is_suffix(a: Seq<u8>)
    requires
        a.len() <= usize::MAX,
        tokens(a).1.len() > 0,
    ensures
        0 <= left_over_start(a) < a.len(),
        a[left_over_start(a)] == ESCAPE,
    decreases a.len(),
{
    hotkey_bounds(a);
    match first_token(a) {
        Some((_, n)) => {
            left_over_is_suffix(a.skip(n));
            assert(a.skip(n)[left_over_start(a.skip(n))] == a[left_over_start(a)]);
        },
        None => {},
    }
}

proof fn hotkey_ends_with_u(b: Seq<u8>)
    requires
        b.len() <= usize::MAX,
        hotkey(b) matches Some(AttachCsiUParse::Action(_, _)),
    ensures
        hotkey(b) matches Some(AttachCsiUParse::Action(_, n)) && 2 < n <= b.len() && b[n - 1]
            == 117,
{
    hotkey_bounds(b);
    digits_end_bounds(b, 2);
    alternates_end_bounds(b, digits_end(b, 2));
    let i = alternates_end(b, digits_end(b, 2))->0;
    digits_end_bounds(b, i + 1);
    let j = digits_end(b, i + 1);
    digits_end_bounds(b, j + 1);
    let k = if j < b.len() && b[j] == 58 {
        digits_end(b, j + 1)
    } else {
        j
    };
    text_end_bounds(b, k + 1);
}

/// Whether a byte ends every number, list of codes and text within a key.
spec fn is_stop(byte: u8) -> bool {
    !is_digit(byte) && byte != 58 && byte != 59
}

/// Behind a byte that no key goes beyond, more input does not matter.
proof fn hotkey_is_settled(x: Seq<u8>, y: Seq<u8>, m: int)
    requires
        x.len() + y.len() <= usize::MAX,
        1 <= m < x.len(),
        is_stop(x[m]),
        m >= 2 || x[1] != 91,
    ensures
        hotkey(x + y) == hotkey(x),
{
    let z = x + y;
    assert(z[0] == x[0] && z[1] == x[1]);
    if m >= 2 {
        digits_settled(x, z, 2, m);
        let i = digits_end(x, 2);
        alternates_settled(x, z, i, m);
        if alternates_end(x, i) is Some {
            let j = alternates_end(x, i)->0;
            if x[j] == 59 {
                digits_settled(x, z, j + 1, m);
                let k = digits_end(x, j + 1);
                let k2 = if x[k] == 58 {
                    digits_settled(x, z, k + 1, m);
                    digits_end(x, k + 1)
                } else {
                    k
                };
                if x[k2] == 59 {
                    text_settled(x, z, k2 + 1, m);
                }
            }
        }
    }
}

proof fn digits_settled(x: Seq<u8>, z: Seq<u8>, i: int, m: int)
    requires
        0 <= i <= m < x.len() <= z.len(),
        is_stop(x[m]),
        forall|k: int| 0 <= k < x.len() ==> #[trigger] z[k] == x[k],
    ensures
        i <= digits_end(x, i) <= m,
        digits_end(z, i) == digits_end(x, i),
        number(z, i, digits_end(x, i)) == number(x, i, digits_end(x, i)),
        decimal_at(z, i) == decimal_at(x, i),
    decreases m - i,
{
    if is_digit(x[i]) {
        digits_settled(x, z, i + 1, m);
    }
    digits_end_bounds(x, i);
    number_settled(x, z, i, digits_end(x, i));
}

proof fn number_settled(x: Seq<u8>, z: Seq<u8>, i: int, j: int)
    requires
        0 <= i,
        j <= x.len() <= z.len(),
        forall|k: int| 0 <= k < x.len() ==> #[trigger] z[k] == x[k],
    ensures
        number(z, i, j) == number(x, i, j),
    decreases j - i,
{
    if i < j {
        number_settled(x, z, i, j - 1);
        assert(z[j - 1] == x[j - 1]);
    }
}

proof fn alternates_settled(x: Seq<u8>, z: Seq<u8>, i: int, m: int)
    requires
        0 <= i <= m < x.len() <= z.len(),
        is_stop(x[m]),
        forall|k: int| 0 <= k < x.len() ==> #[trigger] z[k] == x[k],
    ensures
        alternates_end(z, i) == alternates_end(x, i),
        alternates_end(x, i) matches Some(end) ==> i <= end <= m,
    decreases m - i,
{
    if x[i] == 58 {
        digits_settled(x, z, i + 1, m);
        alternates_settled(x, z, digits_end(x, i + 1), m);
    }
}

proof fn text_settled(x: Seq<u8>, z: Seq<u8>, i: int, m: int)
    requires
        0 <= i <= m < x.len() <= z.len(),
        is_stop(x[m]),
        forall|k: int| 0 <= k < x.len() ==> #[trigger] z[k] == x[k],
    ensures
        i <= text_end(x, i) <= m,
        text_end(z, i) == text_end(x, i),
    decreases m - i,
{
    if is_digit(x[i]) || x[i] == 58 {
        text_settled(x, z, i + 1, m);
    }
}

} // verus!
