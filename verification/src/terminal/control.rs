//! What control characters and control sequences do, told by what is seen before and after them.
use crate::style::Color;
use crate::terminal::laws::{input_comes_in_parts, printed_text_is_shown};
use crate::terminal::params::{csi_params, extended_color, param, sgr_from, small_number, split_at};
use crate::terminal::screen::{
    blank_screen, dispatched, is_control, step, steps, Screen, TerminalCell, TerminalCellStyle,
    TerminalParserState,
};
use crate::text::{decimal, decimal_is_read_back, is_decimal};
use vstd::prelude::*;

verus! {

// ---------------------------------------------------------------------------
// Control sequences as they are written
// ---------------------------------------------------------------------------
/// Numbers as they stand in a control sequence: in decimal notation, with semicolons between.
pub open spec fn listed(numbers: Seq<u16>) -> Seq<char>
    decreases numbers.len(),
{
    if numbers.len() == 0 {
        Seq::empty()
    } else if numbers.len() == 1 {
        decimal(numbers[0] as nat)
    } else {
        listed(numbers.drop_last()) + seq![';'] + decimal(numbers.last() as nat)
    }
}

/// A control sequence: an escape character, a bracket, parameters and the character that ends it.
pub open spec fn sequence(text: Seq<char>, action: char) -> Seq<char> {
    seq!['\u{1b}', '['] + text + seq![action]
}

/// The terminal after a control sequence with numbers.
pub open spec fn after(s: Screen, numbers: Seq<u16>, action: char) -> Screen {
    steps(s, sequence(listed(numbers), action))
}

/// The terminal after a private control sequence with a number.
pub open spec fn after_private(s: Screen, number: u16, action: char) -> Screen {
    steps(s, sequence(seq!['?'] + decimal(number as nat), action))
}

/// The terminal after an escape character and another character.
pub open spec fn after_escape(s: Screen, ch: char) -> Screen {
    steps(s, seq!['\u{1b}', ch])
}

/// Whether a terminal takes text, being within no control sequence.
pub open spec fn takes_text(s: Screen) -> bool {
    s.wf() && s.state == TerminalParserState::Ground && s.params.len() == 0
}

/// Whether two terminals differ at most in where the cursor is.
pub open spec fn differ_in_cursor(s: Screen, t: Screen) -> bool {
    t == (Screen { col: t.col, row: t.row, ..s })
}

/// Whether two terminals differ at most in what stands on their grids.
pub open spec fn differ_in_grid(s: Screen, t: Screen) -> bool {
    t.wf() && t == (Screen { grid: t.grid, ..s })
}

/// Whether a cell is empty: a blank in no colour.
pub open spec fn is_empty_cell(cell: TerminalCell) -> bool {
    cell.ch == ' ' && cell.style.fg is None && cell.style.bg is None && !cell.style.bold
        && !cell.style.underlined && !cell.style.reversed
}

proof fn decimals_are_digits(n: nat)
    ensures
        forall|i: int| 0 <= i < decimal(n).len() ==> is_decimal(#[trigger] decimal(n)[i]),
        decimal(n).len() > 0,
        n <= u16::MAX ==> small_number(decimal(n)) == Some(n as u16),
    decreases n,
{
    decimal_is_read_back(n);
    if n >= 10 {
        decimals_are_digits(n / 10);
    }
}

proof fn one_part(a: Seq<char>)
    requires
        forall|i: int| 0 <= i < a.len() ==> #[trigger] a[i] != ';',
    ensures
        split_at(a, ';') == seq![a],
    decreases a.len(),
{
    if a.len() > 0 {
        let front = a.drop_last();
        assert forall|i: int| 0 <= i < front.len() implies #[trigger] front[i] != ';' by {
            assert(front[i] == a[i]);
        }
        one_part(front);
        assert(a.last() != ';');
        assert(front.push(a.last()) =~= a);
        assert(split_at(a, ';') =~= seq![a]);
    } else {
        assert(a =~= Seq::empty());
    }
}

proof fn one_more_part(a: Seq<char>, b: Seq<char>)
    requires
        forall|i: int| 0 <= i < b.len() ==> #[trigger] b[i] != ';',
    ensures
        split_at(a + seq![';'] + b, ';') == split_at(a, ';').push(b),
    decreases b.len(),
{
    let all = a + seq![';'] + b;
    if b.len() == 0 {
        assert(all.drop_last() =~= a);
        assert(b =~= Seq::empty());
    } else {
        let front = b.drop_last();
        assert forall|i: int| 0 <= i < front.len() implies #[trigger] front[i] != ';' by {
            assert(front[i] == b[i]);
        }
        one_more_part(a, front);
        assert(all.drop_last() =~= a + seq![';'] + front);
        assert(b[b.len() - 1] != ';');
        assert(all.last() == b.last());
        assert(front.push(b.last()) =~= b);
        assert(split_at(all, ';') =~= split_at(a, ';').push(b));
    }
}

proof fn parts_of_listed(numbers: Seq<u16>)
    requires
        numbers.len() > 0,
    ensures
        split_at(listed(numbers), ';').len() == numbers.len(),
        forall|i: int|
            0 <= i < numbers.len() ==> #[trigger] split_at(listed(numbers), ';')[i] == decimal(
                numbers[i] as nat,
            ),
        listed(numbers).len() > 0,
        forall|i: int|
            0 <= i < listed(numbers).len() ==> is_decimal(#[trigger] listed(numbers)[i]) || listed(
                numbers,
            )[i] == ';',
        listed(numbers)[0] != '?',
    decreases numbers.len(),
{
    let last = decimal(numbers.last() as nat);
    decimals_are_digits(numbers.last() as nat);
    assert forall|i: int| 0 <= i < last.len() implies #[trigger] last[i] != ';' by {
        assert(is_decimal(last[i]));
    }
    if numbers.len() == 1 {
        one_part(last);
        assert(is_decimal(last[0]));
    } else {
        let front = numbers.drop_last();
        parts_of_listed(front);
        one_more_part(listed(front), last);
        let all = listed(numbers);
        assert forall|i: int| 0 <= i < all.len() implies is_decimal(#[trigger] all[i]) || all[i]
            == ';' by {
            if i < listed(front).len() {
                assert(all[i] == listed(front)[i]);
            } else if i > listed(front).len() {
                assert(all[i] == last[i - listed(front).len() - 1]);
            }
        }
        assert(all[0] == listed(front)[0]);
        assert forall|i: int| 0 <= i < numbers.len() implies #[trigger] split_at(all, ';')[i]
            == decimal(numbers[i] as nat) by {
            if i < front.len() {
                assert(split_at(listed(front), ';')[i] == decimal(front[i] as nat));
            }
        }
    }
}

proof fn collected(x: Screen, text: Seq<char>)
    requires
        x.state == TerminalParserState::Csi,
        forall|i: int| 0 <= i < text.len() ==> !('@' <= #[trigger] text[i] && text[i] <= '~'),
    ensures
        steps(x, text) == (Screen { params: x.params + text, ..x }),
    decreases text.len(),
{
    reveal(steps);
    reveal(step);
    if text.len() == 0 {
        assert(x.params + text =~= x.params);
    } else {
        let front = text.drop_last();
        assert forall|i: int| 0 <= i < front.len() implies !('@' <= #[trigger] front[i] && front[i]
            <= '~') by {
            assert(front[i] == text[i]);
        }
        collected(x, front);
        let last = text[text.len() - 1];
        assert((x.params + front).push(last) =~= x.params + text);
    }
}

proof fn one_step(s: Screen, ch: char)
    ensures
        steps(s, seq![ch]) == step(s, ch),
{
    reveal_with_fuel(steps, 2);
    assert(seq![ch].drop_last() =~= Seq::empty());
}

proof fn two_steps(s: Screen, a: char, b: char)
    ensures
        steps(s, seq![a, b]) == step(step(s, a), b),
{
    one_step(s, a);
    one_step(step(s, a), b);
    input_comes_in_parts(s, seq![a], seq![b]);
    assert(seq![a] + seq![b] =~= seq![a, b]);
}

proof fn sequence_is_dispatched(s: Screen, text: Seq<char>, action: char)
    requires
        s.state == TerminalParserState::Ground,
        forall|i: int| 0 <= i < text.len() ==> !('@' <= #[trigger] text[i] && text[i] <= '~'),
        '@' <= action && action <= '~',
    ensures
        steps(s, sequence(text, action)) == (Screen {
            state: TerminalParserState::Ground,
            ..dispatched(
                Screen { params: Seq::empty(), state: TerminalParserState::Csi, ..s },
                text,
                action,
            )
        }),
{
    let start = seq!['\u{1b}', '['];
    let begun = Screen { params: Seq::empty(), state: TerminalParserState::Csi, ..s };
    two_steps(s, '\u{1b}', '[');
    assert(steps(s, start) == begun) by {
        reveal(step);
    }
    input_comes_in_parts(s, start, text);
    collected(begun, text);
    assert(begun.params + text =~= text);
    input_comes_in_parts(s, start + text, seq![action]);
    one_step(Screen { params: text, ..begun }, action);
    assert(step(Screen { params: text, ..begun }, action) == (Screen {
        state: TerminalParserState::Ground,
        ..dispatched(begun, text, action)
    })) by {
        reveal(step);
        assert(Screen { params: Seq::empty(), ..Screen { params: text, ..begun } } == begun);
    }
}

proof fn numbers_are_dispatched(s: Screen, numbers: Seq<u16>, action: char)
    requires
        takes_text(s),
        '@' <= action && action <= '~',
    ensures
        after(s, numbers, action) == (Screen {
            state: TerminalParserState::Ground,
            ..dispatched(
                Screen { state: TerminalParserState::Csi, ..s },
                listed(numbers),
                action,
            )
        }),
        csi_params(listed(numbers)) == Seq::new(numbers.len(), |i: int| Some(numbers[i])),
        listed(numbers).len() > 0 ==> listed(numbers)[0] != '?',
{
    let text = listed(numbers);
    if numbers.len() > 0 {
        parts_of_listed(numbers);
        assert forall|i: int| 0 <= i < numbers.len() implies small_number(
            #[trigger] split_at(text, ';')[i],
        ) == Some(numbers[i]) by {
            decimals_are_digits(numbers[i] as nat);
        }
    }
    assert(csi_params(text) =~= Seq::new(numbers.len(), |i: int| Some(numbers[i])));
    assert forall|i: int| 0 <= i < text.len() implies !('@' <= #[trigger] text[i] && text[i]
        <= '~') by {
        assert(is_decimal(text[i]) || text[i] == ';');
    }
    assert(s.params =~= Seq::empty());
    sequence_is_dispatched(s, text, action);
}

// ---------------------------------------------------------------------------
// Moving the cursor
// ---------------------------------------------------------------------------
/// `ESC [ n A` takes the cursor up by so many rows, but not above the first. Nothing else changes.
pub proof fn cursor_goes_up(s: Screen, n: u16)
    requires
        takes_text(s),
    ensures
        differ_in_cursor(s, after(s, seq![n], 'A')),
        after(s, seq![n], 'A').col == s.col,
        n <= s.row ==> after(s, seq![n], 'A').row + n == s.row,
        n > s.row ==> after(s, seq![n], 'A').row == 0,
{
    numbers_are_dispatched(s, seq![n], 'A');
}

/// `ESC [ n B` takes the cursor down by so many rows, but not below the last. Nothing else changes.
pub proof fn cursor_goes_down(s: Screen, n: u16)
    requires
        takes_text(s),
    ensures
        differ_in_cursor(s, after(s, seq![n], 'B')),
        after(s, seq![n], 'B').col == s.col,
        s.row + n < s.rows ==> after(s, seq![n], 'B').row == s.row + n,
        s.row + n >= s.rows ==> after(s, seq![n], 'B').row + 1 == s.rows,
{
    numbers_are_dispatched(s, seq![n], 'B');
}

/// `ESC [ n C` takes the cursor right by so many columns, but not behind the last. Nothing else
/// changes.
pub proof fn cursor_goes_right(s: Screen, n: u16)
    requires
        takes_text(s),
    ensures
        differ_in_cursor(s, after(s, seq![n], 'C')),
        after(s, seq![n], 'C').row == s.row,
        s.col + n < s.cols ==> after(s, seq![n], 'C').col == s.col + n,
        s.col + n >= s.cols ==> after(s, seq![n], 'C').col + 1 == s.cols,
{
    numbers_are_dispatched(s, seq![n], 'C');
}

/// `ESC [ n D` takes the cursor left by so many columns, but not before the first. Nothing else
/// changes.
pub proof fn cursor_goes_left(s: Screen, n: u16)
    requires
        takes_text(s),
    ensures
        differ_in_cursor(s, after(s, seq![n], 'D')),
        after(s, seq![n], 'D').row == s.row,
        n <= s.col ==> after(s, seq![n], 'D').col + n == s.col,
        n > s.col ==> after(s, seq![n], 'D').col == 0,
{
    numbers_are_dispatched(s, seq![n], 'D');
}

/// Up undoes down and left undoes right, where the grid has room.
pub proof fn cursor_comes_back(s: Screen, n: u16)
    requires
        takes_text(s),
    ensures
        s.row + n < s.rows ==> after(after(s, seq![n], 'B'), seq![n], 'A') == s,
        n <= s.row ==> after(after(s, seq![n], 'A'), seq![n], 'B') == s,
        s.col + n < s.cols ==> after(after(s, seq![n], 'C'), seq![n], 'D') == s,
        n <= s.col < s.cols ==> after(after(s, seq![n], 'D'), seq![n], 'C') == s,
{
    cursor_goes_down(s, n);
    cursor_goes_up(after(s, seq![n], 'B'), n);
    cursor_goes_up(s, n);
    cursor_goes_down(after(s, seq![n], 'A'), n);
    cursor_goes_right(s, n);
    cursor_goes_left(after(s, seq![n], 'C'), n);
    cursor_goes_left(s, n);
    cursor_goes_right(after(s, seq![n], 'D'), n);
}

/// `ESC [ r ; c H` and `ESC [ r ; c f` put the cursor at a row and a column, counted from one;
/// what lies beside the grid means its edge. Nothing else changes.
pub proof fn cursor_is_placed(s: Screen, r: u16, c: u16)
    requires
        takes_text(s),
    ensures
        after(s, seq![r, c], 'f') == after(s, seq![r, c], 'H'),
        differ_in_cursor(s, after(s, seq![r, c], 'H')),
        1 <= r <= s.rows ==> after(s, seq![r, c], 'H').row + 1 == r,
        1 <= c <= s.cols ==> after(s, seq![r, c], 'H').col + 1 == c,
        r > s.rows ==> after(s, seq![r, c], 'H').row + 1 == s.rows,
        c > s.cols ==> after(s, seq![r, c], 'H').col + 1 == s.cols,
        r == 0 ==> after(s, seq![r, c], 'H').row == 0,
        c == 0 ==> after(s, seq![r, c], 'H').col == 0,
{
    numbers_are_dispatched(s, seq![r, c], 'H');
    numbers_are_dispatched(s, seq![r, c], 'f');
}

/// `ESC [ c G` puts the cursor at a column and `ESC [ r d` at a row, counted from one, and leaves
/// the other as it was.
pub proof fn cursor_is_placed_in_line(s: Screen, n: u16)
    requires
        takes_text(s),
    ensures
        differ_in_cursor(s, after(s, seq![n], 'G')),
        after(s, seq![n], 'G').row == s.row,
        n >= 1 ==> after(s, seq![n], 'G').col + 1 == n,
        n == 0 ==> after(s, seq![n], 'G').col == 0,
        differ_in_cursor(s, after(s, seq![n], 'd')),
        s.col < s.cols ==> after(s, seq![n], 'd').col == s.col,
        s.col >= s.cols ==> after(s, seq![n], 'd').col + 1 == s.cols,
        1 <= n <= s.rows ==> after(s, seq![n], 'd').row + 1 == n,
        n > s.rows ==> after(s, seq![n], 'd').row + 1 == s.rows,
        n == 0 ==> after(s, seq![n], 'd').row == 0,
{
    numbers_are_dispatched(s, seq![n], 'G');
    numbers_are_dispatched(s, seq![n], 'd');
}

/// A number that is left out counts as one, or as none where it says what to clear or in which
/// style to print.
pub proof fn numbers_may_be_left_out(s: Screen, r: u16)
    requires
        takes_text(s),
    ensures
        after(s, seq![], 'A') == after(s, seq![1], 'A'),
        after(s, seq![], 'B') == after(s, seq![1], 'B'),
        after(s, seq![], 'C') == after(s, seq![1], 'C'),
        after(s, seq![], 'D') == after(s, seq![1], 'D'),
        after(s, seq![], 'G') == after(s, seq![1], 'G'),
        after(s, seq![], 'H') == after(s, seq![1, 1], 'H'),
        after(s, seq![], 'f') == after(s, seq![1, 1], 'f'),
        after(s, seq![], 'd') == after(s, seq![1], 'd'),
        after(s, seq![], 'L') == after(s, seq![1], 'L'),
        after(s, seq![], 'M') == after(s, seq![1], 'M'),
        after(s, seq![], 'P') == after(s, seq![1], 'P'),
        after(s, seq![], 'X') == after(s, seq![1], 'X'),
        after(s, seq![], '@') == after(s, seq![1], '@'),
        after(s, seq![], 'J') == after(s, seq![0], 'J'),
        after(s, seq![], 'K') == after(s, seq![0], 'K'),
        after(s, seq![], 'm') == after(s, seq![0], 'm'),
        after(s, seq![r], 'H') == after(s, seq![r, 1], 'H'),
{
    left_out(s, 'A', 1);
    left_out(s, 'B', 1);
    left_out(s, 'C', 1);
    left_out(s, 'D', 1);
    left_out(s, 'G', 1);
    left_out(s, 'd', 1);
    left_out(s, 'L', 1);
    left_out(s, 'M', 1);
    left_out(s, 'P', 1);
    left_out(s, 'X', 1);
    left_out(s, '@', 1);
    left_out(s, 'J', 0);
    left_out(s, 'K', 0);
    numbers_are_dispatched(s, seq![], 'H');
    numbers_are_dispatched(s, seq![1, 1], 'H');
    numbers_are_dispatched(s, seq![], 'f');
    numbers_are_dispatched(s, seq![1, 1], 'f');
    numbers_are_dispatched(s, seq![], 'm');
    numbers_are_dispatched(s, seq![0], 'm');
    reveal_with_fuel(sgr_from, 2);
    numbers_are_dispatched(s, seq![r], 'H');
    numbers_are_dispatched(s, seq![r, 1], 'H');
}

proof fn left_out(s: Screen, action: char, n: u16)
    requires
        takes_text(s),
        n == 1 && (action == 'A' || action == 'B' || action == 'C' || action == 'D' || action == 'G'
            || action == 'd' || action == 'L' || action == 'M' || action == 'P' || action == 'X'
            || action == '@') || n == 0 && (action == 'J' || action == 'K'),
    ensures
        after(s, seq![], action) == after(s, seq![n], action),
{
    numbers_are_dispatched(s, seq![], action);
    numbers_are_dispatched(s, seq![n], action);
}

/// A text behind `ESC [ r ; c H` stands at that row and column, and nowhere else.
pub proof fn placed_text_is_shown(s: Screen, r: u16, c: u16, text: Seq<char>)
    requires
        takes_text(s),
        1 <= r <= s.rows,
        1 <= c,
        c - 1 + text.len() < s.cols,
        forall|i: int| 0 <= i < text.len() ==> !is_control(#[trigger] text[i]),
    ensures
        ({
            let t = steps(s, sequence(listed(seq![r, c]), 'H') + text);
            &&& t.row + 1 == r
            &&& t.col + 1 == c + text.len()
            &&& forall|i: int|
                0 <= i < text.len() ==> t.grid[r - 1][c - 1 + i] == (TerminalCell {
                    ch: #[trigger] text[i],
                    style: s.style,
                })
            &&& forall|y: int, x: int|
                0 <= y < s.rows && 0 <= x < s.cols && !(y == r - 1 && c - 1 <= x < c - 1
                    + text.len()) ==> #[trigger] t.grid[y][x] == s.grid[y][x]
        }),
{
    let placed = after(s, seq![r, c], 'H');
    cursor_is_placed(s, r, c);
    input_comes_in_parts(s, sequence(listed(seq![r, c]), 'H'), text);
    printed_text_is_shown(placed, text);
    let t = steps(placed, text);
    assert forall|i: int| 0 <= i < text.len() implies t.grid[r - 1][c - 1 + i] == (TerminalCell {
        ch: #[trigger] text[i],
        style: s.style,
    }) by {}
    assert forall|y: int, x: int|
        0 <= y < s.rows && 0 <= x < s.cols && !(y == r - 1 && c - 1 <= x < c - 1
            + text.len()) implies #[trigger] t.grid[y][x] == s.grid[y][x] by {}
}

// ---------------------------------------------------------------------------
// Saving the cursor
// ---------------------------------------------------------------------------
/// Wherever the cursor is put after it was saved, restoring takes it back, and nothing else
/// changes on the way. `ESC 7` saves what `ESC [ s` saves; `ESC 8` restores what `ESC [ u` does.
pub proof fn cursor_is_saved_and_restored(s: Screen, r: u16, c: u16)
    requires
        takes_text(s),
        s.col < s.cols,
    ensures
        after_escape(s, '7') == after(s, seq![], 's'),
        after_escape(s, '8') == after(s, seq![], 'u'),
        differ_in_cursor(
            Screen { saved: (s.col, s.row), ..s },
            after_escape(s, '7'),
        ),
        after_escape(s, '7').col == s.col,
        after_escape(s, '7').row == s.row,
        after_escape(after(after_escape(s, '7'), seq![r, c], 'H'), '8') == after_escape(s, '7'),
{
    numbers_are_dispatched(s, seq![], 's');
    numbers_are_dispatched(s, seq![], 'u');
    two_steps(s, '\u{1b}', '7');
    two_steps(s, '\u{1b}', '8');
    reveal(step);
    let saved = after_escape(s, '7');
    cursor_is_placed(saved, r, c);
    let moved = after(saved, seq![r, c], 'H');
    two_steps(moved, '\u{1b}', '8');
}

/// A cursor that was saved beside a grid that has become smaller is restored to its edge, and
/// one that never was saved to the first place.
pub proof fn cursor_is_restored_onto_the_grid(s: Screen)
    requires
        takes_text(s),
    ensures
        differ_in_cursor(s, after_escape(s, '8')),
        s.saved.0 < s.cols ==> after_escape(s, '8').col == s.saved.0,
        s.saved.0 >= s.cols ==> after_escape(s, '8').col + 1 == s.cols,
        s.saved.1 < s.rows ==> after_escape(s, '8').row == s.saved.1,
        s.saved.1 >= s.rows ==> after_escape(s, '8').row + 1 == s.rows,
        blank_screen(s.cols, s.rows).saved == (0int, 0int),
{
    two_steps(s, '\u{1b}', '8');
    reveal(step);
}

// ---------------------------------------------------------------------------
// Clearing
// ---------------------------------------------------------------------------
/// `ESC [ J` empties what follows the cursor on its row and the rows below, `ESC [ 1 J` what comes
/// before it and the rows above, both with the cursor's own cell, and `ESC [ 2 J` everything. The
/// rest of the grid stays, and so does the cursor.
pub proof fn screen_is_cleared(s: Screen, mode: u16, r: int, c: int)
    requires
        takes_text(s),
        0 <= r < s.rows,
        0 <= c < s.cols,
    ensures
        differ_in_grid(s, after(s, seq![mode], 'J')),
        mode >= 2 ==> is_empty_cell(after(s, seq![mode], 'J').grid[r][c]),
        mode == 0 && (r > s.row || r == s.row && c >= s.col) ==> is_empty_cell(
            after(s, seq![mode], 'J').grid[r][c],
        ),
        mode == 0 && (r < s.row || r == s.row && c < s.col) ==> after(
            s,
            seq![mode],
            'J',
        ).grid[r][c] == s.grid[r][c],
        mode == 1 && (r < s.row || r == s.row && c <= s.col) ==> is_empty_cell(
            after(s, seq![mode], 'J').grid[r][c],
        ),
        mode == 1 && (r > s.row || r == s.row && c > s.col) ==> after(
            s,
            seq![mode],
            'J',
        ).grid[r][c] == s.grid[r][c],
{
    numbers_are_dispatched(s, seq![mode], 'J');
}

/// `ESC [ K` empties the cursor's row from the cursor on, `ESC [ 1 K` up to it, and `ESC [ 2 K` all
/// of it. The other rows stay, and so does the cursor.
pub proof fn line_is_cleared(s: Screen, mode: u16, r: int, c: int)
    requires
        takes_text(s),
        0 <= r < s.rows,
        0 <= c < s.cols,
    ensures
        differ_in_grid(s, after(s, seq![mode], 'K')),
        r != s.row ==> after(s, seq![mode], 'K').grid[r][c] == s.grid[r][c],
        r == s.row && (mode >= 2 || mode == 0 && c >= s.col || mode == 1 && c <= s.col)
            ==> is_empty_cell(after(s, seq![mode], 'K').grid[r][c]),
        r == s.row && (mode == 0 && c < s.col || mode == 1 && c > s.col) ==> after(
            s,
            seq![mode],
            'K',
        ).grid[r][c] == s.grid[r][c],
{
    numbers_are_dispatched(s, seq![mode], 'K');
}

/// `ESC [ n X` empties so many cells from the cursor on; nothing moves.
pub proof fn cells_are_erased(s: Screen, n: u16, r: int, c: int)
    requires
        takes_text(s),
        0 <= r < s.rows,
        0 <= c < s.cols,
    ensures
        differ_in_grid(s, after(s, seq![n], 'X')),
        r == s.row && s.col <= c < s.col + n ==> is_empty_cell(after(s, seq![n], 'X').grid[r][c]),
        !(r == s.row && s.col <= c < s.col + n) ==> after(s, seq![n], 'X').grid[r][c]
            == s.grid[r][c],
{
    numbers_are_dispatched(s, seq![n], 'X');
}

/// Going to the other screen or back, `ESC [ ? 1049 h` and `ESC [ ? 1049 l`, empties the grid and
/// takes the cursor to the first place. Other private modes change nothing, and neither does
/// such a sequence without its question mark.
pub proof fn other_screen_is_empty(s: Screen, n: u16, r: int, c: int)
    requires
        takes_text(s),
        0 <= r < s.rows,
        0 <= c < s.cols,
    ensures
        after_private(s, 1049, 'l') == after_private(s, 1049, 'h'),
        after_private(s, 1049, 'h').row == 0,
        after_private(s, 1049, 'h').col == 0,
        is_empty_cell(after_private(s, 1049, 'h').grid[r][c]),
        after_private(s, 1049, 'h').wf(),
        after_private(s, 1049, 'h').style == s.style,
        after_private(s, 1049, 'h').saved == s.saved,
        n != 1049 ==> after_private(s, n, 'h') == s && after_private(s, n, 'l') == s,
        after(s, seq![n], 'h') == s,
        after(s, seq![n], 'l') == s,
{
    private_is_dispatched(s, 1049, 'h');
    private_is_dispatched(s, 1049, 'l');
    private_is_dispatched(s, n, 'h');
    private_is_dispatched(s, n, 'l');
    numbers_are_dispatched(s, seq![n], 'h');
    numbers_are_dispatched(s, seq![n], 'l');
}

proof fn private_is_dispatched(s: Screen, n: u16, action: char)
    requires
        takes_text(s),
        '@' <= action && action <= '~',
    ensures
        after_private(s, n, action) == (Screen {
            state: TerminalParserState::Ground,
            ..dispatched(
                Screen { state: TerminalParserState::Csi, ..s },
                seq!['?'] + decimal(n as nat),
                action,
            )
        }),
        (seq!['?'] + decimal(n as nat)).skip(1) == decimal(n as nat),
        csi_params(decimal(n as nat)) == seq![Some(n)],
{
    let number = decimal(n as nat);
    let text = seq!['?'] + number;
    decimals_are_digits(n as nat);
    assert(text.skip(1) =~= number);
    assert forall|i: int| 0 <= i < number.len() implies #[trigger] number[i] != ';' by {
        assert(is_decimal(number[i]));
    }
    one_part(number);
    assert(csi_params(number) =~= seq![Some(n)]);
    assert forall|i: int| 0 <= i < text.len() implies !('@' <= #[trigger] text[i] && text[i]
        <= '~') by {
        if i > 0 {
            assert(text[i] == number[i - 1]);
            assert(is_decimal(number[i - 1]));
        }
    }
    assert(s.params =~= Seq::empty());
    sequence_is_dispatched(s, text, action);
}

/// A control sequence that ends in any other character changes nothing.
pub proof fn other_sequences_change_nothing(s: Screen, numbers: Seq<u16>, action: char)
    requires
        takes_text(s),
        '@' <= action && action <= '~',
        !seq![
            '@', 'A', 'B', 'C', 'D', 'G', 'H', 'J', 'K', 'L', 'M', 'P', 'X', 'd', 'f', 'm', 's', 'u',
        ].contains(action),
    ensures
        after(s, numbers, action) == s,
{
    let known = seq![
        '@', 'A', 'B', 'C', 'D', 'G', 'H', 'J', 'K', 'L', 'M', 'P', 'X', 'd', 'f', 'm', 's', 'u',
    ];
    assert forall|i: int| 0 <= i < 18 implies #[trigger] known[i] != action by {
        assert(known.contains(known[i]));
    }
    assert(known[0] == '@' && known[1] == 'A' && known[2] == 'B' && known[3] == 'C' && known[4]
        == 'D' && known[5] == 'G' && known[6] == 'H' && known[7] == 'J' && known[8] == 'K'
        && known[9] == 'L' && known[10] == 'M' && known[11] == 'P' && known[12] == 'X' && known[13]
        == 'd' && known[14] == 'f' && known[15] == 'm' && known[16] == 's' && known[17] == 'u');
    numbers_are_dispatched(s, numbers, action);
}

// ---------------------------------------------------------------------------
// Moving what stands on the grid
// ---------------------------------------------------------------------------
/// `ESC [ n L` moves the rows from the cursor's on down by so many; those that reach the bottom
/// are lost. Below the first row of the grid, the rows that become free are empty.
pub proof fn rows_are_put_in(s: Screen, n: u16, r: int, c: int)
    requires
        takes_text(s),
        0 <= r < s.rows,
        0 <= c < s.cols,
    ensures
        differ_in_grid(s, after(s, seq![n], 'L')),
        r < s.row ==> after(s, seq![n], 'L').grid[r][c] == s.grid[r][c],
        r >= s.row + n ==> after(s, seq![n], 'L').grid[r][c] == s.grid[r - n][c],
        0 < s.row <= r < s.row + n ==> is_empty_cell(after(s, seq![n], 'L').grid[r][c]),
{
    numbers_are_dispatched(s, seq![n], 'L');
}

/// `ESC [ n M` takes out so many rows from the cursor's on; those below move up, and the last rows
/// are empty.
pub proof fn rows_are_taken_out(s: Screen, n: u16, r: int, c: int)
    requires
        takes_text(s),
        0 <= r < s.rows,
        0 <= c < s.cols,
    ensures
        differ_in_grid(s, after(s, seq![n], 'M')),
        r < s.row ==> after(s, seq![n], 'M').grid[r][c] == s.grid[r][c],
        r >= s.row && r + n < s.rows ==> after(s, seq![n], 'M').grid[r][c] == s.grid[r + n][c],
        r >= s.row && r + n >= s.rows ==> is_empty_cell(after(s, seq![n], 'M').grid[r][c]),
{
    numbers_are_dispatched(s, seq![n], 'M');
}

/// `ESC [ n @` puts in so many empty cells at the cursor; what stands behind moves right.
pub proof fn cells_are_put_in(s: Screen, n: u16, r: int, c: int)
    requires
        takes_text(s),
        0 <= r < s.rows,
        0 <= c < s.cols,
    ensures
        differ_in_grid(s, after(s, seq![n], '@')),
        r != s.row || c < s.col ==> after(s, seq![n], '@').grid[r][c] == s.grid[r][c],
        r == s.row && s.col <= c < s.col + n ==> is_empty_cell(after(s, seq![n], '@').grid[r][c]),
        r == s.row && c >= s.col + n ==> after(s, seq![n], '@').grid[r][c] == s.grid[r][c - n],
{
    numbers_are_dispatched(s, seq![n], '@');
}

/// `ESC [ n P` takes out so many cells at the cursor; what stands behind moves left, and the end of
/// the row is empty.
pub proof fn cells_are_taken_out(s: Screen, n: u16, r: int, c: int)
    requires
        takes_text(s),
        0 <= r < s.rows,
        0 <= c < s.cols,
    ensures
        differ_in_grid(s, after(s, seq![n], 'P')),
        r != s.row || c < s.col ==> after(s, seq![n], 'P').grid[r][c] == s.grid[r][c],
        r == s.row && c >= s.col && c + n < s.cols ==> after(s, seq![n], 'P').grid[r][c]
            == s.grid[r][c + n],
        r == s.row && c >= s.col && c + n >= s.cols ==> is_empty_cell(
            after(s, seq![n], 'P').grid[r][c],
        ),
{
    numbers_are_dispatched(s, seq![n], 'P');
}

// ---------------------------------------------------------------------------
// Control characters
// ---------------------------------------------------------------------------
/// Whether a terminal is another one, with the cursor one row lower; where the cursor was on the
/// last row, everything has moved up instead.
pub open spec fn is_one_row_on(s: Screen, t: Screen) -> bool {
    if s.row + 1 < s.rows {
        t == (Screen { row: s.row + 1, ..s })
    } else {
        &&& differ_in_grid(s, t)
        &&& forall|r: int, c: int|
            0 <= r && r + 1 < s.rows && 0 <= c < s.cols ==> #[trigger] t.grid[r][c] == s.grid[r
                + 1][c]
        &&& forall|c: int|
            0 <= c < s.cols ==> is_empty_cell(#[trigger] t.grid[s.rows - 1][c])
    }
}

/// A line feed and `ESC D` take the cursor one row down, and `ESC E` to the start of that row; the
/// last row scrolls.
pub proof fn lines_feed(s: Screen)
    requires
        takes_text(s),
    ensures
        is_one_row_on(s, step(s, '\n')),
        after_escape(s, 'D') == step(s, '\n'),
        after_escape(s, 'E') == step(step(s, '\n'), '\r'),
{
    reveal(step);
    two_steps(s, '\u{1b}', 'D');
    two_steps(s, '\u{1b}', 'E');
    let escaped = Screen { state: TerminalParserState::Escape, ..s };
    let t = s.indexed();
    let u = escaped.indexed();
    assert forall|r: int| 0 <= r < s.rows implies t.grid[r] =~= u.grid[r] by {}
    assert(t.grid =~= u.grid);
}

/// `ESC M` takes the cursor one row up; on the first row everything moves down. Where nothing
/// scrolls, it undoes a line feed.
pub proof fn lines_feed_back(s: Screen)
    requires
        takes_text(s),
    ensures
        s.row > 0 ==> after_escape(s, 'M') == (Screen { row: s.row - 1, ..s }),
        s.row == 0 ==> differ_in_grid(s, after_escape(s, 'M')),
        s.row == 0 ==> forall|r: int, c: int|
            0 < r < s.rows && 0 <= c < s.cols ==> #[trigger] after_escape(s, 'M').grid[r][c]
                == s.grid[r - 1][c],
        s.row == 0 ==> forall|c: int|
            0 <= c < s.cols ==> is_empty_cell(#[trigger] after_escape(s, 'M').grid[0][c]),
        s.row + 1 < s.rows ==> after_escape(step(s, '\n'), 'M') == s,
{
    two_steps(s, '\u{1b}', 'M');
    two_steps(step(s, '\n'), '\u{1b}', 'M');
    reveal(step);
}

/// A carriage return takes the cursor to the first column and a backspace one to the left.
/// Other control characters do nothing.
pub proof fn control_characters_move_the_cursor(s: Screen, ch: char)
    requires
        takes_text(s),
    ensures
        step(s, '\r') == (Screen { col: 0, ..s }),
        s.col > 0 ==> step(s, '\u{8}') == (Screen { col: s.col - 1, ..s }),
        s.col == 0 ==> step(s, '\u{8}') == s,
        ((ch as u32) < 32 || 127 <= ch as u32 <= 159) && ch != '\n' && ch != '\r' && ch != '\t' && ch
            != '\u{8}' && ch != '\u{1b}' ==> step(s, ch) == s,
{
    reveal(step);
}

/// A tab takes the cursor to the next column that is a multiple of eight, and prints blanks on
/// the way.
pub proof fn tabs_stop_every_eight_columns(s: Screen, stop: int)
    requires
        takes_text(s),
        stop % 8 == 0,
        s.col < stop <= s.col + 8,
        stop < s.cols,
    ensures
        step(s, '\t').col == stop,
        step(s, '\t').row == s.row,
        step(s, '\t').style == s.style,
        forall|r: int, c: int|
            0 <= r < s.rows && 0 <= c < s.cols ==> #[trigger] step(s, '\t').grid[r][c] == (if r
                == s.row && s.col <= c < stop {
                TerminalCell { ch: ' ', style: s.style }
            } else {
                s.grid[r][c]
            }),
{
    assert((s.col / 8 + 1) * 8 == stop) by (nonlinear_arith)
        requires
            stop % 8 == 0,
            s.col < stop <= s.col + 8,
            0 <= s.col,
    ;
    reveal(step);
    blanks_to(s, stop);
}

proof fn blanks_to(s: Screen, stop: int)
    requires
        s.wf(),
        s.col <= stop < s.cols,
    ensures
        s.tabbed(stop).col == stop,
        s.tabbed(stop).row == s.row,
        s.tabbed(stop).style == s.style,
        forall|r: int, c: int|
            0 <= r < s.rows && 0 <= c < s.cols ==> #[trigger] s.tabbed(stop).grid[r][c] == (if r
                == s.row && s.col <= c < stop {
                TerminalCell { ch: ' ', style: s.style }
            } else {
                s.grid[r][c]
            }),
    decreases stop - s.col,
{
    if s.col < stop {
        blanks_to(s.printed(' '), stop);
    }
}

/// A character that is printed stands at the cursor in the current style; nothing else on the
/// grid changes. In the last column the cursor goes on to the start of the next row, as a carriage
/// return and a line feed would take it there.
pub proof fn characters_are_printed(s: Screen, ch: char)
    requires
        takes_text(s),
        s.col < s.cols,
        !((ch as u32) < 32 || 127 <= ch as u32 <= 159),
    ensures
        ({
            let written = Screen {
                grid: s.grid.update(
                    s.row,
                    s.grid[s.row].update(s.col, TerminalCell { ch, style: s.style }),
                ),
                ..s
            };
            &&& s.col + 1 < s.cols ==> step(s, ch) == (Screen { col: s.col + 1, ..written })
            &&& s.col + 1 == s.cols ==> is_one_row_on(Screen { col: 0, ..written }, step(s, ch))
        }),
{
    reveal(step);
    let written = Screen {
        grid: s.grid.update(
            s.row,
            s.grid[s.row].update(s.col, TerminalCell { ch, style: s.style }),
        ),
        ..s
    };
    assert(s.clamped() == s);
    assert(s.printed(ch) == if s.col + 1 >= s.cols {
        Screen { col: 0, ..written }.indexed()
    } else {
        Screen { col: s.col + 1, ..written }
    });
    assert(written.wf());
}

/// `ESC c` makes the terminal as new, and a new terminal is empty, with the cursor at its first
/// place.
pub proof fn terminals_are_reset(s: Screen, r: int, c: int)
    requires
        takes_text(s),
        0 <= r < s.rows,
        0 <= c < s.cols,
    ensures
        after_escape(s, 'c') == blank_screen(s.cols, s.rows),
        takes_text(blank_screen(s.cols, s.rows)),
        blank_screen(s.cols, s.rows).cols == s.cols,
        blank_screen(s.cols, s.rows).rows == s.rows,
        blank_screen(s.cols, s.rows).row == 0,
        blank_screen(s.cols, s.rows).col == 0,
        is_empty_cell(blank_screen(s.cols, s.rows).grid[r][c]),
        is_empty_cell(TerminalCell { ch: ' ', style: blank_screen(s.cols, s.rows).style }),
{
    two_steps(s, '\u{1b}', 'c');
    reveal(step);
}

/// An escape character with a character that means nothing behind it changes nothing.
pub proof fn other_escapes_change_nothing(s: Screen, ch: char)
    requires
        takes_text(s),
        ch != '[',
        ch != ']',
        ch != '7',
        ch != '8',
        ch != 'c',
        ch != 'D',
        ch != 'E',
        ch != 'M',
    ensures
        after_escape(s, ch) == s,
{
    two_steps(s, '\u{1b}', ch);
    reveal(step);
}

/// A command of the operating system, such as a title, is passed over: nothing changes up to the
/// bell, or the escape character with a backslash, that ends it.
pub proof fn titles_are_passed_over(s: Screen, title: Seq<char>)
    requires
        takes_text(s),
        forall|i: int|
            0 <= i < title.len() ==> #[trigger] title[i] != '\u{7}' && title[i] != '\u{1b}',
    ensures
        steps(s, seq!['\u{1b}', ']'] + title + seq!['\u{7}']) == s,
        steps(s, seq!['\u{1b}', ']'] + title + seq!['\u{1b}', '\\']) == s,
{
    let start = seq!['\u{1b}', ']'];
    let within = Screen { state: TerminalParserState::Osc, ..s };
    two_steps(s, '\u{1b}', ']');
    assert(steps(s, start) == within) by {
        reveal(step);
    }
    input_comes_in_parts(s, start, title);
    passed_over(within, title);
    input_comes_in_parts(s, start + title, seq!['\u{7}']);
    input_comes_in_parts(s, start + title, seq!['\u{1b}', '\\']);
    one_step(within, '\u{7}');
    two_steps(within, '\u{1b}', '\\');
    reveal(step);
}

proof fn passed_over(s: Screen, title: Seq<char>)
    requires
        s.state == TerminalParserState::Osc,
        forall|i: int|
            0 <= i < title.len() ==> #[trigger] title[i] != '\u{7}' && title[i] != '\u{1b}',
    ensures
        steps(s, title) == s,
    decreases title.len(),
{
    reveal(steps);
    if title.len() > 0 {
        let front = title.drop_last();
        assert forall|i: int| 0 <= i < front.len() implies #[trigger] front[i] != '\u{7}'
            && front[i] != '\u{1b}' by {
            assert(front[i] == title[i]);
        }
        passed_over(s, front);
        let last = title[title.len() - 1];
        assert(last != '\u{7}' && last != '\u{1b}');
        reveal(step);
    }
}

// ---------------------------------------------------------------------------
// Styles
// ---------------------------------------------------------------------------
/// The eight colours, in the order of their numbers.
pub open spec fn plain_colors() -> Seq<Color> {
    seq![
        Color::Black,
        Color::Red,
        Color::Green,
        Color::Yellow,
        Color::Blue,
        Color::Magenta,
        Color::Cyan,
        Color::Gray,
    ]
}

/// Their bright variants, in the same order.
pub open spec fn bright_colors() -> Seq<Color> {
    seq![
        Color::DarkGray,
        Color::LightRed,
        Color::LightGreen,
        Color::LightYellow,
        Color::LightBlue,
        Color::LightMagenta,
        Color::LightCyan,
        Color::White,
    ]
}

/// The brightness of the steps along a side of the colour cube.
pub open spec fn cube_steps() -> Seq<u8> {
    seq![0u8, 95u8, 135u8, 175u8, 215u8, 255u8]
}

/// What becomes of something that one number sets and others take back.
pub open spec fn switched(before: bool, n: u16, on: u16, off: u16) -> bool {
    if n == on {
        true
    } else if n == off || n == 0 {
        false
    } else {
        before
    }
}

/// `ESC [ n m` sets or takes back one thing about the style and leaves the rest, and 0 takes back
/// everything. 1, 4 and 7 are bold, underlined and reversed, 22, 24 and 27 take them back. Text
/// takes the plain colours from 30 on and the bright ones from 90 on, and what is behind it those
/// from 40 and from 100 on; 39 and 49 take them back. Only the style changes.
pub proof fn styles_are_set(s: Screen, n: u16)
    requires
        takes_text(s),
    ensures
        ({
            let t = after(s, seq![n], 'm');
            &&& t == (Screen { style: t.style, ..s })
            &&& t.style.bold == switched(s.style.bold, n, 1, 22)
            &&& t.style.underlined == switched(s.style.underlined, n, 4, 24)
            &&& t.style.reversed == switched(s.style.reversed, n, 7, 27)
            &&& 30 <= n <= 37 ==> t.style.fg == Some(plain_colors()[n - 30])
            &&& 90 <= n <= 97 ==> t.style.fg == Some(bright_colors()[n - 90])
            &&& n == 0 || n == 39 ==> t.style.fg is None
            &&& !(30 <= n <= 37 || 90 <= n <= 97 || n == 0 || n == 39) ==> t.style.fg == s.style.fg
            &&& 40 <= n <= 47 ==> t.style.bg == Some(plain_colors()[n - 40])
            &&& 100 <= n <= 107 ==> t.style.bg == Some(bright_colors()[n - 100])
            &&& n == 0 || n == 49 ==> t.style.bg is None
            &&& !(40 <= n <= 47 || 100 <= n <= 107 || n == 0 || n == 49) ==> t.style.bg
                == s.style.bg
        }),
{
    numbers_are_dispatched(s, seq![n], 'm');
    reveal_with_fuel(sgr_from, 2);
}

/// `ESC [ 38 ; 5 ; n m` takes a colour for text out of 256: first the plain ones, then
/// the bright ones, and shades of grey at the end. With 48 it is the colour behind the text.
pub proof fn colors_are_numbered(s: Screen, n: u16)
    requires
        takes_text(s),
        n < 256,
    ensures
        ({
            let t = after(s, seq![38, 5, n], 'm');
            let u = after(s, seq![48, 5, n], 'm');
            &&& t == (Screen { style: TerminalCellStyle { fg: t.style.fg, ..s.style }, ..s })
            &&& u == (Screen { style: TerminalCellStyle { bg: t.style.fg, ..s.style }, ..s })
            &&& n < 8 ==> t.style.fg == Some(plain_colors()[n as int])
            &&& 8 <= n < 16 ==> t.style.fg == Some(bright_colors()[n - 8])
            &&& n >= 232 ==> t.style.fg == Some(
                Color::Rgb(
                    (10 * (n - 232) + 8) as u8,
                    (10 * (n - 232) + 8) as u8,
                    (10 * (n - 232) + 8) as u8,
                ),
            )
        }),
{
    numbers_are_dispatched(s, seq![38, 5, n], 'm');
    numbers_are_dispatched(s, seq![48, 5, n], 'm');
    reveal_with_fuel(sgr_from, 2);
}

/// The colours from 16 on form a cube: with every step along blue the number grows by one, along
/// green by six, and along red by thirty-six.
pub proof fn colors_form_a_cube(s: Screen, n: u16, r: int, g: int, b: int)
    requires
        takes_text(s),
        0 <= r < 6,
        0 <= g < 6,
        0 <= b < 6,
        n == 16 + 36 * r + 6 * g + b,
    ensures
        after(s, seq![38, 5, n], 'm').style.fg == Some(
            Color::Rgb(cube_steps()[r], cube_steps()[g], cube_steps()[b]),
        ),
{
    numbers_are_dispatched(s, seq![38, 5, n], 'm');
    reveal_with_fuel(sgr_from, 2);
    assert((n - 16) / 36 == r);
    assert((n - 16) / 6 == 6 * r + g);
    assert((n - 16) / 6 % 6 == g);
    assert((n - 16) % 6 == b);
}

/// `ESC [ 38 ; 2 ; r ; g ; b m` takes the colour with these levels for text, and with 48 for what is
/// behind it. Of a level that is larger than 255 the lowest eight bits count.
pub proof fn colors_are_mixed(s: Screen, r: u16, g: u16, b: u16)
    requires
        takes_text(s),
    ensures
        ({
            let mixed = Some(Color::Rgb((r % 256) as u8, (g % 256) as u8, (b % 256) as u8));
            &&& after(s, seq![38, 2, r, g, b], 'm') == (Screen {
                style: TerminalCellStyle { fg: mixed, ..s.style },
                ..s
            })
            &&& after(s, seq![48, 2, r, g, b], 'm') == (Screen {
                style: TerminalCellStyle { bg: mixed, ..s.style },
                ..s
            })
        }),
{
    numbers_are_dispatched(s, seq![38, 2, r, g, b], 'm');
    numbers_are_dispatched(s, seq![48, 2, r, g, b], 'm');
    reveal_with_fuel(sgr_from, 2);
}

proof fn later_styles(
    style: TerminalCellStyle,
    all: Seq<Option<u16>>,
    b: Seq<Option<u16>>,
    from: int,
    i: int,
)
    requires
        0 <= from,
        0 <= i,
        all.len() == from + b.len(),
        forall|k: int| 0 <= k < b.len() ==> all[from + k] == #[trigger] b[k],
    ensures
        sgr_from(style, all, from + i) == sgr_from(style, b, i),
    decreases b.len() - i,
{
    if i < b.len() {
        assert(all[from + i] == b[i]);
        let value = param(b, i, 0);
        assert(param(all, from + i, 0) == value);
        if value == 38 || value == 48 {
            if i + 1 < b.len() {
                assert(all[from + (i + 1)] == b[i + 1]);
            }
            if i + 2 < b.len() {
                assert(all[from + (i + 2)] == b[i + 2]);
            }
            if i + 3 < b.len() {
                assert(all[from + (i + 3)] == b[i + 3]);
            }
            if i + 4 < b.len() {
                assert(all[from + (i + 4)] == b[i + 4]);
            }
            assert(extended_color(all, from + i + 1) == extended_color(b, i + 1));
            match extended_color(b, i + 1) {
                Some((color, used)) => {
                    let next = if value == 38 {
                        TerminalCellStyle { fg: Some(color), ..style }
                    } else {
                        TerminalCellStyle { bg: Some(color), ..style }
                    };
                    later_styles(next, all, b, from, i + 1 + used);
                },
                None => later_styles(style, all, b, from, i + 1),
            }
        } else {
            later_styles(crate::terminal::params::sgr_one(style, value), all, b, from, i + 1);
        }
    }
}

/// Several numbers take effect one after the other.
pub proof fn styles_add_up(s: Screen, n: u16, more: Seq<u16>)
    requires
        takes_text(s),
        n != 38,
        n != 48,
        more.len() > 0,
    ensures
        after(s, seq![n] + more, 'm') == after(after(s, seq![n], 'm'), more, 'm'),
{
    let all = seq![n] + more;
    let first = after(s, seq![n], 'm');
    numbers_are_dispatched(s, all, 'm');
    numbers_are_dispatched(s, seq![n], 'm');
    numbers_are_dispatched(first, more, 'm');
    let one = Seq::new(1, |i: int| Some(seq![n][i]));
    let a = Seq::new(all.len(), |i: int| Some(all[i]));
    let b = Seq::new(more.len(), |i: int| Some(more[i]));
    reveal_with_fuel(sgr_from, 2);
    assert(first.style == sgr_from(s.style, one, 0));
    assert(sgr_from(s.style, a, 0) == sgr_from(first.style, a, 1));
    later_styles(first.style, a, b, 1, 0);
}

// ---------------------------------------------------------------------------
// Edges
// ---------------------------------------------------------------------------
/// A character that is printed with the cursor beside the grid stands in the last column.
pub proof fn characters_stay_on_the_grid(s: Screen, ch: char)
    requires
        takes_text(s),
        s.col >= s.cols,
        !((ch as u32) < 32 || 127 <= ch as u32 <= 159),
    ensures
        step(s, ch) == step(Screen { col: s.cols - 1, ..s }, ch),
{
    reveal(step);
    assert(Screen { col: s.cols - 1, ..s }.clamped() == s.clamped());
}

/// A question mark before the number changes nothing for what is no mode of the terminal.
pub proof fn marks_change_nothing(s: Screen, n: u16, action: char)
    requires
        takes_text(s),
        '@' <= action && action <= '~',
        action != 'h',
        action != 'l',
    ensures
        after_private(s, n, action) == after(s, seq![n], action),
{
    private_is_dispatched(s, n, action);
    numbers_are_dispatched(s, seq![n], action);
    assert(csi_params(listed(seq![n])) =~= seq![Some(n)]);
    let begun = Screen { state: TerminalParserState::Csi, ..s };
    let marked = seq!['?'] + decimal(n as nat);
    assert(marked[0] == '?');
    same_for_same_numbers(begun, marked, listed(seq![n]), action);
}

proof fn same_for_same_numbers(s: Screen, marked: Seq<char>, plain: Seq<char>, action: char)
    requires
        marked.len() > 0 && marked[0] == '?',
        plain.len() > 0 ==> plain[0] != '?',
        csi_params(marked.skip(1)) == csi_params(plain),
        action != 'h',
        action != 'l',
    ensures
        dispatched(s, marked, action) == dispatched(s, plain, action),
{
}

/// Where the row is left out before a column, the first row is meant.
pub proof fn rows_may_be_left_out(s: Screen, c: u16)
    requires
        takes_text(s),
    ensures
        steps(s, sequence(seq![';'] + decimal(c as nat), 'H')) == after(s, seq![1, c], 'H'),
{
    let number = decimal(c as nat);
    let text = seq![';'] + number;
    decimals_are_digits(c as nat);
    assert forall|i: int| 0 <= i < number.len() implies #[trigger] number[i] != ';' by {
        assert(is_decimal(number[i]));
    }
    let none = Seq::<char>::empty();
    one_more_part(none, number);
    assert(none + seq![';'] + number =~= text);
    assert(split_at(none, ';') =~= seq![none]);
    assert(small_number(none) is None) by {
        assert(crate::text::digits_value(none) == Some(0nat));
    }
    let parts = split_at(text, ';');
    assert(parts =~= seq![none, number]);
    assert(csi_params(text)[0] is None);
    assert(csi_params(text)[1] == Some(c));
    assert forall|i: int| 0 <= i < text.len() implies !('@' <= #[trigger] text[i] && text[i]
        <= '~') by {
        if i > 0 {
            assert(text[i] == number[i - 1]);
            assert(is_decimal(number[i - 1]));
        }
    }
    assert(s.params =~= Seq::empty());
    sequence_is_dispatched(s, text, 'H');
    numbers_are_dispatched(s, seq![1, c], 'H');
}

} // verus!
