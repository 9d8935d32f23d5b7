//! What holds of every terminal.
use crate::style::{SpanView, Style};
use crate::terminal::screen::{
    can_step, can_steps, is_control, runs, shown, shown_at, step, steps, Screen, TerminalCell,
    TerminalParserState,
};
use vstd::prelude::*;

verus! {

/// No character changes the size of the grid or moves the cursor off its rows.
pub proof fn step_keeps_shape(s: Screen, ch: char)
    requires
        s.wf(),
        can_step(s, ch),
    ensures
        step(s, ch).wf(),
        step(s, ch).cols == s.cols,
        step(s, ch).rows == s.rows,
{
    reveal(step);
    if s.state == TerminalParserState::Ground && ch == '\t' {
        tabbed_keeps_shape(s, (s.col / 8 + 1) * 8);
    }
}

proof fn tabbed_keeps_shape(s: Screen, stop: int)
    requires
        s.wf(),
    ensures
        s.tabbed(stop).wf(),
        s.tabbed(stop).cols == s.cols,
        s.tabbed(stop).rows == s.rows,
    decreases stop - s.col,
{
    if s.col < stop < s.cols {
        tabbed_keeps_shape(s.printed(' '), stop);
    }
}

/// No input changes the size of the grid or moves the cursor off its rows.
pub proof fn steps_keep_shape(s: Screen, chars: Seq<char>)
    requires
        s.wf(),
        can_steps(s, chars),
    ensures
        steps(s, chars).wf(),
        steps(s, chars).cols == s.cols,
        steps(s, chars).rows == s.rows,
    decreases chars.len(),
{
    reveal(steps);
    reveal(can_steps);
    if chars.len() > 0 {
        let front = chars.drop_last();
        assert forall|i: int| 0 <= i < front.len() implies can_step(
            steps(s, front.take(i)),
            #[trigger] front[i],
        ) by {
            assert(front.take(i) =~= chars.take(i));
            assert(front[i] == chars[i]);
        }
        steps_keep_shape(s, front);
        assert(chars.take(chars.len() - 1) =~= front);
        assert(can_step(steps(s, front), chars[chars.len() - 1]));
        step_keeps_shape(steps(s, front), chars.last());
    }
}

/// It does not matter in how many parts characters come.
pub proof fn input_comes_in_parts(s: Screen, a: Seq<char>, b: Seq<char>)
    ensures
        steps(s, a + b) == steps(steps(s, a), b),
    decreases b.len(),
{
    reveal(steps);
    if b.len() == 0 {
        assert(a + b =~= a);
    } else {
        input_comes_in_parts(s, a, b.drop_last());
        assert((a + b).drop_last() =~= a + b.drop_last());
    }
}

/// What stands at a place of the grid once a text stands on the cursor's row, from the cursor on.
pub open spec fn cell_with_text(s: Screen, text: Seq<char>, r: int, c: int) -> TerminalCell {
    if r == s.row && s.col <= c < s.col + text.len() {
        TerminalCell { ch: text[c - s.col], style: s.style }
    } else {
        s.at(r, c)
    }
}

/// The terminal with a text on the cursor's row, from the cursor on, and the cursor behind it.
pub open spec fn with_text(s: Screen, text: Seq<char>) -> Screen {
    Screen {
        col: s.col + text.len(),
        ..s.with_grid(|r: int, c: int| cell_with_text(s, text, r, c))
    }
}

/// A text that fits on the cursor's row is shown from the cursor on in the current style, and
/// nothing else changes.
pub proof fn printed_text_is_shown(s: Screen, text: Seq<char>)
    requires
        s.wf(),
        s.state == TerminalParserState::Ground,
        forall|i: int| 0 <= i < text.len() ==> !is_control(#[trigger] text[i]),
        s.col + text.len() < s.cols,
    ensures
        steps(s, text) == with_text(s, text),
    decreases text.len(),
{
    reveal(steps);
    if text.len() > 0 {
        let front = text.drop_last();
        assert forall|i: int| 0 <= i < front.len() implies !is_control(#[trigger] front[i]) by {
            assert(front[i] == text[i]);
        }
        printed_text_is_shown(s, front);
        assert(!is_control(text[text.len() - 1]));
        printing_step(with_text(s, front), text.last());
        one_more_shown(s, front, text.last());
        assert(front.push(text.last()) =~= text);
    } else {
        let due = with_text(s, text);
        assert forall|r: int| 0 <= r < s.rows implies s.grid[r] =~= due.grid[r] by {}
        assert(s.grid =~= due.grid);
    }
}

proof fn printing_step(s: Screen, ch: char)
    requires
        s.state == TerminalParserState::Ground,
        !is_control(ch),
    ensures
        step(s, ch) == s.printed(ch),
{
    reveal(step);
}

proof fn one_more_shown(s: Screen, front: Seq<char>, ch: char)
    requires
        s.wf(),
        s.col + front.len() + 1 < s.cols,
    ensures
        with_text(s, front).printed(ch) == with_text(s, front.push(ch)),
{
    let text = front.push(ch);
    let mid = with_text(s, front);
    let due = with_text(s, text);
    let got = mid.printed(ch);
    let cell = TerminalCell { ch, style: s.style };
    assert(mid.clamped() == mid);
    let row = mid.grid[s.row].update(mid.col, cell);
    assert(got.grid == mid.grid.update(s.row, row));
    assert forall|r: int| 0 <= r < s.rows implies got.grid[r] =~= due.grid[r] by {
        assert(mid.grid[r].len() == s.cols);
        assert(due.grid[r].len() == s.cols);
        assert forall|c: int| 0 <= c < s.cols implies got.grid[r][c] == due.grid[r][c] by {
            assert(due.grid[r][c] == cell_with_text(s, text, r, c));
            assert(mid.grid[r][c] == cell_with_text(s, front, r, c));
        }
    }
    assert(got.grid =~= due.grid);
}

/// A terminal that is made larger and then as large as before shows what it showed.
pub proof fn growing_loses_nothing(s: Screen, cols: int, rows: int)
    requires
        s.wf(),
        s.cols <= cols,
        s.rows <= rows,
    ensures
        s.resized(cols, rows).resized(s.cols, s.rows).grid == s.grid,
{
    let back = s.resized(cols, rows).resized(s.cols, s.rows);
    assert forall|r: int| 0 <= r < s.rows implies back.grid[r] =~= s.grid[r] by {}
    assert(back.grid =~= s.grid);
}

/// A cursor that is saved on the grid is restored to where it was.
pub proof fn saved_cursor_comes_back(s: Screen, moved: Screen)
    requires
        s.wf(),
        s.col < s.cols,
        moved.cols == s.cols,
        moved.rows == s.rows,
        moved.saved == s.cursor_saved().saved,
    ensures
        moved.restored().col == s.col,
        moved.restored().row == s.row,
{
}

/// What a terminal shows in a row is as many characters as it has columns.
pub proof fn rows_are_full(shown: Seq<(char, Style)>)
    ensures
        text_length(runs(shown)) == shown.len(),
    decreases shown.len(),
{
    if shown.len() > 0 {
        let front = runs(shown.drop_last());
        rows_are_full(shown.drop_last());
        let all = runs(shown);
        if front.len() > 0 && front.last().style == shown.last().1 {
            assert(all.drop_last() =~= front.drop_last());
        } else {
            assert(all.drop_last() =~= front);
        }
    }
}

/// How many characters texts have.
pub open spec fn text_length(spans: Seq<SpanView>) -> nat
    decreases spans.len(),
{
    if spans.len() == 0 {
        0
    } else {
        text_length(spans.drop_last()) + spans.last().text.len()
    }
}

/// The characters of texts, each with the style that it is shown in.
pub open spec fn spread(spans: Seq<SpanView>) -> Seq<(char, Style)>
    decreases spans.len(),
{
    if spans.len() == 0 {
        Seq::empty()
    } else {
        let last = spans.last();
        spread(spans.drop_last()) + Seq::new(last.text.len(), |i: int| (last.text[i], last.style))
    }
}

proof fn runs_are_spread(shown: Seq<(char, Style)>)
    ensures
        spread(runs(shown)) == shown,
        forall|i: int| 0 <= i < runs(shown).len() ==> (#[trigger] runs(shown)[i]).text.len() > 0,
        forall|i: int|
            0 < i < runs(shown).len() ==> (#[trigger] runs(shown)[i]).style != runs(shown)[i
                - 1].style,
    decreases shown.len(),
{
    if shown.len() == 0 {
        assert(spread(runs(shown)) =~= shown);
    } else {
        let front = runs(shown.drop_last());
        runs_are_spread(shown.drop_last());
        let all = runs(shown);
        if front.len() > 0 && front.last().style == shown.last().1 {
            assert(all.drop_last() =~= front.drop_last());
            assert forall|i: int| 0 <= i < all.len() implies (#[trigger] all[i]).text.len() > 0 && (i
                > 0 ==> all[i].style != all[i - 1].style) by {
                assert(front[i].text.len() > 0);
                assert(i > 0 ==> front[i].style != front[i - 1].style);
            }
            let last = shown.last();
            let text = front.last().text;
            let before = Seq::new(text.len(), |i: int| (text[i], last.1));
            let now = Seq::new(text.len() + 1, |i: int| (text.push(last.0)[i], last.1));
            assert(all.last() == (SpanView { text: text.push(last.0), style: last.1 }));
            assert(spread(front) =~= spread(front.drop_last()) + before);
            assert(spread(all) =~= spread(front.drop_last()) + now);
            assert(now =~= before.push(last));
        } else {
            assert(all.drop_last() =~= front);
            let last = shown.last();
            assert(spread(all) =~= spread(front) + seq![last]);
        }
        assert(spread(all) =~= spread(front).push(shown.last()));
        assert(shown.drop_last().push(shown.last()) =~= shown);
    }
}

/// A row shows the characters of its cells in their order, each in its cell's style; neighbours in
/// one style are told together. Of a reversed cell the colours are exchanged, and the cursor
/// reverses the cell that it stands on.
pub proof fn rows_show_their_cells(s: Screen, r: int, c: int, show_cursor: bool)
    requires
        s.wf(),
        0 <= r < s.rows,
        0 <= c < s.cols,
    ensures
        ({
            let row = spread(shown(s, show_cursor)[r]);
            let cell = s.grid[r][c];
            let on_cursor = show_cursor && s.row == r && s.col == c;
            let (first, second) = if cell.style.reversed != on_cursor {
                (cell.style.bg, cell.style.fg)
            } else {
                (cell.style.fg, cell.style.bg)
            };
            &&& shown(s, show_cursor).len() == s.rows
            &&& row.len() == s.cols
            &&& row[c].0 == cell.ch
            &&& row[c].1.fg == first
            &&& row[c].1.bg == second
            &&& row[c].1.bold == cell.style.bold
            &&& row[c].1.underlined == cell.style.underlined
            &&& !row[c].1.dim
        }),
        forall|i: int|
            0 < i < shown(s, show_cursor)[r].len() ==> (#[trigger] shown(
                s,
                show_cursor,
            )[r][i]).style != shown(s, show_cursor)[r][i - 1].style,
{
    runs_are_spread(Seq::new(s.cols as nat, |c: int| shown_at(s, r, c, show_cursor)));
}

/// A terminal of another size shows in its corner what it showed there before, and nothing
/// elsewhere. The cursor goes no further than it must.
pub proof fn resizing_keeps_what_fits(s: Screen, cols: int, rows: int, r: int, c: int)
    requires
        s.wf(),
        1 <= cols <= u16::MAX,
        1 <= rows <= u16::MAX,
        0 <= r < rows,
        0 <= c < cols,
    ensures
        s.resized(cols, rows).wf(),
        s.resized(cols, rows).cols == cols,
        s.resized(cols, rows).rows == rows,
        r < s.rows && c < s.cols ==> s.resized(cols, rows).grid[r][c] == s.grid[r][c],
        !(r < s.rows && c < s.cols) ==> s.resized(cols, rows).grid[r][c].ch == ' ' && s.resized(
            cols,
            rows,
        ).grid[r][c].style.fg is None && s.resized(cols, rows).grid[r][c].style.bg is None,
        s.row < rows ==> s.resized(cols, rows).row == s.row,
        s.row >= rows ==> s.resized(cols, rows).row + 1 == rows,
        s.col < cols ==> s.resized(cols, rows).col == s.col,
        s.col >= cols && !(cols == s.cols && rows == s.rows) ==> s.resized(cols, rows).col + 1
            == cols,
        cols == s.cols && rows == s.rows ==> s.resized(cols, rows) == s,
        s.resized(cols, rows).style == s.style,
        s.resized(cols, rows).saved == s.saved,
        s.resized(cols, rows).state == s.state,
        s.resized(cols, rows).params == s.params,
{
}

} // verus!
