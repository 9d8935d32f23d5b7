//! The terminal itself: bytes in, a grid of styled characters out.
use crate::style::{line_views, Line, Span, SpanView, Style};
use crate::terminal::params::{
    applied, empty_style, first_param, nth_param, parse_csi_params, parse_extended_color, sgr,
    sgr_from,
};
use crate::terminal::screen::{
    blank, blank_row, blank_screen, can_step, can_steps, dispatched, larger, runs, shown, shown_at,
    shown_row, shown_style, smaller, step, steps, Screen, TerminalCell, TerminalCellStyle,
    TerminalParserState,
};
use crate::text::{chars_of, lossy_string, lossy_text};
use vstd::prelude::*;

verus! {

proof fn next_step(s: Screen, chars: Seq<char>, i: int)
    requires
        0 <= i < chars.len(),
    ensures
        steps(s, chars.take(0)) == s,
        steps(s, chars.take(i + 1)) == step(steps(s, chars.take(i)), chars[i]),
        can_steps(s, chars) ==> can_step(steps(s, chars.take(i)), chars[i]),
{
    reveal(steps);
    reveal(can_steps);
    assert(chars.take(i + 1).drop_last() =~= chars.take(i));
}

// ---------------------------------------------------------------------------
// The terminal
// ---------------------------------------------------------------------------
/// A terminal in memory.
#[derive(Debug)]
pub struct TerminalSurface {
    cols: u16,
    rows: u16,
    cursor_col: usize,
    cursor_row: usize,
    saved_cursor: (usize, usize),
    style: TerminalCellStyle,
    cells: Vec<Vec<TerminalCell>>,
    parser_state: TerminalParserState,
    csi_buffer: String,
}

impl View for TerminalSurface {
    type V = Screen;

    closed spec fn view(&self) -> Screen {
        Screen {
            cols: self.cols as int,
            rows: self.rows as int,
            col: self.cursor_col as int,
            row: self.cursor_row as int,
            saved: (self.saved_cursor.0 as int, self.saved_cursor.1 as int),
            style: self.style,
            grid: Seq::new(self.cells@.len(), |r: int| self.cells@[r]@),
            state: self.parser_state,
            params: self.csi_buffer@,
        }
    }
}

fn empty_cell() -> (r: TerminalCell)
    ensures
        r == blank(),
{
    TerminalCell { ch: ' ', style: empty_style() }
}

fn empty_row(cols: u16) -> (r: Vec<TerminalCell>)
    ensures
        r@ == blank_row(cols as int),
{
    let mut r: Vec<TerminalCell> = Vec::new();
    let mut c: u16 = 0;
    while c < cols
        invariant
            c <= cols,
            r@ == blank_row(c as int),
        decreases cols - c,
    {
        r.push(empty_cell());
        c = c + 1;
        assert(r@ =~= blank_row(c as int));
    }
    r
}

impl TerminalSurface {
    /// An empty terminal, at least one column wide and one row high.
    pub fn new(cols: u16, rows: u16) -> (r: TerminalSurface)
        ensures
            r@ == blank_screen(larger(cols as int, 1), larger(rows as int, 1)),
            r@.wf(),
    {
        let cols: u16 = if cols < 1 { 1 } else { cols };
        let rows: u16 = if rows < 1 { 1 } else { rows };
        let mut cells: Vec<Vec<TerminalCell>> = Vec::new();
        let mut i: u16 = 0;
        while i < rows
            invariant
                i <= rows,
                cells@.len() == i,
                forall|r: int| 0 <= r < i ==> (#[trigger] cells@[r])@ == blank_row(cols as int),
            decreases rows - i,
        {
            cells.push(empty_row(cols));
            i = i + 1;
        }
        let r = TerminalSurface {
            cols,
            rows,
            cursor_col: 0,
            cursor_row: 0,
            saved_cursor: (0, 0),
            style: empty_style(),
            cells,
            parser_state: TerminalParserState::Ground,
            csi_buffer: String::new(),
        };
        assert(r@.grid =~= blank_screen(cols as int, rows as int).grid);
        r
    }

    /// Empties the terminal and puts every state back to what it was at the start.
    pub fn reset(&mut self)
        requires
            old(self)@.wf(),
        ensures
            final(self)@ == blank_screen(old(self)@.cols, old(self)@.rows),
            final(self)@.wf(),
    {
        let cols: u16 = self.cols;
        let rows: u16 = self.rows;
        *self = TerminalSurface::new(cols, rows);
    }

    /// What stands at a place of the grid; an empty cell beside the grid.
    fn cell(&self, row: usize, col: usize) -> (r: TerminalCell)
        requires
            self@.wf(),
        ensures
            r == self@.at(row as int, col as int),
    {
        if row < self.rows as usize && col < self.cols as usize {
            assert(self@.grid[row as int].len() == self.cols);
            self.cells[row][col]
        } else {
            empty_cell()
        }
    }

    /// Replaces one row of the grid.
    fn set_row(&mut self, row: usize, cells: Vec<TerminalCell>)
        requires
            old(self)@.wf(),
            row < old(self)@.rows,
            cells@.len() == old(self)@.cols,
        ensures
            final(self)@ == (Screen {
                grid: old(self)@.grid.update(row as int, cells@),
                ..old(self)@
            }),
            final(self)@.wf(),
    {
        self.cells.set(row, cells);
        assert(self@.grid =~= old(self)@.grid.update(row as int, cells@));
    }

    /// Replaces the grid.
    fn set_grid(&mut self, cells: Vec<Vec<TerminalCell>>, grid: Ghost<spec_fn(int, int) -> TerminalCell>)
        requires
            old(self)@.wf(),
            cells@.len() == old(self)@.rows,
            forall|r: int|
                0 <= r < cells@.len() ==> (#[trigger] cells@[r])@ == Seq::new(
                    old(self)@.cols as nat,
                    |c: int| grid@(r, c),
                ),
        ensures
            final(self)@ == old(self)@.with_grid(grid@),
            final(self)@.wf(),
    {
        self.cells = cells;
        assert(self@.grid =~= old(self)@.with_grid(grid@).grid);
    }

    /// Moves the cursor onto the grid.
    fn clamp_cursor(&mut self)
        requires
            1 <= old(self)@.cols,
            1 <= old(self)@.rows,
        ensures
            final(self)@ == old(self)@.clamped(),
    {
        let last_col: usize = (self.cols - 1) as usize;
        let last_row: usize = (self.rows - 1) as usize;
        if self.cursor_col > last_col {
            self.cursor_col = last_col;
        }
        if self.cursor_row > last_row {
            self.cursor_row = last_row;
        }
        assert(self@.grid =~= old(self)@.grid);
    }

    /// Gives the terminal another size, at least one column wide and one row high: what fits is
    /// kept, the rest is empty.
    pub fn resize(&mut self, cols: u16, rows: u16)
        requires
            old(self)@.wf(),
        ensures
            final(self)@ == old(self)@.resized(larger(cols as int, 1), larger(rows as int, 1)),
            final(self)@.wf(),
    {
        let cols: u16 = if cols < 1 { 1 } else { cols };
        let rows: u16 = if rows < 1 { 1 } else { rows };
        if self.cols == cols && self.rows == rows {
            return;
        }
        let mut cells: Vec<Vec<TerminalCell>> = Vec::new();
        let mut r: usize = 0;
        while r < rows as usize
            invariant
                r <= rows,
                self@ == old(self)@,
                self@.wf(),
                cells@.len() == r,
                forall|k: int|
                    0 <= k < r ==> (#[trigger] cells@[k])@ == Seq::new(
                        cols as nat,
                        |c: int| self@.at(k, c),
                    ),
            decreases rows - r,
        {
            let mut row: Vec<TerminalCell> = Vec::new();
            let mut c: usize = 0;
            while c < cols as usize
                invariant
                    c <= cols,
                    self@.wf(),
                    row@ == Seq::new(c as nat, |k: int| self@.at(r as int, k)),
                decreases cols - c,
            {
                row.push(self.cell(r, c));
                c = c + 1;
                assert(row@ =~= Seq::new(c as nat, |k: int| self@.at(r as int, k)));
            }
            cells.push(row);
            r = r + 1;
        }
        self.cols = cols;
        self.rows = rows;
        self.cells = cells;
        let ghost moved = self@;
        self.clamp_cursor();
        assert(self@.grid =~= old(self)@.resized(cols as int, rows as int).grid);
    }

    /// Moves the rows up.
    fn scroll_up(&mut self, count: usize)
        requires
            old(self)@.wf(),
            count <= u16::MAX,
        ensures
            final(self)@ == old(self)@.scrolled_up(count as int),
            final(self)@.wf(),
    {
        let ghost cell = |r: int, c: int| old(self)@.at(r + count, c);
        let mut cells: Vec<Vec<TerminalCell>> = Vec::new();
        let mut r: usize = 0;
        while r < self.rows as usize
            invariant
                r <= self.rows,
                self@ == old(self)@,
                self@.wf(),
                count <= u16::MAX,
                cell == (|r: int, c: int| old(self)@.at(r + count, c)),
                cells@.len() == r,
                forall|k: int|
                    0 <= k < r ==> (#[trigger] cells@[k])@ == Seq::new(
                        self@.cols as nat,
                        |c: int| cell(k, c),
                    ),
            decreases self.rows - r,
        {
            let row = self.copied_row(r + count);
            assert(row@ =~= Seq::new(self@.cols as nat, |c: int| cell(r as int, c)));
            cells.push(row);
            r = r + 1;
        }
        self.set_grid(cells, Ghost(cell));
    }

    /// The cells of a row; empty ones below the grid.
    fn copied_row(&self, row: usize) -> (r: Vec<TerminalCell>)
        requires
            self@.wf(),
        ensures
            r@ == Seq::new(self@.cols as nat, |c: int| self@.at(row as int, c)),
    {
        let mut r: Vec<TerminalCell> = Vec::new();
        let mut c: usize = 0;
        while c < self.cols as usize
            invariant
                c <= self.cols,
                self@.wf(),
                r@ == Seq::new(c as nat, |k: int| self@.at(row as int, k)),
            decreases self.cols - c,
        {
            r.push(self.cell(row, c));
            c = c + 1;
            assert(r@ =~= Seq::new(c as nat, |k: int| self@.at(row as int, k)));
        }
        r
    }

    /// Moves the rows down.
    fn scroll_down(&mut self, count: usize)
        requires
            old(self)@.wf(),
        ensures
            final(self)@ == old(self)@.scrolled_down(count as int),
            final(self)@.wf(),
    {
        let ghost cell = |r: int, c: int| old(self)@.at(r - count, c);
        let mut cells: Vec<Vec<TerminalCell>> = Vec::new();
        let mut r: usize = 0;
        while r < self.rows as usize
            invariant
                r <= self.rows,
                self@ == old(self)@,
                self@.wf(),
                cell == (|r: int, c: int| old(self)@.at(r - count, c)),
                cells@.len() == r,
                forall|k: int|
                    0 <= k < r ==> (#[trigger] cells@[k])@ == Seq::new(
                        self@.cols as nat,
                        |c: int| cell(k, c),
                    ),
            decreases self.rows - r,
        {
            let row = if r >= count {
                self.copied_row(r - count)
            } else {
                empty_row(self.cols)
            };
            assert(row@ =~= Seq::new(self@.cols as nat, |c: int| cell(r as int, c)));
            cells.push(row);
            r = r + 1;
        }
        self.set_grid(cells, Ghost(cell));
    }

    /// Moves the cursor one row down; the last row scrolls.
    fn index_line(&mut self)
        requires
            old(self)@.wf(),
        ensures
            final(self)@ == old(self)@.indexed(),
            final(self)@.wf(),
    {
        if self.cursor_row + 1 >= self.rows as usize {
            self.scroll_up(1);
        } else {
            self.cursor_row = self.cursor_row + 1;
            assert(self@.grid =~= old(self)@.grid);
        }
    }

    /// Moves the cursor one row up; the first row scrolls.
    fn reverse_index(&mut self)
        requires
            old(self)@.wf(),
        ensures
            final(self)@ == old(self)@.reverse_indexed(),
            final(self)@.wf(),
    {
        if self.cursor_row == 0 {
            self.scroll_down(1);
        } else {
            self.cursor_row = self.cursor_row - 1;
            assert(self@.grid =~= old(self)@.grid);
        }
    }

    /// Puts a character at the cursor, and the cursor behind it.
    fn put_char(&mut self, ch: char)
        requires
            old(self)@.wf(),
        ensures
            final(self)@ == old(self)@.printed(ch),
            final(self)@.wf(),
    {
        self.clamp_cursor();
        let ghost here = self@;
        let row: usize = self.cursor_row;
        let col: usize = self.cursor_col;
        let mut cells = self.copied_row(row);
        assert(cells@ =~= here.grid[here.row]);
        cells.set(col, TerminalCell { ch, style: self.style });
        self.set_row(row, cells);
        let ghost written = self@;
        if col + 1 >= self.cols as usize {
            self.cursor_col = 0;
            assert(self@ == Screen { col: 0, ..written }) by {
                assert(self@.grid =~= written.grid);
            }
            self.index_line();
        } else {
            self.cursor_col = col + 1;
            assert(self@.grid =~= written.grid);
        }
    }

    /// Clears a part of the cursor's row: from the cursor on, up to the cursor, or all of it.
    fn clear_line(&mut self, mode: u16)
        requires
            old(self)@.wf(),
        ensures
            final(self)@ == old(self)@.line_cleared(mode as int),
            final(self)@.wf(),
    {
        let ghost s = self@;
        let ghost due = |c: int|
            if (mode == 0 && c >= s.col) || (mode == 1 && c <= s.col) || (mode != 0 && mode != 1) {
                blank()
            } else {
                s.at(s.row, c)
            };
        let row: usize = self.cursor_row;
        let mut cells: Vec<TerminalCell> = Vec::new();
        let mut c: usize = 0;
        while c < self.cols as usize
            invariant
                c <= self.cols,
                self@ == s,
                s.wf(),
                row == s.row,
                due == (|c: int|
            if (mode == 0 && c >= s.col) || (mode == 1 && c <= s.col) || (mode != 0 && mode != 1) {
                blank()
            } else {
                s.at(s.row, c)
            }),
                cells@ == Seq::new(c as nat, |k: int| due(k)),
            decreases self.cols - c,
        {
            cells.push(
                if (mode == 0 && c >= self.cursor_col) || (mode == 1 && c <= self.cursor_col) || (mode
                    != 0 && mode != 1) {
                    empty_cell()
                } else {
                    self.cell(row, c)
                },
            );
            c = c + 1;
            assert(cells@ =~= Seq::new(c as nat, |k: int| due(k)));
        }
        self.set_row(row, cells);
        assert forall|r: int| 0 <= r < s.rows implies self@.grid[r] =~= s.line_cleared(mode as int).grid[r] by {
        }
        assert(self@.grid =~= s.line_cleared(mode as int).grid);
    }

    /// Puts empty cells in at the cursor; what stands behind moves right.
    fn insert_blank_chars(&mut self, count: usize)
        requires
            old(self)@.wf(),
            count <= u16::MAX,
        ensures
            final(self)@ == old(self)@.blanks_inserted(count as int),
            final(self)@.wf(),
    {
        let ghost s = self@;
        let ghost due = |c: int|
            if c < s.col {
                s.at(s.row, c)
            } else if c < s.col + count {
                blank()
            } else {
                s.at(s.row, c - count)
            };
        let row: usize = self.cursor_row;
        let mut cells: Vec<TerminalCell> = Vec::new();
        let mut c: usize = 0;
        while c < self.cols as usize
            invariant
                c <= self.cols,
                self@ == s,
                s.wf(),
                row == s.row,
                count <= u16::MAX,
                due == (|c: int|
            if c < s.col {
                s.at(s.row, c)
            } else if c < s.col + count {
                blank()
            } else {
                s.at(s.row, c - count)
            }),
                cells@ == Seq::new(c as nat, |k: int| due(k)),
            decreases self.cols - c,
        {
            cells.push(
                if c < self.cursor_col {
                    self.cell(row, c)
                } else if c < self.cursor_col + count {
                    empty_cell()
                } else {
                    self.cell(row, c - count)
                },
            );
            c = c + 1;
            assert(cells@ =~= Seq::new(c as nat, |k: int| due(k)));
        }
        self.set_row(row, cells);
        assert forall|r: int| 0 <= r < s.rows implies self@.grid[r] =~= s.blanks_inserted(count as int).grid[r] by {
        }
        assert(self@.grid =~= s.blanks_inserted(count as int).grid);
    }

    /// Takes cells out at the cursor; what stands behind moves left.
    fn delete_chars(&mut self, count: usize)
        requires
            old(self)@.wf(),
            count <= u16::MAX,
        ensures
            final(self)@ == old(self)@.chars_deleted(count as int),
            final(self)@.wf(),
    {
        let ghost s = self@;
        let ghost due = |c: int| if c < s.col { s.at(s.row, c) } else { s.at(s.row, c + count) };
        let row: usize = self.cursor_row;
        let mut cells: Vec<TerminalCell> = Vec::new();
        let mut c: usize = 0;
        while c < self.cols as usize
            invariant
                c <= self.cols,
                self@ == s,
                s.wf(),
                row == s.row,
                count <= u16::MAX,
                due == (|c: int| if c < s.col { s.at(s.row, c) } else { s.at(s.row, c + count) }),
                cells@ == Seq::new(c as nat, |k: int| due(k)),
            decreases self.cols - c,
        {
            cells.push(
                if c < self.cursor_col { self.cell(row, c) } else { self.cell(row, c + count) },
            );
            c = c + 1;
            assert(cells@ =~= Seq::new(c as nat, |k: int| due(k)));
        }
        self.set_row(row, cells);
        assert forall|r: int| 0 <= r < s.rows implies self@.grid[r] =~= s.chars_deleted(count as int).grid[r] by {
        }
        assert(self@.grid =~= s.chars_deleted(count as int).grid);
    }

    /// Clears cells from the cursor on.
    fn erase_chars(&mut self, count: usize)
        requires
            old(self)@.wf(),
            count <= u16::MAX,
        ensures
            final(self)@ == old(self)@.chars_erased(count as int),
            final(self)@.wf(),
    {
        let ghost s = self@;
        let ghost due = |c: int| if s.col <= c < s.col + count { blank() } else { s.at(s.row, c) };
        let row: usize = self.cursor_row;
        let mut cells: Vec<TerminalCell> = Vec::new();
        let mut c: usize = 0;
        while c < self.cols as usize
            invariant
                c <= self.cols,
                self@ == s,
                s.wf(),
                row == s.row,
                count <= u16::MAX,
                due == (|c: int| if s.col <= c < s.col + count { blank() } else { s.at(s.row, c) }),
                cells@ == Seq::new(c as nat, |k: int| due(k)),
            decreases self.cols - c,
        {
            cells.push(
                if self.cursor_col <= c && c < self.cursor_col + count {
                    empty_cell()
                } else {
                    self.cell(row, c)
                },
            );
            c = c + 1;
            assert(cells@ =~= Seq::new(c as nat, |k: int| due(k)));
        }
        self.set_row(row, cells);
        assert forall|r: int| 0 <= r < s.rows implies self@.grid[r] =~= s.chars_erased(count as int).grid[r] by {
        }
        assert(self@.grid =~= s.chars_erased(count as int).grid);
    }

    /// Clears the rows below the cursor.
    fn clear_below(&mut self)
        requires
            old(self)@.wf(),
        ensures
            final(self)@ == old(self)@.with_grid(
                |r: int, c: int|
                    if r > old(self)@.row {
                        blank()
                    } else {
                        old(self)@.at(r, c)
                    },
            ),
            final(self)@.wf(),
    {
        let ghost s = self@;
        let ghost cell = |r: int, c: int| if r > s.row { blank() } else { s.at(r, c) };
        let mut cells: Vec<Vec<TerminalCell>> = Vec::new();
        let mut r: usize = 0;
        while r < self.rows as usize
            invariant
                r <= self.rows,
                self@ == s,
                s.wf(),
                cell == (|r: int, c: int| if r > s.row { blank() } else { s.at(r, c) }),
                cells@.len() == r,
                forall|k: int|
                    0 <= k < r ==> (#[trigger] cells@[k])@ == Seq::new(
                        s.cols as nat,
                        |c: int| cell(k, c),
                    ),
            decreases self.rows - r,
        {
            let row = if r > self.cursor_row {
                empty_row(self.cols)
            } else {
                self.copied_row(r)
            };
            assert(row@ =~= Seq::new(s.cols as nat, |c: int| cell(r as int, c)));
            cells.push(row);
            r = r + 1;
        }
        self.set_grid(cells, Ghost(cell));
        assert(self@.grid =~= s.with_grid(cell).grid);
    }

    /// Clears the rows above the cursor.
    fn clear_above(&mut self)
        requires
            old(self)@.wf(),
        ensures
            final(self)@ == old(self)@.with_grid(
                |r: int, c: int|
                    if r < old(self)@.row {
                        blank()
                    } else {
                        old(self)@.at(r, c)
                    },
            ),
            final(self)@.wf(),
    {
        let ghost s = self@;
        let ghost cell = |r: int, c: int| if r < s.row { blank() } else { s.at(r, c) };
        let mut cells: Vec<Vec<TerminalCell>> = Vec::new();
        let mut r: usize = 0;
        while r < self.rows as usize
            invariant
                r <= self.rows,
                self@ == s,
                s.wf(),
                cell == (|r: int, c: int| if r < s.row { blank() } else { s.at(r, c) }),
                cells@.len() == r,
                forall|k: int|
                    0 <= k < r ==> (#[trigger] cells@[k])@ == Seq::new(
                        s.cols as nat,
                        |c: int| cell(k, c),
                    ),
            decreases self.rows - r,
        {
            let row = if r < self.cursor_row {
                empty_row(self.cols)
            } else {
                self.copied_row(r)
            };
            assert(row@ =~= Seq::new(s.cols as nat, |c: int| cell(r as int, c)));
            cells.push(row);
            r = r + 1;
        }
        self.set_grid(cells, Ghost(cell));
        assert(self@.grid =~= s.with_grid(cell).grid);
    }

    /// Clears every cell.
    fn clear_all(&mut self)
        requires
            old(self)@.wf(),
        ensures
            final(self)@ == old(self)@.all_cleared(),
            final(self)@.wf(),
    {
        let ghost s = self@;
        let ghost cell = |r: int, c: int| blank();
        let mut cells: Vec<Vec<TerminalCell>> = Vec::new();
        let mut r: usize = 0;
        while r < self.rows as usize
            invariant
                r <= self.rows,
                self@ == s,
                s.wf(),
                cell == (|r: int, c: int| blank()),
                cells@.len() == r,
                forall|k: int|
                    0 <= k < r ==> (#[trigger] cells@[k])@ == Seq::new(
                        s.cols as nat,
                        |c: int| cell(k, c),
                    ),
            decreases self.rows - r,
        {
            let row = empty_row(self.cols);
            assert(row@ =~= Seq::new(s.cols as nat, |c: int| cell(r as int, c)));
            cells.push(row);
            r = r + 1;
        }
        self.set_grid(cells, Ghost(cell));
        assert(self@.grid =~= s.all_cleared().grid);
    }

    /// Puts rows in at the cursor; the rows from there on move down.
    fn insert_lines(&mut self, count: usize)
        requires
            old(self)@.wf(),
            count <= u16::MAX,
        ensures
            final(self)@ == old(self)@.lines_inserted(count as int),
            final(self)@.wf(),
    {
        let ghost s = self@;
        let left: usize = self.rows as usize - self.cursor_row;
        let n: usize = if count < left { count } else { left };
        let ghost cell = |r: int, c: int|
            if r < s.row {
                s.at(r, c)
            } else if larger(r - n, 0) >= s.row {
                s.at(larger(r - n, 0), c)
            } else {
                blank()
            };
        let mut cells: Vec<Vec<TerminalCell>> = Vec::new();
        let mut r: usize = 0;
        while r < self.rows as usize
            invariant
                r <= self.rows,
                self@ == s,
                s.wf(),
                n == smaller(count as int, s.rows - s.row),
                cell == (|r: int, c: int|
            if r < s.row {
                s.at(r, c)
            } else if larger(r - n, 0) >= s.row {
                s.at(larger(r - n, 0), c)
            } else {
                blank()
            }),
                cells@.len() == r,
                forall|k: int|
                    0 <= k < r ==> (#[trigger] cells@[k])@ == Seq::new(
                        s.cols as nat,
                        |c: int| cell(k, c),
                    ),
            decreases self.rows - r,
        {
            let row = if r < self.cursor_row {
                self.copied_row(r)
            } else {
                let source: usize = if r > n { r - n } else { 0 };
                if source >= self.cursor_row {
                    self.copied_row(source)
                } else {
                    empty_row(self.cols)
                }
            };
            assert(row@ =~= Seq::new(s.cols as nat, |c: int| cell(r as int, c)));
            cells.push(row);
            r = r + 1;
        }
        self.set_grid(cells, Ghost(cell));
        assert(self@.grid =~= s.lines_inserted(count as int).grid);
    }

    /// Takes rows out at the cursor; the rows below move up.
    fn delete_lines(&mut self, count: usize)
        requires
            old(self)@.wf(),
            count <= u16::MAX,
        ensures
            final(self)@ == old(self)@.lines_deleted(count as int),
            final(self)@.wf(),
    {
        let ghost s = self@;
        let left: usize = self.rows as usize - self.cursor_row;
        let n: usize = if count < left { count } else { left };
        let ghost cell = |r: int, c: int| if r < s.row { s.at(r, c) } else { s.at(r + n, c) };
        let mut cells: Vec<Vec<TerminalCell>> = Vec::new();
        let mut r: usize = 0;
        while r < self.rows as usize
            invariant
                r <= self.rows,
                self@ == s,
                s.wf(),
                n == smaller(count as int, s.rows - s.row),
                cell == (|r: int, c: int| if r < s.row { s.at(r, c) } else { s.at(r + n, c) }),
                cells@.len() == r,
                forall|k: int|
                    0 <= k < r ==> (#[trigger] cells@[k])@ == Seq::new(
                        s.cols as nat,
                        |c: int| cell(k, c),
                    ),
            decreases self.rows - r,
        {
            let row = if r < self.cursor_row {
                self.copied_row(r)
            } else {
                self.copied_row(r + n)
            };
            assert(row@ =~= Seq::new(s.cols as nat, |c: int| cell(r as int, c)));
            cells.push(row);
            r = r + 1;
        }
        self.set_grid(cells, Ghost(cell));
        assert(self@.grid =~= s.lines_deleted(count as int).grid);
    }

    /// Clears a part of the grid: from the cursor on, up to the cursor, or all of it.
    fn clear_screen(&mut self, mode: u16)
        requires
            old(self)@.wf(),
        ensures
            final(self)@ == old(self)@.screen_cleared(mode as int),
            final(self)@.wf(),
    {
        let ghost s = self@;
        if mode == 0 {
            self.clear_line(0);
            self.clear_below();
        } else if mode == 1 {
            self.clear_above();
            self.clear_line(1);
        } else {
            self.clear_all();
        }
        let ghost due = s.screen_cleared(mode as int);
        assert forall|r: int| 0 <= r < s.rows implies self@.grid[r] =~= due.grid[r] by {}
        assert(self@.grid =~= due.grid);
    }

    /// Changes the style of what is printed from here on.
    fn apply_sgr(&mut self, params: &Vec<Option<u16>>)
        requires
            old(self)@.wf(),
        ensures
            final(self)@ == (Screen { style: sgr(old(self)@.style, params@), ..old(self)@ }),
            final(self)@.wf(),
    {
        if params.len() == 0 {
            self.style = empty_style();
            assert(self@.grid =~= old(self)@.grid);
            return;
        }
        let ghost first = self.style;
        let mut style = self.style;
        let mut index: usize = 0;
        while index < params.len()
            invariant
                sgr_from(first, params@, 0) == sgr_from(style, params@, index as int),
            decreases params@.len() - index,
        {
            let value: u16 = nth_param(params, index, 0);
            if value == 38 || value == 48 {
                match parse_extended_color(params, index + 1) {
                    Some((color, consumed)) => {
                        if value == 38 {
                            style.fg = Some(color);
                        } else {
                            style.bg = Some(color);
                        }
                        index = index + 1 + consumed;
                    },
                    None => {
                        index = index + 1;
                    },
                }
            } else {
                style = applied(style, value);
                index = index + 1;
            }
        }
        self.style = style;
        assert(self@.grid =~= old(self)@.grid);
    }

    /// Carries out a control sequence.
    fn dispatch_csi(&mut self, text: &str, action: char)
        requires
            old(self)@.wf(),
        ensures
            final(self)@ == dispatched(old(self)@, text@, action),
            final(self)@.wf(),
    {
        let ghost s = self@;
        let mut chars = chars_of(text);
        let private = chars.len() > 0 && chars[0] == '?';
        if private {
            chars.remove(0);
            assert(chars@ =~= text@.skip(1));
        }
        let parsed = parse_csi_params(&chars);
        let n: usize = first_param(&parsed, 1) as usize;
        if action == 'A' {
            self.cursor_row = self.cursor_row.saturating_sub(n);
        } else if action == 'B' {
            self.cursor_row = lesser(self.cursor_row + n, (self.rows - 1) as usize);
        } else if action == 'C' {
            self.cursor_col = lesser(self.cursor_col + n, (self.cols - 1) as usize);
        } else if action == 'D' {
            self.cursor_col = self.cursor_col.saturating_sub(n);
        } else if action == 'G' {
            self.cursor_col = n.saturating_sub(1);
        } else if action == 'H' || action == 'f' {
            self.cursor_row = n.saturating_sub(1);
            self.cursor_col = (nth_param(&parsed, 1, 1) as usize).saturating_sub(1);
            let ghost moved = self@;
            assert(moved.grid =~= s.grid);
            self.clamp_cursor();
        } else if action == 'J' {
            self.clear_screen(first_param(&parsed, 0));
        } else if action == 'K' {
            self.clear_line(first_param(&parsed, 0));
        } else if action == 'L' {
            self.insert_lines(n);
        } else if action == 'M' {
            self.delete_lines(n);
        } else if action == 'P' {
            self.delete_chars(n);
        } else if action == 'X' {
            self.erase_chars(n);
        } else if action == '@' {
            self.insert_blank_chars(n);
        } else if action == 'd' {
            self.cursor_row = n.saturating_sub(1);
            let ghost moved = self@;
            assert(moved.grid =~= s.grid);
            self.clamp_cursor();
        } else if action == 'm' {
            self.apply_sgr(&parsed);
        } else if action == 's' {
            self.saved_cursor = (self.cursor_col, self.cursor_row);
        } else if action == 'u' {
            self.restore_cursor();
        } else if (action == 'h' || action == 'l') && private && parsed.len() > 0 && parsed[0]
            == Some(1049u16) {
            self.clear_all();
            let ghost cleared = self@;
            self.cursor_col = 0;
            self.cursor_row = 0;
            assert(self@.grid =~= cleared.grid);
        }
        assert(self@.grid =~= dispatched(s, text@, action).grid);
    }

    /// Moves the cursor to where it was saved.
    fn restore_cursor(&mut self)
        requires
            old(self)@.wf(),
        ensures
            final(self)@ == old(self)@.restored(),
            final(self)@.wf(),
    {
        let ghost s = self@;
        self.cursor_col = self.saved_cursor.0;
        self.cursor_row = self.saved_cursor.1;
        let ghost moved = self@;
        assert(moved.grid =~= s.grid);
        self.clamp_cursor();
    }

    /// Takes a character outside control sequences.
    fn process_ground(&mut self, ch: char)
        requires
            old(self)@.wf(),
            old(self)@.state == TerminalParserState::Ground,
            can_step(old(self)@, ch),
        ensures
            final(self)@ == step(old(self)@, ch),
            final(self)@.wf(),
    {
        reveal(step);
        let ghost s = self@;
        if ch == '\u{1b}' {
            self.parser_state = TerminalParserState::Escape;
        } else if ch == '\n' {
            self.index_line();
        } else if ch == '\r' {
            self.cursor_col = 0;
        } else if ch == '\u{8}' {
            self.cursor_col = self.cursor_col.saturating_sub(1);
        } else if ch == '\t' {
            let next_tab: usize = (self.cursor_col / 8 + 1) * 8;
            while self.cursor_col < next_tab
                invariant
                    self@.wf(),
                    next_tab < self@.cols,
                    self@.col <= next_tab,
                    s.tabbed(next_tab as int) == self@.tabbed(next_tab as int),
                decreases next_tab - self.cursor_col,
            {
                self.put_char(' ');
            }
        } else if (ch as u32) <= 0x1f || (0x7f <= (ch as u32) && (ch as u32) <= 0x9f) {
        } else {
            self.put_char(ch);
        }
        assert(self@.grid =~= step(s, ch).grid);
    }

    /// Takes a character behind an escape.
    fn process_escape(&mut self, ch: char)
        requires
            old(self)@.wf(),
            old(self)@.state == TerminalParserState::Escape,
        ensures
            final(self)@ == step(old(self)@, ch),
            final(self)@.wf(),
    {
        reveal(step);
        let ghost s = self@;
        if ch == '[' {
            self.csi_buffer = String::new();
            self.parser_state = TerminalParserState::Csi;
        } else if ch == ']' {
            self.parser_state = TerminalParserState::Osc;
        } else if ch == '7' {
            self.saved_cursor = (self.cursor_col, self.cursor_row);
            self.parser_state = TerminalParserState::Ground;
        } else if ch == '8' {
            self.restore_cursor();
            self.parser_state = TerminalParserState::Ground;
        } else if ch == 'c' {
            self.reset();
            self.parser_state = TerminalParserState::Ground;
        } else if ch == 'D' {
            self.index_line();
            self.parser_state = TerminalParserState::Ground;
        } else if ch == 'E' {
            self.index_line();
            self.cursor_col = 0;
            self.parser_state = TerminalParserState::Ground;
        } else if ch == 'M' {
            self.reverse_index();
            self.parser_state = TerminalParserState::Ground;
        } else {
            self.parser_state = TerminalParserState::Ground;
        }
        assert(self@.grid =~= step(s, ch).grid);
    }

    /// Takes a character within a control sequence.
    fn process_csi(&mut self, ch: char)
        requires
            old(self)@.wf(),
            old(self)@.state == TerminalParserState::Csi,
        ensures
            final(self)@ == step(old(self)@, ch),
            final(self)@.wf(),
    {
        reveal(step);
        let ghost s = self@;
        if '@' <= ch && ch <= '~' {
            let buffer = self.csi_buffer.clone();
            self.csi_buffer = String::new();
            assert(self@ == Screen { params: Seq::empty(), ..s }) by {
                assert(self@.grid =~= s.grid);
            }
            self.dispatch_csi(buffer.as_str(), ch);
            self.parser_state = TerminalParserState::Ground;
        } else {
            self.csi_buffer.push(ch);
        }
        assert(self@.grid =~= step(s, ch).grid);
    }

    /// Takes a character within an operating system command.
    fn process_osc(&mut self, ch: char)
        requires
            old(self)@.wf(),
            old(self)@.state == TerminalParserState::Osc,
        ensures
            final(self)@ == step(old(self)@, ch),
            final(self)@.wf(),
    {
        reveal(step);
        if ch == '\u{7}' {
            self.parser_state = TerminalParserState::Ground;
        } else if ch == '\u{1b}' {
            self.parser_state = TerminalParserState::OscEscape;
        }
        assert(self@.grid =~= old(self)@.grid);
    }

    /// Takes a character behind an escape within an operating system command.
    fn process_osc_escape(&mut self, ch: char)
        requires
            old(self)@.wf(),
            old(self)@.state == TerminalParserState::OscEscape,
        ensures
            final(self)@ == step(old(self)@, ch),
            final(self)@.wf(),
    {
        reveal(step);
        if ch == '\\' {
            self.parser_state = TerminalParserState::Ground;
        } else {
            self.parser_state = TerminalParserState::Osc;
        }
        assert(self@.grid =~= old(self)@.grid);
    }

    /// Takes a character.
    pub fn process_char(&mut self, ch: char)
        requires
            old(self)@.wf(),
            can_step(old(self)@, ch),
        ensures
            final(self)@ == step(old(self)@, ch),
            final(self)@.wf(),
    {
        match self.parser_state {
            TerminalParserState::Ground => self.process_ground(ch),
            TerminalParserState::Escape => self.process_escape(ch),
            TerminalParserState::Csi => self.process_csi(ch),
            TerminalParserState::Osc => self.process_osc(ch),
            TerminalParserState::OscEscape => self.process_osc_escape(ch),
        }
    }

    /// Takes characters, one after the other.
    pub fn process_chars(&mut self, chars: &Vec<char>)
        requires
            old(self)@.wf(),
            can_steps(old(self)@, chars@),
        ensures
            final(self)@ == steps(old(self)@, chars@),
            final(self)@.wf(),
    {
        let ghost s = self@;
        let mut i: usize = 0;
        proof {
            reveal(steps);
        }
        while i < chars.len()
            invariant
                i <= chars.len(),
                self@.wf(),
                can_steps(s, chars@),
                self@ == steps(s, chars@.take(i as int)),
            decreases chars.len() - i,
        {
            proof {
                next_step(s, chars@, i as int);
            }
            self.process_char(chars[i]);
            i = i + 1;
        }
        assert(chars@.take(chars@.len() as int) =~= chars@);
    }

    /// Takes characters as far as they can be taken, and tells whether that was all of them.
    fn process_while_possible(&mut self, chars: &Vec<char>) -> (r: bool)
        requires
            old(self)@.wf(),
        ensures
            r == can_steps(old(self)@, chars@),
    {
        let ghost s = self@;
        let mut i: usize = 0;
        proof {
            reveal(steps);
        }
        while i < chars.len()
            invariant
                i <= chars.len(),
                self@.wf(),
                forall|k: int|
                    0 <= k < i ==> can_step(steps(s, chars@.take(k)), #[trigger] chars@[k]),
                self@ == steps(s, chars@.take(i as int)),
                s == old(self)@,
            decreases chars.len() - i,
        {
            let stuck = match self.parser_state {
                TerminalParserState::Ground => chars[i] == '\t' && (self.cursor_col / 8 + 1) * 8
                    >= self.cols as usize,
                _ => false,
            };
            assert(stuck == !can_step(steps(s, chars@.take(i as int)), chars@[i as int]));
            proof {
                next_step(s, chars@, i as int);
            }
            if stuck {
                return false;
            }
            self.process_char(chars[i]);
            i = i + 1;
        }
        reveal(can_steps);
        true
    }

    /// A terminal like this one.
    fn copy(&self) -> (r: TerminalSurface)
        requires
            self@.wf(),
        ensures
            r@ == self@,
    {
        let mut cells: Vec<Vec<TerminalCell>> = Vec::new();
        let mut i: usize = 0;
        while i < self.rows as usize
            invariant
                i <= self.rows,
                self@.wf(),
                cells@.len() == i,
                forall|r: int| 0 <= r < i ==> (#[trigger] cells@[r])@ == self@.grid[r],
            decreases self.rows - i,
        {
            let row = self.copied_row(i);
            assert(row@ =~= self@.grid[i as int]);
            cells.push(row);
            i = i + 1;
        }
        let r = TerminalSurface {
            cols: self.cols,
            rows: self.rows,
            cursor_col: self.cursor_col,
            cursor_row: self.cursor_row,
            saved_cursor: self.saved_cursor,
            style: self.style,
            cells,
            parser_state: self.parser_state,
            csi_buffer: self.csi_buffer.clone(),
        };
        assert(r@.grid =~= self@.grid);
        r
    }

    /// Whether every one of the characters can be taken.
    pub fn can_process(&self, chars: &Vec<char>) -> (r: bool)
        requires
            self@.wf(),
        ensures
            r == can_steps(self@, chars@),
    {
        let mut trial = self.copy();
        trial.process_while_possible(chars)
    }

    /// Takes bytes as the characters that they encode; bytes that encode none become the
    /// replacement character.
    pub fn process(&mut self, bytes: &[u8])
        requires
            old(self)@.wf(),
            can_steps(old(self)@, lossy_text(bytes@)),
        ensures
            final(self)@ == steps(old(self)@, lossy_text(bytes@)),
            final(self)@.wf(),
    {
        let chars = lossy_chars(bytes);
        self.process_chars(&chars);
    }

    /// Takes bytes where every one of their characters can be taken, and tells whether it did.
    pub fn process_if_possible(&mut self, bytes: &[u8]) -> (r: bool)
        requires
            old(self)@.wf(),
        ensures
            r == can_steps(old(self)@, lossy_text(bytes@)),
            final(self)@ == (if r {
                steps(old(self)@, lossy_text(bytes@))
            } else {
                old(self)@
            }),
            final(self)@.wf(),
    {
        let chars = lossy_chars(bytes);
        if self.can_process(&chars) {
            self.process(bytes);
            true
        } else {
            false
        }
    }
}

fn lossy_chars(bytes: &[u8]) -> (r: Vec<char>)
    ensures
        r@ == lossy_text(bytes@),
{
    chars_of(lossy_string(bytes).as_str())
}

fn lesser(a: usize, b: usize) -> (r: usize)
    ensures
        r == smaller(a as int, b as int),
{
    if a < b {
        a
    } else {
        b
    }
}

fn terminal_style(cell: TerminalCellStyle) -> (r: Style)
    ensures
        r == shown_style(cell),
{
    Style {
        fg: if cell.reversed {
            cell.bg
        } else {
            cell.fg
        },
        bg: if cell.reversed {
            cell.fg
        } else {
            cell.bg
        },
        bold: cell.bold,
        dim: false,
        underlined: cell.underlined,
    }
}

spec fn span_views(spans: Seq<Span>) -> Seq<SpanView> {
    Seq::new(spans.len(), |i: int| spans[i]@)
}

impl TerminalSurface {
    /// What a row of the grid shows.
    fn render_row(&self, row: usize, show_cursor: bool) -> (r: Line)
        requires
            self@.wf(),
        ensures
            r@ == shown_row(self@, row as int, show_cursor),
    {
        let ghost all = Seq::new(
            self@.cols as nat,
            |c: int| shown_at(self@, row as int, c, show_cursor),
        );
        let mut spans: Vec<Span> = Vec::new();
        let mut col: usize = 0;
        assert(all.take(0) =~= Seq::empty());
        assert(span_views(spans@) =~= Seq::empty());
        while col < self.cols as usize
            invariant
                col <= self.cols,
                self@.wf(),
                all == Seq::new(
                    self@.cols as nat,
                    |c: int| shown_at(self@, row as int, c, show_cursor),
                ),
                span_views(spans@) == runs(all.take(col as int)),
            decreases self.cols - col,
        {
            let cell = self.cell(row, col);
            let mut style = cell.style;
            if show_cursor && row == self.cursor_row && col == self.cursor_col {
                style.reversed = !style.reversed;
            }
            let style = terminal_style(style);
            assert(all.take(col as int + 1).drop_last() =~= all.take(col as int));
            assert(all.take(col as int + 1).last() == (cell.ch, style));
            let ghost before = spans@;
            let ghost views = span_views(before);
            match spans.pop() {
                Some(last) => {
                    if last.style == style {
                        let mut text = last.text;
                        text.push(cell.ch);
                        spans.push(Span { text, style });
                        assert(span_views(spans@) =~= views.update(
                            views.len() - 1,
                            SpanView { text: views.last().text.push(cell.ch), style },
                        ));
                    } else {
                        spans.push(last);
                        let mut text = String::new();
                        text.push(cell.ch);
                        assert(text@ =~= seq![cell.ch]);
                        spans.push(Span { text, style });
                        assert(span_views(spans@) =~= views.push(
                            SpanView { text: seq![cell.ch], style },
                        ));
                    }
                },
                None => {
                    let mut text = String::new();
                    text.push(cell.ch);
                    assert(text@ =~= seq![cell.ch]);
                    spans.push(Span { text, style });
                    assert(span_views(spans@) =~= views.push(
                        SpanView { text: seq![cell.ch], style },
                    ));
                },
            }
            col = col + 1;
        }
        assert(all.take(self@.cols) =~= all);
        let line = Line { spans };
        assert(line@ =~= span_views(spans@));
        line
    }

    /// What the terminal shows.
    pub fn render_lines(&self, show_cursor: bool) -> (r: Vec<Line>)
        requires
            self@.wf(),
        ensures
            line_views(r@) == shown(self@, show_cursor),
    {
        let mut lines: Vec<Line> = Vec::new();
        let mut row: usize = 0;
        while row < self.rows as usize
            invariant
                row <= self.rows,
                self@.wf(),
                lines@.len() == row,
                forall|r: int|
                    0 <= r < row ==> (#[trigger] lines@[r])@ == shown_row(self@, r, show_cursor),
            decreases self.rows - row,
        {
            lines.push(self.render_row(row, show_cursor));
            row = row + 1;
        }
        assert(line_views(lines@) =~= shown(self@, show_cursor));
        lines
    }
}

} // verus!
