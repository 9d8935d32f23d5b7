//! The model of a terminal: what every operation and every character does to it.
use crate::style::{Color, SpanView, Style};
use crate::terminal::params::{csi_params, less_one, param, sgr};
use vstd::prelude::*;

verus! {

/// How a cell is shown.
#[derive(Clone, Copy, Debug, PartialEq, Eq, Structural)]
pub struct TerminalCellStyle {
    pub fg: Option<Color>,
    pub bg: Option<Color>,
    pub bold: bool,
    pub underlined: bool,
    pub reversed: bool,
}

/// One place of the grid.
#[derive(Clone, Copy, Debug, PartialEq, Eq, Structural)]
pub struct TerminalCell {
    pub ch: char,
    pub style: TerminalCellStyle,
}

/// Where within a control sequence the input is.
#[derive(Clone, Copy, Debug, PartialEq, Eq, Structural)]
pub enum TerminalParserState {
    Ground,
    Escape,
    Csi,
    Osc,
    OscEscape,
}

/// The model of a terminal.
pub struct Screen {
    pub cols: int,
    pub rows: int,
    pub col: int,
    pub row: int,
    pub saved: (int, int),
    pub style: TerminalCellStyle,
    pub grid: Seq<Seq<TerminalCell>>,
    pub state: TerminalParserState,
    pub params: Seq<char>,
}

/// The style of a terminal before any control sequence.
pub open spec fn default_style() -> TerminalCellStyle {
    TerminalCellStyle { fg: None, bg: None, bold: false, underlined: false, reversed: false }
}

/// An empty cell.
pub open spec fn blank() -> TerminalCell {
    TerminalCell { ch: ' ', style: default_style() }
}

/// A row of empty cells.
pub open spec fn blank_row(cols: int) -> Seq<TerminalCell> {
    Seq::new(cols as nat, |c: int| blank())
}

/// An empty terminal.
pub open spec fn blank_screen(cols: int, rows: int) -> Screen {
    Screen {
        cols,
        rows,
        col: 0,
        row: 0,
        saved: (0, 0),
        style: default_style(),
        grid: Seq::new(rows as nat, |r: int| blank_row(cols)),
        state: TerminalParserState::Ground,
        params: Seq::empty(),
    }
}

/// The smaller of two numbers.
pub open spec fn smaller(a: int, b: int) -> int {
    if a < b {
        a
    } else {
        b
    }
}

/// The larger of two numbers.
pub open spec fn larger(a: int, b: int) -> int {
    if a < b {
        b
    } else {
        a
    }
}

impl Screen {
    /// Whether the grid has as many rows and columns as the terminal says, with the cursor on one
    /// of the rows. The column of the cursor may lie beyond the last one.
    pub open spec fn wf(self) -> bool {
        &&& 1 <= self.cols <= u16::MAX
        &&& 1 <= self.rows <= u16::MAX
        &&& 0 <= self.row < self.rows
        &&& 0 <= self.col <= u16::MAX
        &&& 0 <= self.saved.0 <= u16::MAX
        &&& 0 <= self.saved.1 <= u16::MAX
        &&& self.grid.len() == self.rows
        &&& forall|r: int| 0 <= r < self.rows ==> (#[trigger] self.grid[r]).len() == self.cols
    }

    /// The terminal with the cursor moved onto the grid.
    pub open spec fn clamped(self) -> Screen {
        Screen {
            col: smaller(self.col, self.cols - 1),
            row: smaller(self.row, self.rows - 1),
            ..self
        }
    }

    /// The terminal with another grid.
    pub open spec fn with_grid(self, cell: spec_fn(int, int) -> TerminalCell) -> Screen {
        Screen {
            grid: Seq::new(
                self.rows as nat,
                |r: int| Seq::new(self.cols as nat, |c: int| cell(r, c)),
            ),
            ..self
        }
    }

    /// What stands at a place of the grid; an empty cell beside the grid.
    pub open spec fn at(self, r: int, c: int) -> TerminalCell {
        if 0 <= r < self.rows && 0 <= c < self.cols {
            self.grid[r][c]
        } else {
            blank()
        }
    }

    /// The terminal with its rows moved up, and empty rows below.
    pub open spec fn scrolled_up(self, count: int) -> Screen {
        self.with_grid(|r: int, c: int| self.at(r + count, c))
    }

    /// The terminal with its rows moved down, and empty rows above.
    pub open spec fn scrolled_down(self, count: int) -> Screen {
        self.with_grid(|r: int, c: int| self.at(r - count, c))
    }

    /// The terminal with the cursor one row down; the last row scrolls.
    pub open spec fn indexed(self) -> Screen {
        if self.row + 1 >= self.rows {
            self.scrolled_up(1)
        } else {
            Screen { row: self.row + 1, ..self }
        }
    }

    /// The terminal with the cursor one row up; the first row scrolls.
    pub open spec fn reverse_indexed(self) -> Screen {
        if self.row == 0 {
            self.scrolled_down(1)
        } else {
            Screen { row: self.row - 1, ..self }
        }
    }

    /// The terminal with a character at the cursor, and the cursor behind it.
    pub open spec fn printed(self, ch: char) -> Screen {
        let here = self.clamped();
        let written = Screen {
            grid: here.grid.update(
                here.row,
                here.grid[here.row].update(here.col, TerminalCell { ch, style: here.style }),
            ),
            ..here
        };
        if here.col + 1 >= here.cols {
            Screen { col: 0, ..written }.indexed()
        } else {
            Screen { col: here.col + 1, ..written }
        }
    }

    /// The terminal with the cursor at the next multiple of eight, and blanks on the way.
    pub open spec fn tabbed(self, stop: int) -> Screen
        decreases stop - self.col,
    {
        if self.col < stop < self.cols {
            self.printed(' ').tabbed(stop)
        } else {
            self
        }
    }

    /// Whether a tab has a stop to go to: on a row without one, no number of blanks gets there.
    pub open spec fn has_tab_stop(self) -> bool {
        (self.col / 8 + 1) * 8 < self.cols
    }

    /// The terminal with a part of the cursor's row cleared: from the cursor on, up to the
    /// cursor, or all of it.
    pub open spec fn line_cleared(self, mode: int) -> Screen {
        self.with_grid(
            |r: int, c: int|
                if r == self.row && ((mode == 0 && c >= self.col) || (mode == 1 && c <= self.col)
                    || (mode != 0 && mode != 1)) {
                    blank()
                } else {
                    self.at(r, c)
                },
        )
    }

    /// The terminal with a part of the grid cleared: from the cursor on, up to the cursor, or all
    /// of it.
    pub open spec fn screen_cleared(self, mode: int) -> Screen {
        self.with_grid(
            |r: int, c: int|
                if (mode == 0 && (r > self.row || (r == self.row && c >= self.col))) || (mode == 1
                    && (r < self.row || (r == self.row && c <= self.col))) || (mode != 0 && mode
                    != 1) {
                    blank()
                } else {
                    self.at(r, c)
                },
        )
    }

    /// The terminal with empty cells put in at the cursor; what stands behind moves right.
    pub open spec fn blanks_inserted(self, count: int) -> Screen {
        self.with_grid(
            |r: int, c: int|
                if r != self.row || c < self.col {
                    self.at(r, c)
                } else if c < self.col + count {
                    blank()
                } else {
                    self.at(r, c - count)
                },
        )
    }

    /// The terminal with cells taken out at the cursor; what stands behind moves left.
    pub open spec fn chars_deleted(self, count: int) -> Screen {
        self.with_grid(
            |r: int, c: int|
                if r != self.row || c < self.col {
                    self.at(r, c)
                } else {
                    self.at(r, c + count)
                },
        )
    }

    /// The terminal with cells from the cursor on cleared.
    pub open spec fn chars_erased(self, count: int) -> Screen {
        self.with_grid(
            |r: int, c: int|
                if r == self.row && self.col <= c < self.col + count {
                    blank()
                } else {
                    self.at(r, c)
                },
        )
    }

    /// The terminal with rows put in at the cursor; the rows from there on move down. The new
    /// rows are empty, but on the first row of the grid, which is repeated.
    pub open spec fn lines_inserted(self, count: int) -> Screen {
        let n = smaller(count, self.rows - self.row);
        self.with_grid(
            |r: int, c: int|
                if r < self.row {
                    self.at(r, c)
                } else if larger(r - n, 0) >= self.row {
                    self.at(larger(r - n, 0), c)
                } else {
                    blank()
                },
        )
    }

    /// The terminal with rows taken out at the cursor; the rows below move up.
    pub open spec fn lines_deleted(self, count: int) -> Screen {
        let n = smaller(count, self.rows - self.row);
        self.with_grid(
            |r: int, c: int|
                if r < self.row {
                    self.at(r, c)
                } else {
                    self.at(r + n, c)
                },
        )
    }

    /// The terminal with every cell cleared.
    pub open spec fn all_cleared(self) -> Screen {
        self.with_grid(|r: int, c: int| blank())
    }

    /// The terminal in another size: what fits is kept, the rest is empty.
    pub open spec fn resized(self, cols: int, rows: int) -> Screen {
        if cols == self.cols && rows == self.rows {
            self
        } else {
            Screen {
                cols,
                rows,
                col: smaller(self.col, cols - 1),
                row: smaller(self.row, rows - 1),
                grid: Seq::new(
                    rows as nat,
                    |r: int| Seq::new(cols as nat, |c: int| self.at(r, c)),
                ),
                ..self
            }
        }
    }

    /// The terminal with the cursor where it was saved.
    pub open spec fn restored(self) -> Screen {
        Screen { col: self.saved.0, row: self.saved.1, ..self }.clamped()
    }

    /// The terminal with its cursor saved.
    pub open spec fn cursor_saved(self) -> Screen {
        Screen { saved: (self.col, self.row), ..self }
    }
}

// ---------------------------------------------------------------------------
// Input
// ---------------------------------------------------------------------------
/// What a control sequence does, by its parameters and the character that ends it.
pub open spec fn dispatched(s: Screen, text: Seq<char>, action: char) -> Screen {
    let private = text.len() > 0 && text[0] == '?';
    let params = csi_params(
        if private {
            text.skip(1)
        } else {
            text
        },
    );
    let n = param(params, 0, 1);
    let mode = param(params, 0, 0);
    if action == 'A' {
        Screen { row: larger(s.row - n, 0), ..s }
    } else if action == 'B' {
        Screen { row: smaller(s.row + n, s.rows - 1), ..s }
    } else if action == 'C' {
        Screen { col: smaller(s.col + n, s.cols - 1), ..s }
    } else if action == 'D' {
        Screen { col: larger(s.col - n, 0), ..s }
    } else if action == 'G' {
        Screen { col: less_one(n), ..s }
    } else if action == 'H' || action == 'f' {
        Screen { row: less_one(n), col: less_one(param(params, 1, 1)), ..s }.clamped()
    } else if action == 'J' {
        s.screen_cleared(mode)
    } else if action == 'K' {
        s.line_cleared(mode)
    } else if action == 'L' {
        s.lines_inserted(n)
    } else if action == 'M' {
        s.lines_deleted(n)
    } else if action == 'P' {
        s.chars_deleted(n)
    } else if action == 'X' {
        s.chars_erased(n)
    } else if action == '@' {
        s.blanks_inserted(n)
    } else if action == 'd' {
        Screen { row: less_one(n), ..s }.clamped()
    } else if action == 'm' {
        Screen { style: sgr(s.style, params), ..s }
    } else if action == 's' {
        s.cursor_saved()
    } else if action == 'u' {
        s.restored()
    } else if (action == 'h' || action == 'l') && private && params.len() > 0 && params[0] == Some(
        1049u16,
    ) {
        Screen { col: 0, row: 0, ..s.all_cleared() }
    } else {
        s
    }
}

/// Whether a character controls the terminal.
pub open spec fn is_control(c: char) -> bool {
    c as u32 <= 0x1f || 0x7f <= c as u32 <= 0x9f
}

/// What a character does to a terminal.
#[verifier::opaque]
pub open spec fn step(s: Screen, ch: char) -> Screen {
    let ground = TerminalParserState::Ground;
    match s.state {
        TerminalParserState::Ground => if ch == '\u{1b}' {
            Screen { state: TerminalParserState::Escape, ..s }
        } else if ch == '\n' {
            s.indexed()
        } else if ch == '\r' {
            Screen { col: 0, ..s }
        } else if ch == '\u{8}' {
            Screen { col: less_one(s.col), ..s }
        } else if ch == '\t' {
            s.tabbed((s.col / 8 + 1) * 8)
        } else if is_control(ch) {
            s
        } else {
            s.printed(ch)
        },
        TerminalParserState::Escape => if ch == '[' {
            Screen { params: Seq::empty(), state: TerminalParserState::Csi, ..s }
        } else if ch == ']' {
            Screen { state: TerminalParserState::Osc, ..s }
        } else if ch == '7' {
            Screen { state: ground, ..s.cursor_saved() }
        } else if ch == '8' {
            Screen { state: ground, ..s.restored() }
        } else if ch == 'c' {
            blank_screen(s.cols, s.rows)
        } else if ch == 'D' {
            Screen { state: ground, ..s.indexed() }
        } else if ch == 'E' {
            Screen { col: 0, state: ground, ..s.indexed() }
        } else if ch == 'M' {
            Screen { state: ground, ..s.reverse_indexed() }
        } else {
            Screen { state: ground, ..s }
        },
        TerminalParserState::Csi => if '@' <= ch && ch <= '~' {
            Screen {
                state: ground,
                ..dispatched(Screen { params: Seq::empty(), ..s }, s.params, ch)
            }
        } else {
            Screen { params: s.params.push(ch), ..s }
        },
        TerminalParserState::Osc => if ch == '\u{7}' {
            Screen { state: ground, ..s }
        } else if ch == '\u{1b}' {
            Screen { state: TerminalParserState::OscEscape, ..s }
        } else {
            s
        },
        TerminalParserState::OscEscape => if ch == '\\' {
            Screen { state: ground, ..s }
        } else {
            Screen { state: TerminalParserState::Osc, ..s }
        },
    }
}

/// Whether a character can be taken: a tab can where there is a stop for it.
pub open spec fn can_step(s: Screen, ch: char) -> bool {
    s.state == TerminalParserState::Ground && ch == '\t' ==> s.has_tab_stop()
}

/// What characters do to a terminal, one after the other.
#[verifier::opaque]
pub open spec fn steps(s: Screen, chars: Seq<char>) -> Screen
    decreases chars.len(),
{
    if chars.len() == 0 {
        s
    } else {
        step(steps(s, chars.drop_last()), chars.last())
    }
}

/// Whether every one of the characters can be taken.
#[verifier::opaque]
pub open spec fn can_steps(s: Screen, chars: Seq<char>) -> bool {
    forall|i: int|
        0 <= i < chars.len() ==> can_step(steps(s, chars.take(i)), #[trigger] chars[i])
}

// ---------------------------------------------------------------------------
// What the terminal shows
// ---------------------------------------------------------------------------
/// How a cell is shown: reversed cells have their colours exchanged.
pub open spec fn shown_style(style: TerminalCellStyle) -> Style {
    Style {
        fg: if style.reversed {
            style.bg
        } else {
            style.fg
        },
        bg: if style.reversed {
            style.fg
        } else {
            style.bg
        },
        bold: style.bold,
        dim: false,
        underlined: style.underlined,
    }
}

/// What a place of the grid shows. The cell under the cursor is shown reversed, if the cursor is
/// shown.
pub open spec fn shown_at(s: Screen, r: int, c: int, show_cursor: bool) -> (char, Style) {
    let cell = s.at(r, c);
    let style = if show_cursor && r == s.row && c == s.col {
        TerminalCellStyle { reversed: !cell.style.reversed, ..cell.style }
    } else {
        cell.style
    };
    (cell.ch, shown_style(style))
}

/// Characters that follow each other in one style, as one text.
pub open spec fn runs(shown: Seq<(char, Style)>) -> Seq<SpanView>
    decreases shown.len(),
{
    if shown.len() == 0 {
        Seq::empty()
    } else {
        let front = runs(shown.drop_last());
        let (ch, style) = shown.last();
        if front.len() > 0 && front.last().style == style {
            front.update(
                front.len() - 1,
                SpanView { text: front.last().text.push(ch), style },
            )
        } else {
            front.push(SpanView { text: seq![ch], style })
        }
    }
}

/// What a row of the grid shows.
pub open spec fn shown_row(s: Screen, r: int, show_cursor: bool) -> Seq<SpanView> {
    runs(Seq::new(s.cols as nat, |c: int| shown_at(s, r, c, show_cursor)))
}

/// What a terminal shows.
pub open spec fn shown(s: Screen, show_cursor: bool) -> Seq<Seq<SpanView>> {
    Seq::new(s.rows as nat, |r: int| shown_row(s, r, show_cursor))
}

} // verus!
