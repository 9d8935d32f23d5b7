//! The parameters of control sequences, and the colours and styles that they name.
use crate::style::Color;
use crate::terminal::screen::{default_style, larger, TerminalCellStyle};
use crate::text::{number_of, parse_bounded};
use vstd::prelude::*;

verus! {

// ---------------------------------------------------------------------------
// Parameters of control sequences
// ---------------------------------------------------------------------------
/// The number below 2^16 that a text is.
pub open spec fn small_number(s: Seq<char>) -> Option<u16> {
    match number_of(s, u16::MAX as int) {
        Some(value) => Some(value as u16),
        None => None,
    }
}

/// The parts of a text between the given separator.
pub open spec fn split_at(s: Seq<char>, separator: char) -> Seq<Seq<char>>
    decreases s.len(),
{
    if s.len() == 0 {
        seq![Seq::empty()]
    } else {
        let front = split_at(s.drop_last(), separator);
        if s.last() == separator {
            front.push(Seq::empty())
        } else {
            front.update(front.len() - 1, front.last().push(s.last()))
        }
    }
}

/// The parameters of a control sequence: numbers between semicolons, some of them left out.
pub open spec fn csi_params(s: Seq<char>) -> Seq<Option<u16>> {
    if s.len() == 0 {
        Seq::empty()
    } else {
        let parts = split_at(s, ';');
        Seq::new(parts.len(), |i: int| small_number(parts[i]))
    }
}

/// A parameter, or what stands for it where it was left out.
pub open spec fn param(params: Seq<Option<u16>>, i: int, default: int) -> int {
    if 0 <= i < params.len() && params[i] is Some {
        params[i]->0 as int
    } else {
        default
    }
}

/// A number less one, but not below zero.
pub open spec fn less_one(n: int) -> int {
    larger(n - 1, 0)
}

// ---------------------------------------------------------------------------
// Colours
// ---------------------------------------------------------------------------
/// One of the eight colours, or its bright variant.
pub open spec fn named_color(index: int, bright: bool) -> Color {
    if !bright {
        if index == 0 {
            Color::Black
        } else if index == 1 {
            Color::Red
        } else if index == 2 {
            Color::Green
        } else if index == 3 {
            Color::Yellow
        } else if index == 4 {
            Color::Blue
        } else if index == 5 {
            Color::Magenta
        } else if index == 6 {
            Color::Cyan
        } else if index == 7 {
            Color::Gray
        } else {
            Color::White
        }
    } else {
        if index == 0 {
            Color::DarkGray
        } else if index == 1 {
            Color::LightRed
        } else if index == 2 {
            Color::LightGreen
        } else if index == 3 {
            Color::LightYellow
        } else if index == 4 {
            Color::LightBlue
        } else if index == 5 {
            Color::LightMagenta
        } else if index == 6 {
            Color::LightCyan
        } else {
            Color::White
        }
    }
}

/// The brightness of a step of the colour cube.
pub open spec fn cube_level(step: int) -> u8 {
    if step == 0 {
        0
    } else {
        (step * 40 + 55) as u8
    }
}

/// One of the 256 colours: sixteen named ones, a cube of six steps a side, and shades of grey.
pub open spec fn indexed_color(index: int) -> Color {
    if index < 16 {
        named_color(index % 8, index >= 8)
    } else if index < 232 {
        Color::Rgb(
            cube_level((index - 16) / 36),
            cube_level((index - 16) / 6 % 6),
            cube_level((index - 16) % 6),
        )
    } else if index < 256 {
        let shade = ((index - 232) * 10 + 8) as u8;
        Color::Rgb(shade, shade, shade)
    } else {
        Color::White
    }
}

/// The colour that starts at a parameter, and how many parameters it takes: 5 and an index, or 2
/// and the levels of red, green and blue, of which the lowest eight bits count.
pub open spec fn extended_color(params: Seq<Option<u16>>, i: int) -> Option<(Color, int)> {
    let given = |k: int| 0 <= k < params.len() && params[k] is Some;
    if !given(i) {
        None
    } else if params[i]->0 == 5 {
        if given(i + 1) {
            Some((indexed_color(params[i + 1]->0 as int), 2))
        } else {
            None
        }
    } else if params[i]->0 == 2 {
        if given(i + 1) && given(i + 2) && given(i + 3) {
            Some(
                (
                    Color::Rgb(
                        (params[i + 1]->0 % 256) as u8,
                        (params[i + 2]->0 % 256) as u8,
                        (params[i + 3]->0 % 256) as u8,
                    ),
                    4,
                ),
            )
        } else {
            None
        }
    } else {
        None
    }
}

/// What a single parameter does to the style.
pub open spec fn sgr_one(style: TerminalCellStyle, value: int) -> TerminalCellStyle {
    if value == 0 {
        default_style()
    } else if value == 1 {
        TerminalCellStyle { bold: true, ..style }
    } else if value == 4 {
        TerminalCellStyle { underlined: true, ..style }
    } else if value == 7 {
        TerminalCellStyle { reversed: true, ..style }
    } else if value == 22 {
        TerminalCellStyle { bold: false, ..style }
    } else if value == 24 {
        TerminalCellStyle { underlined: false, ..style }
    } else if value == 27 {
        TerminalCellStyle { reversed: false, ..style }
    } else if 30 <= value <= 37 {
        TerminalCellStyle { fg: Some(named_color(value - 30, false)), ..style }
    } else if value == 39 {
        TerminalCellStyle { fg: None, ..style }
    } else if 40 <= value <= 47 {
        TerminalCellStyle { bg: Some(named_color(value - 40, false)), ..style }
    } else if value == 49 {
        TerminalCellStyle { bg: None, ..style }
    } else if 90 <= value <= 97 {
        TerminalCellStyle { fg: Some(named_color(value - 90, true)), ..style }
    } else if 100 <= value <= 107 {
        TerminalCellStyle { bg: Some(named_color(value - 100, true)), ..style }
    } else {
        style
    }
}

/// What the parameters from `i` on do to the style.
pub open spec fn sgr_from(style: TerminalCellStyle, params: Seq<Option<u16>>, i: int) -> TerminalCellStyle
    decreases params.len() - i,
{
    if i < 0 || i >= params.len() {
        style
    } else {
        let value = param(params, i, 0);
        if value == 38 || value == 48 {
            match extended_color(params, i + 1) {
                Some((color, used)) => {
                    let next = if value == 38 {
                        TerminalCellStyle { fg: Some(color), ..style }
                    } else {
                        TerminalCellStyle { bg: Some(color), ..style }
                    };
                    if used > 0 {
                        sgr_from(next, params, i + 1 + used)
                    } else {
                        next
                    }
                },
                None => sgr_from(style, params, i + 1),
            }
        } else {
            sgr_from(sgr_one(style, value), params, i + 1)
        }
    }
}

/// What the parameters do to the style.
pub open spec fn sgr(style: TerminalCellStyle, params: Seq<Option<u16>>) -> TerminalCellStyle {
    if params.len() == 0 {
        default_style()
    } else {
        sgr_from(style, params, 0)
    }
}

fn parse_small_number(part: &Vec<char>) -> (r: Option<u16>)
    ensures
        r == small_number(part@),
{
    match parse_bounded(part, 65_535) {
        Some(value) => Some(value as u16),
        None => None,
    }
}

/// The parameters of a control sequence.
pub fn parse_csi_params(params: &Vec<char>) -> (r: Vec<Option<u16>>)
    ensures
        r@ == csi_params(params@),
{
    let mut r: Vec<Option<u16>> = Vec::new();
    if params.len() == 0 {
        assert(r@ =~= csi_params(params@));
        return r;
    }
    let mut part: Vec<char> = Vec::new();
    let mut i: usize = 0;
    let ghost mut parts: Seq<Seq<char>> = seq![Seq::empty()];
    assert(params@.take(0) =~= Seq::empty());
    while i < params.len()
        invariant
            i <= params.len(),
            parts == split_at(params@.take(i as int), ';'),
            parts.len() == r@.len() + 1,
            part@ == parts.last(),
            forall|k: int| 0 <= k < r@.len() ==> #[trigger] r@[k] == small_number(parts[k]),
        decreases params.len() - i,
    {
        let c = params[i];
        let ghost before = parts;
        assert(params@.take(i as int + 1).drop_last() =~= params@.take(i as int));
        if c == ';' {
            r.push(parse_small_number(&part));
            part = Vec::new();
            proof {
                parts = before.push(Seq::empty());
            }
        } else {
            part.push(c);
            proof {
                parts = before.update(before.len() - 1, before.last().push(c));
            }
        }
        i = i + 1;
    }
    assert(params@.take(params@.len() as int) =~= params@);
    r.push(parse_small_number(&part));
    assert(r@ =~= csi_params(params@));
    r
}

/// A parameter, or what stands for it where it was left out.
pub fn nth_param(params: &Vec<Option<u16>>, index: usize, default: u16) -> (r: u16)
    ensures
        r == param(params@, index as int, default as int),
{
    if index < params.len() {
        match params[index] {
            Some(value) => value,
            None => default,
        }
    } else {
        default
    }
}

/// The first parameter, or what stands for it where it was left out.
pub fn first_param(params: &Vec<Option<u16>>, default: u16) -> (r: u16)
    ensures
        r == param(params@, 0, default as int),
{
    nth_param(params, 0, default)
}

fn given(params: &Vec<Option<u16>>, index: usize) -> (r: Option<u16>)
    ensures
        r == (if index < params@.len() {
            params@[index as int]
        } else {
            None
        }),
{
    if index < params.len() {
        params[index]
    } else {
        None
    }
}

/// The colour that starts at a parameter, and how many parameters it takes.
pub fn parse_extended_color(params: &Vec<Option<u16>>, start: usize) -> (r: Option<(Color, usize)>)
    requires
        start <= params@.len(),
    ensures
        match extended_color(params@, start as int) {
            Some((color, used)) => r matches Some((got, consumed)) && got == color && consumed
                == used,
            None => r is None,
        },
        r matches Some((_, consumed)) ==> start + consumed <= params@.len(),
{
    let len: usize = params.len();
    match given(params, start) {
        Some(5) => match given(params, start + 1) {
            Some(value) => Some((ansi_256_color(value), 2)),
            None => None,
        },
        Some(2) => {
            let red = given(params, start + 1);
            if red.is_none() {
                return None;
            }
            assert(start + 1 < len);
            let green = given(params, start + 2);
            if green.is_none() {
                return None;
            }
            assert(start + 2 < len);
            match (red, green, given(params, start + 3)) {
                (Some(r), Some(g), Some(b)) => Some(
                    (Color::Rgb((r % 256) as u8, (g % 256) as u8, (b % 256) as u8), 4),
                ),
                _ => None,
            }
        },
        _ => None,
    }
}

/// One of the eight colours, or its bright variant.
pub fn ansi_color(index: u16, bright: bool) -> (r: Color)
    ensures
        r == named_color(index as int, bright),
{
    match (index, bright) {
        (0, false) => Color::Black,
        (1, false) => Color::Red,
        (2, false) => Color::Green,
        (3, false) => Color::Yellow,
        (4, false) => Color::Blue,
        (5, false) => Color::Magenta,
        (6, false) => Color::Cyan,
        (7, false) => Color::Gray,
        (0, true) => Color::DarkGray,
        (1, true) => Color::LightRed,
        (2, true) => Color::LightGreen,
        (3, true) => Color::LightYellow,
        (4, true) => Color::LightBlue,
        (5, true) => Color::LightMagenta,
        (6, true) => Color::LightCyan,
        _ => Color::White,
    }
}

fn cube_component(step: u16) -> (r: u8)
    requires
        step < 6,
    ensures
        r == cube_level(step as int),
{
    if step == 0 {
        0
    } else {
        (step * 40 + 55) as u8
    }
}

/// One of the 256 colours.
pub fn ansi_256_color(index: u16) -> (r: Color)
    ensures
        r == indexed_color(index as int),
{
    if index < 16 {
        ansi_color(index % 8, index >= 8)
    } else if index < 232 {
        let value: u16 = index - 16;
        Color::Rgb(
            cube_component(value / 36),
            cube_component(value / 6 % 6),
            cube_component(value % 6),
        )
    } else if index < 256 {
        let shade: u8 = ((index - 232) * 10 + 8) as u8;
        Color::Rgb(shade, shade, shade)
    } else {
        Color::White
    }
}

/// The style of a terminal before any control sequence.
pub fn empty_style() -> (r: TerminalCellStyle)
    ensures
        r == default_style(),
{
    TerminalCellStyle { fg: None, bg: None, bold: false, underlined: false, reversed: false }
}

/// What a single parameter does to the style.
pub fn applied(style: TerminalCellStyle, value: u16) -> (r: TerminalCellStyle)
    ensures
        r == sgr_one(style, value as int),
{
    let mut style = style;
    match value {
        0 => {
            style = empty_style();
        },
        1 => {
            style.bold = true;
        },
        4 => {
            style.underlined = true;
        },
        7 => {
            style.reversed = true;
        },
        22 => {
            style.bold = false;
        },
        24 => {
            style.underlined = false;
        },
        27 => {
            style.reversed = false;
        },
        30..=37 => {
            style.fg = Some(ansi_color(value - 30, false));
        },
        39 => {
            style.fg = None;
        },
        40..=47 => {
            style.bg = Some(ansi_color(value - 40, false));
        },
        49 => {
            style.bg = None;
        },
        90..=97 => {
            style.fg = Some(ansi_color(value - 90, true));
        },
        100..=107 => {
            style.bg = Some(ansi_color(value - 100, true));
        },
        _ => {},
    }
    style
}

} // verus!
