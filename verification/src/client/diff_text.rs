//! Diffs as they are printed: in colour at a terminal, as they are elsewhere.
use crate::picker_style::{classify_diff_line, diff_line_kind, DiffLineKind};
use crate::text::{chars_of, decimal, joined, string_of, views};
use crossterm::style::Stylize;
use vstd::prelude::*;
use vstd::string::*;

verus! {

/// Whether a diff is printed in colour: at a terminal whose user did not refuse it.
pub fn should_colorize_diff_output(is_terminal: bool, no_color: Option<String>) -> (r: bool)
    ensures
        r == (is_terminal && no_color is None),
{
    is_terminal && no_color.is_none()
}

/// The escape sequence that sets a colour; an empty one where colours are switched off.
pub open spec fn color_code(red: u8, green: u8, blue: u8, enabled: bool) -> Seq<char> {
    if enabled {
        "\x1b["@ + "38;2;"@ + decimal(red as nat) + ";"@ + decimal(green as nat) + ";"@ + decimal(
            blue as nat,
        ) + "m"@
    } else {
        "\x1b["@ + "m"@
    }
}

/// A text in a colour, bold if so asked: the codes before it and behind it.
pub open spec fn tinted(
    text: Seq<char>,
    red: u8,
    green: u8,
    blue: u8,
    bold: bool,
    enabled: bool,
) -> Seq<char> {
    if bold {
        color_code(red, green, blue, enabled) + "\x1b[1m"@ + text + "\x1b[0m"@
    } else {
        color_code(red, green, blue, enabled) + text + (if enabled {
            "\x1b[39m"@
        } else {
            "\x1b[m"@
        })
    }
}

/// The text that `crossterm` displays for a string with a foreground colour and the bold
/// attribute, made by `Stylize::with` and `Stylize::attribute`.
///
/// Claimed: the codes before the text and behind it. Whether the codes name the colour is left
/// open: the `NO_COLOR` variable and `force_color_output` switch that for the whole process.
#[verifier::external_body]
fn bold_text(text: &str, red: u8, green: u8, blue: u8) -> (r: String)
    ensures
        r@ == tinted(text@, red, green, blue, true, true) || r@ == tinted(
            text@,
            red,
            green,
            blue,
            true,
            false,
        ),
{
    let color = crossterm::style::Color::Rgb { r: red, g: green, b: blue };
    text.with(color).attribute(crossterm::style::Attribute::Bold).to_string()
}

/// The text that `crossterm` displays for a string with a foreground colour, made by
/// `Stylize::with`.
///
/// Claimed: the codes before the text and behind it. Whether the codes name the colour is left
/// open: the `NO_COLOR` variable and `force_color_output` switch that for the whole process.
#[verifier::external_body]
fn plain_text(text: &str, red: u8, green: u8, blue: u8) -> (r: String)
    ensures
        r@ == tinted(text@, red, green, blue, false, true) || r@ == tinted(
            text@,
            red,
            green,
            blue,
            false,
            false,
        ),
{
    text.with(crossterm::style::Color::Rgb { r: red, g: green, b: blue }).to_string()
}

// ---------------------------------------------------------------------------
// Pieces
// ---------------------------------------------------------------------------
/// The lines that end within a text, each with its end, and the start of the one that may go on
/// behind it.
pub open spec fn piece_scan(s: Seq<char>) -> (Seq<Seq<char>>, Seq<char>)
    decreases s.len(),
{
    if s.len() == 0 {
        (Seq::empty(), Seq::empty())
    } else {
        let (done, open) = piece_scan(s.drop_last());
        if s.last() == '\n' {
            (done.push(open.push('\n')), Seq::empty())
        } else {
            (done, open.push(s.last()))
        }
    }
}

/// The lines of a text, each with its end.
pub open spec fn pieces(s: Seq<char>) -> Seq<Seq<char>> {
    let (done, open) = piece_scan(s);
    if open.len() > 0 {
        done.push(open)
    } else {
        done
    }
}

/// The lines of a text, each with its end.
pub fn pieces_of(s: &str) -> (r: Vec<String>)
    ensures
        views(r@) == pieces(s@),
{
    let chars = chars_of(s);
    let mut r: Vec<String> = Vec::new();
    let mut line: Vec<char> = Vec::new();
    let mut i: usize = 0;
    assert(s@.take(0) =~= Seq::empty());
    assert(views(r@) =~= Seq::empty());
    while i < chars.len()
        invariant
            i <= chars.len(),
            chars@ == s@,
            piece_scan(s@.take(i as int)) == (views(r@), line@),
        decreases chars.len() - i,
    {
        let c = chars[i];
        let ghost before = r@;
        assert(s@.take(i as int + 1).drop_last() =~= s@.take(i as int));
        line.push(c);
        if c == '\n' {
            r.push(string_of(&line));
            assert(views(r@) =~= views(before).push(line@));
            line = Vec::new();
        }
        i = i + 1;
    }
    assert(s@.take(s@.len() as int) =~= s@);
    if line.len() > 0 {
        let ghost before = r@;
        r.push(string_of(&line));
        assert(views(r@) =~= views(before).push(line@));
    }
    r
}

// ---------------------------------------------------------------------------
// Rendering
// ---------------------------------------------------------------------------
/// A line of a diff in its colour.
pub open spec fn tinted_line(line: Seq<char>, enabled: bool) -> Seq<char> {
    match diff_line_kind(line) {
        DiffLineKind::Header => tinted(line, 153, 214, 255, true, enabled),
        DiffLineKind::Hunk => tinted(line, 242, 201, 76, true, enabled),
        DiffLineKind::Added => tinted(line, 111, 207, 151, false, enabled),
        DiffLineKind::Removed => tinted(line, 255, 107, 107, false, enabled),
        DiffLineKind::Context => line,
    }
}

/// The first lines of a diff, each in its colour or with colours switched off.
pub open spec fn tinted_lines(lines: Seq<Seq<char>>, enabled: Seq<bool>, n: int) -> Seq<char>
    decreases n,
{
    if n <= 0 {
        Seq::empty()
    } else {
        tinted_lines(lines, enabled, n - 1) + tinted_line(lines[n - 1], enabled[n - 1])
    }
}

/// Whether a text is a diff in colour, with colours switched off for some of its lines or none.
pub open spec fn is_tinted(text: Seq<char>, diff: Seq<char>) -> bool {
    exists|enabled: Seq<bool>|
        enabled.len() == pieces(diff).len() && text == #[trigger] tinted_lines(
            pieces(diff),
            enabled,
            pieces(diff).len() as int,
        )
}

fn tint(line: &str) -> (r: String)
    ensures
        r@ == tinted_line(line@, true) || r@ == tinted_line(line@, false),
{
    match classify_diff_line(line) {
        DiffLineKind::Header => bold_text(line, 153, 214, 255),
        DiffLineKind::Hunk => bold_text(line, 242, 201, 76),
        DiffLineKind::Added => plain_text(line, 111, 207, 151),
        DiffLineKind::Removed => plain_text(line, 255, 107, 107),
        DiffLineKind::Context => line.to_string(),
    }
}

/// Only the choices for the first lines count.
proof fn tinted_lines_agree(lines: Seq<Seq<char>>, a: Seq<bool>, b: Seq<bool>, n: int)
    requires
        forall|i: int| 0 <= i < n ==> a[i] == b[i],
    ensures
        tinted_lines(lines, a, n) == tinted_lines(lines, b, n),
    decreases n,
{
    if n > 0 {
        tinted_lines_agree(lines, a, b, n - 1);
    }
}

/// A diff as it is printed: each line in its colour, or all of it as it is.
pub fn render_diff_text(diff: &str, color: bool) -> (r: String)
    ensures
        !color ==> r@ == diff@,
        color ==> is_tinted(r@, diff@),
{
    if !color {
        return diff.to_string();
    }
    let lines = pieces_of(diff);
    let ghost due = pieces(diff@);
    let ghost mut enabled: Seq<bool> = Seq::empty();
    let mut rendered = String::new();
    let mut i: usize = 0;
    assert(rendered@ =~= Seq::empty());
    while i < lines.len()
        invariant
            i <= lines.len(),
            views(lines@) == due,
            enabled.len() == i,
            rendered@ == tinted_lines(due, enabled, i as int),
        decreases lines.len() - i,
    {
        assert(views(lines@)[i as int] == due[i as int]);
        let line = tint(lines[i].as_str());
        rendered.append(line.as_str());
        proof {
            let before = enabled;
            enabled = enabled.push(line@ == tinted_line(due[i as int], true));
            tinted_lines_agree(due, before, enabled, i as int);
        }
        i = i + 1;
    }
    assert(lines@.len() == due.len());
    rendered
}

// ---------------------------------------------------------------------------
// Laws
// ---------------------------------------------------------------------------
/// The lines of a text, one behind the other, are the text.
pub proof fn pieces_make_the_text(s: Seq<char>)
    ensures
        joined(pieces(s), Seq::empty()) == s,
{
    let (done, open) = piece_scan(s);
    scan_makes_the_text(s);
    if open.len() > 0 {
        joined_with_one_more(done, open);
    } else {
        assert(joined(done, Seq::empty()) + open =~= joined(done, Seq::empty()));
    }
}

proof fn joined_with_one_more(parts: Seq<Seq<char>>, part: Seq<char>)
    ensures
        joined(parts.push(part), Seq::empty()) == joined(parts, Seq::empty()) + part,
{
    assert(parts.push(part).drop_last() =~= parts);
    assert(joined(parts.push(part), Seq::empty()) =~= joined(parts, Seq::empty()) + part);
}

proof fn scan_makes_the_text(s: Seq<char>)
    ensures
        joined(piece_scan(s).0, Seq::empty()) + piece_scan(s).1 == s,
    decreases s.len(),
{
    if s.len() > 0 {
        let (done, open) = piece_scan(s.drop_last());
        let front = joined(done, Seq::empty());
        scan_makes_the_text(s.drop_last());
        assert(front + open.push(s.last()) =~= (front + open).push(s.last()));
        assert(s.drop_last().push(s.last()) =~= s);
        if s.last() == '\n' {
            joined_with_one_more(done, open.push('\n'));
            assert(s + Seq::<char>::empty() =~= s);
        }
    } else {
        assert(joined(piece_scan(s).0, Seq::empty()) + piece_scan(s).1 =~= s);
    }
}

} // verus!
