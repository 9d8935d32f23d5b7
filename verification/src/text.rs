//! Strings as sequences of characters: the operations that the rest of the library builds on.
use vstd::prelude::*;
use vstd::string::*;
use vstd::utf8::*;

verus! {

/// `String::push` appends one character.
pub assume_specification[ String::push ](s: &mut String, c: char)
    ensures
        final(s)@ == old(s)@.push(c),
;

/// The characters of a string, one by one.
pub fn chars_of(s: &str) -> (r: Vec<char>)
    ensures
        r@ == s@,
{
    let mut r: Vec<char> = Vec::new();
    for c in it: s.chars()
        invariant
            r@ == it.seq().take(it.index() as int),
            it.seq() == s@,
    {
        r.push(c);
        assert(it.seq().take(it.index() as int + 1) == it.seq().take(it.index() as int).push(c));
    }
    assert(s@.take(s@.len() as int) == s@);
    r
}

/// The string that holds the given characters.
pub fn string_of(chars: &Vec<char>) -> (r: String)
    ensures
        r@ == chars@,
{
    let mut r = String::new();
    let mut i: usize = 0;
    while i < chars.len()
        invariant
            i <= chars.len(),
            r@ == chars@.take(i as int),
        decreases chars.len() - i,
    {
        r.push(chars[i]);
        assert(chars@.take(i as int + 1) == chars@.take(i as int).push(chars@[i as int]));
        i += 1;
    }
    assert(chars@.take(chars@.len() as int) == chars@);
    r
}

/// Whether two strings hold the same characters.
pub fn same(a: &str, b: &str) -> (r: bool)
    ensures
        r == (a@ == b@),
{
    a.to_string() == b.to_string()
}

/// The text of an optional string, if there is one.
pub fn opt_str(value: &Option<String>) -> (r: Option<&str>)
    ensures
        opt_view_str(r) == opt_view(*value),
{
    match value {
        Some(text) => Some(text.as_str()),
        None => None,
    }
}

/// The characters of an optional string.
pub open spec fn opt_view(value: Option<String>) -> Option<Seq<char>> {
    match value {
        Some(text) => Some(text@),
        None => None,
    }
}

/// The characters of an optional string slice.
pub open spec fn opt_view_str(value: Option<&str>) -> Option<Seq<char>> {
    match value {
        Some(text) => Some(text@),
        None => None,
    }
}

/// What `String::from_utf8` reports of bytes that are not UTF-8: the text of its error.
pub uninterp spec fn utf8_error_text(bytes: Seq<u8>) -> Seq<char>;

/// `String::from_utf8`, with the text of its error.
///
/// Claimed: bytes that are UTF-8 become the characters that they encode; all others are refused,
/// with a text that depends on the bytes alone.
#[verifier::external_body]
pub(crate) fn text_from_utf8(bytes: Vec<u8>) -> (r: Result<String, String>)
    ensures
        r is Ok <==> valid_utf8(bytes@),
        r matches Ok(text) ==> text@ == decode_utf8(bytes@),
        r matches Err(error) ==> error@ == utf8_error_text(bytes@),
{
    String::from_utf8(bytes).map_err(|error| error.to_string())
}

/// The characters of bytes, as `String::from_utf8_lossy` reads them.
pub uninterp spec fn lossy_text(bytes: Seq<u8>) -> Seq<char>;

/// `String::from_utf8_lossy`.
///
/// Claimed: which characters come out depends on the bytes alone, and bytes that are UTF-8 come
/// out as the characters that they encode.
#[verifier::external_body]
pub(crate) fn lossy_string(bytes: &[u8]) -> (r: String)
    ensures
        r@ == lossy_text(bytes@),
        valid_utf8(bytes@) ==> r@ == decode_utf8(bytes@),
{
    String::from_utf8_lossy(bytes).into_owned()
}

/// The decimal digit for a number below ten.
pub open spec fn digit(n: nat) -> char {
    (('0' as u32) + n) as char
}

/// A number in decimal notation.
pub open spec fn decimal(n: nat) -> Seq<char>
    decreases n,
{
    if n < 10 {
        seq![digit(n)]
    } else {
        decimal(n / 10).push(digit(n % 10))
    }
}

/// An integer in decimal notation, with a minus sign in front of a negative one.
pub open spec fn signed_decimal(n: int) -> Seq<char> {
    if n < 0 {
        seq!['-'] + decimal((-n) as nat)
    } else {
        decimal(n as nat)
    }
}

fn digit_of(n: u64) -> (r: char)
    requires
        n < 10,
    ensures
        r == digit(n as nat),
{
    (48u8 + n as u8) as char
}

/// Writes a number in decimal notation.
pub fn decimal_of(n: u64) -> (r: String)
    ensures
        r@ == decimal(n as nat),
    decreases n,
{
    if n < 10 {
        let mut r = String::new();
        r.push(digit_of(n));
        assert(r@ =~= seq![digit(n as nat)]);
        r
    } else {
        let mut r = decimal_of(n / 10);
        r.push(digit_of(n % 10));
        r
    }
}

/// Writes an integer in decimal notation.
pub fn signed_decimal_of(n: i64) -> (r: String)
    ensures
        r@ == signed_decimal(n as int),
{
    if n < 0 {
        let magnitude: u64 = if n == i64::MIN {
            9_223_372_036_854_775_808u64
        } else {
            (-n) as u64
        };
        let mut r = String::new();
        r.push('-');
        assert(r@ =~= seq!['-']);
        r.append(decimal_of(magnitude).as_str());
        r
    } else {
        decimal_of(n as u64)
    }
}

// ---------------------------------------------------------------------------
// White space
// ---------------------------------------------------------------------------
/// The characters that Unicode counts as white space.
pub open spec fn is_white_space(c: char) -> bool {
    let u = c as u32;
    ||| 0x9 <= u <= 0xd
    ||| u == 0x20
    ||| u == 0x85
    ||| u == 0xa0
    ||| u == 0x1680
    ||| 0x2000 <= u <= 0x200a
    ||| u == 0x2028
    ||| u == 0x2029
    ||| u == 0x202f
    ||| u == 0x205f
    ||| u == 0x3000
}

/// Whether a character is white space.
pub fn white_space(c: char) -> (r: bool)
    ensures
        r == is_white_space(c),
{
    let u: u32 = c as u32;
    (0x9 <= u && u <= 0xd) || u == 0x20 || u == 0x85 || u == 0xa0 || u == 0x1680 || (0x2000 <= u
        && u <= 0x200a) || u == 0x2028 || u == 0x2029 || u == 0x202f || u == 0x205f || u == 0x3000
}

/// A text without white space at its end.
pub open spec fn trimmed_end(s: Seq<char>) -> Seq<char>
    decreases s.len(),
{
    if s.len() > 0 && is_white_space(s.last()) {
        trimmed_end(s.drop_last())
    } else {
        s
    }
}

/// A text without white space at its start.
pub open spec fn trimmed_start(s: Seq<char>) -> Seq<char>
    decreases s.len(),
{
    if s.len() > 0 && is_white_space(s[0]) {
        trimmed_start(s.skip(1))
    } else {
        s
    }
}

/// A text without white space at its ends.
pub open spec fn trimmed(s: Seq<char>) -> Seq<char> {
    trimmed_start(trimmed_end(s))
}

/// A part of some characters.
pub fn part_of(chars: &Vec<char>, start: usize, end: usize) -> (r: Vec<char>)
    requires
        start <= end <= chars@.len(),
    ensures
        r@ == chars@.subrange(start as int, end as int),
{
    let mut r: Vec<char> = Vec::new();
    let mut i: usize = start;
    while i < end
        invariant
            start <= i <= end <= chars@.len(),
            r@ == chars@.subrange(start as int, i as int),
        decreases end - i,
    {
        r.push(chars[i]);
        i = i + 1;
        assert(r@ =~= chars@.subrange(start as int, i as int));
    }
    r
}

/// A text without white space at its ends.
pub fn trim(s: &str) -> (r: String)
    ensures
        r@ == trimmed(s@),
{
    let chars = chars_of(s);
    let mut end: usize = chars.len();
    assert(s@.take(end as int) =~= s@);
    while end > 0 && white_space(chars[end - 1])
        invariant
            end <= chars.len(),
            chars@ == s@,
            trimmed_end(s@) == trimmed_end(s@.take(end as int)),
        decreases end,
    {
        assert(s@.take(end as int).drop_last() =~= s@.take(end - 1));
        end = end - 1;
    }
    let ghost kept = s@.take(end as int);
    assert(trimmed_end(s@) == kept);
    let mut start: usize = 0;
    assert(kept.skip(0) =~= kept);
    while start < end && white_space(chars[start])
        invariant
            start <= end <= chars.len(),
            chars@ == s@,
            kept == s@.take(end as int),
            trimmed_start(kept) == trimmed_start(kept.skip(start as int)),
        decreases end - start,
    {
        assert(kept.skip(start as int).skip(1) =~= kept.skip(start + 1));
        start = start + 1;
    }
    assert(trimmed_start(kept) == kept.skip(start as int));
    assert(kept.skip(start as int) =~= s@.subrange(start as int, end as int));
    string_of(&part_of(&chars, start, end))
}

/// A trimmed text has no white space at its ends.
pub proof fn trimmed_has_no_outer_space(s: Seq<char>)
    ensures
        trimmed(s).len() > 0 ==> !is_white_space(trimmed(s)[0]) && !is_white_space(
            trimmed(s).last(),
        ),
{
    end_is_trimmed(s);
    start_is_trimmed(trimmed_end(s));
}

proof fn end_is_trimmed(s: Seq<char>)
    ensures
        trimmed_end(s).len() > 0 ==> !is_white_space(trimmed_end(s).last()),
    decreases s.len(),
{
    if s.len() > 0 && is_white_space(s.last()) {
        end_is_trimmed(s.drop_last());
    }
}

proof fn start_is_trimmed(s: Seq<char>)
    ensures
        trimmed_start(s).len() > 0 ==> !is_white_space(trimmed_start(s)[0]) && trimmed_start(
            s,
        ).last() == s.last(),
    decreases s.len(),
{
    if s.len() > 0 && is_white_space(s[0]) {
        start_is_trimmed(s.skip(1));
    }
}

/// To trim a text twice is to trim it once.
pub proof fn trimming_is_idempotent(s: Seq<char>)
    ensures
        trimmed(trimmed(s)) == trimmed(s),
{
    trimmed_has_no_outer_space(s);
}

/// The words of a text: what stands between white space.
pub open spec fn words(s: Seq<char>) -> Seq<Seq<char>> {
    let (done, open) = word_scan(s);
    if open.len() > 0 {
        done.push(open)
    } else {
        done
    }
}

/// The words that end within a text, and the start of the one that may go on behind it.
pub open spec fn word_scan(s: Seq<char>) -> (Seq<Seq<char>>, Seq<char>)
    decreases s.len(),
{
    if s.len() == 0 {
        (Seq::empty(), Seq::empty())
    } else {
        let (done, open) = word_scan(s.drop_last());
        if !is_white_space(s.last()) {
            (done, open.push(s.last()))
        } else if open.len() > 0 {
            (done.push(open), Seq::empty())
        } else {
            (done, open)
        }
    }
}

/// Texts with a separator between them.
pub open spec fn joined(parts: Seq<Seq<char>>, separator: Seq<char>) -> Seq<char>
    decreases parts.len(),
{
    if parts.len() == 0 {
        Seq::empty()
    } else if parts.len() == 1 {
        parts[0]
    } else {
        joined(parts.drop_last(), separator) + separator + parts.last()
    }
}

/// The words of a text, with one blank between them.
pub fn single_spaced(s: &str) -> (r: String)
    ensures
        r@ == joined(words(s@), " "@),
{
    let chars = chars_of(s);
    let mut r = String::new();
    let mut word = String::new();
    let ghost mut done: Seq<Seq<char>> = Seq::empty();
    let mut i: usize = 0;
    assert(s@.take(0) =~= Seq::empty());
    while i < chars.len()
        invariant
            i <= chars.len(),
            chars@ == s@,
            word_scan(s@.take(i as int)) == (done, word@),
            r@ == joined(done, " "@),
            forall|k: int| 0 <= k < done.len() ==> (#[trigger] done[k]).len() > 0,
        decreases chars.len() - i,
    {
        let c = chars[i];
        assert(s@.take(i as int + 1).drop_last() =~= s@.take(i as int));
        if !white_space(c) {
            word.push(c);
        } else if !word.as_str().is_empty() {
            proof {
                join_one_more(done, word@);
            }
            r = with_word(r, word.as_str(), Ghost(done));
            proof {
                done = done.push(word@);
            }
            word = String::new();
        }
        i = i + 1;
    }
    assert(s@.take(s@.len() as int) =~= s@);
    if !word.as_str().is_empty() {
        proof {
            join_one_more(done, word@);
        }
        r = with_word(r, word.as_str(), Ghost(done));
    }
    r
}

fn with_word(text: String, word: &str, done: Ghost<Seq<Seq<char>>>) -> (r: String)
    requires
        text@ == joined(done@, " "@),
        forall|k: int| 0 <= k < done@.len() ==> (#[trigger] done@[k]).len() > 0,
    ensures
        r@ == joined(done@.push(word@), " "@),
{
    proof {
        join_one_more(done@, word@);
        joined_is_empty(done@);
    }
    if text.as_str().is_empty() {
        word.to_string()
    } else {
        let mut text = text;
        text.append(" ");
        text.append(word);
        text
    }
}

proof fn join_one_more(parts: Seq<Seq<char>>, part: Seq<char>)
    ensures
        joined(parts.push(part), " "@) == (if parts.len() == 0 {
            part
        } else {
            joined(parts, " "@) + " "@ + part
        }),
{
    assert(parts.push(part).drop_last() =~= parts);
}

proof fn joined_is_empty(parts: Seq<Seq<char>>)
    requires
        forall|k: int| 0 <= k < parts.len() ==> (#[trigger] parts[k]).len() > 0,
    ensures
        joined(parts, " "@).len() == 0 <==> parts.len() == 0,
{
    if parts.len() > 0 {
        assert(parts[parts.len() - 1].len() > 0);
    }
}

// ---------------------------------------------------------------------------
// Letters
// ---------------------------------------------------------------------------
/// A character with an ASCII capital made small.
pub open spec fn ascii_lower(c: char) -> char {
    if 'A' <= c && c <= 'Z' {
        ((c as u32 + 32) as u8) as char
    } else {
        c
    }
}

/// A text with ASCII capitals made small.
pub open spec fn lowered(s: Seq<char>) -> Seq<char> {
    Seq::new(s.len(), |i: int| ascii_lower(s[i]))
}

fn lower_char(c: char) -> (r: char)
    ensures
        r == ascii_lower(c),
{
    if 'A' <= c && c <= 'Z' {
        ((c as u32 + 32) as u8) as char
    } else {
        c
    }
}

fn lower_chars(s: &str) -> (r: Vec<char>)
    ensures
        r@ == lowered(s@),
{
    let chars = chars_of(s);
    let mut r: Vec<char> = Vec::new();
    let mut i: usize = 0;
    while i < chars.len()
        invariant
            i <= chars.len(),
            chars@ == s@,
            r@.len() == i,
            forall|k: int| 0 <= k < i ==> #[trigger] r@[k] == ascii_lower(s@[k]),
        decreases chars.len() - i,
    {
        r.push(lower_char(chars[i]));
        i = i + 1;
    }
    assert(r@ =~= lowered(s@));
    r
}

/// Whether a text stands within another at a position.
pub open spec fn stands_at(needle: Seq<char>, hay: Seq<char>, i: int) -> bool {
    0 <= i && i + needle.len() <= hay.len() && hay.subrange(i, i + needle.len()) == needle
}

/// Whether a text occurs in another.
pub open spec fn occurs_in(needle: Seq<char>, hay: Seq<char>) -> bool {
    exists|i: int| stands_at(needle, hay, i)
}

fn found_at(needle: &Vec<char>, hay: &Vec<char>, at: usize) -> (r: bool)
    requires
        at + needle@.len() <= hay@.len(),
    ensures
        r == stands_at(needle@, hay@, at as int),
{
    let total: usize = hay.len();
    let mut k: usize = 0;
    while k < needle.len()
        invariant
            k <= needle.len(),
            at + needle@.len() <= hay@.len(),
            total == hay@.len(),
            forall|j: int| 0 <= j < k ==> hay@[at + j] == #[trigger] needle@[j],
        decreases needle.len() - k,
    {
        if hay[at + k] != needle[k] {
            assert(hay@.subrange(at as int, at + needle@.len())[k as int] != needle@[k as int]);
            return false;
        }
        k = k + 1;
    }
    assert(hay@.subrange(at as int, at + needle@.len()) =~= needle@);
    true
}

fn contains(hay: &Vec<char>, needle: &Vec<char>) -> (r: bool)
    ensures
        r == occurs_in(needle@, hay@),
{
    if needle.len() > hay.len() {
        return false;
    }
    let last: usize = hay.len() - needle.len();
    let mut i: usize = 0;
    while i <= last
        invariant
            i <= last + 1,
            last == hay@.len() - needle@.len(),
            hay@.len() <= usize::MAX,
            last < usize::MAX || i <= last,
            forall|j: int| 0 <= j < i ==> !stands_at(needle@, hay@, j),
        decreases last + 1 - i,
    {
        if found_at(needle, hay, i) {
            return true;
        }
        if i == last {
            return false;
        }
        i = i + 1;
    }
    false
}

/// Whether a text matches a query: it occurs there without its outer white space, capital or
/// small. Everything matches a query of white space.
pub open spec fn query_matches(hay: Seq<char>, query: Seq<char>) -> bool {
    trimmed(query).len() == 0 || occurs_in(lowered(trimmed(query)), lowered(hay))
}

/// Whether a text matches a query.
pub fn matches_query(haystack: &str, query: &str) -> (r: bool)
    ensures
        r == query_matches(haystack@, query@),
{
    let query = trim(query);
    if query.as_str().is_empty() {
        return true;
    }
    contains(&lower_chars(haystack), &lower_chars(query.as_str()))
}

/// Whether a text starts with another.
pub open spec fn starts(s: Seq<char>, prefix: Seq<char>) -> bool {
    prefix.len() <= s.len() && s.take(prefix.len() as int) == prefix
}

/// Whether a text starts with another.
pub fn starts_with(s: &str, prefix: &str) -> (r: bool)
    ensures
        r == starts(s@, prefix@),
{
    let chars = chars_of(s);
    let start = chars_of(prefix);
    if start.len() > chars.len() {
        return false;
    }
    assert(s@.take(prefix@.len() as int) =~= s@.subrange(0, prefix@.len() as int));
    found_at(&start, &chars, 0)
}

// ---------------------------------------------------------------------------
// Widths
// ---------------------------------------------------------------------------
/// A number of blanks.
pub open spec fn blanks(n: int) -> Seq<char> {
    Seq::new(
        if n > 0 {
            n as nat
        } else {
            0
        },
        |i: int| ' ',
    )
}

/// Writes a number of blanks.
pub fn blanks_of(n: usize) -> (r: String)
    ensures
        r@ == blanks(n as int),
{
    let mut r = String::new();
    let mut i: usize = 0;
    assert(r@ =~= blanks(0));
    while i < n
        invariant
            i <= n,
            r@ == blanks(i as int),
        decreases n - i,
    {
        r.push(' ');
        i = i + 1;
        assert(r@ =~= blanks(i as int));
    }
    r
}

/// The first characters of a text, at most so many.
pub open spec fn first_chars(s: Seq<char>, n: int) -> Seq<char> {
    if n < s.len() {
        s.take(n)
    } else {
        s
    }
}

/// The first characters of a text, at most so many.
pub fn take_chars(s: &str, n: usize) -> (r: String)
    ensures
        r@ == first_chars(s@, n as int),
{
    let chars = chars_of(s);
    if n < chars.len() {
        assert(s@.take(n as int) =~= s@.subrange(0, n as int));
        string_of(&part_of(&chars, 0, n))
    } else {
        s.to_string()
    }
}

/// A text with its last character taken off, if it has one.
pub open spec fn shortened(text: Seq<char>) -> Seq<char> {
    if text.len() > 0 {
        text.drop_last()
    } else {
        text
    }
}

/// A text with its last character taken off, if it has one.
pub fn shorten(text: &str) -> (r: String)
    ensures
        r@ == shortened(text@),
{
    let mut chars = chars_of(text);
    let _ = chars.pop();
    assert(text@.len() == 0 ==> chars@ =~= text@);
    string_of(&chars)
}

/// How many characters a text has.
pub fn char_count(s: &str) -> (r: usize)
    ensures
        r == s@.len(),
{
    s.unicode_len()
}

// ---------------------------------------------------------------------------
// Lines
// ---------------------------------------------------------------------------
/// A line without a carriage return at its end.
pub open spec fn without_return(s: Seq<char>) -> Seq<char> {
    if s.len() > 0 && s.last() == '\r' {
        s.drop_last()
    } else {
        s
    }
}

/// The lines that end within a text, and the start of the one that may go on behind it.
pub open spec fn line_scan(s: Seq<char>) -> (Seq<Seq<char>>, Seq<char>)
    decreases s.len(),
{
    if s.len() == 0 {
        (Seq::empty(), Seq::empty())
    } else {
        let (done, open) = line_scan(s.drop_last());
        if s.last() == '\n' {
            (done.push(without_return(open)), Seq::empty())
        } else {
            (done, open.push(s.last()))
        }
    }
}

/// The lines of a text, without what ends them. What follows the last end of line is a line if
/// there is anything.
pub open spec fn lines(s: Seq<char>) -> Seq<Seq<char>> {
    let (done, open) = line_scan(s);
    if open.len() > 0 {
        done.push(open)
    } else {
        done
    }
}

/// The texts that strings hold.
pub open spec fn views(strings: Seq<String>) -> Seq<Seq<char>> {
    Seq::new(strings.len(), |i: int| strings[i]@)
}

fn chomped(line: &Vec<char>) -> (r: String)
    ensures
        r@ == without_return(line@),
{
    if line.len() > 0 && line[line.len() - 1] == '\r' {
        assert(line@.drop_last() =~= line@.subrange(0, line@.len() - 1));
        string_of(&part_of(line, 0, line.len() - 1))
    } else {
        string_of(line)
    }
}

/// The lines of a text.
pub fn lines_of(s: &str) -> (r: Vec<String>)
    ensures
        views(r@) == lines(s@),
{
    let chars = chars_of(s);
    let mut r: Vec<String> = Vec::new();
    let mut line: Vec<char> = Vec::new();
    let mut i: usize = 0;
    assert(s@.take(0) =~= Seq::empty());
    assert(views(r@) =~= Seq::empty());
    while i < chars.len()
        invariant
            i <= chars.len(),
            chars@ == s@,
            line_scan(s@.take(i as int)) == (views(r@), line@),
        decreases chars.len() - i,
    {
        let c = chars[i];
        let ghost before = r@;
        assert(s@.take(i as int + 1).drop_last() =~= s@.take(i as int));
        if c == '\n' {
            r.push(chomped(&line));
            assert(views(r@) =~= views(before).push(without_return(line@)));
            line = Vec::new();
        } else {
            line.push(c);
        }
        i = i + 1;
    }
    assert(s@.take(s@.len() as int) =~= s@);
    if line.len() > 0 {
        let ghost before = r@;
        r.push(string_of(&line));
        assert(views(r@) =~= views(before).push(line@));
    }
    r
}

// ---------------------------------------------------------------------------
// Numbers in texts
// ---------------------------------------------------------------------------
/// Whether a character is a decimal digit.
pub open spec fn is_decimal(c: char) -> bool {
    '0' <= c && c <= '9'
}

/// The number that decimal digits are; nothing where a character is no digit.
pub open spec fn digits_value(s: Seq<char>) -> Option<nat>
    decreases s.len(),
{
    if s.len() == 0 {
        Some(0)
    } else {
        match digits_value(s.drop_last()) {
            Some(front) => if is_decimal(s.last()) {
                Some(front * 10 + (s.last() as u32 - 48) as nat)
            } else {
                None
            },
            None => None,
        }
    }
}

/// The number up to a bound that a text is: decimal digits, perhaps behind a plus sign.
pub open spec fn number_of(s: Seq<char>, max: int) -> Option<nat> {
    let digits = if s.len() > 0 && s[0] == '+' {
        s.skip(1)
    } else {
        s
    };
    match digits_value(digits) {
        Some(value) => if digits.len() > 0 && value <= max {
            Some(value)
        } else {
            None
        },
        None => None,
    }
}

/// The number up to a bound that a text is.
pub fn parse_bounded(part: &Vec<char>, max: u64) -> (r: Option<u64>)
    requires
        max <= u32::MAX,
    ensures
        match number_of(part@, max as int) {
            Some(value) => r == Some(value as u64),
            None => r is None,
        },
        r matches Some(value) ==> value <= max,
{
    let start: usize = if part.len() > 0 && part[0] == '+' {
        1
    } else {
        0
    };
    let ghost digits = part@.skip(start as int);
    assert(start == 0 ==> digits =~= part@);
    if part.len() == start {
        return None;
    }
    let mut value: u64 = 0;
    let mut i: usize = start;
    assert(digits.take(0) =~= Seq::empty());
    while i < part.len()
        invariant
            start <= i <= part.len(),
            start <= 1,
            max <= u32::MAX,
            digits == part@.skip(start as int),
            start == 0 ==> digits == part@,
            start == 1 <==> (part@.len() > 0 && part@[0] == '+'),
            value <= max,
            digits_value(digits.take(i - start)) == Some(value as nat),
        decreases part.len() - i,
    {
        let c = part[i];
        let ghost seen = digits.take(i - start);
        let ghost more = digits.take(i - start + 1);
        assert(more.drop_last() =~= seen);
        assert(more.last() == c);
        if !('0' <= c && c <= '9') {
            proof {
                no_digits(digits, i - start + 1);
            }
            return None;
        }
        value = value * 10 + (c as u32 - 48) as u64;
        if value > max {
            proof {
                digits_grow(digits, i - start + 1);
            }
            return None;
        }
        i = i + 1;
    }
    assert(digits.take(digits.len() as int) =~= digits);
    Some(value)
}

/// Where the start of a text is no number, the text is none.
proof fn no_digits(s: Seq<char>, n: int)
    requires
        0 <= n <= s.len(),
        digits_value(s.take(n)) is None,
    ensures
        digits_value(s) is None,
    decreases s.len() - n,
{
    if n < s.len() {
        assert(s.take(n + 1).drop_last() =~= s.take(n));
        no_digits(s, n + 1);
    } else {
        assert(s.take(n) =~= s);
    }
}

/// A number does not get smaller with more digits.
proof fn digits_grow(s: Seq<char>, n: int)
    requires
        0 <= n <= s.len(),
        digits_value(s.take(n)) is Some,
    ensures
        digits_value(s) matches Some(value) ==> value >= digits_value(s.take(n))->0,
    decreases s.len() - n,
{
    if n < s.len() {
        assert(s.take(n + 1).drop_last() =~= s.take(n));
        if digits_value(s.take(n + 1)) is Some {
            digits_grow(s, n + 1);
        } else {
            no_digits(s, n + 1);
        }
    } else {
        assert(s.take(n) =~= s);
    }
}

/// The number below 2^32 that a text is.
pub fn parse_u32(text: &str) -> (r: Option<u32>)
    ensures
        match number_of(text@, u32::MAX as int) {
            Some(value) => r == Some(value as u32),
            None => r is None,
        },
{
    match parse_bounded(&chars_of(text), 4_294_967_295) {
        Some(value) => Some(value as u32),
        None => None,
    }
}

/// The number from a bound on and up to another that a text is: decimal digits, perhaps behind a
/// sign.
pub open spec fn signed_number_of(s: Seq<char>, min: int, max: int) -> Option<int> {
    if s.len() > 0 && s[0] == '-' {
        match digits_value(s.skip(1)) {
            Some(value) => if s.len() > 1 && -value >= min {
                Some(-value)
            } else {
                None
            },
            None => None,
        }
    } else {
        match number_of(s, max) {
            Some(value) => Some(value as int),
            None => None,
        }
    }
}

/// The number of 32 bits with a sign that a text is.
pub fn parse_i32(text: &str) -> (r: Option<i32>)
    ensures
        match signed_number_of(text@, i32::MIN as int, i32::MAX as int) {
            Some(value) => r == Some(value as i32),
            None => r is None,
        },
{
    let chars = chars_of(text);
    if chars.len() > 0 && chars[0] == '-' {
        let rest = part_of(&chars, 1, chars.len());
        assert(rest@ =~= text@.skip(1));
        if rest.len() > 0 && rest[0] == '+' {
            assert(rest@.take(1).drop_last() =~= Seq::empty());
            assert(digits_value(Seq::<char>::empty()) == Some(0nat));
            assert(digits_value(rest@.take(1)) is None);
            proof {
                no_digits(rest@, 1);
            }
            return None;
        }
        match parse_bounded(&rest, 2_147_483_648) {
            Some(value) => Some((-(value as i64)) as i32),
            None => None,
        }
    } else {
        match parse_bounded(&chars, 2_147_483_647) {
            Some(value) => Some(value as i32),
            None => None,
        }
    }
}

/// A number that is written in decimal notation is read back.
pub proof fn decimal_is_read_back(n: nat)
    ensures
        digits_value(decimal(n)) == Some(n),
        decimal(n).len() > 0,
        is_decimal(decimal(n)[0]),
        n <= u32::MAX ==> number_of(decimal(n), u32::MAX as int) == Some(n),
    decreases n,
{
    if n < 10 {
        assert(decimal(n).drop_last() =~= Seq::empty());
        assert(digits_value(Seq::<char>::empty()) == Some(0nat));
    } else {
        decimal_is_read_back(n / 10);
        assert(decimal(n).drop_last() =~= decimal(n / 10));
        assert(decimal(n)[0] == decimal(n / 10)[0]);
    }
}

} // verus!
