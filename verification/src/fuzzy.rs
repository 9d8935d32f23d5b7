//! Fuzzy search: whether the characters of a query stand in a text in their order, and how well.
use crate::text::{chars_of, lowered};
use vstd::prelude::*;

verus! {

/// What `str::to_lowercase` makes of a text.
pub uninterp spec fn lowercase_text(text: Seq<char>) -> Seq<char>;

/// Whether all characters of a text are in ASCII.
pub open spec fn is_ascii_text(text: Seq<char>) -> bool {
    forall|i: int| 0 <= i < text.len() ==> (#[trigger] text[i] as u32) < 128
}

/// `str::to_lowercase`.
///
/// Claimed: what comes out depends on the text alone, and of a text in ASCII only the capitals
/// change. Which letters Unicode counts as the small ones of others is left unsaid.
#[verifier::external_body]
fn lowercase(text: &str) -> (r: String)
    ensures
        r@ == lowercase_text(text@),
        is_ascii_text(text@) ==> r@ == lowered(text@),
{
    text.to_lowercase()
}

/// How many bytes a character takes in UTF-8.
pub open spec fn utf8_width(c: char) -> int {
    if (c as u32) < 0x80 {
        1
    } else if (c as u32) < 0x800 {
        2
    } else if (c as u32) < 0x10000 {
        3
    } else {
        4
    }
}

/// How many bytes the first characters of a text take.
pub open spec fn byte_offset(text: Seq<char>, n: int) -> int
    decreases n,
{
    if n <= 0 {
        0
    } else {
        byte_offset(text, n - 1) + utf8_width(text[n - 1])
    }
}

/// Where a character stands first from a place on.
pub open spec fn first_from(text: Seq<char>, c: char, start: int) -> Option<int>
    decreases text.len() - start,
{
    if start >= text.len() {
        None
    } else if text[start] == c {
        Some(start)
    } else {
        first_from(text, c, start + 1)
    }
}

/// What a character is worth that was found at a byte, where the one before it was found at
/// another: less with every byte that was passed over, more right behind the one before.
pub open spec fn gain(at: int, previous: Option<int>, c: char) -> int {
    match previous {
        Some(before) => 10 + (if at == before + utf8_width(c) {
            15int
        } else {
            0int
        }) - (if at > before + 1 {
            at - (before + 1)
        } else {
            0int
        }),
        None => 10 - at,
    }
}

/// What a query is worth in a text from a place on, each of its characters taken at the first
/// place behind the one before; nothing where one of them is missing.
pub open spec fn score_from(
    text: Seq<char>,
    start: int,
    previous: Option<int>,
    query: Seq<char>,
) -> Option<int>
    decreases query.len(),
{
    if query.len() == 0 {
        Some(0)
    } else {
        match first_from(text, query[0], start) {
            Some(i) => {
                let at = byte_offset(text, i);
                match score_from(text, i + 1, Some(at), query.skip(1)) {
                    Some(rest) => Some(gain(at, previous, query[0]) + rest),
                    None => None,
                }
            },
            None => None,
        }
    }
}

/// What a query is worth in a text, both in small letters.
pub open spec fn score(text: Seq<char>, query: Seq<char>) -> Option<int> {
    score_from(text, 0, None, query)
}

fn width_of(c: char) -> (r: i128)
    ensures
        r == utf8_width(c),
{
    let code: u32 = c as u32;
    if code < 0x80 {
        1
    } else if code < 0x800 {
        2
    } else if code < 0x10000 {
        3
    } else {
        4
    }
}

fn gain_of(at: i128, previous: Option<i128>, c: char) -> (r: i128)
    requires
        0 <= at <= 0x1_0000_0000_0000_0000_0000,
        previous matches Some(before) ==> 0 <= before <= 0x1_0000_0000_0000_0000_0000,
    ensures
        r == gain(
            at as int,
            match previous {
                Some(before) => Some(before as int),
                None => None,
            },
            c,
        ),
{
    match previous {
        Some(before) => {
            let mut worth: i128 = 10;
            if at == before + width_of(c) {
                worth = worth + 15;
            }
            if at > before + 1 {
                worth = worth - (at - (before + 1));
            }
            worth
        },
        None => 10 - at,
    }
}

/// What a query is worth in a text, both in small letters.
pub fn score_lowered(haystack: &str, needle: &str) -> (r: Option<i128>)
    ensures
        match score(haystack@, needle@) {
            Some(value) => r == Some(value as i128) && i128::MIN <= value <= i128::MAX,
            None => r is None,
        },
{
    let text = chars_of(haystack);
    let query = chars_of(needle);
    let mut total: i128 = 0;
    let mut previous: Option<i128> = None;
    let mut index: usize = 0;
    let mut offset: i128 = 0;
    let mut k: usize = 0;
    assert(query@.skip(0) =~= query@);
    while k < query.len()
        invariant
            k <= query.len(),
            index <= text.len(),
            text@ == haystack@,
            query@ == needle@,
            offset == byte_offset(text@, index as int),
            0 <= offset <= 4 * index,
            total <= 25 * k,
            match previous {
                Some(before) => 0 <= before < offset && total >= -before,
                None => total == 0,
            },
            match score_from(
                text@,
                index as int,
                match previous {
                    Some(before) => Some(before as int),
                    None => None,
                },
                query@.skip(k as int),
            ) {
                Some(rest) => score(text@, query@) == Some(total + rest),
                None => score(text@, query@) is None,
            },
        decreases query.len() - k,
    {
        let wanted = query[k];
        let ghost rest = query@.skip(k as int);
        assert(rest[0] == wanted);
        let ghost from = index as int;
        let ghost start = offset;
        while index < text.len() && text[index] != wanted
            invariant
                from <= index <= text.len(),
                offset == byte_offset(text@, index as int),
                start <= offset <= 4 * index,
                first_from(text@, wanted, from) == first_from(text@, wanted, index as int),
            decreases text.len() - index,
        {
            offset = offset + width_of(text[index]);
            index = index + 1;
        }
        if index >= text.len() {
            return None;
        }
        let worth = gain_of(offset, previous, wanted);
        assert(query@.skip(k as int).skip(1) =~= query@.skip(k as int + 1));
        total = total + worth;
        previous = Some(offset);
        offset = offset + width_of(wanted);
        index = index + 1;
        k = k + 1;
    }
    Some(total)
}

/// What a query is worth in a text: nothing is taken away for an empty one.
pub open spec fn fuzzy(haystack: Seq<char>, needle: Seq<char>) -> Option<int> {
    if needle.len() == 0 {
        Some(0)
    } else {
        score(lowercase_text(haystack), lowercase_text(needle))
    }
}

/// What a query is worth in a text, whatever the case of their letters.
pub fn fuzzy_score(haystack: &str, needle: &str) -> (r: Option<i128>)
    ensures
        is_ascii_text(haystack@) && is_ascii_text(needle@) && needle@.len() > 0 ==> match score(
            lowered(haystack@),
            lowered(needle@),
        ) {
            Some(value) => r == Some(value as i128),
            None => r is None,
        },
        match fuzzy(haystack@, needle@) {
            Some(value) => r == Some(value as i128) && i128::MIN <= value <= i128::MAX,
            None => r is None,
        },
{
    if chars_of(needle).len() == 0 {
        return Some(0);
    }
    score_lowered(lowercase(haystack).as_str(), lowercase(needle).as_str())
}

// ---------------------------------------------------------------------------
// Laws
// ---------------------------------------------------------------------------
/// Whether places of a text, one behind the other from `start` on, hold the characters of a query.
pub open spec fn holds_at(text: Seq<char>, start: int, query: Seq<char>, places: Seq<int>) -> bool {
    &&& places.len() == query.len()
    &&& forall|i: int|
        0 <= i < places.len() ==> start <= #[trigger] places[i] < text.len() && text[places[i]]
            == query[i]
    &&& forall|i: int, j: int|
        0 <= i < j < places.len() ==> #[trigger] places[i] < #[trigger] places[j]
}

/// A query is worth something in a text exactly where all its characters stand in it in their
/// order.
pub proof fn matches_hold_the_query(text: Seq<char>, query: Seq<char>)
    ensures
        score(text, query) is Some <==> exists|places: Seq<int>|
            holds_at(text, 0, query, places),
{
    if score(text, query) is Some {
        let places = greedy_places(text, 0, None, query);
        assert(holds_at(text, 0, query, places));
    }
    if exists|places: Seq<int>| holds_at(text, 0, query, places) {
        let places = choose|places: Seq<int>| holds_at(text, 0, query, places);
        embedded_is_found(text, 0, None, query, places);
    }
}

/// Where the search finds a character first.
proof fn first_from_is_first(text: Seq<char>, c: char, start: int)
    requires
        0 <= start,
    ensures
        match first_from(text, c, start) {
            Some(i) => start <= i < text.len() && text[i] == c && forall|k: int|
                start <= k < i ==> text[k] != c,
            None => forall|k: int| start <= k < text.len() ==> text[k] != c,
        },
    decreases text.len() - start,
{
    if start < text.len() && text[start] != c {
        first_from_is_first(text, c, start + 1);
    }
}

/// The places that the search takes.
proof fn greedy_places(
    text: Seq<char>,
    start: int,
    previous: Option<int>,
    query: Seq<char>,
) -> (places: Seq<int>)
    requires
        0 <= start,
        score_from(text, start, previous, query) is Some,
    ensures
        holds_at(text, start, query, places),
    decreases query.len(),
{
    if query.len() == 0 {
        Seq::empty()
    } else {
        first_from_is_first(text, query[0], start);
        let i = first_from(text, query[0], start)->0;
        let rest = greedy_places(text, i + 1, Some(byte_offset(text, i)), query.skip(1));
        let places = seq![i] + rest;
        assert forall|k: int| 0 <= k < places.len() implies start <= #[trigger] places[k]
            < text.len() && text[places[k]] == query[k] by {
            if k > 0 {
                assert(places[k] == rest[k - 1]);
                assert(query[k] == query.skip(1)[k - 1]);
            }
        }
        assert forall|a: int, b: int| 0 <= a < b < places.len() implies #[trigger] places[a]
            < #[trigger] places[b] by {
            assert(places[b] == rest[b - 1]);
            if a > 0 {
                assert(places[a] == rest[a - 1]);
            }
        }
        places
    }
}

/// A query whose characters stand in a text is found.
proof fn embedded_is_found(
    text: Seq<char>,
    start: int,
    previous: Option<int>,
    query: Seq<char>,
    places: Seq<int>,
)
    requires
        0 <= start,
        holds_at(text, start, query, places),
    ensures
        score_from(text, start, previous, query) is Some,
    decreases query.len(),
{
    if query.len() > 0 {
        first_from_is_first(text, query[0], start);
        assert(text[places[0]] == query[0]);
        let i = first_from(text, query[0], start)->0;
        assert(i <= places[0]);
        let rest = places.skip(1);
        assert forall|k: int| 0 <= k < rest.len() implies i + 1 <= #[trigger] rest[k] < text.len()
            && text[rest[k]] == query.skip(1)[k] by {
            assert(rest[k] == places[k + 1]);
            assert(places[0] < places[k + 1]);
        }
        embedded_is_found(text, i + 1, Some(byte_offset(text, i)), query.skip(1), rest);
    }
}

} // verus!
