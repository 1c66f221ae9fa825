use vstd::prelude::*;
use vstd::string::StringSliceAdditionalSpecFns;

use crate::decimal::{numeral_value, parse_usize};
use crate::error::BotError;

verus! {

/// The bytes of `TMP:2 m`, the marker of the 2 m temperature record in a report index.
pub open spec fn temperature_marker() -> Seq<u8> {
    seq![84u8, 77u8, 80u8, 58u8, 50u8, 32u8, 109u8]
}

/// The end of the line that starts at `i`: the position of the next `\n`, or the text's end.
pub open spec fn line_end(t: Seq<u8>, i: int) -> int
    decreases t.len() - i,
{
    if i < 0 || i >= t.len() {
        t.len() as int
    } else if t[i] == 10 {
        i
    } else {
        line_end(t, i + 1)
    }
}

/// The line that starts at `i`, without its line break (`\n` or `\r\n`).
pub open spec fn line_at(t: Seq<u8>, i: int) -> Seq<u8> {
    let raw = t.subrange(i, line_end(t, i));
    if raw.len() > 0 && raw.last() == 13 {
        raw.drop_last()
    } else {
        raw
    }
}

/// Whether the marker occurs in `s` at position `k`.
pub open spec fn marker_at(s: Seq<u8>, k: int) -> bool {
    0 <= k && k + 7 <= s.len() && s.subrange(k, k + 7) == temperature_marker()
}

/// Whether the marker occurs anywhere in `s`.
pub open spec fn has_marker(s: Seq<u8>) -> bool {
    exists|k: int| #[trigger] marker_at(s, k)
}

/// The start of the first line, at or after the line starting at `i`, that holds the marker.
pub open spec fn marker_line_from(t: Seq<u8>, i: int) -> Option<int>
    decreases t.len() - i,
{
    if i < 0 || i >= t.len() {
        None
    } else if has_marker(line_at(t, i)) {
        Some(i)
    } else {
        let e = line_end(t, i);
        if e < i || e >= t.len() {
            None
        } else {
            marker_line_from(t, e + 1)
        }
    }
}

/// The position of the first `:` in `s` at or after `i`, or the end of `s`.
pub open spec fn colon_from(s: Seq<u8>, i: int) -> int
    decreases s.len() - i,
{
    if i < 0 || i >= s.len() {
        s.len() as int
    } else if s[i] == 58 {
        i
    } else {
        colon_from(s, i + 1)
    }
}

/// The second `:`-separated field of a line, if the line has a `:`.
pub open spec fn second_field(s: Seq<u8>) -> Option<Seq<u8>> {
    let c = colon_from(s, 0);
    if c >= s.len() {
        None
    } else {
        Some(s.subrange(c + 1, colon_from(s, c + 1)))
    }
}

/// The byte offset an index line records in its second field, if that field is a numeral that
/// fits in `usize`.
pub open spec fn line_offset(s: Seq<u8>) -> Option<nat> {
    match second_field(s) {
        None => None,
        Some(f) => match numeral_value(f) {
            Some(v) => if v <= usize::MAX {
                Some(v)
            } else {
                None
            },
            None => None,
        },
    }
}

/// The byte range of the 2 m temperature record: the offsets recorded on the first line that
/// holds the marker and on the line after it.
pub open spec fn index_range(t: Seq<u8>) -> Option<(nat, nat)> {
    match marker_line_from(t, 0) {
        None => None,
        Some(i) => {
            let j = line_end(t, i) + 1;
            if j >= t.len() {
                None
            } else {
                match (line_offset(line_at(t, i)), line_offset(line_at(t, j))) {
                    (Some(a), Some(b)) => Some((a, b)),
                    _ => None,
                }
            }
        },
    }
}

fn find_line_end(t: &[u8], i: usize) -> (r: usize)
    requires
        i <= t@.len(),
    ensures
        r == line_end(t@, i as int),
        i <= r <= t@.len(),
{
    let mut j = i;
    while j < t.len() && t[j] != 10
        invariant
            i <= j <= t@.len(),
            line_end(t@, i as int) == line_end(t@, j as int),
        decreases t@.len() - j,
    {
        j = j + 1;
    }
    j
}

fn find_colon(s: &[u8], i: usize) -> (r: usize)
    requires
        i <= s@.len(),
    ensures
        r == colon_from(s@, i as int),
        i <= r <= s@.len(),
{
    let mut j = i;
    while j < s.len() && s[j] != 58
        invariant
            i <= j <= s@.len(),
            colon_from(s@, i as int) == colon_from(s@, j as int),
        decreases s@.len() - j,
    {
        j = j + 1;
    }
    j
}

/// The line starting at `i` and the position just past its `\n` (or the text's end).
fn line_bounds(t: &[u8], i: usize) -> (r: (usize, usize))
    requires
        i <= t@.len(),
    ensures
        i <= r.0 <= t@.len(),
        t@.subrange(i as int, r.0 as int) == line_at(t@, i as int),
        r.1 == line_end(t@, i as int),
        r.0 <= r.1 <= t@.len(),
{
    let e = find_line_end(t, i);
    let ghost raw = t@.subrange(i as int, e as int);
    if e > i && t[e - 1] == 13 {
        assert(raw.drop_last() =~= t@.subrange(i as int, e - 1));
        (e - 1, e)
    } else {
        (e, e)
    }
}

fn contains_marker(s: &[u8]) -> (r: bool)
    ensures
        r == has_marker(s@),
{
    if s.len() < 7 {
        assert forall|k: int| !marker_at(s@, k) by {}
        return false;
    }
    let last = s.len() - 7;
    let mut k: usize = 0;
    while k <= last
        invariant
            last + 7 == s@.len(),
            k <= last + 1,
            forall|m: int| 0 <= m < k ==> !#[trigger] marker_at(s@, m),
        decreases s@.len() - k,
    {
        if s[k] == 84 && s[k + 1] == 77 && s[k + 2] == 80 && s[k + 3] == 58 && s[k + 4] == 50
            && s[k + 5] == 32 && s[k + 6] == 109 {
            assert(s@.subrange(k as int, k + 7) =~= temperature_marker());
            assert(marker_at(s@, k as int));
            return true;
        }
        assert(s@.subrange(k as int, k + 7)[0] == s@[k as int]);
        assert(!marker_at(s@, k as int)) by {
            if marker_at(s@, k as int) {
                let w = s@.subrange(k as int, k + 7);
                assert(w[0] == s@[k as int] && w[1] == s@[k + 1] && w[2] == s@[k + 2] && w[3]
                    == s@[k + 3] && w[4] == s@[k + 4] && w[5] == s@[k + 5] && w[6] == s@[k + 6]);
            }
        }
        k = k + 1;
    }
    assert forall|m: int| !marker_at(s@, m) by {}
    false
}

fn offset_of_line(line: &[u8]) -> (r: Result<usize, BotError>)
    ensures
        line_offset(line@) matches Some(v) ==> r == Ok::<usize, BotError>(v as usize),
        line_offset(line@) is None ==> r == Err::<usize, BotError>(BotError::IndexMalformed),
{
    let c = find_colon(line, 0);
    if c >= line.len() {
        return Err(BotError::IndexMalformed);
    }
    let c2 = find_colon(line, c + 1);
    match parse_usize(&line[c + 1..c2]) {
        Some(v) => Ok(v),
        None => Err(BotError::IndexMalformed),
    }
}

/// The byte offset recorded in an index line: its second `:`-separated field, read as an
/// unsigned integer. Fails with `IndexMalformed` when the line has no `:` or the field is not a
/// numeral that fits in `usize`.
pub fn parse_byte_offset_from_line(line: &str) -> (r: Result<usize, BotError>)
    ensures
        line_offset(line.spec_bytes()) matches Some(v) ==> r == Ok::<usize, BotError>(v as usize),
        line_offset(line.spec_bytes()) is None ==> r == Err::<usize, BotError>(
            BotError::IndexMalformed,
        ),
{
    offset_of_line(line.as_bytes())
}

/// The byte range `(start, end)` of the 2 m temperature record in the text of a report index:
/// the offsets on the first line that holds `TMP:2 m` and on the line after it. Fails with
/// `IndexMalformed` when there is no such line, no line after it, or an offset is malformed.
pub fn index_byte_range(text: &[u8]) -> (r: Result<(usize, usize), BotError>)
    ensures
        index_range(text@) matches Some((a, b)) ==> r == Ok::<(usize, usize), BotError>(
            (a as usize, b as usize),
        ),
        index_range(text@) is None ==> r == Err::<(usize, usize), BotError>(
            BotError::IndexMalformed,
        ),
{
    let n = text.len();
    let mut i: usize = 0;
    while i < n
        invariant
            n == text@.len(),
            i <= n,
            marker_line_from(text@, 0) == marker_line_from(text@, i as int),
        decreases n - i,
    {
        let (le, e) = line_bounds(text, i);
        if contains_marker(&text[i..le]) {
            assert(marker_line_from(text@, i as int) == Some(i as int));
            if e >= n - 1 {
                return Err(BotError::IndexMalformed);
            }
            let (le2, _) = line_bounds(text, e + 1);
            let a = offset_of_line(&text[i..le])?;
            let b = offset_of_line(&text[e + 1..le2])?;
            return Ok((a, b));
        }
        if e >= n {
            return Err(BotError::IndexMalformed);
        }
        i = e + 1;
    }
    Err(BotError::IndexMalformed)
}

} // verus!
