use chrono::{Datelike, Offset, TimeZone, Timelike};
use vstd::prelude::*;
use vstd::string::{StrSliceExecFns, StringExecFns};

use crate::error::BotError;

verus! {

/// Whether the zone database bundled with the time-zone crate knows `name`.
pub uninterp spec fn known_zone(name: Seq<char>) -> bool;

/// The UTC calendar fields `(year, month, day, hour)` of a timestamp in seconds, if the calendar
/// library can represent it.
pub uninterp spec fn utc_civil(timestamp: i64) -> Option<(i32, u32, u32, u32)>;

/// Relies on chrono_tz's `Tz::from_str`: a name parses exactly when it is a key of the crate's
/// zone table, and "UTC" is one of them.
#[verifier::external_body]
pub(crate) fn zone_is_known(name: &str) -> (r: bool)
    ensures
        r == known_zone(name@),
        name@ == "UTC"@ ==> r,
{
    <chrono_tz::Tz as std::str::FromStr>::from_str(name).is_ok()
}

/// Relies on chrono's `DateTime::<Utc>::from_timestamp` and its `year`, `month`, `day` and
/// `hour` accessors: the calendar fields of the instant, or nothing when it is out of range.
#[verifier::external_body]
pub(crate) fn civil_utc(timestamp: i64) -> (r: Option<(i32, u32, u32, u32)>)
    ensures
        r == utc_civil(timestamp),
{
    match chrono::DateTime::from_timestamp(timestamp, 0) {
        Some(t) => Some((t.year(), t.month(), t.day(), t.hour())),
        None => None,
    }
}

/// The calendar date `(year, month, day)` of a timestamp in the zone named `zone`, if the zone is
/// known and the instant representable.
pub uninterp spec fn local_date(timestamp: i64, zone: Seq<char>) -> Option<(i32, u32, u32)>;

/// Relies on chrono_tz's `Tz::from_str` and `offset_from_utc_datetime`, and on chrono's
/// `DateTime::from_timestamp` and `NaiveDateTime::checked_add_offset`: the local calendar date of
/// the instant in that zone, or nothing when the zone is unknown or the instant or its local time
/// is out of chrono's range.
#[verifier::external_body]
pub(crate) fn local_date_in(timestamp: i64, zone: &str) -> (r: Option<(i32, u32, u32)>)
    ensures
        r == local_date(timestamp, zone@),
{
    let tz = match <chrono_tz::Tz as std::str::FromStr>::from_str(zone) {
        Ok(tz) => tz,
        Err(_) => return None,
    };
    let utc = match chrono::DateTime::from_timestamp(timestamp, 0) {
        Some(t) => t.naive_utc(),
        None => return None,
    };
    match utc.checked_add_offset(tz.offset_from_utc_datetime(&utc).fix()) {
        Some(local) => Some((local.year(), local.month(), local.day())),
        None => None,
    }
}

/// Lexicographic order on character sequences, by code point.
pub open spec fn chars_lt(a: Seq<char>, b: Seq<char>) -> bool
    decreases a.len(),
{
    if a.len() == 0 {
        b.len() > 0
    } else if b.len() == 0 {
        false
    } else if a[0] != b[0] {
        (a[0] as u32) < (b[0] as u32)
    } else {
        chars_lt(a.drop_first(), b.drop_first())
    }
}

/// A UTC instant in whole seconds, shown in an IANA time zone.
#[derive(Clone, Debug)]
pub struct DateTimeZoned {
    pub timestamp: i64,
    pub zone: String,
}

/// Instants are ordered by their UTC moment, ties broken by zone name.
pub open spec fn zoned_lt(a: DateTimeZoned, b: DateTimeZoned) -> bool {
    a.timestamp < b.timestamp || (a.timestamp == b.timestamp && chars_lt(a.zone@, b.zone@))
}

/// Two instants are the same key when moment and zone name agree.
pub open spec fn zoned_eq(a: DateTimeZoned, b: DateTimeZoned) -> bool {
    a.timestamp == b.timestamp && a.zone@ == b.zone@
}

impl PartialEq for DateTimeZoned {
    fn eq(&self, other: &DateTimeZoned) -> (r: bool) {
        self.timestamp == other.timestamp && self.zone == other.zone
    }
}

impl vstd::std_specs::cmp::PartialEqSpecImpl for DateTimeZoned {
    open spec fn obeys_eq_spec() -> bool {
        true
    }

    open spec fn eq_spec(&self, other: &DateTimeZoned) -> bool {
        zoned_eq(*self, *other)
    }
}

/// No sequence orders before itself.
pub proof fn lemma_chars_lt_irreflexive(a: Seq<char>)
    ensures
        !chars_lt(a, a),
    decreases a.len(),
{
    if a.len() > 0 {
        lemma_chars_lt_irreflexive(a.drop_first());
    }
}

/// The order on sequences is transitive.
pub proof fn lemma_chars_lt_transitive(a: Seq<char>, b: Seq<char>, c: Seq<char>)
    requires
        chars_lt(a, b),
        chars_lt(b, c),
    ensures
        chars_lt(a, c),
    decreases a.len(),
{
    if a.len() > 0 && a[0] == b[0] && b[0] == c[0] {
        lemma_chars_lt_transitive(a.drop_first(), b.drop_first(), c.drop_first());
    }
}

/// Any two distinct sequences are ordered one way or the other.
pub proof fn lemma_chars_lt_total(a: Seq<char>, b: Seq<char>)
    requires
        a != b,
    ensures
        chars_lt(a, b) || chars_lt(b, a),
    decreases a.len(),
{
    if a.len() == 0 && b.len() == 0 {
        assert(a =~= b);
    }
    if a.len() > 0 && b.len() > 0 {
        if a[0] == b[0] {
            if a.drop_first() == b.drop_first() {
                assert(a =~= seq![a[0]] + a.drop_first());
                assert(b =~= seq![b[0]] + b.drop_first());
            }
            lemma_chars_lt_total(a.drop_first(), b.drop_first());
        } else {
            vstd::utf8::char_u32_cast(a[0], a[0] as u32);
            vstd::utf8::char_u32_cast(b[0], b[0] as u32);
            assert(a[0] as u32 != b[0] as u32);
        }
    }
}

/// Zoned instants are strictly and totally ordered: by moment, then by zone name.
pub proof fn lemma_zoned_order(a: DateTimeZoned, b: DateTimeZoned, c: DateTimeZoned)
    ensures
        !zoned_lt(a, a),
        zoned_lt(a, b) && zoned_lt(b, c) ==> zoned_lt(a, c),
        zoned_eq(a, b) || zoned_lt(a, b) || zoned_lt(b, a),
        zoned_lt(a, b) ==> !zoned_eq(a, b) && !zoned_lt(b, a),
{
    lemma_chars_lt_irreflexive(a.zone@);
    if zoned_lt(a, b) && zoned_lt(b, c) && a.timestamp == b.timestamp && b.timestamp
        == c.timestamp {
        lemma_chars_lt_transitive(a.zone@, b.zone@, c.zone@);
    }
    if a.timestamp == b.timestamp && a.zone@ != b.zone@ {
        lemma_chars_lt_total(a.zone@, b.zone@);
    }
    if zoned_lt(a, b) && a.timestamp == b.timestamp && chars_lt(b.zone@, a.zone@) {
        lemma_chars_lt_transitive(a.zone@, b.zone@, a.zone@);
    }
}

proof fn lemma_chars_lt_skip(a: Seq<char>, b: Seq<char>, i: int)
    requires
        0 <= i < a.len(),
        i < b.len(),
        a[i] == b[i],
    ensures
        chars_lt(a.skip(i), b.skip(i)) == chars_lt(a.skip(i + 1), b.skip(i + 1)),
{
    assert(a.skip(i).drop_first() =~= a.skip(i + 1));
    assert(b.skip(i).drop_first() =~= b.skip(i + 1));
}

/// Whether `a` comes strictly before `b` in code-point lexicographic order.
pub fn str_lt(a: &str, b: &str) -> (r: bool)
    ensures
        r == chars_lt(a@, b@),
{
    let la = a.unicode_len();
    let lb = b.unicode_len();
    let mut i: usize = 0;
    assert(a@.skip(0) =~= a@);
    assert(b@.skip(0) =~= b@);
    while i < la && i < lb
        invariant
            la == a@.len(),
            lb == b@.len(),
            i <= la,
            i <= lb,
            chars_lt(a@, b@) == chars_lt(a@.skip(i as int), b@.skip(i as int)),
        decreases la - i,
    {
        let ca = a.get_char(i);
        let cb = b.get_char(i);
        if ca != cb {
            assert(a@.skip(i as int)[0] == ca);
            assert(b@.skip(i as int)[0] == cb);
            return (ca as u32) < (cb as u32);
        }
        proof {
            lemma_chars_lt_skip(a@, b@, i as int);
        }
        i = i + 1;
    }
    i < lb && i == la
}

/// Whether two instants fall on the same calendar day in the second one's zone.
pub open spec fn same_day(d1: DateTimeZoned, d2: DateTimeZoned) -> bool {
    local_date(d1.timestamp, d2.zone@) is Some && local_date(d1.timestamp, d2.zone@) == local_date(
        d2.timestamp,
        d2.zone@,
    )
}

/// Whether `d1` falls on the same calendar day as `d2`, both read in `d2`'s zone.
pub fn check_dates_match(d1: &DateTimeZoned, d2: &DateTimeZoned) -> (r: bool)
    ensures
        r == same_day(*d1, *d2),
{
    let a = local_date_in(d1.timestamp, d2.zone.as_str());
    let b = local_date_in(d2.timestamp, d2.zone.as_str());
    match (a, b) {
        (Some(x), Some(y)) => x.0 == y.0 && x.1 == y.1 && x.2 == y.2,
        _ => false,
    }
}

/// The positions of the instants that fall on the same calendar day as `day`, in `day`'s zone,
/// in order.
pub fn same_day_positions(times: &Vec<DateTimeZoned>, day: &DateTimeZoned) -> (r: Vec<usize>)
    ensures
        forall|k: int| 0 <= k < r@.len() ==> r@[k] < times@.len() && same_day(times@[#[trigger] r@[k] as int], *day),
        forall|i: int| 0 <= i < times@.len() && same_day(#[trigger] times@[i], *day) ==> r@.contains(i as usize),
        forall|a: int, b: int| 0 <= a < b < r@.len() ==> #[trigger] r@[a] < #[trigger] r@[b],
{
    let mut out: Vec<usize> = Vec::new();
    let mut i: usize = 0;
    while i < times.len()
        invariant
            i <= times@.len(),
            forall|k: int| 0 <= k < out@.len() ==> out@[k] < i && same_day(times@[#[trigger] out@[k] as int], *day),
            forall|j: int| 0 <= j < i && same_day(#[trigger] times@[j], *day) ==> out@.contains(j as usize),
            forall|a: int, b: int| 0 <= a < b < out@.len() ==> #[trigger] out@[a] < #[trigger] out@[b],
        decreases times@.len() - i,
    {
        let ghost prev = out@;
        if check_dates_match(&times[i], day) {
            out.push(i);
            assert(out@[out@.len() - 1] == i);
        }
        proof {
            assert forall|j: int| 0 <= j < i + 1 && same_day(#[trigger] times@[j], *day) implies out@.contains(j as usize) by {
                if j < i {
                    assert(prev.contains(j as usize));
                    let k = choose|k: int| 0 <= k < prev.len() && prev[k] == j as usize;
                    assert(out@[k] == j as usize);
                } else {
                    assert(out@[out@.len() - 1] == i);
                }
            }
        }
        i = i + 1;
    }
    out
}

impl DateTimeZoned {
    /// An instant at `timestamp` seconds shown in `zone`; fails when the zone is unknown.
    pub fn new(timestamp: i64, zone: &str) -> (r: Result<DateTimeZoned, BotError>)
        ensures
            r matches Ok(z) ==> z.timestamp == timestamp && z.zone@ == zone@,
            r is Ok <==> known_zone(zone@),
            r matches Err(e) ==> e == BotError::ZoneUnknown,
    {
        if zone_is_known(zone) {
            Ok(DateTimeZoned { timestamp, zone: String::from_str(zone) })
        } else {
            Err(BotError::ZoneUnknown)
        }
    }

    /// An instant at `timestamp` seconds shown in UTC.
    pub fn utc(timestamp: i64) -> (r: DateTimeZoned)
        ensures
            r.timestamp == timestamp,
            r.zone@ == "UTC"@,
            r.wf(),
    {
        let zone = String::from_str("UTC");
        let known = zone_is_known("UTC");
        assert(known);
        DateTimeZoned { timestamp, zone }
    }

    /// A zoned instant is well formed when its zone is known.
    pub open spec fn wf(&self) -> bool {
        known_zone(self.zone@)
    }

    /// A copy of this instant.
    pub fn duplicate(&self) -> (r: DateTimeZoned)
        ensures
            r == *self,
    {
        DateTimeZoned { timestamp: self.timestamp, zone: self.zone.clone() }
    }

    /// Whether this instant orders strictly before `other`.
    pub fn precedes(&self, other: &DateTimeZoned) -> (r: bool)
        ensures
            r == zoned_lt(*self, *other),
    {
        if self.timestamp != other.timestamp {
            self.timestamp < other.timestamp
        } else {
            str_lt(self.zone.as_str(), other.zone.as_str())
        }
    }

    /// Whether this instant and `other` are the same key.
    pub fn same_as(&self, other: &DateTimeZoned) -> (r: bool)
        ensures
            r == zoned_eq(*self, *other),
    {
        self.timestamp == other.timestamp && self.zone == other.zone
    }

    /// The instant `hours` hours later, in the same zone; `None` when the timestamp would overflow.
    pub fn plus_hours(&self, hours: i64) -> (r: Option<DateTimeZoned>)
        ensures
            r is Some <==> i64::MIN <= 3600 * hours <= i64::MAX && i64::MIN <= self.timestamp + 3600
                * hours <= i64::MAX,
            r matches Some(z) ==> z.timestamp == self.timestamp + 3600 * hours && z.zone@
                == self.zone@,
    {
        match hours.checked_mul(3600) {
            None => None,
            Some(delta) => match self.timestamp.checked_add(delta) {
                None => None,
                Some(t) => Some(DateTimeZoned { timestamp: t, zone: self.zone.clone() }),
            },
        }
    }
}

} // verus!
