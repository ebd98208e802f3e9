use vstd::prelude::*;
use vstd::string::{StrSliceExecFns, StringExecFns};
use chrono::{Offset, TimeZone};
use chrono_tz::Tz;
use iso8061_timestamp::Timestamp;
use crate::instant::{UtcInstant, trunc_secs, instant_of_secs};
use crate::text::{same_text, opt_chars};

verus! {

/// Milliseconds since the epoch of an ISO 8601 timestamp with its offset applied,
/// or `None` where the text is not one.
pub uninterp spec fn timestamp_ms(s: Seq<char>) -> Option<i64>;

/// The UTC second at which the wall-clock second `local_secs` (counted as if the
/// wall clock were UTC) occurs in the named zone, where there is exactly one.
pub uninterp spec fn utc_of_local(zone: Seq<char>, local_secs: i64) -> Option<i64>;

/// Seconds that the named zone's wall clock is ahead of UTC at the UTC second `utc_secs`.
pub uninterp spec fn zone_offset(zone: Seq<char>, utc_secs: i64) -> Option<i64>;

/// Whether `c` is an ASCII digit.
pub open spec fn is_digit(c: char) -> bool {
    '0' <= c && c <= '9'
}

/// The value of the ASCII digit at position `i`.
pub open spec fn digit_at(s: Seq<char>, i: int) -> int {
    (s[i] as u32) as int - 48
}

/// The two-digit number at positions `i` and `i + 1`.
pub open spec fn two_digits(s: Seq<char>, i: int) -> int {
    10 * digit_at(s, i) + digit_at(s, i + 1)
}

/// The compact absolute form `YYYYMMDDTHHMMSSZ`: eight digits, `T`, six digits, `Z`.
pub open spec fn compact_utc_text(s: Seq<char>) -> bool {
    &&& s.len() == 16
    &&& s[8] == 'T'
    &&& s[15] == 'Z'
    &&& forall|i: int| 0 <= i < 16 && i != 8 && i != 15 ==> is_digit(#[trigger] s[i])
}

/// The year of a compact timestamp text.
pub open spec fn compact_year(s: Seq<char>) -> int {
    100 * two_digits(s, 0) + two_digits(s, 2)
}

/// Whether `y` is a Gregorian leap year.
pub open spec fn is_leap_year(y: int) -> bool {
    y % 4 == 0 && (y % 100 != 0 || y % 400 == 0)
}

/// The number of days in month `m` of year `y`.
pub open spec fn month_days(y: int, m: int) -> int {
    if m == 2 {
        if is_leap_year(y) {
            29
        } else {
            28
        }
    } else if m == 4 || m == 6 || m == 9 || m == 11 {
        30
    } else {
        31
    }
}

/// A compact timestamp text whose fields name a real date and time of day (a second
/// of 60, a leap second, is accepted).
pub open spec fn valid_compact_fields(s: Seq<char>) -> bool {
    let m = two_digits(s, 4);
    let d = two_digits(s, 6);
    &&& 1 <= m <= 12
    &&& 1 <= d <= month_days(compact_year(s), m)
    &&& two_digits(s, 9) <= 23
    &&& two_digits(s, 11) <= 59
    &&& two_digits(s, 13) <= 60
}

/// A compact timestamp text whose time of day is `000000`.
pub open spec fn midnight_text(s: Seq<char>) -> bool {
    two_digits(s, 9) == 0 && two_digits(s, 11) == 0 && two_digits(s, 13) == 0
}

/// Milliseconds since the epoch of the first instant of year 0.
pub const FIRST_MS: i64 = -62_167_219_200_000;

/// Milliseconds since the epoch of the first instant of year 10000.
pub const END_MS: i64 = 253_402_300_800_000;

/// Relies on `iso8061_timestamp::Timestamp::parse` (which the crate re-exports from
/// iso8601-timestamp) and `Timestamp::to_unix_timestamp_ms`. On the compact form the
/// parse applies no offset, so it cannot leave the years 0 to 9999; it succeeds
/// exactly where the date and time of day exist; and a time of day of zero gives a
/// whole number of days.
#[verifier::external_body]
fn parse_timestamp(s: &str) -> (r: Option<i64>)
    requires
        compact_utc_text(s@),
    ensures
        r == timestamp_ms(s@),
        r is Some <==> valid_compact_fields(s@),
        r matches Some(ms) ==> FIRST_MS <= ms < END_MS,
        r matches Some(ms) ==> (midnight_text(s@) ==> ms % 86_400_000 == 0),
{
    Timestamp::parse(s).map(|t| t.to_unix_timestamp_ms())
}

/// Whether `s` has the compact absolute form `YYYYMMDDTHHMMSSZ`.
pub fn is_compact_utc(s: &str) -> (r: bool)
    ensures
        r == compact_utc_text(s@),
{
    let n = s.unicode_len();
    if n != 16 {
        return false;
    }
    let mut i: usize = 0;
    while i < 16
        invariant
            n == s@.len(),
            n == 16,
            i <= 16,
            forall|j: int| 0 <= j < i && j != 8 && j != 15 ==> is_digit(#[trigger] s@[j]),
            i > 8 ==> s@[8] == 'T',
            i > 15 ==> s@[15] == 'Z',
        decreases 16 - i,
    {
        let c = s.get_char(i);
        if i == 8 {
            if c != 'T' {
                return false;
            }
        } else if i == 15 {
            if c != 'Z' {
                return false;
            }
        } else if !('0' <= c && c <= '9') {
            return false;
        }
        i += 1;
    }
    true
}

/// Relies on chrono's `TimeZone::from_local_datetime` for chrono-tz's `Tz` (the zone
/// found by its IANA name through `FromStr`), taking only a `Single` result: the UTC
/// instant whose local time in the zone is the given wall-clock time.
#[verifier::external_body]
fn local_to_utc_secs(zone: &str, local_secs: i64) -> (r: Option<i64>)
    ensures
        r == utc_of_local(zone@, local_secs),
        r matches Some(u) ==> (zone_offset(zone@, u) matches Some(o) && u + o == local_secs && -86400
            < o < 86400),
{
    let tz: Tz = zone.parse().ok()?;
    let local = chrono::DateTime::from_timestamp(local_secs, 0)?.naive_utc();
    tz.from_local_datetime(&local).single().map(|d| d.timestamp())
}

/// Relies on chrono's `TimeZone::offset_from_utc_datetime` for chrono-tz's `Tz` (found
/// by its IANA name through `FromStr`): the zone's offset at that UTC instant, which
/// as a `FixedOffset` lies strictly within one day.
#[verifier::external_body]
pub(crate) fn utc_offset_secs(zone: &str, utc_secs: i64) -> (r: Option<i64>)
    ensures
        r == zone_offset(zone@, utc_secs),
        r matches Some(o) ==> -86400 < o < 86400,
{
    let tz: Tz = zone.parse().ok()?;
    let utc = chrono::DateTime::from_timestamp(utc_secs, 0)?.naive_utc();
    Some(tz.offset_from_utc_datetime(&utc).fix().local_minus_utc() as i64)
}

/// The first parameter of a property: its name and its first listed value, if any.
pub open spec fn first_param(params: Option<Vec<(String, Vec<String>)>>) -> Option<
    (Seq<char>, Option<Seq<char>>),
> {
    match params {
        None => None,
        Some(v) => if v@.len() == 0 {
            None
        } else {
            Some(
                (
                    v@[0].0@,
                    if v@[0].1@.len() == 0 {
                        None
                    } else {
                        Some(v@[0].1@[0]@)
                    },
                ),
            )
        },
    }
}

/// The milliseconds of a timestamp text in compact absolute form, if it parses;
/// `None` for any other form.
pub open spec fn compact_ms(s: Seq<char>) -> Option<i64> {
    if compact_utc_text(s) {
        timestamp_ms(s)
    } else {
        None
    }
}

/// The instant that a compact absolute timestamp text denotes, if it parses.
pub open spec fn parsed_instant(s: Seq<char>) -> Option<UtcInstant> {
    match compact_ms(s) {
        Some(ms) => Some(UtcInstant { unix_ms: ms }),
        None => None,
    }
}

/// The wall-clock second that a zone-less local timestamp text encodes, read as if it were UTC.
pub open spec fn wall_secs(s: Seq<char>) -> Option<int> {
    match compact_ms(s + "Z"@) {
        Some(ms) => Some(trunc_secs(ms as int)),
        None => None,
    }
}

/// The wall-clock second in the named zone at instant `i`.
pub open spec fn wall_clock_of(zone: Seq<char>, i: UtcInstant) -> Option<int> {
    match zone_offset(zone, trunc_secs(i.unix_ms as int) as i64) {
        Some(o) => Some(trunc_secs(i.unix_ms as int) + o),
        None => None,
    }
}

/// The normalised instant of a timestamp property with `value` and first parameter `param`.
pub open spec fn normalized(
    value: Option<Seq<char>>,
    param: Option<(Seq<char>, Option<Seq<char>>)>,
) -> Option<UtcInstant> {
    match param {
        None => match value {
            Some(s) => parsed_instant(s),
            None => None,
        },
        Some((k, first)) => if k == "TZID"@ {
            match (first, value) {
                (Some(zone), Some(s)) => match wall_secs(s) {
                    Some(wall) => match utc_of_local(zone, wall as i64) {
                        Some(u) => instant_of_secs(u as int),
                        None => None,
                    },
                    None => None,
                },
                _ => None,
            }
        } else if k == "VALUE"@ && first == Some("DATE"@) {
            match value {
                Some(s) => parsed_instant(s + "T000000Z"@),
                None => None,
            }
        } else {
            None
        },
    }
}

/// Where a `TZID` property normalised to instant `i`, the zone's wall clock at `i`
/// shows the wall-clock time that the value encodes.
pub open spec fn zone_round_trips(
    value: Option<Seq<char>>,
    param: Option<(Seq<char>, Option<Seq<char>>)>,
    r: Option<UtcInstant>,
) -> bool {
    match (param, r) {
        (Some((k, Some(zone))), Some(i)) => k == "TZID"@ ==> match value {
            Some(s) => match wall_secs(s) {
                Some(wall) => wall_clock_of(zone, i) == Some(wall),
                None => false,
            },
            None => false,
        },
        _ => true,
    }
}

/// A `VALUE=DATE` property normalises to the instant of its value with a midnight UTC
/// time of day appended: it succeeds exactly where that text is a real compact date
/// and time, and then falls on a whole day.
pub open spec fn date_at_midnight_text(
    value: Option<Seq<char>>,
    param: Option<(Seq<char>, Option<Seq<char>>)>,
    r: Option<UtcInstant>,
) -> bool {
    match (param, value) {
        (Some((k, Some(d))), Some(s)) => (k == "VALUE"@ && d == "DATE"@) ==> {
            let t = s + "T000000Z"@;
            &&& r == parsed_instant(t)
            &&& (r is Some <==> (compact_utc_text(t) && valid_compact_fields(t)))
            &&& (r matches Some(i) ==> i.unix_ms % 86_400_000 == 0)
        },
        _ => true,
    }
}

/// A `TZID` property with a value succeeds exactly where the value with `Z` appended
/// is a real compact timestamp and that wall-clock time occurs exactly once in the zone.
pub open spec fn zone_success(
    value: Option<Seq<char>>,
    param: Option<(Seq<char>, Option<Seq<char>>)>,
    r: Option<UtcInstant>,
) -> bool {
    match (param, value) {
        (Some((k, Some(zone))), Some(s)) => k == "TZID"@ ==> (r is Some <==> (wall_secs(s) matches Some(
            w,
        ) && utc_of_local(zone, w as i64) is Some)),
        _ => true,
    }
}

fn parse_instant(s: &str) -> (r: Option<UtcInstant>)
    ensures
        r == parsed_instant(s@),
        r is Some <==> (compact_utc_text(s@) && valid_compact_fields(s@)),
        r matches Some(i) ==> FIRST_MS <= i.unix_ms < END_MS,
        r matches Some(i) ==> (midnight_text(s@) ==> i.unix_ms % 86_400_000 == 0),
{
    if !is_compact_utc(s) {
        return None;
    }
    match parse_timestamp(s) {
        Some(ms) => Some(UtcInstant::from_unix_ms(ms)),
        None => None,
    }
}

proof fn lemma_whole_secs_fit(ms: int, u: int)
    requires
        FIRST_MS <= ms < END_MS,
        trunc_secs(ms) - 86400 < u < trunc_secs(ms) + 86400,
    ensures
        instant_of_secs(u) is Some,
{
    assert(-62_167_219_200 <= trunc_secs(ms) <= 253_402_300_800);
    assert(-62_167_219_200 - 86400 < u < 253_402_300_800 + 86400);
    assert(i64::MIN as int <= u * 1000 <= i64::MAX as int) by (nonlinear_arith)
        requires
            -62_167_219_200 - 86400 < u < 253_402_300_800 + 86400,
    ;
}

proof fn lemma_midnight_suffix(d: Seq<char>)
    requires
        compact_utc_text(d + "T000000Z"@),
    ensures
        midnight_text(d + "T000000Z"@),
{
    reveal_strlit("T000000Z");
    let s = d + "T000000Z"@;
    assert(d.len() == 8);
    assert(s[9] == '0' && s[10] == '0' && s[11] == '0' && s[12] == '0' && s[13] == '0' && s[14]
        == '0');
}

proof fn lemma_param_keys_differ()
    ensures
        "TZID"@ != "VALUE"@,
{
    reveal_strlit("TZID");
    reveal_strlit("VALUE");
    assert("TZID"@.len() != "VALUE"@.len());
}

proof fn lemma_trunc_secs_of_whole(u: int)
    ensures
        trunc_secs(u * 1000) == u,
{
    if u >= 0 {
        assert((u * 1000) / 1000 == u) by (nonlinear_arith);
    } else {
        assert(-(u * 1000) == (-u) * 1000) by (nonlinear_arith);
        assert(((-u) * 1000) / 1000 == -u) by (nonlinear_arith);
    }
}

/// Normalises a timestamp property into an absolute UTC instant.
///
/// Without parameters the value must itself be an absolute timestamp in the compact
/// form `YYYYMMDDTHHMMSSZ`; any other form gives `None`. Only the first
/// parameter is consulted: `TZID` reads the value as a wall-clock time in the zone it
/// names, `VALUE=DATE` reads it as a date at midnight UTC, and anything else gives `None`.
/// A zone-less value converted to UTC through its zone reads back, through that zone's
/// offset at the resulting instant, as the same wall-clock time.
pub fn normalize(value: &Option<String>, params: &Option<Vec<(String, Vec<String>)>>) -> (r:
    Option<UtcInstant>)
    ensures
        r == normalized(opt_chars(*value), first_param(*params)),
        first_param(*params) is None ==> match *value {
            Some(s) => r == parsed_instant(s@) && (r is Some <==> (compact_utc_text(s@)
                && valid_compact_fields(s@))),
            None => r is None,
        },
        zone_round_trips(opt_chars(*value), first_param(*params), r),
        zone_success(opt_chars(*value), first_param(*params), r),
        date_at_midnight_text(opt_chars(*value), first_param(*params), r),
{
    let has_param = match params {
        Some(ps) => ps.len() > 0,
        None => false,
    };
    if !has_param {
        return match value {
            Some(v) => parse_instant(v.as_str()),
            None => None,
        };
    }
    let ps = params.as_ref().unwrap();
    let key = &ps[0].0;
    let vals = &ps[0].1;
    proof {
        lemma_param_keys_differ();
    }
    if same_text(key.as_str(), "TZID") {
        if vals.len() == 0 {
            return None;
        }
        let zone = vals[0].as_str();
        match value {
            None => None,
            Some(v) => {
                let mut s = v.clone();
                s.append("Z");
                match parse_instant(s.as_str()) {
                    None => None,
                    Some(local) => {
                        let wall = local.unix_secs();
                        match local_to_utc_secs(zone, wall) {
                            None => None,
                            Some(u) => {
                                proof {
                                    lemma_trunc_secs_of_whole(u as int);
                                    lemma_whole_secs_fit(local.unix_ms as int, u as int);
                                }
                                UtcInstant::from_unix_secs(u)
                            },
                        }
                    },
                }
            },
        }
    } else if same_text(key.as_str(), "VALUE") {
        if vals.len() == 0 {
            return None;
        }
        if !same_text(vals[0].as_str(), "DATE") {
            return None;
        }
        match value {
            None => None,
            Some(v) => {
                let mut s = v.clone();
                s.append("T000000Z");
                proof {
                    if compact_utc_text(s@) {
                        lemma_midnight_suffix(v@);
                    }
                }
                parse_instant(s.as_str())
            },
        }
    } else {
        None
    }
}

} // verus!
