use vstd::prelude::*;
use vstd::string::{StrSliceExecFns, StringExecFns};
use crate::error::HcsError;
use crate::instant::{UtcInstant, SECS_PER_DAY};
use crate::normalize::{utc_offset_secs, wall_clock_of};
use crate::window::WindowEvent;

verus! {

/// The zone in which event times are shown.
pub const DISPLAY_ZONE: &'static str = "Europe/Bucharest";

/// Summaries longer than this many characters are cut in compact form.
pub const COMPACT_SUMMARY_LEN: usize = 16;

/// The second of the local day in the named zone at instant `i`.
pub open spec fn local_second_of_day(zone: Seq<char>, i: UtcInstant) -> Option<int> {
    match wall_clock_of(zone, i) {
        Some(w) => Some(w % 86400),
        None => None,
    }
}

/// The decimal digit `d`.
pub open spec fn digit(d: int) -> char {
    "0123456789"@[d]
}

/// `HH:MM` for the second `sod` of a day.
pub open spec fn clock_text(sod: int) -> Seq<char> {
    let h = sod / 3600;
    let m = (sod % 3600) / 60;
    seq![digit(h / 10), digit(h % 10), ':', digit(m / 10), digit(m % 10)]
}

/// A summary cut to its first sixteen characters, with an ellipsis where it was longer.
pub open spec fn shortened(s: Seq<char>) -> Seq<char> {
    if s.len() > COMPACT_SUMMARY_LEN {
        s.subrange(0, COMPACT_SUMMARY_LEN as int) + "..."@
    } else {
        s
    }
}

/// The compact line for an event at local clock `clock` with summary `summary`.
pub open spec fn compact_line(clock: Seq<char>, summary: Seq<char>) -> Seq<char> {
    "<fc=#00ed8a>"@ + clock + "</fc> <fc=#00d9ed>"@ + shortened(summary) + "</fc>"@
}

/// The compact line shown when no event is selected.
pub open spec fn compact_none() -> Seq<char> {
    "<fc=#00ed8a>N/A</fc>"@
}

/// The second of the local day in the named zone at instant `i`, or `None` where the
/// zone or the instant is out of reach.
pub fn local_second(zone: &str, i: UtcInstant) -> (r: Option<i64>)
    ensures
        match local_second_of_day(zone@, i) {
            Some(d) => r == Some(d as i64) && 0 <= d < 86400,
            None => r is None,
        },
{
    let secs = i.unix_secs();
    let off = match utc_offset_secs(zone, secs) {
        Some(o) => o,
        None => {
            return None;
        },
    };
    let local = secs + off;
    let shift: i64 = 200_000_000_000;
    let nonneg: i64 = local + SECS_PER_DAY * shift;
    let sod = nonneg % SECS_PER_DAY;
    proof {
        vstd::arithmetic::div_mod::lemma_mod_multiples_vanish(
            shift as int,
            local as int,
            86400,
        );
        assert(nonneg as int == 86400 * (shift as int) + local as int);
    }
    Some(sod)
}

fn push_digit(s: &mut String, d: i64)
    requires
        0 <= d < 10,
    ensures
        final(s)@ == old(s)@.push(digit(d as int)),
{
    let digits = "0123456789";
    proof {
        reveal_strlit("0123456789");
    }
    let one = digits.substring_char(d as usize, (d + 1) as usize);
    s.append(one);
    assert(one@ =~= seq![digit(d as int)]);
}

/// `HH:MM` for a second of the day.
pub fn clock(sod: i64) -> (r: String)
    requires
        0 <= sod < 86400,
    ensures
        r@ == clock_text(sod as int),
{
    let h = sod / 3600;
    let m = (sod % 3600) / 60;
    let mut s = String::new();
    push_digit(&mut s, h / 10);
    push_digit(&mut s, h % 10);
    s.append(":");
    proof {
        reveal_strlit(":");
    }
    push_digit(&mut s, m / 10);
    push_digit(&mut s, m % 10);
    assert(s@ =~= clock_text(sod as int));
    s
}

/// The local `HH:MM` start time and the summary of a selected event; a `MissingStart`
/// where either is absent or the start cannot be shown in the zone.
pub fn event_line(e: &WindowEvent, zone: &str) -> (r: Result<(String, String), HcsError>)
    ensures
        match (e.start, e.summary) {
            (Some(i), Some(s)) => match local_second_of_day(zone@, i) {
                Some(d) => r matches Ok((t, u)) && t@ == clock_text(d) && u@ == s@,
                None => r == Err::<(String, String), HcsError>(HcsError::MissingStart {  }),
            },
            _ => r == Err::<(String, String), HcsError>(HcsError::MissingStart {  }),
        },
{
    let start = match e.start {
        Some(i) => i,
        None => {
            return Err(HcsError::MissingStart {  });
        },
    };
    let summary = match &e.summary {
        Some(s) => s.clone(),
        None => {
            return Err(HcsError::MissingStart {  });
        },
    };
    match local_second(zone, start) {
        Some(sod) => Ok((clock(sod), summary)),
        None => Err(HcsError::MissingStart {  }),
    }
}

/// A summary cut to its first sixteen characters, with `...` appended where it was longer.
pub fn shorten_summary(s: &str) -> (r: String)
    ensures
        r@ == shortened(s@),
{
    let n = s.unicode_len();
    if n > COMPACT_SUMMARY_LEN {
        let mut out = String::from_str(s.substring_char(0, COMPACT_SUMMARY_LEN));
        out.append("...");
        out
    } else {
        String::from_str(s)
    }
}

/// The compact rendering of the next event: its colour-tagged local start time and
/// shortened summary, or a tagged `N/A` where there is none.
pub fn compact_next(o: &Option<WindowEvent>, zone: &str) -> (r: Result<String, HcsError>)
    ensures
        match o {
            None => r matches Ok(t) && t@ == compact_none(),
            Some(e) => match (e.start, e.summary) {
                (Some(i), Some(s)) => match local_second_of_day(zone@, i) {
                    Some(d) => r matches Ok(t) && t@ == compact_line(clock_text(d), s@),
                    None => r == Err::<String, HcsError>(HcsError::MissingStart {  }),
                },
                _ => r == Err::<String, HcsError>(HcsError::MissingStart {  }),
            },
        },
{
    match o {
        None => Ok(String::from_str("<fc=#00ed8a>N/A</fc>")),
        Some(e) => {
            let (t, u) = match event_line(e, zone) {
                Ok(p) => p,
                Err(err) => {
                    return Err(err);
                },
            };
            let short = shorten_summary(u.as_str());
            let mut line = String::from_str("<fc=#00ed8a>");
            line.append(t.as_str());
            line.append("</fc> <fc=#00d9ed>");
            line.append(short.as_str());
            line.append("</fc>");
            Ok(line)
        },
    }
}

} // verus!
