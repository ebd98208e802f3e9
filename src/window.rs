use vstd::prelude::*;
use crate::error::HcsError;
use crate::instant::{UtcInstant, MS_PER_DAY};

verus! {

/// A half-open UTC interval `[start, end)` bounding an event query.
#[derive(Debug, Clone, Copy, PartialEq, Eq, Structural)]
pub struct TimeWindow {
    pub start: UtcInstant,
    pub end: UtcInstant,
}

/// An event as a window query returns it.
#[derive(Debug, Clone)]
pub struct WindowEvent {
    pub start: Option<UtcInstant>,
    pub summary: Option<String>,
}

/// The instant `ms` milliseconds after `i`, where that fits.
pub open spec fn shifted(i: UtcInstant, ms: int) -> Option<UtcInstant> {
    if i64::MIN as int <= i.unix_ms + ms <= i64::MAX as int {
        Some(UtcInstant { unix_ms: (i.unix_ms + ms) as i64 })
    } else {
        None
    }
}

/// The 24-hour window that begins at `start`, where its end fits.
pub open spec fn day_from(start: UtcInstant) -> Option<TimeWindow> {
    match shifted(start, MS_PER_DAY as int) {
        Some(end) => Some(TimeWindow { start, end }),
        None => None,
    }
}

fn one_day_later(i: UtcInstant) -> (r: Option<UtcInstant>)
    ensures
        r == shifted(i, MS_PER_DAY as int),
{
    if i.unix_ms > i64::MAX - MS_PER_DAY {
        None
    } else {
        Some(UtcInstant { unix_ms: i.unix_ms + MS_PER_DAY })
    }
}

fn day_window(start: UtcInstant, e: HcsError) -> (r: Result<TimeWindow, HcsError>)
    ensures
        match day_from(start) {
            Some(w) => r == Ok::<TimeWindow, HcsError>(w),
            None => r == Err::<TimeWindow, HcsError>(e),
        },
{
    match one_day_later(start) {
        Some(end) => Ok(TimeWindow { start, end }),
        None => Err(e),
    }
}

/// The window of the day that begins at `day_start` (local midnight, as a UTC instant):
/// it ends 24 hours later, and is a `TodayError` where that end overflows.
pub fn today_window(day_start: UtcInstant) -> (r: Result<TimeWindow, HcsError>)
    ensures
        match day_from(day_start) {
            Some(w) => r == Ok::<TimeWindow, HcsError>(w),
            None => r == Err::<TimeWindow, HcsError>(HcsError::TodayError {  }),
        },
        r matches Ok(w) ==> w.start == day_start && w.end.unix_ms - w.start.unix_ms == MS_PER_DAY,
{
    day_window(day_start, HcsError::TodayError {  })
}

/// The start of the day after the one that begins at `today_start`; a `TomorrowError`
/// where it overflows.
pub fn tomorrow_start(today_start: UtcInstant) -> (r: Result<UtcInstant, HcsError>)
    ensures
        match shifted(today_start, MS_PER_DAY as int) {
            Some(t) => r == Ok::<UtcInstant, HcsError>(t),
            None => r == Err::<UtcInstant, HcsError>(HcsError::TomorrowError {  }),
        },
{
    match one_day_later(today_start) {
        Some(t) => Ok(t),
        None => Err(HcsError::TomorrowError {  }),
    }
}

/// The next 24 hours from `now`: starts at `now` and ends 24 hours later; a
/// `NextError` where that end overflows.
pub fn next_window(now: UtcInstant) -> (r: Result<TimeWindow, HcsError>)
    ensures
        match day_from(now) {
            Some(w) => r == Ok::<TimeWindow, HcsError>(w),
            None => r == Err::<TimeWindow, HcsError>(HcsError::NextError {  }),
        },
        r is Ok <==> now.unix_ms + MS_PER_DAY <= i64::MAX,
        r matches Ok(w) ==> w.start == now && w.end.unix_ms - w.start.unix_ms == MS_PER_DAY,
{
    day_window(now, HcsError::NextError {  })
}

/// The earliest event of a window query's result, which the store returns in
/// ascending order of start: its first element, if any.
pub fn select_next(events: Vec<WindowEvent>) -> (r: Option<WindowEvent>)
    ensures
        r == (if events@.len() == 0 {
            None
        } else {
            Some(events@[0])
        }),
{
    let mut events = events;
    if events.len() == 0 {
        None
    } else {
        Some(events.remove(0))
    }
}

/// The query for the events of one day.
pub struct TodayEventQuery;

impl TodayEventQuery {
    /// The events of the store's reply, in the order given; a `TodayError` where the
    /// reply carried no data.
    pub fn events(data: Option<Vec<WindowEvent>>) -> (r: Result<Vec<WindowEvent>, HcsError>)
        ensures
            match data {
                Some(v) => r == Ok::<Vec<WindowEvent>, HcsError>(v),
                None => r == Err::<Vec<WindowEvent>, HcsError>(HcsError::TodayError {  }),
            },
    {
        match data {
            Some(v) => Ok(v),
            None => Err(HcsError::TodayError {  }),
        }
    }
}

/// The query for the next event within 24 hours.
pub struct NextEventQuery;

impl NextEventQuery {
    /// The first event of the store's reply, if any; a `NextError` where the reply
    /// carried no data.
    pub fn next_event(data: Option<Vec<WindowEvent>>) -> (r: Result<Option<WindowEvent>, HcsError>)
        ensures
            match data {
                Some(v) => r == Ok::<Option<WindowEvent>, HcsError>(
                    if v@.len() == 0 {
                        None
                    } else {
                        Some(v@[0])
                    },
                ),
                None => r == Err::<Option<WindowEvent>, HcsError>(HcsError::NextError {  }),
            },
    {
        match data {
            Some(v) => Ok(select_next(v)),
            None => Err(HcsError::NextError {  }),
        }
    }
}

} // verus!
