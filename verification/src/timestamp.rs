//! Instants as whole seconds since 1970-01-01T00:00:00Z, their wire text,
//! and the validity window of an event.

use chrono::DateTime;
use vstd::prelude::*;

verus! {

/// 0000-01-01T00:00:00Z, the first instant whose year has four digits.
pub const FIRST_SECOND: i64 = -62_167_219_200;

/// 9999-12-31T23:59:59Z, the last instant whose year has four digits.
pub const LAST_SECOND: i64 = 253_402_300_799;

/// How long an event stays valid unless the caller says otherwise.
pub const DEFAULT_VALIDITY_MINUTES: i64 = 10;

/// The instants that can be written as `YYYY-MM-DDTHH:MM:SSZ`.
pub open spec fn in_calendar_range(secs: int) -> bool {
    FIRST_SECOND <= secs <= LAST_SECOND
}

/// The instant `minutes` minutes after `secs`.
pub open spec fn shifted(secs: int, minutes: int) -> int {
    secs + 60 * minutes
}

/// One of the ten decimal digits.
pub open spec fn is_digit(c: char) -> bool {
    '0' <= c <= '9'
}

/// The shape `YYYY-MM-DDTHH:MM:SSZ`: twenty characters, digits but for the
/// two hyphens, the `T`, the two colons and the closing `Z`.
pub open spec fn has_wire_shape(text: Seq<char>) -> bool {
    &&& text.len() == 20
    &&& text[4] == '-' && text[7] == '-'
    &&& text[10] == 'T'
    &&& text[13] == ':' && text[16] == ':'
    &&& text[19] == 'Z'
    &&& forall|i: int|
        0 <= i < 19 && i != 4 && i != 7 && i != 10 && i != 13 && i != 16 ==> is_digit(
            #[trigger] text[i],
        )
}

/// The date and time of an instant in the proleptic Gregorian calendar,
/// UTC, written as year, month, day, `T`, hour, minute, second and `Z`,
/// as chrono writes it.
pub uninterp spec fn utc_text(secs: int) -> Seq<char>;

/// Calls `chrono::DateTime::from_timestamp` with no nanoseconds and formats
/// the date and time with the pattern `%Y-%m-%dT%H:%M:%SZ`.
///
/// Trusted: chrono accepts every instant of years 0000 to 9999 (its own
/// range is wider); what it writes for an instant is `utc_text` of it; and
/// for a year of that range it writes four digits, as it always writes two
/// for month, day, hour, minute and second.
#[verifier::external_body]
fn format_utc(secs: i64) -> (text: Option<String>)
    ensures
        in_calendar_range(secs as int) ==> text is Some,
        text matches Some(t) ==> t@ == utc_text(secs as int),
        text matches Some(t) ==> in_calendar_range(secs as int) ==> has_wire_shape(t@),
{
    match DateTime::from_timestamp(secs, 0) {
        Some(instant) => Some(instant.format("%Y-%m-%dT%H:%M:%SZ").to_string()),
        None => None,
    }
}

/// The wire text of `secs`, or `None` where its year has not four digits.
pub fn iso8601(secs: i64) -> (text: Option<String>)
    ensures
        text is Some <==> in_calendar_range(secs as int),
        text matches Some(t) ==> t@ == utc_text(secs as int) && has_wire_shape(t@),
{
    if secs < FIRST_SECOND || secs > LAST_SECOND {
        None
    } else {
        format_utc(secs)
    }
}

/// The wire text of the instant `minutes` minutes after `secs`, or `None`
/// where the year of that instant has not four digits.
pub fn iso8601_plus(secs: i64, minutes: i64) -> (text: Option<String>)
    ensures
        text is Some <==> in_calendar_range(shifted(secs as int, minutes as int)),
        text matches Some(t) ==> t@ == utc_text(shifted(secs as int, minutes as int))
            && has_wire_shape(t@),
{
    let later: i128 = secs as i128 + 60 * (minutes as i128);
    if later < FIRST_SECOND as i128 || later > LAST_SECOND as i128 {
        None
    } else {
        format_utc(later as i64)
    }
}

/// The three instants of a validity window, as plain integers.
pub struct WindowInstants {
    pub start: int,
    pub time: int,
    pub stale: int,
}

/// What holds of every window: the event starts when it was captured, goes
/// stale strictly later, and both instants can be written on the wire.
pub open spec fn window_ordered(w: WindowInstants) -> bool {
    &&& w.start == w.time
    &&& w.time < w.stale
    &&& in_calendar_range(w.start)
    &&& in_calendar_range(w.stale)
}

/// The validity window of one event: when it starts, when it was captured
/// and when it goes stale.
#[derive(Clone, Copy, Debug, PartialEq, Eq)]
pub struct TimeWindow {
    start: i64,
    time: i64,
    stale: i64,
}

impl View for TimeWindow {
    type V = WindowInstants;

    closed spec fn view(&self) -> WindowInstants {
        WindowInstants { start: self.start as int, time: self.time as int, stale: self.stale as int }
    }
}

impl TimeWindow {
    #[verifier::type_invariant]
    spec fn well_formed(self) -> bool {
        window_ordered(self@)
    }

    /// The captures and validities for which a window exists.
    pub open spec fn admits(capture: int, validity_minutes: int) -> bool {
        &&& validity_minutes > 0
        &&& in_calendar_range(capture)
        &&& in_calendar_range(shifted(capture, validity_minutes))
    }

    /// The window of an event captured at `capture` that stays valid for
    /// `validity_minutes` minutes; `None` where the validity is not
    /// positive or an end of the window cannot be written on the wire.
    pub fn opening_at(capture: i64, validity_minutes: i64) -> (window: Option<TimeWindow>)
        ensures
            window is Some <==> Self::admits(capture as int, validity_minutes as int),
            window matches Some(w) ==> {
                &&& w@.start == capture
                &&& w@.time == capture
                &&& w@.stale == shifted(capture as int, validity_minutes as int)
            },
    {
        if validity_minutes <= 0 || capture < FIRST_SECOND || capture > LAST_SECOND {
            return None;
        }
        let stale: i128 = capture as i128 + 60 * (validity_minutes as i128);
        if stale > LAST_SECOND as i128 {
            return None;
        }
        Some(TimeWindow { start: capture, time: capture, stale: stale as i64 })
    }

    /// The instant at which the event starts.
    pub fn start(&self) -> (secs: i64)
        ensures
            secs == self@.start,
            window_ordered(self@),
    {
        proof {
            use_type_invariant(self);
        }
        self.start
    }

    /// The instant at which the position was captured.
    pub fn time(&self) -> (secs: i64)
        ensures
            secs == self@.time,
            window_ordered(self@),
    {
        proof {
            use_type_invariant(self);
        }
        self.time
    }

    /// The instant after which the event has expired.
    pub fn stale(&self) -> (secs: i64)
        ensures
            secs == self@.stale,
            window_ordered(self@),
    {
        proof {
            use_type_invariant(self);
        }
        self.stale
    }
}

/// The wire text of an instant that is known to lie in the calendar range.
pub(crate) fn wire_text(secs: i64) -> (text: String)
    requires
        in_calendar_range(secs as int),
    ensures
        text@ == utc_text(secs as int),
        has_wire_shape(text@),
{
    match format_utc(secs) {
        Some(text) => text,
        None => String::new(),
    }
}

} // verus!
