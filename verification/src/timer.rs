//! Timing of the Tatkal window: when it opens for a class, how long remains,
//! and how the wait for it proceeds.
use vstd::prelude::*;
use crate::booking::{opening_hour, TrainClass};
use crate::text::{append_signed_decimal, append_two_digit, decimal, signed_decimal, two_digit};
use chrono::Timelike;

verus! {

/// The time left until a moment, as chrono's `TimeDelta` reports it: whole
/// milliseconds, whole seconds and whole minutes, each truncated toward zero,
/// and the nanoseconds past the whole seconds (of the same sign).
#[derive(Clone, Copy, Debug, PartialEq, Eq, Structural)]
pub struct TimeLeft {
    pub millis: i64,
    pub seconds: i64,
    pub minutes: i64,
    pub subsec_nanos: i32,
}

/// `a` divided by `d` as Rust's `/` computes it: truncated toward zero.
pub open spec fn truncated_div(a: int, d: int) -> int {
    if a >= 0 { a / d } else { -((-a) / d) }
}

/// Whether the parts of a time left agree as those of one chrono `TimeDelta`
/// do: the nanoseconds lie within a second and share the sign of the
/// seconds, the milliseconds are the seconds and the whole milliseconds of
/// the nanoseconds, and the minutes are the seconds divided by sixty.
pub open spec fn consistent(t: TimeLeft) -> bool {
    &&& -1_000_000_000 < t.subsec_nanos < 1_000_000_000
    &&& t.seconds > 0 ==> t.subsec_nanos >= 0
    &&& t.seconds < 0 ==> t.subsec_nanos <= 0
    &&& t.millis == t.seconds * 1000 + truncated_div(t.subsec_nanos as int, 1_000_000)
    &&& t.minutes == truncated_div(t.seconds as int, 60)
}

/// The time left until a moment, with the local time zone's offset from UTC
/// (seconds east) at that moment.
#[derive(Clone, Copy, Debug, PartialEq, Eq, Structural)]
pub struct Countdown {
    pub left: TimeLeft,
    pub target_offset_secs: i32,
}

/// One reading of the local clock: the time of day, the local time zone's
/// offset from UTC (seconds east), and the countdown to an hour of today,
/// absent where today's time at that hour is not a single instant of the
/// local time zone (a gap or an overlap).
#[derive(Clone, Copy, Debug, PartialEq, Eq)]
pub struct ClockReading {
    pub hour: u32,
    pub minute: u32,
    pub second: u32,
    pub nanos: u32,
    pub offset_secs: i32,
    pub until: Option<Countdown>,
}

/// The seconds of the day at a reading of the clock.
pub open spec fn seconds_of_day(c: ClockReading) -> int {
    c.hour * 3600 + c.minute * 60 + c.second
}

/// A time left counted in nanoseconds.
pub open spec fn total_nanos(t: TimeLeft) -> int {
    t.seconds * 1_000_000_000 + t.subsec_nanos
}

/// Whether a reading of the clock is one taken for `hour`: a time of day
/// within a day, offsets within a day, and, where the countdown is present,
/// a time left whose parts agree as chrono's do and which is exactly the
/// distance from now to `hour`:00:00 today in local time, corrected by the
/// change of the offset from UTC between the two instants.
pub open spec fn reading_at(c: ClockReading, hour: u32) -> bool {
    &&& c.hour < 24 && c.minute < 60 && c.second < 60 && c.nanos < 1_000_000_000
    &&& -86400 < c.offset_secs < 86400
    &&& c.until matches Some(u) ==> {
        &&& consistent(u.left)
        &&& -86400 < u.target_offset_secs < 86400
        &&& total_nanos(u.left) == (hour * 3600 - seconds_of_day(c) - u.target_offset_secs + c.offset_secs)
            * 1_000_000_000 - c.nanos
    }
}

/// One reading of the local clock by chrono (`Local::now`), with the time
/// from it until `hour`:00:00 of its date (`and_hms_opt`, then the single
/// instant of that local time, `and_local_timezone(..).single()`, and
/// `signed_duration_since`).  The parts are the hour, minute, second and
/// nanosecond of the time of day, the offset (`local_minus_utc`), and, when
/// the instant exists, the whole seconds and the nanoseconds of the time
/// left (`num_seconds`, `subsec_nanos`) and the offset at that instant.
/// Trusted: chrono's fields lie in their documented ranges (a reading from
/// the system clock holds no leap second, offsets lie strictly within a
/// day), `subsec_nanos` shares the sign of `num_seconds` and together they
/// give the time left in nanoseconds, and a local time is the instant plus
/// its offset, so that the time left is the distance between the two local
/// times corrected by the change of offset.  Which instant is read depends
/// on the clock.
#[verifier::external_body]
pub(crate) fn read_clock(hour: u32) -> (r: (u32, u32, u32, u32, i32, Option<(i64, i32, i32)>))
    requires
        hour < 24,
    ensures
        r.0 < 24 && r.1 < 60 && r.2 < 60 && r.3 < 1_000_000_000,
        -86400 < r.4 < 86400,
        r.5 matches Some(u) ==> {
            &&& -1_000_000_000 < u.1 < 1_000_000_000
            &&& u.0 > 0 ==> u.1 >= 0
            &&& u.0 < 0 ==> u.1 <= 0
            &&& -86400 < u.2 < 86400
            &&& u.0 * 1_000_000_000 + u.1 == (hour * 3600 - (r.0 * 3600 + r.1 * 60 + r.2) - u.2 + r.4)
                * 1_000_000_000 - r.3
        },
{
    let now = chrono::Local::now();
    let target = match now.date_naive().and_hms_opt(hour, 0, 0) {
        Some(t) => t.and_local_timezone(chrono::Local).single(),
        None => None,
    };
    let until = match target {
        Some(t) => Some((t.signed_duration_since(now).num_seconds(), t.signed_duration_since(now).subsec_nanos(), t.offset().local_minus_utc())),
        None => None,
    };
    (now.hour(), now.minute(), now.second(), now.nanosecond(), now.offset().local_minus_utc(), until)
}

/// `a` divided by a positive `d`, truncated toward zero as Rust's `/` does.
fn div_toward_zero(a: i64, d: i64) -> (r: i64)
    requires
        d > 0,
        a > i64::MIN,
    ensures
        r == truncated_div(a as int, d as int),
{
    if a >= 0 {
        a / d
    } else {
        -((-a) / d)
    }
}

/// Reads the local clock for `hour`: the time of day, the offset from UTC,
/// and the countdown to `hour`:00:00 today, with its whole milliseconds and
/// whole minutes taken from its seconds and nanoseconds as chrono's
/// `num_milliseconds` and `num_minutes` take them.
pub fn clock_reading(hour: u32) -> (r: ClockReading)
    requires
        hour < 24,
    ensures
        reading_at(r, hour),
{
    let (h, m, s, n, off, raw) = read_clock(hour);
    let until = match raw {
        Some((secs, sub, target_off)) => {
            let millis: i64 = secs * 1000 + div_toward_zero(sub as i64, 1_000_000);
            let minutes: i64 = div_toward_zero(secs, 60);
            Some(Countdown {
                left: TimeLeft { millis, seconds: secs, minutes, subsec_nanos: sub },
                target_offset_secs: target_off,
            })
        },
        None => None,
    };
    ClockReading { hour: h, minute: m, second: s, nanos: n, offset_secs: off, until }
}

/// Reads the local clock for the opening of the class's Tatkal window.
pub fn clock_for_window(class: &TrainClass) -> (r: ClockReading)
    ensures
        reading_at(r, opening_hour(*class)),
{
    clock_reading(class.tatkal_hour())
}

/// Whether no time, not even a fraction of a second, is left.
pub open spec fn window_reached_at(t: TimeLeft) -> bool {
    t.seconds <= 0 && t.subsec_nanos <= 0
}

/// Whether the opening instant has been reached: no time, not even a
/// fraction of a second, is left.
pub fn window_reached(t: &TimeLeft) -> (r: bool)
    ensures
        r == window_reached_at(*t),
{
    t.seconds <= 0 && t.subsec_nanos <= 0
}

/// The wait fires exactly when the time left, counted in nanoseconds, is
/// none: never before the opening instant.
pub proof fn lemma_reached_exactly_at_opening(t: TimeLeft)
    requires
        consistent(t),
    ensures
        (t.seconds <= 0 && t.subsec_nanos <= 0) <==> t.seconds * 1_000_000_000 + t.subsec_nanos <= 0,
{
}

/// Whether the Tatkal window of a class is open at an hour of the day: the
/// hour has reached the class's opening hour.
pub open spec fn open_at(class: TrainClass, hour: u32) -> bool {
    hour >= opening_hour(class)
}

/// Whether the Tatkal window of a class is open at a given hour of the day.
pub fn window_open_at_hour(class: &TrainClass, hour: u32) -> (r: bool)
    ensures
        r == open_at(*class, hour),
{
    hour >= class.tatkal_hour()
}

/// Whether the Tatkal window of a class is open at the hour of a reading of
/// the clock.
pub fn window_open_in(class: &TrainClass, c: &ClockReading) -> (r: bool)
    ensures
        r == open_at(*class, c.hour),
{
    window_open_at_hour(class, c.hour)
}

/// Whether the current hour is past the Tatkal opening hour of the class,
/// from a reading of the local clock.
pub fn is_tatkal_window_open(class: &TrainClass) -> (r: bool)
    ensures
        exists|c: ClockReading| #[trigger] reading_at(c, opening_hour(*class)) && r == open_at(*class, c.hour),
{
    let c = clock_for_window(class);
    window_open_in(class, &c)
}

/// The remainder of `a` divided by `d` as Rust's `%` computes it: it takes
/// the sign of `a`.
pub open spec fn truncated_rem(a: int, d: int) -> int {
    if a >= 0 { a % d } else { -((-a) % d) }
}

/// The text of the time left until the window opens: "NOW (window is open)"
/// when no whole millisecond remains, else the minutes and the seconds past
/// the last whole minute.
pub open spec fn countdown_words(t: TimeLeft) -> Seq<char> {
    if t.millis <= 0 {
        "NOW (window is open)"@
    } else {
        signed_decimal(t.minutes as int) + " min "@ + signed_decimal(truncated_rem(t.seconds as int, 60))
            + " sec"@
    }
}

/// While time is left, the countdown shows the whole minutes left and the
/// seconds past the last whole minute: the text is the minutes, " min ",
/// a number of seconds below sixty, and " sec", where the minutes and those
/// seconds make up the whole seconds left.
pub proof fn lemma_countdown_minutes_and_seconds(t: TimeLeft)
    requires
        consistent(t),
        t.millis > 0,
    ensures
        t.seconds >= 0,
        0 <= t.seconds - 60 * t.minutes < 60,
        countdown_words(t) == decimal(t.minutes as nat) + " min "@ + decimal((t.seconds - 60 * t.minutes) as nat)
            + " sec"@,
{
    assert(t.seconds >= 0);
    assert(t.minutes == t.seconds / 60);
    assert(truncated_rem(t.seconds as int, 60) == t.seconds - 60 * t.minutes);
}

/// The text of the time left until the window opens.
pub fn countdown_text(t: TimeLeft) -> (r: String)
    ensures
        r@ == countdown_words(t),
{
    if t.millis <= 0 {
        return String::from_str("NOW (window is open)");
    }
    let secs: i64 = if t.seconds >= 0 {
        t.seconds % 60
    } else {
        let magnitude: u64 = ((-(t.seconds + 1)) as u64) + 1;
        let rem: u64 = magnitude % 60;
        -(rem as i64)
    };
    let mut s = String::new();
    append_signed_decimal(&mut s, t.minutes);
    s.append(" min ");
    append_signed_decimal(&mut s, secs);
    s.append(" sec");
    s
}

/// The countdown text of a reading of the clock, when it holds a countdown.
pub open spec fn countdown_of(c: ClockReading) -> Option<Seq<char>> {
    match c.until {
        Some(u) => Some(countdown_words(u.left)),
        None => None,
    }
}

/// The countdown text of a reading of the clock: `None` where it holds no
/// countdown.
pub fn countdown_in(c: &ClockReading) -> (r: Option<String>)
    ensures
        match r {
            Some(text) => countdown_of(*c) == Some(text@),
            None => countdown_of(*c) is None,
        },
{
    match c.until {
        Some(u) => Some(countdown_text(u.left)),
        None => None,
    }
}

/// Human-readable time until the Tatkal window of the class opens, from a
/// reading of the local clock.  `None` where today's opening time is not a
/// single instant of the local time zone.
pub fn time_until_tatkal(class: &TrainClass) -> (r: Option<String>)
    ensures
        exists|c: ClockReading| #[trigger] reading_at(c, opening_hour(*class)) && match r {
            Some(text) => countdown_of(c) == Some(text@),
            None => countdown_of(c) is None,
        },
{
    let c = clock_for_window(class);
    countdown_in(&c)
}

/// From one reading of the clock: the window is open at the hour read
/// exactly when no time, not even a fraction of a second, is left until it
/// opens; and, unless less than a millisecond is left, exactly when the
/// countdown text reads "NOW (window is open)".  This holds where the local
/// time zone's offset from UTC is the same now and at the opening, and also
/// where it changes by at most an hour between a reading taken at least two
/// hours before the opening hour and the opening (a change of daylight
/// saving time in the night).
pub proof fn lemma_open_agrees_with_countdown(class: TrainClass, c: ClockReading)
    requires
        reading_at(c, opening_hour(class)),
        c.until matches Some(u) && (u.target_offset_secs == c.offset_secs || (c.hour + 2 <= opening_hour(class)
            && -3600 <= u.target_offset_secs - c.offset_secs <= 3600)),
    ensures
        open_at(class, c.hour) <==> window_reached_at(c.until->0.left),
        !(0 < total_nanos(c.until->0.left) < 1_000_000) ==> (open_at(class, c.hour) <==> countdown_words(
            c.until->0.left,
        ) == "NOW (window is open)"@),
{
    let t = c.until->0.left;
    reveal_strlit("NOW (window is open)");
    if t.millis > 0 {
        assert(t.seconds >= 0);
        crate::text::lemma_decimal_starts_with_digit(t.minutes as nat);
        assert(countdown_words(t)[0] != "NOW (window is open)"@[0]);
    }
}

/// The opening time of the class's Tatkal window, as hours, minutes and
/// seconds with two digits each.
pub fn tatkal_window_label(class: &TrainClass) -> (r: String)
    ensures
        r@ == two_digit(opening_hour(*class) as nat) + ":00:00"@,
{
    let mut s = String::new();
    append_two_digit(&mut s, class.tatkal_hour() as u64);
    s.append(":00:00");
    s
}

/// How the wait for the window begins.
#[derive(Clone, Copy, Debug, PartialEq, Eq, Structural)]
pub enum WaitPlan {
    /// The window is already open: proceed at once.
    AlreadyOpen,
    /// Sleep in coarse steps for `coarse_ms` milliseconds, then spin until
    /// the opening instant.
    CoarseThenSpin { coarse_ms: u64 },
    /// Less than half a second remains: spin until the opening instant.
    SpinOnly,
}

/// The plan of the wait, from the milliseconds left until the window opens:
/// open at once when none remain; otherwise sleep in coarse steps until half
/// a second before it, when that is later than now, and spin for the rest.
pub fn wait_plan(remaining_ms: i64) -> (r: WaitPlan)
    ensures
        remaining_ms <= 0 ==> r == WaitPlan::AlreadyOpen,
        remaining_ms > 500 ==> r == (WaitPlan::CoarseThenSpin { coarse_ms: (remaining_ms - 500) as u64 }),
        0 < remaining_ms <= 500 ==> r == WaitPlan::SpinOnly,
{
    if remaining_ms <= 0 {
        WaitPlan::AlreadyOpen
    } else if remaining_ms - 500 > 0 {
        WaitPlan::CoarseThenSpin { coarse_ms: (remaining_ms - 500) as u64 }
    } else {
        WaitPlan::SpinOnly
    }
}

/// The pause between countdown updates while `secs_left` whole seconds
/// remain: none (the coarse wait ends) at one second or less; otherwise 30
/// seconds while more than a minute remains, 5 seconds while more than ten
/// seconds remain, else 1 second, never more than the time left.
pub open spec fn countdown_pause(secs_left: int) -> Option<u64> {
    if secs_left <= 1 {
        None
    } else {
        let step: int = if secs_left > 60 { 30_000 } else if secs_left > 10 { 5_000 } else { 1_000 };
        let cap: int = secs_left * 1000;
        Some((if step < cap { step } else { cap }) as u64)
    }
}

/// The countdown pauses for 30, 5 or 1 seconds, never longer than the time
/// left, and never longer when less time is left.
pub proof fn lemma_countdown_pauses(a: int, b: int)
    requires
        a <= b,
    ensures
        countdown_pause(a) matches Some(p) ==> (p == 1000 || p == 5000 || p == 30000) && p <= a * 1000,
        countdown_pause(a) matches Some(p) ==> (countdown_pause(b) matches Some(q) && p <= q),
{
}

/// The pause, in milliseconds, before the next countdown update.
pub fn countdown_pause_ms(secs_left: i64) -> (r: Option<u64>)
    ensures
        r == countdown_pause(secs_left as int),
{
    if secs_left <= 1 {
        return None;
    }
    let step: u64 = if secs_left > 60 { 30_000 } else if secs_left > 10 { 5_000 } else { 1_000 };
    if secs_left > 30 {
        Some(step)
    } else {
        let cap: u64 = (secs_left as u64) * 1000;
        Some(if step < cap { step } else { cap })
    }
}

} // verus!
