//! Instants on the UTC time line, read from RFC 3339 text and from the
//! system clock through chrono, and the whole seconds between two of them.

use vstd::prelude::*;

verus! {

/// An instant as chrono's `DateTime<Utc>` holds it: whole seconds since the
/// Unix epoch, and the nanoseconds past them (1_000_000_000 and above while
/// inside a leap second).
#[derive(Debug, Clone, Copy, PartialEq, Eq, Structural)]
pub struct Instant {
    pub secs: i64,
    pub nanos: u32,
}

/// Seconds that bound every `DateTime` chrono can represent (its years lie
/// within +-262_144 of the epoch).
pub const TIME_LINE_BOUND: i64 = 0x1000_0000_0000;

/// Timestamp of chrono's first representable instant, -262143-01-01T00:00:00Z.
pub const MIN_TIMESTAMP: i64 = -8_334_601_228_800;

/// Timestamp of chrono's last representable second, +262142-12-31T23:59:59Z.
pub const MAX_TIMESTAMP: i64 = 8_210_266_876_799;

/// Whether `DateTime::from_timestamp(secs, nanos)` gives a `DateTime`: the
/// second lies on chrono's time line, and the nanoseconds are below one
/// second, or below two within the last second of a minute (a leap second).
pub open spec fn spec_representable(secs: i64, nanos: u32) -> bool {
    &&& MIN_TIMESTAMP <= secs <= MAX_TIMESTAMP
    &&& (nanos < 1_000_000_000 || (nanos < 2_000_000_000 && secs % 60 == 59))
}

pub open spec fn instant_in_range(i: Instant) -> bool {
    -TIME_LINE_BOUND < i.secs < TIME_LINE_BOUND && i.nanos < 2_000_000_000
}

/// The `(timestamp, subsecond nanoseconds)` of the instant that chrono's
/// `DateTime::parse_from_rfc3339` reads from the text, if the text is RFC 3339.
pub uninterp spec fn spec_rfc3339_instant(text: Seq<char>) -> Option<(i64, u32)>;

/// The text chrono's `DateTime::<Utc>::to_rfc3339` writes for the instant
/// `(secs, nanos)`, if `DateTime::from_timestamp` can represent it.
pub uninterp spec fn spec_rfc3339_text(secs: i64, nanos: u32) -> Option<Seq<char>>;

pub open spec fn instant_of(p: Option<(i64, u32)>) -> Option<Instant> {
    match p {
        Some((s, n)) => Some(Instant { secs: s, nanos: n }),
        None => None,
    }
}

/// chrono's `DateTime::parse_from_rfc3339`, read as the UTC instant it
/// denotes. The contract names the result and adds the range every chrono
/// `DateTime` lies in; which texts parse, and to what, is left to the name.
#[verifier::external_body]
pub fn parse_rfc3339(text: &str) -> (r: Option<Instant>)
    ensures
        r == instant_of(spec_rfc3339_instant(text@)),
        r matches Some(i) ==> instant_in_range(i),
{
    chrono::DateTime::parse_from_rfc3339(text).ok().map(
        |dt| Instant { secs: dt.timestamp(), nanos: dt.timestamp_subsec_nanos() },
    )
}

/// A reading of the clock as chrono's `Utc::now` gives it: not before the
/// epoch, on chrono's time line, and not inside a leap second.
pub open spec fn spec_clock_reading(now: Instant) -> bool {
    0 <= now.secs <= MAX_TIMESTAMP && now.nanos < 1_000_000_000
}

/// The system clock as whole seconds and nanoseconds since the Unix epoch
/// (`SystemTime::now`, measured from `UNIX_EPOCH`); `None` when the clock
/// reads before the epoch. The contract says only what holds of every
/// reading: the nanoseconds are below one second. When it is, is not said.
#[verifier::external_body]
pub fn system_time_since_epoch() -> (r: Option<(u64, u32)>)
    ensures
        r matches Some(p) ==> p.1 < 1_000_000_000,
{
    std::time::SystemTime::now().duration_since(std::time::UNIX_EPOCH).ok().map(
        |d| (d.as_secs(), d.subsec_nanos()),
    )
}

/// The current UTC instant as chrono's `Utc::now` builds it
/// (`DateTime::from_timestamp` of the system time since the epoch), or
/// `None` where `Utc::now` would panic instead: a clock before the epoch, or
/// past chrono's last representable second.
pub fn utc_now() -> (now: Option<Instant>)
    ensures
        now matches Some(n) ==> spec_clock_reading(n),
{
    match system_time_since_epoch() {
        Some((secs, nanos)) => if secs <= MAX_TIMESTAMP as u64 {
            Some(Instant { secs: secs as i64, nanos })
        } else {
            None
        },
        None => None,
    }
}

/// chrono's `DateTime::<Utc>::to_rfc3339` of the instant
/// `DateTime::from_timestamp(secs, nanos)`; `None` exactly where
/// `from_timestamp` cannot represent that instant. The text is named, not
/// spelled out.
#[verifier::external_body]
pub fn rfc3339_text(secs: i64, nanos: u32) -> (r: Option<String>)
    ensures
        r is Some <==> spec_representable(secs, nanos),
        match r {
            Some(t) => spec_rfc3339_text(secs, nanos) == Some(t@),
            None => spec_rfc3339_text(secs, nanos) is None,
        },
{
    chrono::DateTime::from_timestamp(secs, nanos).map(|d| d.to_rfc3339())
}

/// Integer division truncating toward zero, as `TimeDelta::num_seconds` rounds.
pub open spec fn div_toward_zero(n: int, d: int) -> int {
    if n >= 0 {
        n / d
    } else {
        -((-n) / d)
    }
}

/// The whole seconds of `later - earlier` the way chrono counts them
/// (`DateTime::signed_duration_since`, then `TimeDelta::num_seconds`): a
/// leap second of one side counts once the other side is past it within
/// the day, and the count truncates toward zero.
pub open spec fn spec_seconds_between(later: Instant, earlier: Instant) -> int {
    let sod_l = later.secs % 86400;
    let sod_e = earlier.secs % 86400;
    let adj: int = if sod_l > sod_e && earlier.nanos >= 1_000_000_000 {
        1
    } else if sod_l < sod_e && later.nanos >= 1_000_000_000 {
        -1
    } else {
        0
    };
    let total = (later.secs - earlier.secs + adj) * 1_000_000_000 + (later.nanos - earlier.nanos);
    div_toward_zero(total, 1_000_000_000)
}

fn seconds_of_day(secs: i64) -> (sod: i64)
    ensures
        sod == secs % 86400,
{
    let r = secs % 86400;
    if r < 0 {
        r + 86400
    } else {
        r
    }
}

/// Whole seconds from `earlier` to `later`, as chrono counts them.
pub fn seconds_between(later: Instant, earlier: Instant) -> (secs: i64)
    requires
        instant_in_range(later),
        instant_in_range(earlier),
    ensures
        secs == spec_seconds_between(later, earlier),
{
    let sod_l = seconds_of_day(later.secs);
    let sod_e = seconds_of_day(earlier.secs);
    let adj: i128 = if sod_l > sod_e && earlier.nanos >= 1_000_000_000 {
        1
    } else if sod_l < sod_e && later.nanos >= 1_000_000_000 {
        -1
    } else {
        0
    };
    let whole: i128 = later.secs as i128 - earlier.secs as i128 + adj;
    assert(-0x2000_0000_0000 - 1 <= whole <= 0x2000_0000_0000 + 1);
    assert(-0x2000_0000_0000 * 1_000_000_000 - 1_000_000_000 <= whole * 1_000_000_000
        <= 0x2000_0000_0000 * 1_000_000_000 + 1_000_000_000) by (nonlinear_arith)
        requires
            -0x2000_0000_0000 - 1 <= whole <= 0x2000_0000_0000 + 1,
    ;
    let total: i128 = whole * 1_000_000_000 + (later.nanos as i128 - earlier.nanos as i128);
    let q: i128 = if total >= 0 {
        total / 1_000_000_000
    } else {
        -((-total) / 1_000_000_000)
    };
    assert(-0x2000_0000_0000 - 3 <= q <= 0x2000_0000_0000 + 3) by (nonlinear_arith)
        requires
            -0x2000_0000_0000 * 1_000_000_000 - 3_000_000_000 <= total <= 0x2000_0000_0000
                * 1_000_000_000 + 3_000_000_000,
            q == (if total >= 0 {
                total / 1_000_000_000
            } else {
                -((-total) / 1_000_000_000)
            }),
    ;
    q as i64
}

} // verus!
