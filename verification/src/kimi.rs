//! Mapping of a Kimi `/usages` quota payload onto the billing shape: the
//! weekly summary, the per-window quota rows (the 5h limit and the like),
//! and the booster wallet, with the reset hints and labels shown for them.

use vstd::prelude::*;
use crate::billing::{Cent, QuotaRow, UsagePeriod};
use crate::clock::{self, Instant, parse_rfc3339, rfc3339_text, seconds_between, utc_now};
use crate::json::{self, Json, as_bool, as_str, first_present, get_i64, get_str, is_object, obj_get, to_i64};
use crate::text::{self, join_words, opt_str_view, opt_view, push_char, push_decimal_i64};

verus! {

// ---------------------------------------------------------------------------
// Durations

/// A count followed by its unit letter (`3h`).
pub open spec fn spec_unit(n: int, unit: char) -> Seq<char> {
    text::spec_decimal(n).push(unit)
}

/// The parts of a positive duration: days, hours, minutes when nonzero, and
/// seconds only when no larger unit is present.
pub open spec fn spec_duration_parts(t: int) -> Seq<Seq<char>> {
    let days = t / 86400;
    let hours = t % 86400 / 3600;
    let minutes = t % 3600 / 60;
    let secs = t % 60;
    let p1: Seq<Seq<char>> = if days > 0 { seq![spec_unit(days, 'd')] } else { seq![] };
    let p2 = if hours > 0 { p1.push(spec_unit(hours, 'h')) } else { p1 };
    let p3 = if minutes > 0 { p2.push(spec_unit(minutes, 'm')) } else { p2 };
    if p3.len() == 0 && secs > 0 { p3.push(spec_unit(secs, 's')) } else { p3 }
}

/// `2d 3h 5m`; seconds only when no larger unit is present; `0s` when not positive.
pub open spec fn spec_format_duration(t: int) -> Seq<char> {
    if t <= 0 {
        "0s"@
    } else {
        text::spec_join_words(spec_duration_parts(t))
    }
}

fn unit_text(n: i64, unit: char) -> (s: String)
    ensures
        s@ == spec_unit(n as int, unit),
{
    let mut s = String::new();
    push_decimal_i64(&mut s, n);
    push_char(&mut s, unit);
    assert(s@ =~= spec_unit(n as int, unit));
    s
}

/// Formats seconds as `2d 3h 5m` (seconds only when no larger unit is
/// present); `0s` for a duration that is not positive.
pub fn format_duration(total_seconds: i64) -> (s: String)
    ensures
        s@ == spec_format_duration(total_seconds as int),
{
    if total_seconds <= 0 {
        return String::from_str("0s");
    }
    let t = total_seconds;
    let days = t / 86400;
    let hours = t % 86400 / 3600;
    let minutes = t % 3600 / 60;
    let secs = t % 60;
    let ghost p1: Seq<Seq<char>> = if days > 0 { seq![spec_unit(days as int, 'd')] } else { seq![] };
    let ghost p2 = if hours > 0 { p1.push(spec_unit(hours as int, 'h')) } else { p1 };
    let ghost p3 = if minutes > 0 { p2.push(spec_unit(minutes as int, 'm')) } else { p2 };
    let mut parts: Vec<String> = Vec::new();
    if days > 0 {
        parts.push(unit_text(days, 'd'));
    }
    assert(text::string_views(parts@) =~= p1);
    if hours > 0 {
        parts.push(unit_text(hours, 'h'));
    }
    assert(text::string_views(parts@) =~= p2);
    if minutes > 0 {
        parts.push(unit_text(minutes, 'm'));
    }
    assert(text::string_views(parts@) =~= p3);
    if parts.len() == 0 && secs > 0 {
        parts.push(unit_text(secs, 's'));
    }
    assert(text::string_views(parts@) =~= spec_duration_parts(t as int));
    join_words(&parts)
}

// ---------------------------------------------------------------------------
// Reset hints

/// Keys under which a row gives its reset instant as RFC 3339 text.
pub open spec fn reset_at_keys() -> Seq<Seq<char>> {
    seq!["reset_at"@, "resetAt"@, "reset_time"@, "resetTime"@]
}

/// Keys under which a row gives the seconds until its reset.
pub open spec fn reset_in_keys() -> Seq<Seq<char>> {
    seq!["reset_in"@, "resetIn"@, "ttl"@, "window"@]
}

/// The non-empty reset-at text of a row, if it has one.
pub open spec fn spec_reset_at_text(raw: Json) -> Option<Seq<char>> {
    match json::opt_and_then_str(json::spec_first_present(raw, reset_at_keys())) {
        Some(v) => if v.len() > 0 { Some(v) } else { None },
        None => None,
    }
}

/// The positive reset-in seconds of a row, if it has them.
pub open spec fn spec_reset_in_secs(raw: Json) -> Option<i64> {
    match json::opt_and_then_i64(json::spec_first_present(raw, reset_in_keys())) {
        Some(secs) => if secs > 0 { Some(secs) } else { None },
        None => None,
    }
}

/// Hint for a reset instant given as text `v`, which reads as the instant
/// `at` (when it is RFC 3339): how long until it, `reset` once it has passed,
/// or the text itself when it is not RFC 3339.
pub open spec fn spec_reset_at_hint_for(v: Seq<char>, at: Option<Instant>, now: Instant) -> Seq<char> {
    match at {
        Some(at) => {
            let secs = clock::spec_seconds_between(at, now);
            if secs <= 0 {
                "reset"@
            } else {
                "resets in "@ + spec_format_duration(secs)
            }
        },
        None => "resets at "@ + v,
    }
}

/// Hint for a reset instant given as text, read through chrono's RFC 3339 parser.
pub open spec fn spec_reset_at_hint(v: Seq<char>, now: Instant) -> Seq<char> {
    spec_reset_at_hint_for(v, clock::instant_of(clock::spec_rfc3339_instant(v)), now)
}

/// The RFC 3339 text of the instant `secs` seconds after `now`, where chrono
/// can represent it.
pub open spec fn spec_reset_end(now: Instant, secs: i64) -> Option<Seq<char>> {
    if now.secs + secs <= i64::MAX {
        clock::spec_rfc3339_text((now.secs + secs) as i64, now.nanos)
    } else {
        None
    }
}

/// `(display hint, reset instant as RFC 3339)` of a usage row at clock
/// reading `now`: a reset-at text wins over reset-in seconds; neither gives
/// `(None, None)`.
pub open spec fn spec_reset_hint_at(raw: Json, now: Instant) -> (Option<Seq<char>>, Option<Seq<char>>) {
    match spec_reset_at_text(raw) {
        Some(v) => (Some(spec_reset_at_hint(v, now)), Some(v)),
        None => match spec_reset_in_secs(raw) {
            Some(secs) => (Some("resets in "@ + spec_format_duration(secs as int)), spec_reset_end(now, secs)),
            None => (None, None),
        },
    }
}

/// A reset-in count is what decides the row, and the instant it lands on is
/// still on chrono's time line.
pub open spec fn spec_reset_in_lands(raw: Json, now: Instant) -> bool {
    &&& spec_reset_at_text(raw) is None
    &&& spec_reset_in_secs(raw) matches Some(secs) && now.secs + secs <= clock::MAX_TIMESTAMP
}

fn resets_in(secs: i64) -> (s: String)
    ensures
        s@ == "resets in "@ + spec_format_duration(secs as int),
{
    let mut s = String::from_str("resets in ");
    s.append(format_duration(secs).as_str());
    s
}

/// The hint for a reset-at text `v` at clock reading `now`, given what
/// chrono's RFC 3339 parser read from it (`at`).
pub fn reset_at_hint(v: &str, at: Option<Instant>, now: Instant) -> (hint: String)
    requires
        clock::instant_in_range(now),
        at matches Some(a) ==> clock::instant_in_range(a),
    ensures
        hint@ == spec_reset_at_hint_for(v@, at, now),
{
    match at {
        Some(at) => {
            let secs = seconds_between(at, now);
            if secs <= 0 {
                String::from_str("reset")
            } else {
                resets_in(secs)
            }
        },
        None => {
            let mut h = String::from_str("resets at ");
            h.append(v);
            h
        },
    }
}

/// The non-empty reset-at text of a row, if it has one.
fn reset_at_text(raw: &Json) -> (v: Option<&str>)
    ensures
        opt_str_view(v) == spec_reset_at_text(*raw),
{
    let at_keys: [&str; 4] = ["reset_at", "resetAt", "reset_time", "resetTime"];
    assert(json::key_views(at_keys@) =~= reset_at_keys());
    let at_text = match first_present(raw, &at_keys) {
        Some(v) => as_str(v),
        None => None,
    };
    match at_text {
        Some(v) => if !v.is_empty() {
            Some(v)
        } else {
            None
        },
        None => None,
    }
}

/// The positive reset-in seconds of a row, if it has them.
fn reset_in_secs(raw: &Json) -> (secs: Option<i64>)
    ensures
        secs == spec_reset_in_secs(*raw),
{
    let in_keys: [&str; 4] = ["reset_in", "resetIn", "ttl", "window"];
    assert(json::key_views(in_keys@) =~= reset_in_keys());
    let in_secs = match first_present(raw, &in_keys) {
        Some(v) => to_i64(v),
        None => None,
    };
    match in_secs {
        Some(s) => if s > 0 {
            Some(s)
        } else {
            None
        },
        None => None,
    }
}

/// Reset hint and machine-usable reset instant of a usage row, at clock
/// reading `now`. Accepts `reset_at`-style RFC 3339 texts and `reset_in`-style
/// second counts. A reset-in count whose instant lies on chrono's time line
/// always comes with that instant.
pub fn reset_hint_at(raw: &Json, now: Instant) -> (r: (Option<String>, Option<String>))
    requires
        clock::instant_in_range(now),
    ensures
        (opt_view(r.0), opt_view(r.1)) == spec_reset_hint_at(*raw, now),
        spec_reset_in_lands(*raw, now) && clock::MIN_TIMESTAMP <= now.secs && now.nanos
            < 1_000_000_000 ==> r.1 is Some,
{
    if let Some(v) = reset_at_text(raw) {
        let hint = reset_at_hint(v, parse_rfc3339(v), now);
        return (Some(hint), Some(String::from_str(v)));
    }
    if let Some(secs) = reset_in_secs(raw) {
        let end = if now.secs <= i64::MAX - secs {
            rfc3339_text(now.secs + secs, now.nanos)
        } else {
            None
        };
        return (Some(resets_in(secs)), end);
    }
    (None, None)
}

/// The reset pair of a row when no clock reading can be had: a reset-at
/// text is shown and handed back as it is, a reset-in count is shown without
/// the instant it lands on.
pub open spec fn spec_reset_hint_unclocked(raw: Json) -> (Option<Seq<char>>, Option<Seq<char>>) {
    match spec_reset_at_text(raw) {
        Some(v) => (Some("resets at "@ + v), Some(v)),
        None => match spec_reset_in_secs(raw) {
            Some(secs) => (Some("resets in "@ + spec_format_duration(secs as int)), None),
            None => (None, None),
        },
    }
}

/// The reset pair of a row without a clock reading.
pub fn reset_hint_unclocked(raw: &Json) -> (r: (Option<String>, Option<String>))
    ensures
        (opt_view(r.0), opt_view(r.1)) == spec_reset_hint_unclocked(*raw),
{
    if let Some(v) = reset_at_text(raw) {
        let mut hint = String::from_str("resets at ");
        hint.append(v);
        return (Some(hint), Some(String::from_str(v)));
    }
    if let Some(secs) = reset_in_secs(raw) {
        return (Some(resets_in(secs)), None);
    }
    (None, None)
}

/// A reset pair `(hint, at)` is the row's at some reading of the clock as
/// chrono's `Utc::now` gives it, with a landing reset-in count coming with
/// its instant; or, when the clock cannot be read, the row's unclocked pair.
pub open spec fn spec_reset_pair_fits(hint: Option<Seq<char>>, at: Option<Seq<char>>, raw: Json) -> bool {
    ||| exists|now: Instant|
        {
            &&& clock::spec_clock_reading(now)
            &&& (hint, at) == #[trigger] spec_reset_hint_at(raw, now)
            &&& spec_reset_in_lands(raw, now) ==> at is Some
        }
    ||| (hint, at) == spec_reset_hint_unclocked(raw)
}

/// The reset pair of a row at an optional clock reading: the pair at the
/// reading, or the unclocked pair when there is none.
pub open spec fn spec_reset_pair_with(raw: Json, now: Option<Instant>) -> (Option<Seq<char>>, Option<Seq<char>>) {
    match now {
        Some(n) => spec_reset_hint_at(raw, n),
        None => spec_reset_hint_unclocked(raw),
    }
}

/// A clock reading as `utc_now` hands it out: a reading as chrono's
/// `Utc::now` gives it, or none.
pub open spec fn spec_reading_ok(now: Option<Instant>) -> bool {
    match now {
        Some(n) => clock::spec_clock_reading(n),
        None => true,
    }
}

/// The reset pair of a usage row at the clock reading `now` (the unclocked
/// pair when there is none).
pub fn reset_hint_with(raw: &Json, now: Option<Instant>) -> (r: (Option<String>, Option<String>))
    requires
        spec_reading_ok(now),
    ensures
        (opt_view(r.0), opt_view(r.1)) == spec_reset_pair_with(*raw, now),
        spec_reset_pair_fits(opt_view(r.0), opt_view(r.1), *raw),
{
    match now {
        Some(n) => {
            let r = reset_hint_at(raw, n);
            assert(clock::spec_clock_reading(n) && (opt_view(r.0), opt_view(r.1))
                == spec_reset_hint_at(*raw, n));
            r
        },
        None => reset_hint_unclocked(raw),
    }
}

/// Reset hint and reset instant of a usage row, reading the clock: what
/// `reset_hint_at` gives for the reading, a reading not before the epoch and
/// not inside a leap second; a reset-in count comes with its instant unless
/// that instant would lie past chrono's last representable second. Where the
/// clock cannot be read (it is before the epoch, or past chrono's time line),
/// the unclocked pair.
pub fn reset_hint_from(raw: &Json) -> (r: (Option<String>, Option<String>))
    ensures
        spec_reset_pair_fits(opt_view(r.0), opt_view(r.1), *raw),
        exists|now: Option<Instant>|
            spec_reading_ok(now) && (opt_view(r.0), opt_view(r.1)) == #[trigger] spec_reset_pair_with(
                *raw,
                now,
            ),
{
    let now = utc_now();
    let r = reset_hint_with(raw, now);
    assert(spec_reading_ok(now) && (opt_view(r.0), opt_view(r.1)) == spec_reset_pair_with(*raw, now));
    r
}

// ---------------------------------------------------------------------------
// Usage rows

/// One usage row (the `usage` summary or a `limits[].detail`): label, used,
/// limit, and reset info.
#[derive(Debug, Clone)]
pub struct ParsedUsageRow {
    pub label: String,
    pub used: i64,
    pub limit: i64,
    pub reset_hint: Option<String>,
    pub reset_at: Option<String>,
}

pub open spec fn spec_row_limit(raw: Json) -> Option<i64> {
    json::opt_and_then_i64(json::spec_get(raw, "limit"@))
}

/// `used`, or else `limit - remaining` (wrapping) when both of those are there.
pub open spec fn spec_row_used(raw: Json) -> Option<i64> {
    match json::opt_and_then_i64(json::spec_get(raw, "used"@)) {
        Some(u) => Some(u),
        None => match (json::opt_and_then_i64(json::spec_get(raw, "remaining"@)), spec_row_limit(raw)) {
            (Some(rem), Some(lim)) => Some(lim.wrapping_sub(rem)),
            _ => None,
        },
    }
}

/// A row is there when the value is an object with a used or a limit figure.
pub open spec fn spec_row_present(raw: Json) -> bool {
    json::spec_is_object(raw) && (spec_row_used(raw) is Some || spec_row_limit(raw) is Some)
}

/// The row's own non-empty `name` or `title`, else the default label.
pub open spec fn spec_row_label(raw: Json, default_label: Seq<char>) -> Seq<char> {
    match json::opt_and_then_str(json::spec_first_present(raw, seq!["name"@, "title"@])) {
        Some(s) => if s.len() > 0 { s } else { default_label },
        None => default_label,
    }
}

pub open spec fn unwrap_or_zero(v: Option<i64>) -> i64 {
    match v {
        Some(x) => x,
        None => 0,
    }
}

/// The parsed row agrees with the raw row: label, used and limit exactly,
/// and its reset pair is what the raw row gives at some clock reading.
pub open spec fn spec_row_fits(row: ParsedUsageRow, raw: Json, default_label: Seq<char>) -> bool {
    &&& row.label@ == spec_row_label(raw, default_label)
    &&& row.used == unwrap_or_zero(spec_row_used(raw))
    &&& row.limit == unwrap_or_zero(spec_row_limit(raw))
    &&& spec_reset_pair_fits(opt_view(row.reset_hint), opt_view(row.reset_at), raw)
}

/// The parsed row agrees with the raw row at clock reading `now`: label,
/// used and limit exactly, and its reset pair is the raw row's at `now`.
pub open spec fn spec_row_fits_with(
    row: ParsedUsageRow,
    raw: Json,
    default_label: Seq<char>,
    now: Option<Instant>,
) -> bool {
    &&& row.label@ == spec_row_label(raw, default_label)
    &&& row.used == unwrap_or_zero(spec_row_used(raw))
    &&& row.limit == unwrap_or_zero(spec_row_limit(raw))
    &&& (opt_view(row.reset_hint), opt_view(row.reset_at)) == spec_reset_pair_with(raw, now)
}

/// A parsed row, when there is one, agrees with the raw row at `now`.
pub open spec fn spec_opt_row_fits_with(
    r: Option<ParsedUsageRow>,
    raw: Json,
    default_label: Seq<char>,
    now: Option<Instant>,
) -> bool {
    match r {
        Some(row) => spec_row_fits_with(row, raw, default_label, now),
        None => true,
    }
}

/// Parses one usage row; `None` when the value is not an object or has
/// neither a used nor a limit figure. A missing figure reads as 0.
pub fn parse_usage_row(raw: &Json, default_label: &str) -> (r: Option<ParsedUsageRow>)
    ensures
        r is Some <==> spec_row_present(*raw),
        r matches Some(row) ==> spec_row_fits(row, *raw, default_label@),
        exists|now: Option<Instant>|
            spec_reading_ok(now) && #[trigger] spec_opt_row_fits_with(r, *raw, default_label@, now),
{
    let now = utc_now();
    let r = parse_usage_row_with(raw, default_label, now);
    assert(spec_reading_ok(now) && spec_opt_row_fits_with(r, *raw, default_label@, now));
    r
}

/// Parses one usage row at clock reading `now`; `None` when the value is not
/// an object or has neither a used nor a limit figure. A missing figure
/// reads as 0.
pub fn parse_usage_row_with(raw: &Json, default_label: &str, now: Option<Instant>) -> (r: Option<ParsedUsageRow>)
    requires
        spec_reading_ok(now),
    ensures
        r is Some <==> spec_row_present(*raw),
        r matches Some(row) ==> spec_row_fits(row, *raw, default_label@),
        r matches Some(row) ==> spec_row_fits_with(row, *raw, default_label@, now),
{
    if !is_object(raw) {
        return None;
    }
    let limit = get_i64(raw, "limit");
    let mut used = get_i64(raw, "used");
    if used.is_none() {
        if let (Some(remaining), Some(lim)) = (get_i64(raw, "remaining"), limit) {
            used = Some(lim.wrapping_sub(remaining));
        }
    }
    if used.is_none() && limit.is_none() {
        return None;
    }
    let name_keys: [&str; 2] = ["name", "title"];
    assert(json::key_views(name_keys@) =~= seq!["name"@, "title"@]);
    let own = match first_present(raw, &name_keys) {
        Some(v) => as_str(v),
        None => None,
    };
    let label = match own {
        Some(t) => if !t.is_empty() {
            String::from_str(t)
        } else {
            String::from_str(default_label)
        },
        None => String::from_str(default_label),
    };
    let (reset_hint, reset_at) = reset_hint_with(raw, now);
    let row = ParsedUsageRow {
        label,
        used: match used {
            Some(u) => u,
            None => 0,
        },
        limit: match limit {
            Some(l) => l,
            None => 0,
        },
        reset_hint,
        reset_at,
    };
    Some(row)
}

// ---------------------------------------------------------------------------
// Labels of `limits[]` entries

/// Member `key` of the item, else of its detail.
pub open spec fn spec_item_or_detail(item: Json, detail: Json, key: Seq<char>) -> Option<Json> {
    match json::spec_get(item, key) {
        Some(x) => Some(x),
        None => json::spec_get(detail, key),
    }
}

/// A non-empty explicit label under `key`.
pub open spec fn spec_explicit_label(item: Json, detail: Json, key: Seq<char>) -> Option<Seq<char>> {
    match json::opt_and_then_str(spec_item_or_detail(item, detail, key)) {
        Some(s) => if s.len() > 0 { Some(s) } else { None },
        None => None,
    }
}

/// Member `key` of the window, else of the item, else of its detail.
pub open spec fn spec_window_member(item: Json, detail: Json, window: Json, key: Seq<char>) -> Option<Json> {
    match json::spec_get(window, key) {
        Some(x) => Some(x),
        None => spec_item_or_detail(item, detail, key),
    }
}

/// Label derived from a window of `duration` in `time_unit`.
pub open spec fn spec_window_label(duration: i64, time_unit: Seq<char>) -> Seq<char> {
    if text::seq_has_infix(time_unit, "MINUTE"@) {
        if duration >= 60 && duration % 60 == 0 {
            text::spec_decimal(duration / 60) + "h limit"@
        } else {
            text::spec_decimal(duration as int) + "m limit"@
        }
    } else if text::seq_has_infix(time_unit, "HOUR"@) {
        text::spec_decimal(duration as int) + "h limit"@
    } else if text::seq_has_infix(time_unit, "DAY"@) {
        text::spec_decimal(duration as int) + "d limit"@
    } else {
        text::spec_decimal(duration as int) + "s limit"@
    }
}

/// Label for a `limits[]` entry: explicit name/title/scope, else derived from
/// the window (`5h limit`, `30m limit`, `7d limit`), else `Limit #n` by position.
pub open spec fn spec_limit_label(item: Json, detail: Json, window: Json, idx: int) -> Seq<char> {
    match spec_explicit_label(item, detail, "name"@) {
        Some(s) => s,
        None => match spec_explicit_label(item, detail, "title"@) {
            Some(s) => s,
            None => match spec_explicit_label(item, detail, "scope"@) {
                Some(s) => s,
                None => {
                    let duration = json::opt_and_then_i64(spec_window_member(item, detail, window, "duration"@));
                    let time_unit = match json::opt_and_then_str(spec_window_member(item, detail, window, "timeUnit"@)) {
                        Some(u) => u,
                        None => ""@,
                    };
                    match duration {
                        Some(d) => spec_window_label(d, time_unit),
                        None => "Limit #"@ + text::spec_decimal(idx + 1),
                    }
                },
            },
        },
    }
}

fn item_or_detail<'v>(item: &'v Json, detail: &'v Json, key: &str) -> (r: Option<&'v Json>)
    ensures
        match r {
            Some(x) => spec_item_or_detail(*item, *detail, key@) == Some(*x),
            None => spec_item_or_detail(*item, *detail, key@) is None,
        },
{
    match obj_get(item, key) {
        Some(x) => Some(x),
        None => obj_get(detail, key),
    }
}

fn explicit_label<'v>(item: &'v Json, detail: &'v Json, key: &str) -> (r: Option<&'v str>)
    ensures
        match r {
            Some(s) => spec_explicit_label(*item, *detail, key@) == Some(s@),
            None => spec_explicit_label(*item, *detail, key@) is None,
        },
{
    match item_or_detail(item, detail, key) {
        Some(v) => match as_str(v) {
            Some(s) => if !s.is_empty() {
                Some(s)
            } else {
                None
            },
            None => None,
        },
        None => None,
    }
}

fn window_member<'v>(item: &'v Json, detail: &'v Json, window: &'v Json, key: &str) -> (r: Option<&'v Json>)
    ensures
        match r {
            Some(x) => spec_window_member(*item, *detail, *window, key@) == Some(*x),
            None => spec_window_member(*item, *detail, *window, key@) is None,
        },
{
    match obj_get(window, key) {
        Some(x) => Some(x),
        None => item_or_detail(item, detail, key),
    }
}

fn number_then(n: i64, suffix: &str) -> (s: String)
    ensures
        s@ == text::spec_decimal(n as int) + suffix@,
{
    let mut s = String::new();
    push_decimal_i64(&mut s, n);
    s.append(suffix);
    s
}

/// Label for a `limits[]` entry: explicit name/title/scope, else derived from
/// the window (`5h limit`, `30m limit`, `7d limit`), else `Limit #{idx + 1}`.
pub fn limit_label(item: &Json, detail: &Json, window: &Json, idx: usize) -> (label: String)
    requires
        idx < usize::MAX,
    ensures
        label@ == spec_limit_label(*item, *detail, *window, idx as int),
{
    if let Some(v) = explicit_label(item, detail, "name") {
        return String::from_str(v);
    }
    if let Some(v) = explicit_label(item, detail, "title") {
        return String::from_str(v);
    }
    if let Some(v) = explicit_label(item, detail, "scope") {
        return String::from_str(v);
    }
    let duration = match window_member(item, detail, window, "duration") {
        Some(v) => to_i64(v),
        None => None,
    };
    let time_unit: &str = match window_member(item, detail, window, "timeUnit") {
        Some(v) => match as_str(v) {
            Some(u) => u,
            None => "",
        },
        None => "",
    };
    match duration {
        Some(d) => {
            if text::str_contains(time_unit, "MINUTE") {
                if d >= 60 && d % 60 == 0 {
                    return number_then(d / 60, "h limit");
                }
                return number_then(d, "m limit");
            }
            if text::str_contains(time_unit, "HOUR") {
                return number_then(d, "h limit");
            }
            if text::str_contains(time_unit, "DAY") {
                return number_then(d, "d limit");
            }
            number_then(d, "s limit")
        },
        None => {
            let mut s = String::from_str("Limit #");
            text::push_decimal_u64(&mut s, idx as u64 + 1);
            s
        },
    }
}

// ---------------------------------------------------------------------------
// Booster wallet

/// Booster-wallet amounts are fixed-point with 6 fractional digits.
pub const FIXED_POINT_SCALE: i64 = 1_000_000;

/// Fixed-point (10^6) to cents: `value / 10^6` rounded to the nearest
/// integer, halves away from zero, except that a positive amount below one
/// cent counts as one cent.
pub open spec fn spec_fixed_point_to_cents(value: i64) -> int {
    if 0 < value < FIXED_POINT_SCALE {
        1
    } else if value >= 0 {
        (value + 500_000) / FIXED_POINT_SCALE as int
    } else {
        -((-value + 500_000) / FIXED_POINT_SCALE as int)
    }
}

/// Fixed-point (10^6) to cents, rounding sub-cent remainders up to 1.
pub fn fixed_point_to_cents(value: i64) -> (cents: i64)
    ensures
        cents == spec_fixed_point_to_cents(value),
{
    if 0 < value && value < FIXED_POINT_SCALE {
        1
    } else {
        let v: i128 = value as i128;
        let q: i128 = if v >= 0 {
            (v + 500_000) / 1_000_000
        } else {
            -((-v + 500_000) / 1_000_000)
        };
        assert(-0x8000_0000_0000 <= q <= 0x8000_0000_0000) by (nonlinear_arith)
            requires
                -0x8000_0000_0000_0000 <= v <= 0x7FFF_FFFF_FFFF_FFFF,
                q == (if v >= 0 {
                    (v + 500_000) / 1_000_000
                } else {
                    -((-v + 500_000) / 1_000_000)
                }),
        ;
        q as i64
    }
}

/// `{priceInCents, currency}`: the cents, when there.
pub open spec fn spec_money_cents(raw: Option<Json>) -> Option<i64> {
    match raw {
        Some(v) => json::opt_and_then_i64(json::spec_get(v, "priceInCents"@)),
        None => None,
    }
}

/// `monthlyChargeLimit` / `monthlyUsed`: `{priceInCents, currency}` to cents.
pub fn parse_money_cents(raw: Option<&Json>) -> (cents: Option<i64>)
    ensures
        cents == spec_money_cents(match raw {
            Some(v) => Some(*v),
            None => None,
        }),
{
    match raw {
        Some(v) => get_i64(v, "priceInCents"),
        None => None,
    }
}

/// The booster wallet: `(prepaid balance cents, monthly charge limit cents,
/// charged this month cents, charge limit enabled)`, when its balance is a
/// `BOOSTER` balance with a positive amount.
pub open spec fn spec_booster_wallet(raw: Json) -> Option<(i64, i64, i64, bool)> {
    match json::spec_get(raw, "balance"@) {
        None => None,
        Some(balance) => if json::opt_and_then_str(json::spec_get(balance, "type"@)) != Some("BOOSTER"@) {
            None
        } else {
            match json::opt_and_then_i64(json::spec_get(balance, "amount"@)) {
                None => None,
                Some(amount) => if amount <= 0 {
                    None
                } else {
                    let left = match json::opt_and_then_i64(json::spec_get(balance, "amountLeft"@)) {
                        Some(a) => spec_fixed_point_to_cents(a) as i64,
                        None => 0,
                    };
                    let limit = unwrap_or_zero(spec_money_cents(json::spec_get(raw, "monthlyChargeLimit"@)));
                    let used = unwrap_or_zero(spec_money_cents(json::spec_get(raw, "monthlyUsed"@)));
                    let enabled = match json::opt_and_then_bool(json::spec_get(raw, "monthlyChargeLimitEnabled"@)) {
                        Some(b) => b,
                        None => false,
                    };
                    Some((left, limit, used, enabled))
                },
            }
        },
    }
}

/// Booster wallet to `(prepaid_balance_cents, charge_limit_cents,
/// charge_used_cents, charge_limit_enabled)`.
pub fn parse_booster_wallet(raw: &Json) -> (w: Option<(i64, i64, i64, bool)>)
    ensures
        w == spec_booster_wallet(*raw),
{
    let balance = match obj_get(raw, "balance") {
        Some(b) => b,
        None => return None,
    };
    let is_booster = match get_str(balance, "type") {
        Some(t) => text::str_eq(t, "BOOSTER"),
        None => false,
    };
    if !is_booster {
        return None;
    }
    let amount = match get_i64(balance, "amount") {
        Some(a) => a,
        None => return None,
    };
    if amount <= 0 {
        return None;
    }
    let amount_left = match get_i64(balance, "amountLeft") {
        Some(a) => fixed_point_to_cents(a),
        None => 0,
    };
    let limit = match parse_money_cents(obj_get(raw, "monthlyChargeLimit")) {
        Some(c) => c,
        None => 0,
    };
    let used = match parse_money_cents(obj_get(raw, "monthlyUsed")) {
        Some(c) => c,
        None => 0,
    };
    let enabled = match obj_get(raw, "monthlyChargeLimitEnabled") {
        Some(v) => match as_bool(v) {
            Some(b) => b,
            None => false,
        },
        None => false,
    };
    Some((amount_left, limit, used, enabled))
}

// ---------------------------------------------------------------------------
// The `/usages` payload

/// Weekly usage as a fraction: `used` of `limit`, with `0 <= used <= limit`
/// and `limit > 0`; the credit usage percentage shown is `100 * used / limit`,
/// within 0-100.
#[derive(Debug, Clone, Copy, PartialEq, Eq, Structural)]
pub struct UsageRatio {
    pub used: i64,
    pub limit: i64,
}

/// The used figure of the weekly ratio, kept within `0..=limit` so that the
/// credit usage percentage stays within 0-100.
pub open spec fn spec_clamp_used(used: i64, limit: i64) -> i64 {
    if used < 0 {
        0
    } else if used > limit {
        limit
    } else {
        used
    }
}

/// What a Kimi `/usages` payload maps to in the pager's billing shape.
#[derive(Debug, Clone)]
pub struct KimiBilling {
    /// Weekly usage (`used` of `limit`); the credit usage percentage derives from it.
    pub usage: Option<UsageRatio>,
    pub current_period: Option<UsagePeriod>,
    pub monthly_limit: Option<Cent>,
    pub used: Option<Cent>,
    pub on_demand_cap: Option<Cent>,
    pub on_demand_used: Option<Cent>,
    pub prepaid_balance: Option<Cent>,
    pub quota_rows: Vec<QuotaRow>,
    pub on_demand_enabled: bool,
}

/// The summary row of the payload, when there is one.
pub open spec fn spec_summary(payload: Json) -> Option<Json> {
    match json::spec_get(payload, "usage"@) {
        Some(u) => if spec_row_present(u) { Some(u) } else { None },
        None => None,
    }
}

/// The `limits[]` entries of the payload (none when it is not an array).
pub open spec fn spec_limit_items(payload: Json) -> Seq<Json> {
    match json::spec_get(payload, "limits"@) {
        Some(Json::Array(items)) => items@,
        _ => seq![],
    }
}

/// The usage figures of a `limits[]` entry: its `detail`, else the entry itself.
pub open spec fn spec_item_detail(item: Json) -> Json {
    match json::spec_get(item, "detail"@) {
        Some(d) => d,
        None => item,
    }
}

/// The window of a `limits[]` entry (nothing to look up when absent).
pub open spec fn spec_item_window(item: Json) -> Json {
    match json::spec_get(item, "window"@) {
        Some(w) => w,
        None => Json::Null,
    }
}

/// The positions of the `limits[]` entries, among the first `n`, that give a row.
pub open spec fn spec_row_indices(items: Seq<Json>, n: nat) -> Seq<int>
    decreases n,
{
    if n == 0 {
        seq![]
    } else {
        let prev = spec_row_indices(items, (n - 1) as nat);
        if spec_row_present(spec_item_detail(items[n - 1])) {
            prev.push(n - 1)
        } else {
            prev
        }
    }
}

/// A quota row agrees with `limits[idx]`: its label defaults to the entry's
/// derived label, used and limit come from the entry's detail, and its hint
/// is the detail's reset hint at some clock reading.
pub open spec fn spec_quota_row_fits(row: QuotaRow, item: Json, idx: int) -> bool {
    let detail = spec_item_detail(item);
    let label = spec_limit_label(item, detail, spec_item_window(item), idx);
    &&& row.label@ == spec_row_label(detail, label)
    &&& row.used == unwrap_or_zero(spec_row_used(detail))
    &&& row.limit == unwrap_or_zero(spec_row_limit(detail))
    &&& exists|at: Option<Seq<char>>| #[trigger] spec_reset_pair_fits(opt_view(row.reset_hint), at, detail)
}

/// Monthly when the lowercased label mentions a month, else weekly.
pub open spec fn spec_period_type_for(lowercase_label: Seq<char>) -> Seq<char> {
    if text::seq_has_infix(lowercase_label, "month"@) {
        "USAGE_PERIOD_TYPE_MONTHLY"@
    } else {
        "USAGE_PERIOD_TYPE_WEEKLY"@
    }
}

/// Monthly when the summary's label mentions a month (in any case), else weekly.
pub open spec fn spec_period_type(label: Seq<char>) -> Seq<char> {
    spec_period_type_for(text::spec_to_lowercase(label))
}

/// The wallet figures, or zeros and disabled when there is no booster wallet.
pub open spec fn spec_wallet(payload: Json) -> (i64, i64, i64, bool) {
    match json::spec_get(payload, "boosterWallet"@) {
        Some(w) => match spec_booster_wallet(w) {
            Some(t) => t,
            None => (0, 0, 0, false),
        },
        None => (0, 0, 0, false),
    }
}

/// The summary part of the mapping: usage, period, limit and used figures.
pub open spec fn spec_summary_fits(r: KimiBilling, payload: Json) -> bool {
    match spec_summary(payload) {
        Some(u) => {
            let used = unwrap_or_zero(spec_row_used(u));
            let limit = unwrap_or_zero(spec_row_limit(u));
            &&& r.usage == (if limit > 0 {
                Some(UsageRatio { used: spec_clamp_used(used, limit), limit })
            } else {
                None
            })
            &&& r.monthly_limit == (if limit > 0 {
                Some(Cent { val: limit })
            } else {
                None
            })
            &&& r.used == Some(Cent { val: used })
            &&& r.current_period matches Some(p) && {
                &&& opt_view(p.period_type) == Some(
                    spec_period_type(spec_row_label(u, "Weekly limit"@)),
                )
                &&& p.start is None
                &&& exists|hint: Option<Seq<char>>| #[trigger] spec_reset_pair_fits(hint, opt_view(p.end), u)
            }
        },
        None => {
            &&& r.usage is None
            &&& r.monthly_limit is None
            &&& r.used is None
            &&& r.current_period is None
        },
    }
}

/// The wallet part of the mapping: pay-as-you-go cap and spend when the
/// charge limit is enabled and positive, prepaid credits when positive.
pub open spec fn spec_wallet_fits(r: KimiBilling, payload: Json) -> bool {
    let (prepaid, charge_limit, charge_used, enabled) = spec_wallet(payload);
    &&& r.on_demand_cap == (if enabled && charge_limit > 0 {
        Some(Cent { val: charge_limit })
    } else {
        None
    })
    &&& r.on_demand_used == (if enabled && charge_limit > 0 {
        Some(Cent { val: charge_used })
    } else {
        None
    })
    &&& r.prepaid_balance == (if prepaid > 0 {
        Some(Cent { val: prepaid })
    } else {
        None
    })
    &&& r.on_demand_enabled == enabled
}

/// The quota-row part of the mapping: one row per `limits[]` entry that
/// gives one, in order.
pub open spec fn spec_quota_rows_fit(rows: Seq<QuotaRow>, payload: Json) -> bool {
    let items = spec_limit_items(payload);
    let idxs = spec_row_indices(items, items.len());
    &&& rows.len() == idxs.len()
    &&& forall|k: int|
        0 <= k < idxs.len() ==> spec_quota_row_fits(#[trigger] rows[k], items[idxs[k]], idxs[k])
}

/// A quota row agrees with `limits[idx]` at clock reading `now`: figures and
/// label as in `spec_quota_row_fits`, and its hint is the detail's reset hint
/// at `now`.
pub open spec fn spec_quota_row_fits_with(row: QuotaRow, item: Json, idx: int, now: Option<Instant>) -> bool {
    let detail = spec_item_detail(item);
    let label = spec_limit_label(item, detail, spec_item_window(item), idx);
    &&& row.label@ == spec_row_label(detail, label)
    &&& row.used == unwrap_or_zero(spec_row_used(detail))
    &&& row.limit == unwrap_or_zero(spec_row_limit(detail))
    &&& opt_view(row.reset_hint) == spec_reset_pair_with(detail, now).0
}

/// The quota rows at clock reading `now`: one row per `limits[]` entry that
/// gives one, in order, each hint taken at `now`.
pub open spec fn spec_quota_rows_fit_with(rows: Seq<QuotaRow>, payload: Json, now: Option<Instant>) -> bool {
    let items = spec_limit_items(payload);
    let idxs = spec_row_indices(items, items.len());
    &&& rows.len() == idxs.len()
    &&& forall|k: int|
        0 <= k < idxs.len() ==> spec_quota_row_fits_with(
            #[trigger] rows[k],
            items[idxs[k]],
            idxs[k],
            now,
        )
}

/// The weekly period at clock reading `now`: its end is the summary row's
/// reset instant at `now`.
pub open spec fn spec_summary_end_with(r: KimiBilling, payload: Json, now: Option<Instant>) -> bool {
    match spec_summary(payload) {
        Some(u) => r.current_period matches Some(p) && opt_view(p.end) == spec_reset_pair_with(u, now).1,
        None => r.current_period is None,
    }
}

/// At most one row per entry.
proof fn lemma_row_indices_len(items: Seq<Json>, n: nat)
    ensures
        spec_row_indices(items, n).len() <= n,
    decreases n,
{
    if n > 0 {
        lemma_row_indices_len(items, (n - 1) as nat);
    }
}

fn quota_rows_of(payload: &Json, now: Option<Instant>) -> (rows: Vec<QuotaRow>)
    requires
        spec_reading_ok(now),
    ensures
        spec_quota_rows_fit(rows@, *payload),
        spec_quota_rows_fit_with(rows@, *payload, now),
{
    let mut rows: Vec<QuotaRow> = Vec::new();
    match obj_get(payload, "limits") {
        Some(Json::Array(items)) => {
            let ghost all = items@;
            let mut i: usize = 0;
            while i < items.len()
                invariant
                    all == items@,
                    all == spec_limit_items(*payload),
                    i <= all.len(),
                    rows@.len() == spec_row_indices(all, i as nat).len(),
                    spec_reading_ok(now),
                    forall|k: int|
                        0 <= k < rows@.len() ==> spec_quota_row_fits(
                            #[trigger] rows@[k],
                            all[spec_row_indices(all, i as nat)[k]],
                            spec_row_indices(all, i as nat)[k],
                        ) && spec_quota_row_fits_with(
                            rows@[k],
                            all[spec_row_indices(all, i as nat)[k]],
                            spec_row_indices(all, i as nat)[k],
                            now,
                        ),
                decreases all.len() - i,
            {
                let item = &items[i];
                let detail = match obj_get(item, "detail") {
                    Some(d) => d,
                    None => item,
                };
                assert(*detail == spec_item_detail(*item));
                let null = Json::Null;
                let window = match obj_get(item, "window") {
                    Some(w) => w,
                    None => &null,
                };
                assert(*window == spec_item_window(*item));
                let label = limit_label(item, detail, window, i);
                let ghost prev = rows@;
                match parse_usage_row_with(detail, label.as_str(), now) {
                    Some(row) => {
                        assert(spec_reset_pair_fits(
                            opt_view(row.reset_hint),
                            opt_view(row.reset_at),
                            *detail,
                        ));
                        let q = QuotaRow {
                            label: row.label,
                            used: row.used,
                            limit: row.limit,
                            reset_hint: row.reset_hint,
                        };
                        assert(spec_quota_row_fits(q, all[i as int], i as int));
                        assert(spec_quota_row_fits_with(q, all[i as int], i as int, now));
                        rows.push(q);
                        assert(spec_row_indices(all, (i + 1) as nat) == spec_row_indices(
                            all,
                            i as nat,
                        ).push(i as int));
                    },
                    None => {
                        assert(spec_row_indices(all, (i + 1) as nat) == spec_row_indices(
                            all,
                            i as nat,
                        ));
                    },
                }
                proof {
                    let idxs = spec_row_indices(all, (i + 1) as nat);
                    assert forall|k: int| 0 <= k < rows@.len() implies spec_quota_row_fits(
                        #[trigger] rows@[k],
                        all[idxs[k]],
                        idxs[k],
                    ) && spec_quota_row_fits_with(rows@[k], all[idxs[k]], idxs[k], now) by {
                        if k < prev.len() {
                            assert(rows@[k] == prev[k]);
                        }
                    }
                }
                i = i + 1;
            }
        },
        _ => {},
    }
    rows
}

/// The period type for a summary label already lowercased.
pub fn period_type_for(lowercase_label: &str) -> (t: String)
    ensures
        t@ == spec_period_type_for(lowercase_label@),
{
    if text::str_contains(lowercase_label, "month") {
        String::from_str("USAGE_PERIOD_TYPE_MONTHLY")
    } else {
        String::from_str("USAGE_PERIOD_TYPE_WEEKLY")
    }
}

fn period_type_of(label: &str) -> (t: String)
    ensures
        t@ == spec_period_type(label@),
{
    let lower = text::to_lowercase(label);
    period_type_for(lower.as_str())
}

/// Maps the Kimi `/usages` payload onto the billing shape the pager renders:
/// the summary `usage` gives the weekly usage and next reset, `limits[]`
/// gives the extra quota rows (5h limit etc.), and `boosterWallet` gives the
/// prepaid credits and the pay-as-you-go monthly charge limit.
///
/// The clock is read once, and every reset hint and instant of the mapping
/// is taken at that one reading.
pub fn billing_from_kimi_usages(payload: &Json) -> (r: KimiBilling)
    ensures
        spec_summary_fits(r, *payload),
        spec_wallet_fits(r, *payload),
        spec_quota_rows_fit(r.quota_rows@, *payload),
        r.usage matches Some(u) ==> 0 <= u.used <= u.limit && u.limit > 0,
        r.on_demand_cap is Some <==> r.on_demand_used is Some,
        r.prepaid_balance matches Some(c) ==> c.val > 0,
        r.quota_rows@.len() <= spec_limit_items(*payload).len(),
        exists|now: Option<Instant>|
            spec_reading_ok(now) && #[trigger] spec_summary_end_with(r, *payload, now)
                && spec_quota_rows_fit_with(r.quota_rows@, *payload, now),
{
    let now = utc_now();
    let r = billing_from_kimi_usages_with(payload, now);
    assert(spec_reading_ok(now) && spec_summary_end_with(r, *payload, now)
        && spec_quota_rows_fit_with(r.quota_rows@, *payload, now));
    r
}

/// The mapping of a Kimi `/usages` payload at clock reading `now` (no
/// reading: `None`): as `billing_from_kimi_usages`, with the period end and
/// every quota-row hint taken at `now`.
pub fn billing_from_kimi_usages_with(payload: &Json, now: Option<Instant>) -> (r: KimiBilling)
    requires
        spec_reading_ok(now),
    ensures
        spec_summary_fits(r, *payload),
        spec_wallet_fits(r, *payload),
        spec_quota_rows_fit(r.quota_rows@, *payload),
        r.usage matches Some(u) ==> 0 <= u.used <= u.limit && u.limit > 0,
        r.on_demand_cap is Some <==> r.on_demand_used is Some,
        r.prepaid_balance matches Some(c) ==> c.val > 0,
        r.quota_rows@.len() <= spec_limit_items(*payload).len(),
        spec_summary_end_with(r, *payload, now),
        spec_quota_rows_fit_with(r.quota_rows@, *payload, now),
{
    let summary = match obj_get(payload, "usage") {
        Some(u) => parse_usage_row_with(u, "Weekly limit", now),
        None => None,
    };
    let quota_rows = quota_rows_of(payload, now);
    proof {
        let items = spec_limit_items(*payload);
        lemma_row_indices_len(items, items.len());
    }
    let wallet = match obj_get(payload, "boosterWallet") {
        Some(w) => parse_booster_wallet(w),
        None => None,
    };
    let (prepaid, charge_limit, charge_used, charge_enabled) = match wallet {
        Some(t) => t,
        None => (0, 0, 0, false),
    };
    let (usage, current_period, monthly_limit, used) = match summary {
        Some(row) => {
            let ghost u = json::spec_get(*payload, "usage"@).unwrap();
            assert(spec_reset_pair_fits(opt_view(row.reset_hint), opt_view(row.reset_at), u));
            let usage = if row.limit > 0 {
                let used = if row.used < 0 {
                    0
                } else if row.used > row.limit {
                    row.limit
                } else {
                    row.used
                };
                Some(UsageRatio { used, limit: row.limit })
            } else {
                None
            };
            let period = UsagePeriod {
                period_type: Some(period_type_of(row.label.as_str())),
                start: None,
                end: row.reset_at,
            };
            let monthly_limit = if row.limit > 0 {
                Some(Cent { val: row.limit })
            } else {
                None
            };
            (usage, Some(period), monthly_limit, Some(Cent { val: row.used }))
        },
        None => (None, None, None, None),
    };
    let on_demand = charge_enabled && charge_limit > 0;
    KimiBilling {
        usage,
        current_period,
        monthly_limit,
        used,
        on_demand_cap: if on_demand {
            Some(Cent { val: charge_limit })
        } else {
            None
        },
        on_demand_used: if on_demand {
            Some(Cent { val: charge_used })
        } else {
            None
        },
        prepaid_balance: if prepaid > 0 {
            Some(Cent { val: prepaid })
        } else {
            None
        },
        quota_rows,
        on_demand_enabled: charge_enabled,
    }
}

// ---------------------------------------------------------------------------
// Laws

/// A duration under a minute is written in seconds alone; one of a minute or
/// more never shows seconds; one that is not positive is `0s`.
pub proof fn lemma_format_duration_units(t: int)
    ensures
        t <= 0 ==> spec_format_duration(t) == "0s"@,
        0 < t < 60 ==> spec_format_duration(t) == spec_unit(t, 's'),
        t >= 60 ==> forall|k: int|
            0 <= k < spec_duration_parts(t).len() ==> (#[trigger] spec_duration_parts(t)[k]).last()
                != 's',
{
    if t >= 60 {
        let days = t / 86400;
        let hours = t % 86400 / 3600;
        let minutes = t % 3600 / 60;
        assert(days > 0 || hours > 0 || minutes > 0) by (nonlinear_arith)
            requires
                t >= 60,
                days == t / 86400,
                hours == t % 86400 / 3600,
                minutes == t % 3600 / 60,
        ;
    }
}

/// A positive booster amount never rounds away to nothing: it is at least
/// one cent.
pub proof fn lemma_positive_amount_at_least_a_cent(value: i64)
    requires
        value > 0,
    ensures
        spec_fixed_point_to_cents(value) >= 1,
{
}

/// Converting to cents keeps the order of amounts.
pub proof fn lemma_fixed_point_to_cents_monotone(a: i64, b: i64)
    requires
        a <= b,
    ensures
        spec_fixed_point_to_cents(a) <= spec_fixed_point_to_cents(b),
{
    let s = FIXED_POINT_SCALE as int;
    if a >= 0 {
        assert((a + 500_000) / s <= (b + 500_000) / s) by (nonlinear_arith)
            requires
                a <= b,
                s == 1_000_000,
        ;
    } else if b < 0 {
        assert((-b + 500_000) / s <= (-a + 500_000) / s) by (nonlinear_arith)
            requires
                a <= b,
                s == 1_000_000,
        ;
    } else {
        assert((-a + 500_000) / s >= 0) by (nonlinear_arith)
            requires
                a < 0,
                s == 1_000_000,
        ;
    }
}

/// A reset instant given as text wins over a reset-in count: it is handed
/// back unchanged as the reset instant, whatever the clock reads.
pub proof fn lemma_reset_at_text_wins(raw: Json, now: Instant, v: Seq<char>)
    requires
        spec_reset_at_text(raw) == Some(v),
    ensures
        spec_reset_hint_at(raw, now).1 == Some(v),
        spec_reset_hint_at(raw, now).0 == Some(spec_reset_at_hint(v, now)),
{
}

/// Whatever the clock reads, or when it cannot be read, a reset-at text is
/// handed back as the reset instant, and a reset-in count is shown as the
/// time left; a row with neither has no reset pair.
pub proof fn lemma_reset_pair_parts_without_clock(hint: Option<Seq<char>>, at: Option<Seq<char>>, raw: Json)
    requires
        spec_reset_pair_fits(hint, at, raw),
    ensures
        spec_reset_at_text(raw) matches Some(v) ==> at == Some(v),
        spec_reset_at_text(raw) is None ==> (spec_reset_in_secs(raw) matches Some(secs) ==> hint
            == Some("resets in "@ + spec_format_duration(secs as int))),
        spec_reset_at_text(raw) is None && spec_reset_in_secs(raw) is None ==> hint is None && at is None,
{
}

/// At a clock reading `now`, a reset-at text that reads as an instant at
/// least a whole second after `now` is reported as the time left until it,
/// never as `reset`; and for instants outside leap seconds that time is the
/// whole seconds between them, truncated.
pub proof fn lemma_future_reset_reports_time_left(raw: Json, now: Instant, v: Seq<char>, at: Instant)
    requires
        clock::spec_clock_reading(now),
        spec_reset_at_text(raw) == Some(v),
        clock::instant_of(clock::spec_rfc3339_instant(v)) == Some(at),
        clock::spec_seconds_between(at, now) > 0,
    ensures
        spec_reset_pair_with(raw, Some(now)).0 == Some(
            "resets in "@ + spec_format_duration(clock::spec_seconds_between(at, now)),
        ),
        spec_reset_pair_with(raw, Some(now)).0 != Some("reset"@),
        spec_reset_pair_with(raw, Some(now)).1 == Some(v),
{
    reveal_strlit("reset");
    reveal_strlit("resets in ");
    assert(("resets in "@ + spec_format_duration(clock::spec_seconds_between(at, now)))[0] == 'r');
    assert(("resets in "@ + spec_format_duration(clock::spec_seconds_between(at, now))).len() > 5);
}

/// Outside leap seconds, the seconds between two instants are their
/// difference in nanoseconds divided by 10^9, truncated toward zero; an
/// instant a whole second or more later is at least one second away.
pub proof fn lemma_seconds_between_plain(later: Instant, earlier: Instant)
    requires
        later.nanos < 1_000_000_000,
        earlier.nanos < 1_000_000_000,
    ensures
        clock::spec_seconds_between(later, earlier) == clock::div_toward_zero(
            (later.secs - earlier.secs) * 1_000_000_000 + later.nanos - earlier.nanos,
            1_000_000_000,
        ),
        later.secs >= earlier.secs + 1 && later.nanos >= earlier.nanos ==> clock::spec_seconds_between(
            later,
            earlier,
        ) >= 1,
{
    let total = (later.secs - earlier.secs) * 1_000_000_000 + later.nanos - earlier.nanos;
    if later.secs >= earlier.secs + 1 && later.nanos >= earlier.nanos {
        assert(total / 1_000_000_000 >= 1) by (nonlinear_arith)
            requires
                total >= 1_000_000_000,
        ;
    }
}

/// The weekly period's end is the summary row's reset instant at the clock
/// reading the mapping takes: a reset-at text as it is, or, for a reset-in
/// count of `s` seconds, the RFC 3339 text of the instant `s` seconds after
/// the reading.
pub proof fn lemma_period_end_is_the_reset_instant(
    payload: Json,
    r: KimiBilling,
    now: Instant,
    u: Json,
)
    requires
        spec_summary_end_with(r, payload, Some(now)),
        clock::spec_clock_reading(now),
        spec_summary(payload) == Some(u),
    ensures
        spec_reset_at_text(u) matches Some(v) ==> (r.current_period matches Some(p) && opt_view(p.end)
            == Some(v)),
        spec_reset_at_text(u) is None ==> (spec_reset_in_secs(u) matches Some(s) ==> (now.secs + s
            <= i64::MAX ==> (r.current_period matches Some(p) && opt_view(p.end)
            == clock::spec_rfc3339_text((now.secs + s) as i64, now.nanos)))),
        spec_reset_at_text(u) is None && spec_reset_in_secs(u) is None ==> (
        r.current_period matches Some(p) && p.end is None),
{
}

/// A `BOOSTER` balance with a positive amount always gives a wallet, however
/// much of it is left: the prepaid cents of `amountLeft` (0 when absent),
/// the monthly charge limit and monthly spend in cents (0 when absent), and
/// whether the charge limit is enabled (no when absent).
pub proof fn lemma_booster_wallet_present(raw: Json, balance: Json, amount: i64)
    requires
        json::spec_get(raw, "balance"@) == Some(balance),
        json::opt_and_then_str(json::spec_get(balance, "type"@)) == Some("BOOSTER"@),
        json::opt_and_then_i64(json::spec_get(balance, "amount"@)) == Some(amount),
        amount > 0,
    ensures
        spec_booster_wallet(raw) is Some,
        spec_booster_wallet(raw).unwrap().0 == match json::opt_and_then_i64(
            json::spec_get(balance, "amountLeft"@),
        ) {
            Some(a) => spec_fixed_point_to_cents(a) as i64,
            None => 0,
        },
        spec_booster_wallet(raw).unwrap().1 == match json::spec_get(raw, "monthlyChargeLimit"@) {
            Some(m) => unwrap_or_zero(json::opt_and_then_i64(json::spec_get(m, "priceInCents"@))),
            None => 0,
        },
        spec_booster_wallet(raw).unwrap().2 == match json::spec_get(raw, "monthlyUsed"@) {
            Some(m) => unwrap_or_zero(json::opt_and_then_i64(json::spec_get(m, "priceInCents"@))),
            None => 0,
        },
        spec_booster_wallet(raw).unwrap().3 == (json::opt_and_then_bool(
            json::spec_get(raw, "monthlyChargeLimitEnabled"@),
        ) == Some(true)),
{
}

/// A reset instant that has already passed is reported as `reset`.
pub proof fn lemma_past_reset_reports_reset(raw: Json, now: Instant, v: Seq<char>, at: Instant)
    requires
        spec_reset_at_text(raw) == Some(v),
        clock::instant_of(clock::spec_rfc3339_instant(v)) == Some(at),
        clock::spec_seconds_between(at, now) <= 0,
    ensures
        spec_reset_hint_at(raw, now).0 == Some("reset"@),
{
}

/// A payload with no `usage`, no `limits` and no `boosterWallet` maps to a
/// billing shape with nothing in it and on-demand disabled.
pub proof fn lemma_bare_payload_maps_to_nothing(payload: Json, r: KimiBilling)
    requires
        json::spec_get(payload, "usage"@) is None,
        json::spec_get(payload, "limits"@) is None,
        json::spec_get(payload, "boosterWallet"@) is None,
        spec_summary_fits(r, payload),
        spec_wallet_fits(r, payload),
        spec_quota_rows_fit(r.quota_rows@, payload),
    ensures
        r.usage is None,
        r.current_period is None,
        r.monthly_limit is None,
        r.used is None,
        r.on_demand_cap is None,
        r.on_demand_used is None,
        r.prepaid_balance is None,
        r.quota_rows@.len() == 0,
        !r.on_demand_enabled,
{
}

/// A booster wallet whose balance amount is not positive gives no prepaid
/// credits and no pay-as-you-go figures.
pub proof fn lemma_empty_wallet_gives_nothing(payload: Json, r: KimiBilling, wallet: Json, balance: Json)
    requires
        json::spec_get(payload, "boosterWallet"@) == Some(wallet),
        json::spec_get(wallet, "balance"@) == Some(balance),
        json::opt_and_then_i64(json::spec_get(balance, "amount"@)) matches Some(a) && a <= 0,
        spec_wallet_fits(r, payload),
    ensures
        r.prepaid_balance is None,
        r.on_demand_cap is None,
        r.on_demand_used is None,
        !r.on_demand_enabled,
{
}

} // verus!
