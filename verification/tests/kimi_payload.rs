use grok_welcome_billing::billing::{auto_topup_rule_response, route_ext_method, upstream_error_detail, usages_url, Cent, ExtMethod};
use grok_welcome_billing::kimi::{reset_hint_unclocked, period_type_for, reset_at_hint, billing_from_kimi_usages, fixed_point_to_cents, format_duration, limit_label, parse_booster_wallet, parse_money_cents, parse_usage_row, reset_hint_at, UsageRatio};
use grok_welcome_billing::clock::{MAX_TIMESTAMP, MIN_TIMESTAMP, parse_rfc3339, rfc3339_text, seconds_between, utc_now, Instant};
use grok_welcome_billing::double::{f64_bits_as_i64, f64_bits_is_finite};
use grok_welcome_billing::json::{first_present, obj_get, to_i64, Json};

fn num(x: f64) -> Json {
    Json::Number(x.to_bits())
}

fn whole(x: i64) -> Json {
    num(x as f64)
}

fn text(s: &str) -> Json {
    Json::Str(s.to_string(), s.trim().parse::<f64>().ok().map(f64::to_bits))
}

fn obj(members: Vec<(&str, Json)>) -> Json {
    Json::Object(members.into_iter().map(|(k, v)| (k.to_string(), v)).collect())
}

#[test]
fn format_duration_writes_the_larger_units() {
    assert_eq!(format_duration(0), "0s");
    assert_eq!(format_duration(-5), "0s");
    assert_eq!(format_duration(1), "1s");
    assert_eq!(format_duration(59), "59s");
    assert_eq!(format_duration(60), "1m");
    assert_eq!(format_duration(61), "1m");
    assert_eq!(format_duration(3600), "1h");
    assert_eq!(format_duration(3661), "1h 1m");
    assert_eq!(format_duration(86400), "1d");
    assert_eq!(format_duration(2 * 86400 + 3 * 3600 + 5 * 60 + 7), "2d 3h 5m");
    assert_eq!(format_duration(90061), "1d 1h 1m");
    assert_eq!(format_duration(86400 + 59), "1d");
    assert_eq!(format_duration(i64::MAX), "106751991167300d 15h 30m");
}

#[test]
fn fixed_point_to_cents_rounds_half_away_from_zero() {
    assert_eq!(fixed_point_to_cents(0), 0);
    assert_eq!(fixed_point_to_cents(1), 1);
    assert_eq!(fixed_point_to_cents(999_999), 1);
    assert_eq!(fixed_point_to_cents(1_000_000), 1);
    assert_eq!(fixed_point_to_cents(1_499_999), 1);
    assert_eq!(fixed_point_to_cents(1_500_000), 2);
    assert_eq!(fixed_point_to_cents(12_340_000_000), 12340);
    assert_eq!(fixed_point_to_cents(-400_000), 0);
    assert_eq!(fixed_point_to_cents(-500_000), -1);
    assert_eq!(fixed_point_to_cents(-1_500_000), -2);
    assert_eq!(fixed_point_to_cents(i64::MAX), 9_223_372_036_855);
    assert_eq!(fixed_point_to_cents(i64::MIN), -9_223_372_036_855);
}

#[test]
fn positive_amounts_are_at_least_a_cent() {
    for v in [1, 2, 500, 499_999, 999_999, 1_000_001, 7_000_000_000] {
        assert!(fixed_point_to_cents(v) >= 1, "{v}");
    }
}

#[test]
fn doubles_truncate_toward_zero_and_saturate() {
    assert_eq!(f64_bits_as_i64(42.9f64.to_bits()), 42);
    assert_eq!(f64_bits_as_i64((-42.9f64).to_bits()), -42);
    assert_eq!(f64_bits_as_i64(0.5f64.to_bits()), 0);
    assert_eq!(f64_bits_as_i64((-0.0f64).to_bits()), 0);
    assert_eq!(f64_bits_as_i64(1e300f64.to_bits()), i64::MAX);
    assert_eq!(f64_bits_as_i64((-1e300f64).to_bits()), i64::MIN);
    assert_eq!(f64_bits_as_i64(f64::INFINITY.to_bits()), i64::MAX);
    assert_eq!(f64_bits_as_i64(f64::NEG_INFINITY.to_bits()), i64::MIN);
    assert_eq!(f64_bits_as_i64(f64::NAN.to_bits()), 0);
    assert_eq!(f64_bits_as_i64(9007199254740992.0f64.to_bits()), 9007199254740992);
    assert_eq!(f64_bits_as_i64(f64::MIN_POSITIVE.to_bits()), 0);
    assert_eq!(f64_bits_as_i64(9.2233720368547758e18f64.to_bits()), i64::MAX);
    assert_eq!(f64_bits_as_i64((-9.2233720368547758e18f64).to_bits()), i64::MIN);
    for x in [0.0f64, 1.0, -1.0, 3.99, -3.99, 123456789.5, -1e15, 4503599627370497.0, 1.5e18] {
        assert_eq!(f64_bits_as_i64(x.to_bits()), x as i64, "{x}");
    }
    assert!(f64_bits_is_finite(1.0f64.to_bits()));
    assert!(!f64_bits_is_finite(f64::NAN.to_bits()));
    assert!(!f64_bits_is_finite(f64::INFINITY.to_bits()));
}

#[test]
fn numbers_and_numeric_strings_coerce_to_i64() {
    assert_eq!(to_i64(&whole(7)), Some(7));
    assert_eq!(to_i64(&num(7.8)), Some(7));
    assert_eq!(to_i64(&num(f64::INFINITY)), None);
    assert_eq!(to_i64(&text(" 500 ")), Some(500));
    assert_eq!(to_i64(&text("12.9")), Some(12));
    assert_eq!(to_i64(&text("inf")), Some(i64::MAX));
    assert_eq!(to_i64(&text("NaN")), Some(0));
    assert_eq!(to_i64(&text("five")), None);
    assert_eq!(to_i64(&Json::Bool(true)), None);
    assert_eq!(to_i64(&Json::Null), None);
}

#[test]
fn object_members_are_found_by_first_key() {
    let v = obj(vec![("a", whole(1)), ("b", whole(2)), ("a", whole(3))]);
    assert_eq!(obj_get(&v, "a").and_then(to_i64), Some(1));
    assert_eq!(obj_get(&v, "b").and_then(to_i64), Some(2));
    assert!(obj_get(&v, "c").is_none());
    assert!(obj_get(&whole(1), "a").is_none());
    assert_eq!(first_present(&v, &["c", "b", "a"]).and_then(to_i64), Some(2));
    assert!(first_present(&v, &["x", "y"]).is_none());
}

#[test]
fn usage_row_falls_back_to_limit_minus_remaining() {
    let row = parse_usage_row(&obj(vec![("limit", whole(100)), ("remaining", whole(60))]), "Quota").unwrap();
    assert_eq!(row.label, "Quota");
    assert_eq!(row.used, 40);
    assert_eq!(row.limit, 100);
    assert!(row.reset_hint.is_none() && row.reset_at.is_none());
    // `used` wins over `remaining`.
    let row = parse_usage_row(&obj(vec![("used", whole(3)), ("remaining", whole(60))]), "Quota").unwrap();
    assert_eq!(row.used, 3);
    assert_eq!(row.limit, 0);
    // An explicit name or title wins over the default label; empty ones do not.
    let row = parse_usage_row(&obj(vec![("title", text("Daily")), ("used", whole(1))]), "Quota").unwrap();
    assert_eq!(row.label, "Daily");
    let row = parse_usage_row(&obj(vec![("name", text("")), ("used", whole(1))]), "Quota").unwrap();
    assert_eq!(row.label, "Quota");
    // No figures, or not an object: no row.
    assert!(parse_usage_row(&obj(vec![("remaining", whole(60))]), "Quota").is_none());
    assert!(parse_usage_row(&whole(5), "Quota").is_none());
}

#[test]
fn limit_label_prefers_explicit_names() {
    let detail = obj(vec![("title", text("From detail"))]);
    let item = obj(vec![("name", text("From item"))]);
    assert_eq!(limit_label(&item, &detail, &Json::Null, 0), "From item");
    assert_eq!(limit_label(&obj(vec![]), &detail, &Json::Null, 0), "From detail");
    let hours = obj(vec![("duration", whole(2)), ("timeUnit", text("HOUR"))]);
    assert_eq!(limit_label(&obj(vec![]), &obj(vec![]), &hours, 0), "2h limit");
    let secs = obj(vec![("duration", whole(30))]);
    assert_eq!(limit_label(&obj(vec![]), &obj(vec![]), &secs, 4), "30s limit");
    let minutes = obj(vec![("duration", whole(90)), ("timeUnit", text("MINUTE"))]);
    assert_eq!(limit_label(&obj(vec![]), &obj(vec![]), &minutes, 0), "90m limit");
    let negative = obj(vec![("duration", whole(-5)), ("timeUnit", text("MINUTE"))]);
    assert_eq!(limit_label(&obj(vec![]), &obj(vec![]), &negative, 0), "-5m limit");
    assert_eq!(limit_label(&Json::Null, &Json::Null, &Json::Null, 9), "Limit #10");
}

#[test]
fn reset_hints_at_a_fixed_clock_reading() {
    let now = Instant { secs: 1_700_000_000, nanos: 0 };
    let in_two_hours = rfc3339_text(1_700_000_000 + 7200, 0).unwrap();
    let raw = obj(vec![("resetAt", text(&in_two_hours))]);
    let (hint, at) = reset_hint_at(&raw, now);
    assert_eq!(hint.as_deref(), Some("resets in 2h"));
    assert_eq!(at.as_deref(), Some(in_two_hours.as_str()));
    // Not RFC 3339: reported verbatim.
    let raw = obj(vec![("reset_time", text("tomorrow"))]);
    let (hint, at) = reset_hint_at(&raw, now);
    assert_eq!(hint.as_deref(), Some("resets at tomorrow"));
    assert_eq!(at.as_deref(), Some("tomorrow"));
    // Seconds until the reset, and the instant they land on.
    let raw = obj(vec![("ttl", text("90"))]);
    let (hint, at) = reset_hint_at(&raw, now);
    assert_eq!(hint.as_deref(), Some("resets in 1m"));
    assert_eq!(at, rfc3339_text(1_700_000_090, 0));
    assert_eq!(at.as_deref(), Some("2023-11-14T22:14:50+00:00"));
    // A reset-at text wins over a reset-in count; an empty one does not.
    let raw = obj(vec![("reset_in", whole(60)), ("reset_at", text("soon"))]);
    assert_eq!(reset_hint_at(&raw, now).0.as_deref(), Some("resets at soon"));
    let raw = obj(vec![("reset_in", whole(60)), ("reset_at", text(""))]);
    assert_eq!(reset_hint_at(&raw, now).0.as_deref(), Some("resets in 1m"));
    // Nothing, or a count that is not positive: no hint.
    assert_eq!(reset_hint_at(&obj(vec![]), now), (None, None));
    assert_eq!(reset_hint_at(&obj(vec![("window", whole(0))]), now), (None, None));
}

#[test]
fn rfc3339_instants_and_the_seconds_between_them() {
    let a = parse_rfc3339("2023-11-14T22:13:20Z").unwrap();
    assert_eq!(a, Instant { secs: 1_700_000_000, nanos: 0 });
    let b = parse_rfc3339("2023-11-14T23:13:20.5+01:00").unwrap();
    assert_eq!(b, Instant { secs: 1_700_000_000, nanos: 500_000_000 });
    assert!(parse_rfc3339("not a date").is_none());
    assert_eq!(seconds_between(b, a), 0);
    let later = Instant { secs: 1_700_000_100, nanos: 400_000_000 };
    assert_eq!(seconds_between(later, b), 99);
    assert_eq!(seconds_between(b, later), -99);
    assert_eq!(rfc3339_text(1_700_000_000, 0).as_deref(), Some("2023-11-14T22:13:20+00:00"));
    assert!(rfc3339_text(i64::MAX, 0).is_none());
    let now = utc_now().unwrap();
    assert!(now.secs > 1_600_000_000 && now.nanos < 1_000_000_000);
}

#[test]
fn booster_wallet_needs_a_positive_booster_balance() {
    let wallet = |kind: &str, amount: i64| {
        obj(vec![
            ("balance", obj(vec![("type", text(kind)), ("amount", whole(amount)), ("amountLeft", whole(2_500_000))])),
            ("monthlyChargeLimit", obj(vec![("priceInCents", whole(700))])),
        ])
    };
    assert_eq!(parse_booster_wallet(&wallet("BOOSTER", 5)), Some((3, 700, 0, false)));
    assert_eq!(parse_booster_wallet(&wallet("GIFT", 5)), None);
    assert_eq!(parse_booster_wallet(&wallet("BOOSTER", -1)), None);
    assert_eq!(parse_booster_wallet(&obj(vec![])), None);
    assert_eq!(parse_money_cents(Some(&obj(vec![("priceInCents", text("12"))]))), Some(12));
    assert_eq!(parse_money_cents(None), None);
}

#[test]
fn disabled_or_zero_charge_limit_hides_on_demand() {
    let payload = obj(vec![(
        "boosterWallet",
        obj(vec![
            ("balance", obj(vec![("type", text("BOOSTER")), ("amount", whole(1)), ("amountLeft", whole(1))])),
            ("monthlyChargeLimit", obj(vec![("priceInCents", whole(5000))])),
            ("monthlyUsed", obj(vec![("priceInCents", whole(10))])),
        ]),
    )]);
    let config = billing_from_kimi_usages(&payload);
    assert!(!config.on_demand_enabled);
    assert!(config.on_demand_cap.is_none() && config.on_demand_used.is_none());
    // A sub-cent balance still counts as a cent.
    assert_eq!(config.prepaid_balance, Some(Cent { val: 1 }));
}

#[test]
fn monthly_summary_and_missing_limit() {
    let payload = obj(vec![(
        "usage",
        obj(vec![("name", text("Monthly Quota")), ("used", whole(5))]),
    )]);
    let config = billing_from_kimi_usages(&payload);
    assert_eq!(config.usage, None);
    assert_eq!(config.monthly_limit, None);
    assert_eq!(config.used, Some(Cent { val: 5 }));
    let period = config.current_period.unwrap();
    assert_eq!(period.period_type.as_deref(), Some("USAGE_PERIOD_TYPE_MONTHLY"));
    assert!(period.start.is_none() && period.end.is_none());
    let payload = obj(vec![("usage", obj(vec![("used", whole(1)), ("limit", whole(4))]))]);
    let config = billing_from_kimi_usages(&payload);
    assert_eq!(config.usage, Some(UsageRatio { used: 1, limit: 4 }));
    assert_eq!(
        config.current_period.unwrap().period_type.as_deref(),
        Some("USAGE_PERIOD_TYPE_WEEKLY")
    );
}

#[test]
fn limits_without_figures_give_no_rows_and_keep_positions() {
    let payload = obj(vec![(
        "limits",
        Json::Array(vec![
            obj(vec![("detail", obj(vec![("remaining", whole(1))]))]),
            whole(3),
            obj(vec![("used", whole(2))]),
        ]),
    )]);
    let config = billing_from_kimi_usages(&payload);
    assert_eq!(config.quota_rows.len(), 1);
    // The label is numbered by the entry's position, not the row's.
    assert_eq!(config.quota_rows[0].label, "Limit #3");
    assert_eq!(config.quota_rows[0].used, 2);
    // `limits` that is not an array gives no rows.
    let config = billing_from_kimi_usages(&obj(vec![("limits", obj(vec![]))]));
    assert!(config.quota_rows.is_empty());
}

#[test]
fn extension_methods_route_to_their_handlers() {
    assert_eq!(route_ext_method("x.ai/billing"), Some(ExtMethod::Billing));
    assert_eq!(route_ext_method("x.ai/auto-topup-rule"), Some(ExtMethod::AutoTopupRule));
    assert_eq!(route_ext_method("x.ai/billing/"), None);
    assert_eq!(route_ext_method(""), None);
}

#[test]
fn auto_topup_rule_is_never_reported() {
    assert!(auto_topup_rule_response().rule.is_none());
}

#[test]
fn upstream_error_detail_prefers_the_error_text() {
    let body = obj(vec![("error", text("quota service down"))]);
    assert_eq!(upstream_error_detail(503, Some(&body)), "quota service down");
    assert_eq!(upstream_error_detail(502, Some(&obj(vec![("error", whole(1))]))), "HTTP 502");
    assert_eq!(upstream_error_detail(404, None), "HTTP 404");
    assert_eq!(upstream_error_detail(500, Some(&Json::Null)), "HTTP 500");
}

#[test]
fn usages_url_drops_trailing_slashes() {
    assert_eq!(usages_url("https://proxy.example/v1//"), "https://proxy.example/v1/usages");
    assert_eq!(usages_url("https://proxy.example"), "https://proxy.example/usages");
    assert_eq!(usages_url(""), "/usages");
}

#[test]
fn usage_ratio_stays_within_the_allowance() {
    let over = obj(vec![("usage", obj(vec![("limit", whole(100)), ("used", whole(150))]))]);
    let config = billing_from_kimi_usages(&over);
    assert_eq!(config.usage, Some(UsageRatio { used: 100, limit: 100 }));
    // The raw figures are still reported as they came.
    assert_eq!(config.used, Some(Cent { val: 150 }));
    let negative = obj(vec![("usage", obj(vec![("limit", whole(100)), ("remaining", whole(130))]))]);
    let config = billing_from_kimi_usages(&negative);
    assert_eq!(config.usage, Some(UsageRatio { used: 0, limit: 100 }));
    assert_eq!(config.used, Some(Cent { val: -30 }));
}

#[test]
fn reset_at_hint_given_the_parsed_instant() {
    let now = Instant { secs: 1_000, nanos: 0 };
    assert_eq!(reset_at_hint("x", Some(Instant { secs: 4_600, nanos: 0 }), now), "resets in 1h");
    assert_eq!(reset_at_hint("x", Some(Instant { secs: 1_000, nanos: 999_999_999 }), now), "reset");
    assert_eq!(reset_at_hint("x", Some(Instant { secs: 999, nanos: 0 }), now), "reset");
    assert_eq!(reset_at_hint("next week", None, now), "resets at next week");
}

#[test]
fn period_type_follows_the_lowercased_label() {
    assert_eq!(period_type_for("monthly quota"), "USAGE_PERIOD_TYPE_MONTHLY");
    assert_eq!(period_type_for("Monthly quota"), "USAGE_PERIOD_TYPE_WEEKLY");
    assert_eq!(period_type_for("weekly limit"), "USAGE_PERIOD_TYPE_WEEKLY");
}

#[test]
fn rfc3339_text_exists_exactly_on_chronos_time_line() {
    assert!(rfc3339_text(MAX_TIMESTAMP, 0).is_some());
    assert!(rfc3339_text(MAX_TIMESTAMP + 1, 0).is_none());
    assert!(rfc3339_text(MIN_TIMESTAMP, 0).is_some());
    assert!(rfc3339_text(MIN_TIMESTAMP - 1, 0).is_none());
    assert!(rfc3339_text(0, 999_999_999).is_some());
    assert!(rfc3339_text(0, 1_000_000_000).is_none());
    assert!(rfc3339_text(59, 1_500_000_000).is_some());
    assert!(rfc3339_text(59, 2_000_000_000).is_none());
    assert_eq!(rfc3339_text(MAX_TIMESTAMP, 0).as_deref(), Some("+262142-12-31T23:59:59+00:00"));
}

#[test]
fn reset_in_near_the_end_of_time_has_no_instant() {
    let now = Instant { secs: MAX_TIMESTAMP - 10, nanos: 0 };
    let raw = obj(vec![("reset_in", whole(60))]);
    let (hint, at) = reset_hint_at(&raw, now);
    assert_eq!(hint.as_deref(), Some("resets in 1m"));
    assert!(at.is_none());
    let raw = obj(vec![("reset_in", whole(5))]);
    assert!(reset_hint_at(&raw, now).1.is_some());
}

#[test]
fn reset_pair_without_a_clock_keeps_what_needs_none() {
    let raw = obj(vec![("reset_at", text("2030-01-01T00:00:00Z")), ("ttl", whole(5))]);
    let (hint, at) = reset_hint_unclocked(&raw);
    assert_eq!(hint.as_deref(), Some("resets at 2030-01-01T00:00:00Z"));
    assert_eq!(at.as_deref(), Some("2030-01-01T00:00:00Z"));
    let (hint, at) = reset_hint_unclocked(&obj(vec![("ttl", whole(7200))]));
    assert_eq!(hint.as_deref(), Some("resets in 2h"));
    assert!(at.is_none());
    assert_eq!(reset_hint_unclocked(&obj(vec![])), (None, None));
}
