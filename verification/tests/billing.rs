use grok_welcome_billing::kimi::{billing_from_kimi_usages, limit_label, reset_hint_from, UsageRatio};
use grok_welcome_billing::json::{obj_get, Json};

fn num(x: f64) -> Json {
    Json::Number(x.to_bits())
}

fn whole(x: i64) -> Json {
    num(x as f64)
}

fn text(s: &str) -> Json {
    Json::Str(s.to_string(), s.trim().parse::<f64>().ok().map(f64::to_bits))
}

fn obj(members: Vec<(&str, Json)>) -> Json {
    Json::Object(members.into_iter().map(|(k, v)| (k.to_string(), v)).collect())
}

fn percent(u: UsageRatio) -> f64 {
    u.used as f64 / u.limit as f64 * 100.0
}

#[test]
fn kimi_usages_full_payload_maps_all_sections() {
    let reset_at = (chrono::Utc::now() + chrono::Duration::days(2)).to_rfc3339();
    let payload = obj(vec![
        ("usage", obj(vec![("limit", whole(1000)), ("used", whole(250)), ("reset_at", text(&reset_at))])),
        (
            "limits",
            Json::Array(vec![
                obj(vec![
                    ("window", obj(vec![("duration", whole(5)), ("timeUnit", text("USAGE_TIME_UNIT_HOUR"))])),
                    ("detail", obj(vec![("limit", whole(100)), ("remaining", whole(60)), ("reset_in", whole(3600))])),
                ]),
                obj(vec![
                    ("scope", text("Weekly bonus")),
                    ("detail", obj(vec![("limit", text("500")), ("used", text("50"))])),
                ]),
            ]),
        ),
        (
            "boosterWallet",
            obj(vec![
                (
                    "balance",
                    obj(vec![
                        ("type", text("BOOSTER")),
                        ("amount", whole(20_000_000_000i64)),
                        ("amountLeft", whole(12_340_000_000i64)),
                    ]),
                ),
                ("monthlyChargeLimit", obj(vec![("priceInCents", whole(5000)), ("currency", text("USD"))])),
                ("monthlyUsed", obj(vec![("priceInCents", whole(1234)), ("currency", text("USD"))])),
                ("monthlyChargeLimitEnabled", Json::Bool(true)),
            ]),
        ),
    ]);
    let config = billing_from_kimi_usages(&payload);

    // Weekly summary.
    assert_eq!(config.usage.map(percent), Some(25.0));
    let period = config.current_period.unwrap();
    assert_eq!(period.period_type.as_deref(), Some("USAGE_PERIOD_TYPE_WEEKLY"));
    assert_eq!(period.end.as_deref(), Some(reset_at.as_str()));
    assert_eq!(config.monthly_limit.unwrap().val, 1000);
    assert_eq!(config.used.unwrap().val, 250);

    // Per-window rows: window-derived label + remaining->used fallback.
    assert_eq!(config.quota_rows.len(), 2);
    let five_h = &config.quota_rows[0];
    assert_eq!(five_h.label, "5h limit");
    assert_eq!(five_h.used, 40);
    assert_eq!(five_h.limit, 100);
    assert_eq!(five_h.reset_hint.as_deref(), Some("resets in 1h"));
    // scope label + string-coerced numbers.
    let bonus = &config.quota_rows[1];
    assert_eq!(bonus.label, "Weekly bonus");
    assert_eq!(bonus.used, 50);
    assert_eq!(bonus.limit, 500);

    // Booster wallet -> prepaid credits + pay-as-you-go charge limit.
    assert_eq!(config.prepaid_balance.unwrap().val, 12340);
    assert_eq!(config.on_demand_cap.unwrap().val, 5000);
    assert_eq!(config.on_demand_used.unwrap().val, 1234);
    assert_eq!(config.on_demand_enabled, true);
}

#[test]
fn kimi_usages_minimal_payload_tolerates_missing_sections() {
    let config = billing_from_kimi_usages(&obj(vec![]));
    assert!(config.usage.is_none());
    assert!(config.current_period.is_none());
    assert!(config.quota_rows.is_empty());
    assert!(config.prepaid_balance.is_none());
    assert!(config.on_demand_cap.is_none());
}

#[test]
fn kimi_usages_zero_balance_wallet_yields_no_prepaid() {
    let payload = obj(vec![(
        "boosterWallet",
        obj(vec![(
            "balance",
            obj(vec![("type", text("BOOSTER")), ("amount", whole(0)), ("amountLeft", whole(0))]),
        )]),
    )]);
    let config = billing_from_kimi_usages(&payload);
    assert!(config.prepaid_balance.is_none());
}

#[test]
fn kimi_limit_label_minute_windows() {
    let detail = obj(vec![]);
    // 300 minutes -> "5h limit"; 45 minutes -> "45m limit".
    let item = obj(vec![("window", obj(vec![("duration", whole(300)), ("timeUnit", text("MINUTE"))]))]);
    assert_eq!(limit_label(&item, &detail, obj_get(&item, "window").unwrap(), 0), "5h limit");
    let item = obj(vec![("window", obj(vec![("duration", whole(45)), ("timeUnit", text("MINUTE"))]))]);
    assert_eq!(limit_label(&item, &detail, obj_get(&item, "window").unwrap(), 0), "45m limit");
    // Day windows and the numbered fallback.
    let item = obj(vec![("window", obj(vec![("duration", whole(7)), ("timeUnit", text("DAY"))]))]);
    assert_eq!(limit_label(&item, &detail, obj_get(&item, "window").unwrap(), 0), "7d limit");
    assert_eq!(limit_label(&detail, &detail, &detail, 1), "Limit #2");
}

#[test]
fn kimi_reset_hint_past_time_reports_reset() {
    let past = (chrono::Utc::now() - chrono::Duration::hours(1)).to_rfc3339();
    let raw = obj(vec![("reset_at", text(&past))]);
    let (hint, at) = reset_hint_from(&raw);
    assert_eq!(hint.as_deref(), Some("reset"));
    assert_eq!(at.as_deref(), Some(past.as_str()));
}
