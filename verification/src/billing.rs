//! The billing shapes the pager renders, and the billing extension's own
//! decisions: which method is answered, where the quota is fetched, what an
//! upstream failure reports, and the auto top-up rule.

use vstd::prelude::*;
use crate::json::{self, Json, get_str};
use crate::text;

verus! {

/// Billing period cycle identifier.
#[derive(Debug, Clone, Copy, PartialEq, Eq, Structural)]
pub struct BillingCycle {
    pub year: i32,
    pub month: i32,
}

/// Cent value from the billing API (USD cents).
#[derive(Debug, Clone, Copy, PartialEq, Eq, Structural)]
pub struct Cent {
    pub val: i64,
}

/// A usage period (weekly or monthly). `start`/`end` are RFC 3339
/// timestamps; `period_type` is the proto enum name
/// (e.g. `USAGE_PERIOD_TYPE_WEEKLY`).
#[derive(Debug, Clone)]
pub struct UsagePeriod {
    pub period_type: Option<String>,
    pub start: Option<String>,
    pub end: Option<String>,
}

/// Usage summary for one past billing period.
#[derive(Debug, Clone)]
pub struct BillingPeriodUsage {
    pub billing_cycle: Option<BillingCycle>,
    pub included_used: Option<Cent>,
    pub on_demand_used: Option<Cent>,
    pub total_used: Option<Cent>,
}

/// One extra quota window (e.g. the 5h limit), rendered as its own line in
/// the `/usage` summary.
#[derive(Debug, Clone)]
pub struct QuotaRow {
    pub label: String,
    pub used: i64,
    pub limit: i64,
    /// Ready-to-display reset hint (e.g. "resets in 2d 3h"), if known.
    pub reset_hint: Option<String>,
}

/// Auto top-up configuration.
#[derive(Debug, Clone)]
pub struct AutoTopupRule {
    pub enabled: bool,
    pub min_before_hitting_sl: Option<Cent>,
    pub topup_amount: Option<Cent>,
    pub max_amount_per_month: Option<Cent>,
}

/// Wrapper for the auto top-up rule response.
#[derive(Debug, Clone)]
pub struct GetAutoTopupRuleResponse {
    pub rule: Option<AutoTopupRule>,
}

// ---------------------------------------------------------------------------
// The extension methods

/// The billing extension methods the agent answers.
#[derive(Debug, Clone, Copy, PartialEq, Eq, Structural)]
pub enum ExtMethod {
    /// `x.ai/billing`: the quota snapshot.
    Billing,
    /// `x.ai/auto-topup-rule`: the auto top-up rule.
    AutoTopupRule,
}

/// Which handler answers an extension method; `None` for a method that is
/// not found.
pub fn route_ext_method(method: &str) -> (m: Option<ExtMethod>)
    ensures
        m == (if method@ == "x.ai/billing"@ {
            Some(ExtMethod::Billing)
        } else if method@ == "x.ai/auto-topup-rule"@ {
            Some(ExtMethod::AutoTopupRule)
        } else {
            None
        }),
{
    if text::str_eq(method, "x.ai/billing") {
        Some(ExtMethod::Billing)
    } else if text::str_eq(method, "x.ai/auto-topup-rule") {
        Some(ExtMethod::AutoTopupRule)
    } else {
        None
    }
}

/// The URL of the quota endpoint under the proxy base: `{base}/usages`, the
/// base's trailing slashes removed.
pub fn usages_url(proxy_base: &str) -> (url: String)
    ensures
        url@ == text::spec_trim_end_char(proxy_base@, '/') + "/usages"@,
{
    let mut url = String::from_str(text::trim_end_char(proxy_base, '/'));
    url.append("/usages");
    url
}

/// The detail of an upstream error: the `error` text of the response body
/// when the body is a JSON object that has one, else `HTTP {status}`.
pub open spec fn spec_upstream_error_detail(status: u16, body: Option<Json>) -> Seq<char> {
    let err = match body {
        Some(v) => json::opt_and_then_str(json::spec_get(v, "error"@)),
        None => None,
    };
    match err {
        Some(e) => e,
        None => "HTTP "@ + text::spec_decimal(status as int),
    }
}

/// The detail reported for an upstream error response; `body` is the
/// response body when it parsed as JSON.
pub fn upstream_error_detail(status: u16, body: Option<&Json>) -> (detail: String)
    ensures
        detail@ == spec_upstream_error_detail(status, match body {
            Some(v) => Some(*v),
            None => None,
        }),
{
    let err = match body {
        Some(v) => get_str(v, "error"),
        None => None,
    };
    match err {
        Some(e) => String::from_str(e),
        None => {
            let mut d = String::from_str("HTTP ");
            text::push_decimal_u64(&mut d, status as u64);
            d
        },
    }
}

/// The auto top-up rule reported for Kimi accounts, which have no auto
/// top-up: a definitive "no rule".
pub fn auto_topup_rule_response() -> (r: GetAutoTopupRuleResponse)
    ensures
        r.rule is None,
{
    GetAutoTopupRuleResponse { rule: None }
}

} // verus!
