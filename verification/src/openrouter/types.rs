//! What the OpenRouter endpoints answer.

use vstd::prelude::*;
use crate::amount::Amount;
use crate::double::Double;
use crate::text::join;
use crate::usage::{amount_view, OpenRouterSnapshot, OpenRouterSnapshotView};

verus! {

/// The answer of the credits endpoint.
#[derive(Debug, Clone)]
pub struct CreditsData {
    pub total_credits: Amount,
    pub total_usage: Amount,
}

/// The answer of the key endpoint.
#[derive(Debug, Clone)]
pub struct KeyData {
    pub label: String,
    pub usage_daily: Amount,
    pub usage_weekly: Amount,
    pub usage_monthly: Amount,
    pub is_free_tier: bool,
    pub limit: Option<Amount>,
    pub limit_remaining: Option<Amount>,
}

#[verifier::ext_equal]
pub struct CreditsDataView {
    pub total_credits: Double,
    pub total_usage: Double,
}

#[verifier::ext_equal]
pub struct KeyDataView {
    pub label: Seq<char>,
    pub usage_daily: Double,
    pub usage_weekly: Double,
    pub usage_monthly: Double,
    pub is_free_tier: bool,
    pub limit: Option<Double>,
    pub limit_remaining: Option<Double>,
}

impl View for CreditsData {
    type V = CreditsDataView;

    open spec fn view(&self) -> CreditsDataView {
        CreditsDataView { total_credits: self.total_credits@, total_usage: self.total_usage@ }
    }
}

impl View for KeyData {
    type V = KeyDataView;

    open spec fn view(&self) -> KeyDataView {
        KeyDataView {
            label: self.label@,
            usage_daily: self.usage_daily@,
            usage_weekly: self.usage_weekly@,
            usage_monthly: self.usage_monthly@,
            is_free_tier: self.is_free_tier,
            limit: amount_view(self.limit),
            limit_remaining: amount_view(self.limit_remaining),
        }
    }
}

/// The name under which a key is shown.
pub open spec fn shown_label(label: Seq<char>) -> Seq<char> {
    if label.len() == 0 {
        "OpenRouter"@
    } else {
        "OpenRouter — "@ + label
    }
}

/// The totals of the account together with what the key has used.
pub open spec fn combined(credits: CreditsDataView, key: KeyDataView) -> OpenRouterSnapshotView {
    OpenRouterSnapshotView {
        label: shown_label(key.label),
        total_credits: credits.total_credits,
        total_usage: credits.total_usage,
        usage_daily: key.usage_daily,
        usage_weekly: key.usage_weekly,
        usage_monthly: key.usage_monthly,
        is_free_tier: key.is_free_tier,
        limit: key.limit,
        limit_remaining: key.limit_remaining,
    }
}

/// Puts both answers together.
pub fn combine(credits: CreditsData, key: KeyData) -> (s: OpenRouterSnapshot)
    ensures
        s@ == combined(credits@, key@),
        s.total_credits == credits.total_credits,
        s.total_usage == credits.total_usage,
        s.usage_daily == key.usage_daily,
        s.usage_weekly == key.usage_weekly,
        s.usage_monthly == key.usage_monthly,
        s.is_free_tier == key.is_free_tier,
        s.limit == key.limit,
        s.limit_remaining == key.limit_remaining,
        key.label@.len() == 0 ==> s.label@ == "OpenRouter"@,
        key.label@.len() > 0 ==> s.label@ == "OpenRouter — "@ + key.label@,
{
    let label: String = if key.label.as_str().is_empty() {
        "OpenRouter".to_string()
    } else {
        join("OpenRouter — ", key.label.as_str())
    };
    OpenRouterSnapshot {
        label,
        total_credits: credits.total_credits,
        total_usage: credits.total_usage,
        usage_daily: key.usage_daily,
        usage_weekly: key.usage_weekly,
        usage_monthly: key.usage_monthly,
        is_free_tier: key.is_free_tier,
        limit: key.limit,
        limit_remaining: key.limit_remaining,
    }
}

/// Whatever snapshot two answers make up, each field of it is the field of the same name in the
/// answer that has it: the totals are those of the credits, the rest is that of the key. The
/// label names the key where it has a name.
pub proof fn law_fields_keep_their_names(
    credits: CreditsData,
    key: KeyData,
    s: OpenRouterSnapshot,
)
    requires
        s@ == combined(credits@, key@),
    ensures
        s.total_credits@ == credits.total_credits@,
        s.total_usage@ == credits.total_usage@,
        s.usage_daily@ == key.usage_daily@,
        s.usage_weekly@ == key.usage_weekly@,
        s.usage_monthly@ == key.usage_monthly@,
        s.is_free_tier == key.is_free_tier,
        s.limit is Some <==> key.limit is Some,
        s.limit is Some ==> s.limit->0@ == key.limit->0@,
        s.limit_remaining is Some <==> key.limit_remaining is Some,
        s.limit_remaining is Some ==> s.limit_remaining->0@ == key.limit_remaining->0@,
        key.label@.len() == 0 ==> s.label@ == "OpenRouter"@,
        key.label@.len() > 0 ==> s.label@ == "OpenRouter — "@ + key.label@,
{
}

/// The answers do not mix: what the snapshot takes from one stays as it is when the other changes.
pub proof fn law_answers_do_not_mix(
    credits: CreditsDataView,
    other_credits: CreditsDataView,
    key: KeyDataView,
    other_key: KeyDataView,
)
    ensures
        ({
            let s = combined(credits, key);
            let t = combined(other_credits, key);
            let u = combined(credits, other_key);
            &&& t == (OpenRouterSnapshotView {
                total_credits: other_credits.total_credits,
                total_usage: other_credits.total_usage,
                ..s
            })
            &&& u.total_credits == s.total_credits
            &&& u.total_usage == s.total_usage
        }),
{
}

}
