//! The snapshots that are shown.

use vstd::prelude::*;
use crate::amount::Amount;
use crate::double::Double;

verus! {

/// How much of one allowance is used up.
#[derive(Debug, Clone, Copy, PartialEq, Eq, Structural)]
pub struct UsageWindow {
    /// From 0 to 100.
    pub utilization_pct: i32,
    /// When the allowance is renewed, in Unix milliseconds.
    pub resets_at: Option<i64>,
    /// How long the allowance lasts, in seconds.
    pub window_duration: i64,
}

/// The state of a Z.AI coding plan.
#[derive(Debug, Clone, PartialEq, Eq)]
pub struct ZaiSnapshot {
    pub plan: String,
    pub session: Option<UsageWindow>,
    pub weekly: Option<UsageWindow>,
    pub mcp: Option<UsageWindow>,
}

/// A Z.AI snapshot with its text as a sequence of characters.
#[verifier::ext_equal]
pub struct ZaiSnapshotView {
    pub plan: Seq<char>,
    pub session: Option<UsageWindow>,
    pub weekly: Option<UsageWindow>,
    pub mcp: Option<UsageWindow>,
}

impl View for ZaiSnapshot {
    type V = ZaiSnapshotView;

    open spec fn view(&self) -> ZaiSnapshotView {
        ZaiSnapshotView {
            plan: self.plan@,
            session: self.session,
            weekly: self.weekly,
            mcp: self.mcp,
        }
    }
}

/// The state of an OpenRouter account and of the key that was used.
#[derive(Debug, Clone)]
pub struct OpenRouterSnapshot {
    pub label: String,
    pub total_credits: Amount,
    pub total_usage: Amount,
    pub usage_daily: Amount,
    pub usage_weekly: Amount,
    pub usage_monthly: Amount,
    pub is_free_tier: bool,
    pub limit: Option<Amount>,
    pub limit_remaining: Option<Amount>,
}

/// An OpenRouter snapshot with its text as a sequence of characters and amounts as doubles.
#[verifier::ext_equal]
pub struct OpenRouterSnapshotView {
    pub label: Seq<char>,
    pub total_credits: Double,
    pub total_usage: Double,
    pub usage_daily: Double,
    pub usage_weekly: Double,
    pub usage_monthly: Double,
    pub is_free_tier: bool,
    pub limit: Option<Double>,
    pub limit_remaining: Option<Double>,
}

impl View for OpenRouterSnapshot {
    type V = OpenRouterSnapshotView;

    open spec fn view(&self) -> OpenRouterSnapshotView {
        OpenRouterSnapshotView {
            label: self.label@,
            total_credits: self.total_credits@,
            total_usage: self.total_usage@,
            usage_daily: self.usage_daily@,
            usage_weekly: self.usage_weekly@,
            usage_monthly: self.usage_monthly@,
            is_free_tier: self.is_free_tier,
            limit: amount_view(self.limit),
            limit_remaining: amount_view(self.limit_remaining),
        }
    }
}

/// An amount that may be missing, as a double.
pub open spec fn amount_view(a: Option<Amount>) -> Option<Double> {
    match a {
        Some(a) => Some(a@),
        None => None,
    }
}

/// A recorded error with its text as a sequence of characters.
pub open spec fn error_view(e: Option<(u16, String)>) -> Option<(u16, Seq<char>)> {
    match e {
        Some(e) => Some((e.0, e.1@)),
        None => None,
    }
}

/// How old a cached payload is: whole seconds, and nanoseconds on top of them.
#[derive(Debug, Clone, Copy, PartialEq, Eq, Structural)]
pub struct Age {
    pub secs: u64,
    pub nanos: u32,
}

}
