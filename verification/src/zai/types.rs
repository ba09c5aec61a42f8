//! What the Z.AI monitor endpoint answers.
//!
//! The limits in an answer carry unit codes without a documented meaning, so they are told apart
//! by type and position: the first tokens limit is the session's, the second the week's, and the
//! first time limit is the monthly ceiling of the MCP tools.

use vstd::prelude::*;
use vstd::string::{StrSliceExecFns, StringExecFns};
use vstd::arithmetic::power2::lemma_pow2_pos;
use crate::double::{distance, law_cut_drops_the_fraction, one, Double, SIGN_BIT};
use crate::json::{as_double, json_tree, JsonNumber, JsonTree};
use crate::nearest::{
    law_great_integers_cut_to_the_end, law_one_double_is_nearest, lemma_zero_has_no_bits,
    nearest_double,
};
use crate::text::{join, uppercase, uppercased};
use crate::time::{days, hours, utc_millis, utc_millis_of, MAX_UTC_MILLIS, MIN_UTC_MILLIS};
use crate::usage::{UsageWindow, ZaiSnapshot, ZaiSnapshotView};

verus! {

/// The type of a limit on tokens.
pub const TOKENS_LIMIT: &'static str = "TOKENS_LIMIT";

/// The type of a limit on the time that tools run.
pub const TIME_LIMIT: &'static str = "TIME_LIMIT";

/// How long a session's allowance lasts: five hours.
pub const SESSION_SECS: i64 = 18_000;

/// How long a week's allowance lasts: seven days.
pub const WEEK_SECS: i64 = 604_800;

/// How long a month's allowance lasts: thirty days.
pub const MONTH_SECS: i64 = 2_592_000;

/// The answer as a whole.
#[derive(Debug, Clone)]
pub struct Envelope {
    pub code: i64,
    pub data: Option<MonitorData>,
    pub success: bool,
    pub msg: String,
}

#[derive(Debug, Clone)]
pub struct MonitorData {
    pub limits: Vec<LimitEntry>,
    pub level: String,
}

#[derive(Debug, Clone)]
pub struct LimitEntry {
    pub kind: String,
    pub percentage: Double,
    /// Unix milliseconds.
    pub next_reset_time: Option<i64>,
    pub unit: Option<i64>,
    pub number: Option<i64>,
}

#[verifier::ext_equal]
pub struct EnvelopeView {
    pub code: i64,
    pub data: Option<MonitorDataView>,
    pub success: bool,
    pub msg: Seq<char>,
}

#[verifier::ext_equal]
pub struct MonitorDataView {
    pub limits: Seq<LimitEntryView>,
    pub level: Seq<char>,
}

#[verifier::ext_equal]
pub struct LimitEntryView {
    pub kind: Seq<char>,
    pub percentage: Double,
    pub next_reset_time: Option<i64>,
    pub unit: Option<i64>,
    pub number: Option<i64>,
}

impl View for Envelope {
    type V = EnvelopeView;

    open spec fn view(&self) -> EnvelopeView {
        EnvelopeView {
            code: self.code,
            data: match self.data {
                Some(data) => Some(data@),
                None => None,
            },
            success: self.success,
            msg: self.msg@,
        }
    }
}

impl View for MonitorData {
    type V = MonitorDataView;

    open spec fn view(&self) -> MonitorDataView {
        MonitorDataView {
            limits: self.limits@.map_values(|l: LimitEntry| l@),
            level: self.level@,
        }
    }
}

impl View for LimitEntry {
    type V = LimitEntryView;

    open spec fn view(&self) -> LimitEntryView {
        LimitEntryView {
            kind: self.kind@,
            percentage: self.percentage,
            next_reset_time: self.next_reset_time,
            unit: self.unit,
            number: self.number,
        }
    }
}

impl Default for MonitorData {
    fn default() -> (data: MonitorData)
        ensures
            data@ == MonitorDataView::empty(),
            data.limits@.len() == 0,
            data.level@.len() == 0,
    {
        MonitorData { limits: Vec::new(), level: String::new() }
    }
}

impl Default for LimitEntry {
    fn default() -> (entry: LimitEntry)
        ensures
            entry@ == (LimitEntryView {
                kind: Seq::empty(),
                percentage: Double { bits: 0 },
                next_reset_time: None,
                unit: None,
                number: None,
            }),
    {
        LimitEntry {
            kind: String::new(),
            percentage: Double { bits: 0 },
            next_reset_time: None,
            unit: None,
            number: None,
        }
    }
}

impl LimitEntryView {
    /// What is shown of a limit that lasts `secs` seconds.
    pub open spec fn window(self, secs: i64) -> UsageWindow {
        UsageWindow {
            utilization_pct: self.percentage.percent() as i32,
            resets_at: match self.next_reset_time {
                Some(millis) => utc_millis_of(millis),
                None => None,
            },
            window_duration: secs,
        }
    }
}

impl MonitorDataView {
    pub open spec fn empty() -> MonitorDataView {
        MonitorDataView { limits: Seq::empty(), level: Seq::empty() }
    }

    /// The limits of one type, in order.
    pub open spec fn of_kind(self, kind: Seq<char>) -> Seq<LimitEntryView> {
        self.limits.filter(|l: LimitEntryView| l.kind == kind)
    }

    /// What is shown of limit `n` of one type, where there are so many.
    pub open spec fn nth_window(self, kind: Seq<char>, n: int, secs: i64) -> Option<UsageWindow> {
        if n < self.of_kind(kind).len() {
            Some(self.of_kind(kind)[n].window(secs))
        } else {
            None
        }
    }

    /// The level in the answer, else the tier from the configuration, else `unknown`.
    pub open spec fn shown_level(self, tier: Option<Seq<char>>) -> Seq<char> {
        if self.level.len() > 0 {
            self.level
        } else {
            match tier {
                Some(t) => t,
                None => "unknown"@,
            }
        }
    }
}

impl EnvelopeView {
    pub open spec fn monitor_data(self) -> MonitorDataView {
        match self.data {
            Some(data) => data,
            None => MonitorDataView::empty(),
        }
    }

    /// The snapshot that an answer stands for.
    pub open spec fn snapshot(self, tier: Option<Seq<char>>) -> ZaiSnapshotView {
        let data = self.monitor_data();
        ZaiSnapshotView {
            plan: "GLM Coding "@ + capitalized(data.shown_level(tier)),
            session: data.nth_window(TOKENS_LIMIT@, 0, SESSION_SECS),
            weekly: data.nth_window(TOKENS_LIMIT@, 1, WEEK_SECS),
            mcp: data.nth_window(TIME_LIMIT@, 0, MONTH_SECS),
        }
    }
}

/// A text with its first character in upper case.
pub open spec fn capitalized(s: Seq<char>) -> Seq<char> {
    if s.len() == 0 {
        s
    } else {
        uppercased(s[0]) + s.skip(1)
    }
}

/// A text that may be missing, as a sequence of characters.
pub open spec fn tier_view(tier: Option<&str>) -> Option<Seq<char>> {
    match tier {
        Some(t) => Some(t@),
        None => None,
    }
}

/// The time of renewal that a JSON value stands for, in Unix milliseconds: a number without its
/// fraction, kept within `i64`. A number that is zero stands for none, and so does anything that
/// is no number; a number between -1 and 1 that is not zero stands for the time 0.
pub open spec fn reset_millis(t: JsonTree) -> Option<i64> {
    match t.as_signed() {
        Some(n) => if n == 0 { None } else { Some(n) },
        None => match t.as_double() {
            Some(bits) => if bits == 0 || bits == SIGN_BIT {
                None
            } else {
                Some((Double { bits }).cut(i64::MIN as int, i64::MAX as int) as i64)
            },
            None => None,
        },
    }
}

/// Reads a time of renewal.
pub fn de_opt_ms(v: &serde_json::Value) -> (r: Option<i64>)
    ensures
        r == reset_millis(json_tree(*v)),
        json_tree(*v) matches JsonTree::Number(JsonNumber::Unsigned(n)) ==> n > i64::MAX ==> r
            == Some(i64::MAX),
{
    match v.as_i64() {
        Some(n) => if n == 0 { None } else { Some(n) },
        None => match as_double(v) {
            Some(d) => {
                proof {
                    if let JsonTree::Number(JsonNumber::Unsigned(n)) = json_tree(*v) {
                        law_great_integers_cut_to_the_end(d, n as int);
                        assert((Double { bits: SIGN_BIT }).magnitude() == 0);
                        assert((Double { bits: 0 }).magnitude() == 0);
                    }
                }
                if d.bits == 0 || d.bits == SIGN_BIT { None } else { Some(d.to_i64()) }
            },
            None => None,
        },
    }
}

/// Puts `initial` in the place of the first character.
pub fn with_initial(s: &str, initial: &str) -> (r: String)
    requires
        s@.len() > 0,
    ensures
        r@ == initial@ + s@.skip(1),
{
    let rest = s.substring_char(1, s.unicode_len());
    join(initial, rest)
}

/// Puts the first character in upper case, and leaves the others as they are.
pub fn capitalize(s: &str) -> (r: String)
    ensures
        r@ == capitalized(s@),
        s@.len() == 0 ==> r@.len() == 0,
        s@.len() > 0 ==> r@ == uppercased(s@[0]) + s@.skip(1),
        s@.len() > 0 && 'a' <= s@[0] <= 'z' ==> r@ == seq![((s@[0] as u32 - 32) as u32) as char]
            + s@.skip(1),
        s@.len() > 0 && s@[0] <= '\x7f' && !('a' <= s@[0] <= 'z') ==> r@ == s@,
        s@.len() == 0 || s@[0] <= '\x7f' ==> capitalized(r@) == r@,
{
    if s.is_empty() {
        return String::new();
    }
    let initial = uppercase(s.get_char(0));
    let r = with_initial(s, initial.as_str());
    proof {
        assert(seq![s@[0]] + s@.skip(1) =~= s@);
        if s@[0] <= '\x7f' {
            law_capitalizing_twice_is_once(s@);
        }
    }
    r
}

/// What is shown of a limit that lasts `secs` seconds: the percentage rounded and kept from 0 to
/// 100, and the time of renewal where it can be held.
pub fn to_window(l: &LimitEntry, secs: i64) -> (w: UsageWindow)
    ensures
        w == l@.window(secs),
        w.utilization_pct == l.percentage.percent(),
        0 <= w.utilization_pct <= 100,
        l.next_reset_time is None ==> w.resets_at is None,
        l.next_reset_time matches Some(millis) ==> w.resets_at == if MIN_UTC_MILLIS <= millis
            <= MAX_UTC_MILLIS {
            Some(millis)
        } else {
            None
        },
        w.window_duration == secs,
{
    let resets_at: Option<i64> = match l.next_reset_time {
        Some(millis) => utc_millis(millis),
        None => None,
    };
    UsageWindow {
        utilization_pct: l.percentage.to_percent(),
        resets_at,
        window_duration: secs,
    }
}

/// The first limit of one type at `from` or behind it.
fn find_kind(limits: &Vec<LimitEntry>, kind: &str, from: usize) -> (r: Option<usize>)
    requires
        from <= limits@.len(),
    ensures
        match r {
            Some(i) => {
                &&& from <= i < limits@.len()
                &&& limits@[i as int].kind@ == kind@
                &&& forall|j: int| from <= j < i ==> (#[trigger] limits@[j]).kind@ != kind@
            },
            None => forall|j: int|
                from <= j < limits@.len() ==> (#[trigger] limits@[j]).kind@ != kind@,
        },
{
    let wanted: String = kind.to_string();
    let mut i: usize = from;
    while i < limits.len()
        invariant
            from <= i <= limits@.len(),
            wanted@ == kind@,
            forall|j: int| from <= j < i ==> (#[trigger] limits@[j]).kind@ != kind@,
        decreases limits@.len() - i,
    {
        if limits[i].kind.eq(&wanted) {
            return Some(i);
        }
        i = i + 1;
    }
    None
}

/// Where nothing before `i` satisfies a predicate and entry `i` does, the entries that do are
/// that one and those behind it.
proof fn lemma_filter_from<A>(s: Seq<A>, pred: spec_fn(A) -> bool, i: int)
    requires
        0 <= i < s.len(),
        pred(s[i]),
        forall|j: int| 0 <= j < i ==> !pred(#[trigger] s[j]),
    ensures
        s.filter(pred) == seq![s[i]] + s.skip(i + 1).filter(pred),
{
    lemma_filter_none(s.take(i), pred);
    assert(s =~= (s.take(i) + seq![s[i]]) + s.skip(i + 1));
    Seq::filter_distributes_over_add(s.take(i) + seq![s[i]], s.skip(i + 1), pred);
    Seq::filter_distributes_over_add(s.take(i), seq![s[i]], pred);
    assert(seq![s[i]].filter(pred) =~= seq![s[i]]) by {
        reveal_with_fuel(Seq::filter, 2);
        assert(seq![s[i]].drop_last() =~= Seq::empty());
    }
    assert(s.filter(pred) =~= seq![s[i]] + s.skip(i + 1).filter(pred));
}

/// Where no entry satisfies a predicate, none is left.
proof fn lemma_filter_none<A>(s: Seq<A>, pred: spec_fn(A) -> bool)
    requires
        forall|j: int| 0 <= j < s.len() ==> !pred(#[trigger] s[j]),
    ensures
        s.filter(pred).len() == 0,
    decreases s.len(),
{
    reveal(Seq::filter);
    if s.len() > 0 {
        lemma_filter_none(s.drop_last(), pred);
    }
}

impl Envelope {
    /// The snapshot that an answer stands for. The plan is named after the level in the answer,
    /// or else after `config_plan_tier`. Without data no window is known.
    pub fn into_snapshot(self, config_plan_tier: Option<&str>) -> (snapshot: ZaiSnapshot)
        ensures
            snapshot@ == self@.snapshot(tier_view(config_plan_tier)),
            (self.data matches Some(data) ==> data.level@.len() == 0) && config_plan_tier is None
                ==> snapshot.plan@ == "GLM Coding Unknown"@,
    {
        let data: MonitorData = match self.data {
            Some(data) => data,
            None => MonitorData::default(),
        };
        let ghost d = data@;
        let ghost tokens = |l: LimitEntryView| l.kind == TOKENS_LIMIT@;
        let ghost times = |l: LimitEntryView| l.kind == TIME_LIMIT@;
        let limits = data.limits;
        let count: usize = limits.len();
        let first: Option<usize> = find_kind(&limits, TOKENS_LIMIT, 0);
        let mut session: Option<UsageWindow> = None;
        let mut weekly: Option<UsageWindow> = None;
        match first {
            Some(i) => {
                session = Some(to_window(&limits[i], hours(5)));
                proof {
                    lemma_filter_from(d.limits, tokens, i as int);
                }
                assert(i < count);
                let ghost rest = d.limits.skip(i + 1);
                match find_kind(&limits, TOKENS_LIMIT, i + 1) {
                    Some(j) => {
                        weekly = Some(to_window(&limits[j], days(7)));
                        proof {
                            assert(rest[j - (i + 1)] == d.limits[j as int]);
                            lemma_filter_from(rest, tokens, j - (i + 1));
                        }
                    },
                    None => {
                        proof {
                            lemma_filter_none(rest, tokens);
                        }
                    },
                }
            },
            None => {
                proof {
                    lemma_filter_none(d.limits, tokens);
                }
            },
        }
        let mcp: Option<UsageWindow> = match find_kind(&limits, TIME_LIMIT, 0) {
            Some(i) => {
                proof {
                    lemma_filter_from(d.limits, times, i as int);
                }
                Some(to_window(&limits[i], days(30)))
            },
            None => {
                proof {
                    lemma_filter_none(d.limits, times);
                }
                None
            },
        };
        let level: String = if !data.level.as_str().is_empty() {
            data.level
        } else {
            match config_plan_tier {
                Some(tier) => tier.to_string(),
                None => "unknown".to_string(),
            }
        };
        let capital = capitalize(level.as_str());
        proof {
            reveal_strlit("unknown");
            reveal_strlit("GLM Coding ");
            reveal_strlit("GLM Coding Unknown");
            if level@ == "unknown"@ {
                assert("GLM Coding "@ + capital@ =~= "GLM Coding Unknown"@);
            }
        }
        ZaiSnapshot { plan: join("GLM Coding ", capital.as_str()), session, weekly, mcp }
    }
}

/// Every window of a snapshot shows from 0 to 100 percent and lasts as long as its allowance.
pub proof fn law_windows_are_sound(env: EnvelopeView, tier: Option<Seq<char>>)
    ensures
        env.snapshot(tier).session matches Some(w) ==> 0 <= w.utilization_pct <= 100
            && w.window_duration == SESSION_SECS,
        env.snapshot(tier).weekly matches Some(w) ==> 0 <= w.utilization_pct <= 100
            && w.window_duration == WEEK_SECS,
        env.snapshot(tier).mcp matches Some(w) ==> 0 <= w.utilization_pct <= 100
            && w.window_duration == MONTH_SECS,
{
}

/// Without data no window is known, and the plan is named after the configuration alone.
pub proof fn law_missing_data_is_neutral(env: EnvelopeView, tier: Option<Seq<char>>)
    requires
        env.data is None,
    ensures
        env.snapshot(tier).session is None,
        env.snapshot(tier).weekly is None,
        env.snapshot(tier).mcp is None,
        env.snapshot(tier).plan == "GLM Coding "@ + capitalized(
            match tier {
                Some(t) => t,
                None => "unknown"@,
            },
        ),
{
    reveal(Seq::filter);
}

/// The session is known exactly where some limit is on tokens, the week only where the session
/// is, and the ceiling of the tools exactly where some limit is on time.
pub proof fn law_windows_follow_types(env: EnvelopeView, tier: Option<Seq<char>>)
    ensures
        env.snapshot(tier).session is Some <==> exists|i: int|
            0 <= i < env.monitor_data().limits.len() && (#[trigger] env.monitor_data().limits[i]).kind
                == TOKENS_LIMIT@,
        env.snapshot(tier).weekly is Some ==> env.snapshot(tier).session is Some,
        env.snapshot(tier).mcp is Some <==> exists|i: int|
            0 <= i < env.monitor_data().limits.len() && (#[trigger] env.monitor_data().limits[i]).kind
                == TIME_LIMIT@,
{
    let limits = env.monitor_data().limits;
    lemma_some_of_kind(limits, TOKENS_LIMIT@);
    lemma_some_of_kind(limits, TIME_LIMIT@);
}

/// Limits of other types change nothing.
pub proof fn law_other_types_are_ignored(
    env: EnvelopeView,
    data: MonitorDataView,
    at: int,
    other: LimitEntryView,
    tier: Option<Seq<char>>,
)
    requires
        env.data == Some(data),
        0 <= at <= data.limits.len(),
        other.kind != TOKENS_LIMIT@,
        other.kind != TIME_LIMIT@,
    ensures
        (EnvelopeView {
            data: Some(MonitorDataView { limits: data.limits.insert(at, other), ..data }),
            ..env
        }).snapshot(tier) == env.snapshot(tier),
{
    let wider = MonitorDataView { limits: data.limits.insert(at, other), ..data };
    lemma_filter_skips(data.limits, at, other, |l: LimitEntryView| l.kind == TOKENS_LIMIT@);
    lemma_filter_skips(data.limits, at, other, |l: LimitEntryView| l.kind == TIME_LIMIT@);
    assert(wider.of_kind(TOKENS_LIMIT@) == data.of_kind(TOKENS_LIMIT@));
    assert(wider.of_kind(TIME_LIMIT@) == data.of_kind(TIME_LIMIT@));
}

/// The session is what the first tokens limit of an answer says: its percentage rounded, its time
/// of renewal wherever it can be held, and five hours.
pub proof fn law_session_is_the_first_tokens_limit(
    env: Envelope,
    data: MonitorData,
    tier: Option<&str>,
    snapshot: ZaiSnapshot,
    i: int,
)
    requires
        snapshot@ == env@.snapshot(tier_view(tier)),
        env.data == Some(data),
        0 <= i < data.limits@.len(),
        data.limits@[i].kind@ == "TOKENS_LIMIT"@,
        forall|j: int| 0 <= j < i ==> (#[trigger] data.limits@[j]).kind@ != "TOKENS_LIMIT"@,
    ensures
        snapshot.session matches Some(w) && {
            &&& w.window_duration == 18_000
            &&& w.utilization_pct == data.limits@[i].percentage.percent()
            &&& data.limits@[i].next_reset_time is None ==> w.resets_at is None
            &&& data.limits@[i].next_reset_time matches Some(millis) ==> {
                if MIN_UTC_MILLIS <= millis <= MAX_UTC_MILLIS {
                    w.resets_at == Some(millis)
                } else {
                    w.resets_at is None
                }
            }
        },
{
    let limits = env@.monitor_data().limits;
    assert(forall|j: int| 0 <= j < limits.len() ==> limits[j] == (#[trigger] data.limits@[j])@);
    lemma_filter_from(limits, |l: LimitEntryView| l.kind == TOKENS_LIMIT@, i);
}

/// The week is what the second tokens limit of an answer says: its percentage rounded, its time
/// of renewal wherever it can be held, and seven days.
pub proof fn law_week_is_the_second_tokens_limit(
    env: Envelope,
    data: MonitorData,
    tier: Option<&str>,
    snapshot: ZaiSnapshot,
    i: int,
    k: int,
)
    requires
        snapshot@ == env@.snapshot(tier_view(tier)),
        env.data == Some(data),
        0 <= i < k < data.limits@.len(),
        data.limits@[i].kind@ == "TOKENS_LIMIT"@,
        data.limits@[k].kind@ == "TOKENS_LIMIT"@,
        forall|j: int|
            0 <= j < k && j != i ==> (#[trigger] data.limits@[j]).kind@ != "TOKENS_LIMIT"@,
    ensures
        snapshot.weekly matches Some(w) && {
            &&& w.window_duration == 604_800
            &&& w.utilization_pct == data.limits@[k].percentage.percent()
            &&& data.limits@[k].next_reset_time is None ==> w.resets_at is None
            &&& data.limits@[k].next_reset_time matches Some(millis) ==> {
                if MIN_UTC_MILLIS <= millis <= MAX_UTC_MILLIS {
                    w.resets_at == Some(millis)
                } else {
                    w.resets_at is None
                }
            }
        },
{
    let limits = env@.monitor_data().limits;
    let rest = limits.skip(i + 1);
    assert(forall|j: int| 0 <= j < limits.len() ==> limits[j] == (#[trigger] data.limits@[j])@);
    lemma_filter_from(limits, |l: LimitEntryView| l.kind == TOKENS_LIMIT@, i);
    assert forall|j: int| 0 <= j < k - i - 1 implies (#[trigger] rest[j]).kind != TOKENS_LIMIT@ by {
        assert(rest[j] == data.limits@[j + i + 1]@);
    }
    assert(rest[k - i - 1] == data.limits@[k]@);
    lemma_filter_from(rest, |l: LimitEntryView| l.kind == TOKENS_LIMIT@, k - i - 1);
}

/// The ceiling of the tools is what the first time limit of an answer says: its percentage
/// rounded, its time of renewal wherever it can be held, and thirty days.
pub proof fn law_tools_are_the_first_time_limit(
    env: Envelope,
    data: MonitorData,
    tier: Option<&str>,
    snapshot: ZaiSnapshot,
    i: int,
)
    requires
        snapshot@ == env@.snapshot(tier_view(tier)),
        env.data == Some(data),
        0 <= i < data.limits@.len(),
        data.limits@[i].kind@ == "TIME_LIMIT"@,
        forall|j: int| 0 <= j < i ==> (#[trigger] data.limits@[j]).kind@ != "TIME_LIMIT"@,
    ensures
        snapshot.mcp matches Some(w) && {
            &&& w.window_duration == 2_592_000
            &&& w.utilization_pct == data.limits@[i].percentage.percent()
            &&& data.limits@[i].next_reset_time is None ==> w.resets_at is None
            &&& data.limits@[i].next_reset_time matches Some(millis) ==> {
                if MIN_UTC_MILLIS <= millis <= MAX_UTC_MILLIS {
                    w.resets_at == Some(millis)
                } else {
                    w.resets_at is None
                }
            }
        },
{
    let limits = env@.monitor_data().limits;
    assert(forall|j: int| 0 <= j < limits.len() ==> limits[j] == (#[trigger] data.limits@[j])@);
    lemma_filter_from(limits, |l: LimitEntryView| l.kind == TIME_LIMIT@, i);
}

/// A window is missing where the limit it stands for is: without data none is known, without a
/// tokens limit neither session nor week, with a single one no week, and without a time limit no
/// ceiling of the tools.
pub proof fn law_missing_limits_show_no_window(
    env: Envelope,
    tier: Option<&str>,
    snapshot: ZaiSnapshot,
    i: int,
)
    requires
        snapshot@ == env@.snapshot(tier_view(tier)),
    ensures
        env.data is None ==> snapshot.session is None && snapshot.weekly is None
            && snapshot.mcp is None,
        env.data matches Some(data) ==> (forall|j: int|
            0 <= j < data.limits@.len() ==> (#[trigger] data.limits@[j]).kind@ != "TOKENS_LIMIT"@)
            ==> snapshot.session is None && snapshot.weekly is None,
        env.data matches Some(data) ==> (forall|j: int|
            0 <= j < data.limits@.len() && j != i ==> (#[trigger] data.limits@[j]).kind@
                != "TOKENS_LIMIT"@) ==> snapshot.weekly is None,
        env.data matches Some(data) ==> (forall|j: int|
            0 <= j < data.limits@.len() ==> (#[trigger] data.limits@[j]).kind@ != "TIME_LIMIT"@)
            ==> snapshot.mcp is None,
{
    reveal(Seq::filter);
    let limits = env@.monitor_data().limits;
    let tokens = |l: LimitEntryView| l.kind == TOKENS_LIMIT@;
    let times = |l: LimitEntryView| l.kind == TIME_LIMIT@;
    if let Some(data) = env.data {
        assert(forall|j: int| 0 <= j < limits.len() ==> limits[j] == (#[trigger] data.limits@[j])@);
        if forall|j: int|
            0 <= j < data.limits@.len() ==> (#[trigger] data.limits@[j]).kind@ != "TOKENS_LIMIT"@ {
            assert forall|j: int| 0 <= j < limits.len() implies !tokens(#[trigger] limits[j]) by {
                assert(limits[j] == data.limits@[j]@);
            }
            lemma_filter_none(limits, tokens);
        } else if forall|j: int|
            0 <= j < data.limits@.len() && j != i ==> (#[trigger] data.limits@[j]).kind@
                != "TOKENS_LIMIT"@ {
            let rest = limits.skip(i + 1);
            assert(0 <= i < limits.len() && tokens(limits[i])) by {
                let j = choose|j: int|
                    0 <= j < data.limits@.len() && (#[trigger] data.limits@[j]).kind@
                        == "TOKENS_LIMIT"@;
                assert(limits[j] == data.limits@[j]@);
            }
            assert forall|j: int| 0 <= j < i implies !tokens(#[trigger] limits[j]) by {
                assert(limits[j] == data.limits@[j]@);
            }
            assert forall|j: int| 0 <= j < rest.len() implies !tokens(#[trigger] rest[j]) by {
                assert(rest[j] == data.limits@[j + i + 1]@);
            }
            lemma_filter_from(limits, tokens, i);
            lemma_filter_none(rest, tokens);
        }
        if forall|j: int|
            0 <= j < data.limits@.len() ==> (#[trigger] data.limits@[j]).kind@ != "TIME_LIMIT"@ {
            assert forall|j: int| 0 <= j < limits.len() implies !times(#[trigger] limits[j]) by {
                assert(limits[j] == data.limits@[j]@);
            }
            lemma_filter_none(limits, times);
        }
    }
}

/// The plan is named after the level of the answer; where the answer has none, with data or
/// without, after the configured tier; and where there is none either, after the word `unknown`.
/// The first letter of the name is put in upper case, and nothing else is changed.
pub proof fn law_plan_is_named_after_level_or_tier(
    env: Envelope,
    tier: Option<&str>,
    snapshot: ZaiSnapshot,
)
    requires
        snapshot@ == env@.snapshot(tier_view(tier)),
    ensures
        env.data matches Some(data) ==> data.level@.len() > 0 ==> snapshot.plan@ == "GLM Coding "@
            + uppercased(data.level@[0]) + data.level@.skip(1),
        (env.data matches Some(data) ==> data.level@.len() == 0) ==> {
            &&& tier matches Some(t) ==> t@.len() > 0 ==> snapshot.plan@ == "GLM Coding "@
                + uppercased(t@[0]) + t@.skip(1)
            &&& tier matches Some(t) ==> t@.len() == 0 ==> snapshot.plan@ == "GLM Coding "@
            &&& tier is None ==> snapshot.plan@ == "GLM Coding "@ + uppercased('u') + "nknown"@
        },
{
    reveal_strlit("unknown");
    reveal_strlit("nknown");
    assert("unknown"@.skip(1) =~= "nknown"@);
    let level = env@.monitor_data().shown_level(tier_view(tier));
    assert("GLM Coding "@ + (uppercased(level[0]) + level.skip(1)) =~= "GLM Coding "@ + uppercased(
        level[0],
    ) + level.skip(1));
    assert("GLM Coding "@ + Seq::<char>::empty() =~= "GLM Coding "@);
}

/// The plan depends on nothing in an answer but its level: answers of one level, or of none, have
/// one plan, whatever their limits are and whether they have data at all.
pub proof fn law_plan_ignores_the_limits(
    a: Envelope,
    b: Envelope,
    tier: Option<&str>,
    of_a: ZaiSnapshot,
    of_b: ZaiSnapshot,
)
    requires
        of_a@ == a@.snapshot(tier_view(tier)),
        of_b@ == b@.snapshot(tier_view(tier)),
        match (a.data, b.data) {
            (Some(x), Some(y)) => x.level@ == y.level@,
            (Some(x), None) => x.level@.len() == 0,
            (None, Some(y)) => y.level@.len() == 0,
            (None, None) => true,
        },
    ensures
        of_a.plan@ == of_b.plan@,
{
    law_plan_is_named_after_level_or_tier(a, tier, of_a);
    law_plan_is_named_after_level_or_tier(b, tier, of_b);
}

/// The windows depend on nothing but the limits: neither on the level, nor on the tier, nor on
/// what else an answer holds.
pub proof fn law_windows_ignore_the_rest(
    a: Envelope,
    b: Envelope,
    tier_of_a: Option<&str>,
    tier_of_b: Option<&str>,
    of_a: ZaiSnapshot,
    of_b: ZaiSnapshot,
)
    requires
        of_a@ == a@.snapshot(tier_view(tier_of_a)),
        of_b@ == b@.snapshot(tier_view(tier_of_b)),
        a.data matches Some(x) && b.data matches Some(y) && x.limits@ == y.limits@,
    ensures
        of_a.session == of_b.session,
        of_a.weekly == of_b.weekly,
        of_a.mcp == of_b.mcp,
{
    assert(a@.monitor_data().limits == b@.monitor_data().limits);
}

/// An integer that is a time of renewal is taken as it is, but for zero, which is none, and for
/// one beyond `i64`, which is the last. Other numbers lose their fraction; what is no number is
/// none.
pub proof fn law_reset_times_are_numbers_but_zero(t: JsonTree)
    ensures
        t matches JsonTree::Number(JsonNumber::Unsigned(n)) ==> reset_millis(t) == if n == 0 {
            None
        } else if n <= i64::MAX {
            Some(n as i64)
        } else {
            Some(i64::MAX)
        },
        t matches JsonTree::Number(JsonNumber::Negative(n)) ==> n < 0 ==> reset_millis(t) == Some(n),
        t matches JsonTree::Number(JsonNumber::Float(bits)) ==> (Double { bits }).is_finite() ==> {
            let d = Double { bits };
            &&& reset_millis(t) is None <==> d.units() == 0
            &&& d.units() >= i64::MAX * one() ==> reset_millis(t) == Some(i64::MAX)
            &&& d.units() <= i64::MIN * one() ==> reset_millis(t) == Some(i64::MIN)
            &&& d.units() != 0 && i64::MIN * one() < d.units() < i64::MAX * one() ==> {
                let kept = reset_millis(t)->0 * one();
                &&& distance(kept, d.units()) < one()
                &&& d.units() > 0 ==> 0 <= kept <= d.units()
                &&& d.units() < 0 ==> d.units() <= kept <= 0
            }
        },
        !(t is Number) ==> reset_millis(t) is None,
{
    if let JsonTree::Number(JsonNumber::Unsigned(n)) = t {
        if n > i64::MAX {
            law_one_double_is_nearest(n as int);
            law_great_integers_cut_to_the_end(Double { bits: nearest_double(n as int) }, n as int);
            assert((Double { bits: SIGN_BIT }).magnitude() == 0);
            assert((Double { bits: 0 }).magnitude() == 0);
        }
    }
    if let JsonTree::Number(JsonNumber::Float(bits)) = t {
        let d = Double { bits };
        if d.is_finite() {
            law_cut_drops_the_fraction(d, i64::MIN as int, i64::MAX as int);
            lemma_zero_has_no_bits(d);
            lemma_pow2_pos(1074);
        }
    }
}

/// The level in an answer takes precedence over the configuration.
pub proof fn law_level_takes_precedence(
    env: EnvelopeView,
    tier: Option<Seq<char>>,
    other: Option<Seq<char>>,
)
    requires
        env.monitor_data().level.len() > 0,
    ensures
        env.snapshot(tier) == env.snapshot(other),
        env.snapshot(tier).plan == "GLM Coding "@ + capitalized(env.monitor_data().level),
{
}

/// Capitalizing a second time changes nothing, where the first character is by then its own upper
/// case. So it is where a text is empty or begins with an ASCII character, of which
/// [`capitalize`] promises the same outright; of other characters it is left unsaid.
pub proof fn law_capitalizing_twice_is_once(s: Seq<char>)
    ensures
        capitalized(s).len() == 0 ==> capitalized(capitalized(s)) == capitalized(s),
        capitalized(s).len() > 0 && uppercased(capitalized(s)[0]) == seq![capitalized(s)[0]]
            ==> capitalized(capitalized(s)) == capitalized(s),
{
    let once = capitalized(s);
    if once.len() > 0 {
        assert(seq![once[0]] + once.skip(1) =~= once);
    }
}

proof fn lemma_some_of_kind(limits: Seq<LimitEntryView>, kind: Seq<char>)
    ensures
        limits.filter(|l: LimitEntryView| l.kind == kind).len() > 0 <==> exists|i: int|
            0 <= i < limits.len() && (#[trigger] limits[i]).kind == kind,
{
    let pred = |l: LimitEntryView| l.kind == kind;
    if exists|i: int| 0 <= i < limits.len() && (#[trigger] limits[i]).kind == kind {
        let i = choose|i: int| 0 <= i < limits.len() && (#[trigger] limits[i]).kind == kind;
        limits.lemma_filter_contains(pred, i);
    } else {
        lemma_filter_none(limits, pred);
    }
}

proof fn lemma_filter_skips<A>(s: Seq<A>, at: int, x: A, pred: spec_fn(A) -> bool)
    requires
        0 <= at <= s.len(),
        !pred(x),
    ensures
        s.insert(at, x).filter(pred) == s.filter(pred),
{
    lemma_filter_none(seq![x], pred);
    assert(s.insert(at, x) =~= (s.take(at) + seq![x]) + s.skip(at));
    assert(s =~= s.take(at) + s.skip(at));
    Seq::filter_distributes_over_add(s.take(at) + seq![x], s.skip(at), pred);
    Seq::filter_distributes_over_add(s.take(at), seq![x], pred);
    Seq::filter_distributes_over_add(s.take(at), s.skip(at), pred);
    assert(s.insert(at, x).filter(pred) =~= s.filter(pred));
}

}
