//! Fetching the Z.AI snapshot, with the cache in front of the endpoint and behind it.
//!
//! The endpoint wants the key alone in the `Authorization` header: it refuses a key behind
//! `Bearer`.
//!
//! A fetch is a conversation. [`Progress`] says what has to happen next; whoever drives the
//! fetch does it and reports an [`Event`]; [`fetch_snapshot`] decides how to go on.

use vstd::prelude::*;
use crate::error::{AppError, AppErrorView};
use crate::http::{settle, settled_view, GetRequest, GetRequestView, Reply, HTTP_TIMEOUT_SECS};
use crate::text::{join, lossy_utf8};
use crate::usage::{error_view, Age, ZaiSnapshot, ZaiSnapshotView};
use crate::zai::types::{tier_view, Envelope, EnvelopeView};

verus! {

pub const QUOTA_URL: &'static str = "https://api.z.ai/api/monitor/usage/quota/limit";

/// How many seconds to wait for another fetch to give up the cache.
pub const LOCK_TIMEOUT_SECS: u64 = 15;

#[derive(Debug, Clone)]
pub struct Endpoints {
    pub quota: String,
}

impl Default for Endpoints {
    fn default() -> (e: Endpoints)
        ensures
            e.quota@ == QUOTA_URL@,
    {
        Endpoints { quota: QUOTA_URL.to_string() }
    }
}

/// What a fetch came to.
#[derive(Debug, Clone)]
pub struct FetchOutcome {
    pub snapshot: ZaiSnapshot,
    /// The endpoint could not be asked, and this is what was cached.
    pub stale: bool,
    pub last_error: Option<(u16, String)>,
    pub cache_age: Option<Age>,
}

#[verifier::ext_equal]
pub struct FetchOutcomeView {
    pub snapshot: ZaiSnapshotView,
    pub stale: bool,
    pub last_error: Option<(u16, Seq<char>)>,
    pub cache_age: Option<Age>,
}

impl View for FetchOutcome {
    type V = FetchOutcomeView;

    open spec fn view(&self) -> FetchOutcomeView {
        FetchOutcomeView {
            snapshot: self.snapshot@,
            stale: self.stale,
            last_error: error_view(self.last_error),
            cache_age: self.cache_age,
        }
    }
}

/// What the cache holds: the payload as far as it can be read, the error that was recorded last,
/// and the age of the payload.
pub struct Cached {
    pub envelope: Option<Envelope>,
    pub last_error: Option<(u16, String)>,
    pub age: Option<Age>,
}

#[verifier::ext_equal]
pub struct CachedView {
    pub envelope: Option<EnvelopeView>,
    pub last_error: Option<(u16, Seq<char>)>,
    pub age: Option<Age>,
}

impl View for Cached {
    type V = CachedView;

    open spec fn view(&self) -> CachedView {
        CachedView {
            envelope: match self.envelope {
                Some(env) => Some(env@),
                None => None,
            },
            last_error: error_view(self.last_error),
            age: self.age,
        }
    }
}

/// A payload that may be missing.
pub open spec fn cached_view(c: Option<Cached>) -> Option<CachedView> {
    match c {
        Some(c) => Some(c@),
        None => None,
    }
}

/// An outcome or an error.
pub open spec fn result_view(r: Result<FetchOutcome, AppError>) -> Result<
    FetchOutcomeView,
    AppErrorView,
> {
    match r {
        Ok(o) => Ok(o@),
        Err(e) => Err(e@),
    }
}

impl CachedView {
    /// The snapshot of a cached payload, and a neutral one where it cannot be read.
    pub open spec fn snapshot(self, tier: Option<Seq<char>>) -> ZaiSnapshotView {
        match self.envelope {
            Some(env) => env.snapshot(tier),
            None => ZaiSnapshotView {
                plan: "GLM Coding Unknown"@,
                session: None,
                weekly: None,
                mcp: None,
            },
        }
    }

    /// What a fetch comes to that is served from the cache.
    pub open spec fn outcome(self, stale: bool, tier: Option<Seq<char>>) -> FetchOutcomeView {
        FetchOutcomeView {
            snapshot: self.snapshot(tier),
            stale,
            last_error: self.last_error,
            cache_age: self.age,
        }
    }
}

/// What a fetch comes to that failed without leaving a trace.
pub open spec fn silent_fallback(cached: Option<CachedView>, tier: Option<Seq<char>>) -> Result<
    FetchOutcomeView,
    AppErrorView,
> {
    match cached {
        Some(c) => Ok(c.outcome(true, tier)),
        None => Err(AppErrorView::Transport("zai: no cache and network unreachable"@)),
    }
}

/// What a fetch comes to that failed with an error worth telling.
pub open spec fn error_fallback(
    cached: Option<CachedView>,
    last_error: Option<(u16, Seq<char>)>,
    tier: Option<Seq<char>>,
) -> Result<FetchOutcomeView, AppErrorView> {
    match cached {
        Some(c) => Ok(FetchOutcomeView { last_error, ..c.outcome(true, tier) }),
        None => Err(AppErrorView::Other("zai: no usable cache"@)),
    }
}

/// Serves what is cached.
pub fn reuse(cached: Cached, stale: bool, tier: Option<&str>) -> (o: FetchOutcome)
    ensures
        o@ == cached@.outcome(stale, tier_view(tier)),
        o.stale == stale,
        o.last_error == cached.last_error,
        o.cache_age == cached.age,
        cached.envelope matches Some(env) ==> o.snapshot@ == env@.snapshot(tier_view(tier)),
        cached.envelope is None ==> o.snapshot.plan@ == "GLM Coding Unknown"@ && o.snapshot.session
            is None && o.snapshot.weekly is None && o.snapshot.mcp is None,
{
    let snapshot: ZaiSnapshot = match cached.envelope {
        Some(env) => env.into_snapshot(tier),
        None => ZaiSnapshot {
            plan: "GLM Coding Unknown".to_string(),
            session: None,
            weekly: None,
            mcp: None,
        },
    };
    FetchOutcome { snapshot, stale, last_error: cached.last_error, cache_age: cached.age }
}

/// Serves what is cached after a failure of the network.
pub fn fallback_silent(cached: Option<Cached>, tier: Option<&str>) -> (r: Result<
    FetchOutcome,
    AppError,
>)
    ensures
        result_view(r) == silent_fallback(cached_view(cached), tier_view(tier)),
        cached matches Some(c) ==> (r matches Ok(o) && {
            &&& o.stale
            &&& o.last_error == c.last_error
            &&& o.cache_age == c.age
            &&& o.snapshot@ == c@.snapshot(tier_view(tier))
        }),
        cached is None ==> (r matches Err(AppError::Transport(text)) && text@
            == "zai: no cache and network unreachable"@),
{
    match cached {
        Some(c) => Ok(reuse(c, true, tier)),
        None => Err(AppError::Transport("zai: no cache and network unreachable".to_string())),
    }
}

/// Serves what is cached after any other failure, and tells which it was.
pub fn fallback_with_error(
    cached: Option<Cached>,
    last_error: Option<(u16, String)>,
    tier: Option<&str>,
) -> (r: Result<FetchOutcome, AppError>)
    ensures
        result_view(r) == error_fallback(
            cached_view(cached),
            error_view(last_error),
            tier_view(tier),
        ),
        cached matches Some(c) ==> (r matches Ok(o) && {
            &&& o.stale
            &&& o.last_error == last_error
            &&& o.cache_age == c.age
            &&& o.snapshot@ == c@.snapshot(tier_view(tier))
        }),
        cached is None ==> (r matches Err(AppError::Other(text)) && text@
            == "zai: no usable cache"@),
{
    match cached {
        Some(c) => {
            let mut out = reuse(c, true, tier);
            out.last_error = last_error;
            Ok(out)
        },
        None => Err(AppError::Other("zai: no usable cache".to_string())),
    }
}

/// The request for the quota. The key stands alone in its header.
pub open spec fn request_of(url: Seq<char>, api_key: Seq<char>) -> GetRequestView {
    GetRequestView {
        url,
        headers: seq![
            ("Authorization"@, api_key),
            ("Accept-Language"@, "en-US,en"@),
            ("Content-Type"@, "application/json"@),
        ],
        timeout_secs: HTTP_TIMEOUT_SECS,
    }
}

/// Builds the request for the quota.
pub fn quota_request(url: &str, api_key: &str) -> (r: GetRequest)
    ensures
        r@ == request_of(url@, api_key@),
        r.url@ == url@,
        r.timeout_secs == 10,
        r.headers@.len() == 3,
        r.headers@[0].0@ == "Authorization"@ && r.headers@[0].1@ == api_key@,
        r.headers@[1].0@ == "Accept-Language"@ && r.headers@[1].1@ == "en-US,en"@,
        r.headers@[2].0@ == "Content-Type"@ && r.headers@[2].1@ == "application/json"@,
{
    let mut headers: Vec<(String, String)> = Vec::new();
    headers.push(("Authorization".to_string(), api_key.to_string()));
    headers.push(("Accept-Language".to_string(), "en-US,en".to_string()));
    headers.push(("Content-Type".to_string(), "application/json".to_string()));
    let r = GetRequest { url: url.to_string(), headers, timeout_secs: HTTP_TIMEOUT_SECS };
    assert(r@.headers =~= request_of(url@, api_key@).headers);
    r
}

/// Takes the reply to the request for the quota: the body and the answer in it, or the error it
/// stands for.
pub fn fetch_live(url: &str, reply: Reply<Envelope>) -> (r: Result<(Vec<u8>, Envelope), AppError>)
    ensures
        settled_view(r) == reply.settled("zai timeout: "@ + url@, "zai quota response: "@),
        reply is TimedOut ==> (r matches Err(AppError::Transport(text)) && text@ == "zai timeout: "@
            + url@),
        reply matches Reply::Failed(e) ==> r == Err::<(Vec<u8>, Envelope), AppError>(e),
        reply matches Reply::Response { status, body, parsed } ==> !(200 <= status < 300)
            ==> (r matches Err(AppError::Http { status: told, body: text }) && {
            let whole = lossy_utf8(body@);
            &&& told == status
            &&& text@.len() == if whole.len() < 200 { whole.len() } else { 200 }
            &&& text@ == whole.take(text@.len() as int)
        }),
        reply matches Reply::Response { status, body, parsed: Ok(envelope) } ==> 200 <= status < 300
            ==> r == Ok::<(Vec<u8>, Envelope), AppError>((body, envelope)),
        reply matches Reply::Response { status, body, parsed: Err(e) } ==> 200 <= status < 300
            ==> (r matches Err(AppError::Schema(text)) && text@ == "zai quota response: "@ + e@),
{
    settle(reply, join("zai timeout: ", url), "zai quota response: ")
}

/// What has to happen next in a fetch.
pub enum Progress {
    /// Lock the cache and read the payload where it is young enough.
    LoadFresh,
    /// Ask the endpoint.
    CallLive,
    /// Write the payload to the cache.
    StorePayload { bytes: Vec<u8>, snapshot: ZaiSnapshot },
    /// Mark the cache as stale and record the error in it.
    RecordError { status: u16, text: String },
    /// Read the payload whatever its age.
    LoadAny { recorded: Option<(u16, String)> },
    /// Nothing: this is what the fetch came to.
    Finished(Result<FetchOutcome, AppError>),
}

#[verifier::ext_equal]
pub enum ProgressView {
    LoadFresh,
    CallLive,
    StorePayload { bytes: Seq<u8>, snapshot: ZaiSnapshotView },
    RecordError { status: u16, text: Seq<char> },
    LoadAny { recorded: Option<(u16, Seq<char>)> },
    Finished(Result<FetchOutcomeView, AppErrorView>),
}

impl View for Progress {
    type V = ProgressView;

    open spec fn view(&self) -> ProgressView {
        match *self {
            Progress::LoadFresh => ProgressView::LoadFresh,
            Progress::CallLive => ProgressView::CallLive,
            Progress::StorePayload { bytes, snapshot } => ProgressView::StorePayload {
                bytes: bytes@,
                snapshot: snapshot@,
            },
            Progress::RecordError { status, text } => ProgressView::RecordError {
                status,
                text: text@,
            },
            Progress::LoadAny { recorded } => ProgressView::LoadAny {
                recorded: error_view(recorded),
            },
            Progress::Finished(r) => ProgressView::Finished(result_view(r)),
        }
    }
}

/// What happened in a fetch.
pub enum Event {
    /// The payload was read, or there is none that is young enough.
    Fresh(Option<Cached>),
    /// The endpoint answered.
    Live { bytes: Vec<u8>, envelope: Envelope },
    /// The endpoint could not be asked, or its answer was no use; `text` tells the error.
    LiveFailed { error: AppError, text: String },
    /// The payload was written.
    Stored,
    /// The error was recorded.
    Recorded,
    /// The payload was read, or there is none.
    Any(Option<Cached>),
}

#[verifier::ext_equal]
pub enum EventView {
    Fresh(Option<CachedView>),
    Live { bytes: Seq<u8>, envelope: EnvelopeView },
    LiveFailed { error: AppErrorView, text: Seq<char> },
    Stored,
    Recorded,
    Any(Option<CachedView>),
}

impl View for Event {
    type V = EventView;

    open spec fn view(&self) -> EventView {
        match *self {
            Event::Fresh(c) => EventView::Fresh(cached_view(c)),
            Event::Live { bytes, envelope } => EventView::Live {
                bytes: bytes@,
                envelope: envelope@,
            },
            Event::LiveFailed { error, text } => EventView::LiveFailed {
                error: error@,
                text: text@,
            },
            Event::Stored => EventView::Stored,
            Event::Recorded => EventView::Recorded,
            Event::Any(c) => EventView::Any(cached_view(c)),
        }
    }
}

impl ProgressView {
    /// The event is one that can follow on what had to happen.
    pub open spec fn awaits(self, event: EventView) -> bool {
        match self {
            ProgressView::LoadFresh => event is Fresh,
            ProgressView::CallLive => event is Live || event is LiveFailed,
            ProgressView::StorePayload { .. } => event is Stored,
            ProgressView::RecordError { .. } => event is Recorded,
            ProgressView::LoadAny { .. } => event is Any,
            ProgressView::Finished(_) => false,
        }
    }

    /// How a fetch goes on after an event.
    pub open spec fn after(self, event: EventView, tier: Option<Seq<char>>) -> ProgressView {
        match (self, event) {
            (ProgressView::LoadFresh, EventView::Fresh(Some(c))) => ProgressView::Finished(
                Ok(c.outcome(false, tier)),
            ),
            (ProgressView::LoadFresh, EventView::Fresh(None)) => ProgressView::CallLive,
            (
                ProgressView::CallLive,
                EventView::Live { bytes, envelope },
            ) => ProgressView::StorePayload { bytes, snapshot: envelope.snapshot(tier) },
            (ProgressView::CallLive, EventView::LiveFailed { error, text }) => match error {
                AppErrorView::Transport(_) => ProgressView::LoadAny { recorded: None },
                AppErrorView::Http { status, body } => ProgressView::RecordError {
                    status,
                    text: body,
                },
                _ => ProgressView::RecordError { status: 0, text },
            },
            (
                ProgressView::StorePayload { bytes: _, snapshot },
                EventView::Stored,
            ) => ProgressView::Finished(
                Ok(
                    FetchOutcomeView {
                        snapshot,
                        stale: false,
                        last_error: None,
                        cache_age: Some(Age { secs: 0, nanos: 0 }),
                    },
                ),
            ),
            (
                ProgressView::RecordError { status, text },
                EventView::Recorded,
            ) => ProgressView::LoadAny { recorded: Some((status, text)) },
            (ProgressView::LoadAny { recorded }, EventView::Any(c)) => ProgressView::Finished(
                match recorded {
                    None => silent_fallback(c, tier),
                    Some(e) => error_fallback(c, Some(e), tier),
                },
            ),
            _ => self,
        }
    }

    /// How many events a fetch can take until it is finished.
    pub open spec fn events_left(self) -> nat {
        match self {
            ProgressView::LoadFresh => 4,
            ProgressView::CallLive => 3,
            ProgressView::RecordError { .. } => 2,
            ProgressView::StorePayload { .. } => 1,
            ProgressView::LoadAny { .. } => 1,
            ProgressView::Finished(_) => 0,
        }
    }

    /// Where a fetch stands after a number of events.
    pub open spec fn run(self, events: Seq<EventView>, tier: Option<Seq<char>>) -> ProgressView
        decreases events.len(),
    {
        if events.len() == 0 {
            self
        } else {
            self.after(events[0], tier).run(events.skip(1), tier)
        }
    }

    /// Each event follows on what had to happen.
    pub open spec fn awaits_all(self, events: Seq<EventView>, tier: Option<Seq<char>>) -> bool
        decreases events.len(),
    {
        events.len() > 0 ==> self.awaits(events[0]) && self.after(events[0], tier).awaits_all(
            events.skip(1),
            tier,
        )
    }
}

impl Progress {
    /// The event is one that can follow on what had to happen.
    pub fn awaits(&self, event: &Event) -> (r: bool)
        ensures
            r == self@.awaits(event@),
            r <==> {
                ||| *self is LoadFresh && *event is Fresh
                ||| *self is CallLive && (*event is Live || *event is LiveFailed)
                ||| *self is StorePayload && *event is Stored
                ||| *self is RecordError && *event is Recorded
                ||| *self is LoadAny && *event is Any
            },
    {
        match (self, event) {
            (Progress::LoadFresh, Event::Fresh(_)) => true,
            (Progress::CallLive, Event::Live { .. }) => true,
            (Progress::CallLive, Event::LiveFailed { .. }) => true,
            (Progress::StorePayload { .. }, Event::Stored) => true,
            (Progress::RecordError { .. }, Event::Recorded) => true,
            (Progress::LoadAny { .. }, Event::Any(_)) => true,
            _ => false,
        }
    }
}

/// Decides how a fetch goes on after an event. A payload that is young enough is served at once.
/// Otherwise the endpoint is asked, and its answer is cached and served. Where it cannot be
/// asked, what is cached is served as stale; a failure of the network leaves no trace, any other
/// is recorded.
pub fn fetch_snapshot(progress: Progress, event: Event, config_plan_tier: Option<&str>) -> (next:
    Progress)
    requires
        progress@.awaits(event@),
    ensures
        next@ == progress@.after(event@, tier_view(config_plan_tier)),
        event matches Event::Fresh(Some(c)) ==> (next matches Progress::Finished(Ok(o)) && {
            &&& !o.stale
            &&& o.last_error == c.last_error
            &&& o.cache_age == c.age
            &&& o.snapshot@ == c@.snapshot(tier_view(config_plan_tier))
        }),
        event matches Event::Fresh(None) ==> next is CallLive,
        event matches Event::Live { bytes, envelope } ==> (next matches Progress::StorePayload {
            bytes: stored,
            snapshot,
        } && stored == bytes && snapshot@ == envelope@.snapshot(tier_view(config_plan_tier))),
        event matches Event::LiveFailed { error: AppError::Transport(_), text } ==> next
            == (Progress::LoadAny { recorded: None }),
        event matches Event::LiveFailed { error: AppError::Http { status, body }, text } ==> next
            == (Progress::RecordError { status, text: body }),
        event matches Event::LiveFailed { error, text } ==> !(error is Transport) && !(error is Http)
            ==> next == (Progress::RecordError { status: 0, text }),
        event is Stored ==> (next matches Progress::Finished(Ok(o)) && {
            &&& o.snapshot == progress->StorePayload_snapshot
            &&& !o.stale
            &&& o.last_error is None
            &&& o.cache_age == Some(Age { secs: 0, nanos: 0 })
        }),
        event is Recorded ==> next == (Progress::LoadAny {
            recorded: Some((progress->RecordError_status, progress->RecordError_text)),
        }),
        event matches Event::Any(Some(c)) ==> (next matches Progress::Finished(Ok(o)) && {
            &&& o.stale
            &&& o.last_error == if progress->recorded is Some {
                progress->recorded
            } else {
                c.last_error
            }
            &&& o.cache_age == c.age
            &&& o.snapshot@ == c@.snapshot(tier_view(config_plan_tier))
        }),
        event matches Event::Any(None) ==> progress->recorded is None ==> (next matches Progress::Finished(
            Err(AppError::Transport(text)),
        ) && text@ == "zai: no cache and network unreachable"@),
        event matches Event::Any(None) ==> progress->recorded is Some ==> (next matches Progress::Finished(
            Err(AppError::Other(text)),
        ) && text@ == "zai: no usable cache"@),
{
    match event {
        Event::Fresh(cached) => match cached {
            Some(c) => Progress::Finished(Ok(reuse(c, false, config_plan_tier))),
            None => Progress::CallLive,
        },
        Event::Live { bytes, envelope } => Progress::StorePayload {
            bytes,
            snapshot: envelope.into_snapshot(config_plan_tier),
        },
        Event::LiveFailed { error, text } => {
            if error.is_transient() {
                return Progress::LoadAny { recorded: None };
            }
            match error {
                AppError::Http { status, body } => Progress::RecordError { status, text: body },
                _ => Progress::RecordError { status: 0, text },
            }
        },
        Event::Stored => match progress {
            Progress::StorePayload { bytes: _, snapshot } => Progress::Finished(
                Ok(
                    FetchOutcome {
                        snapshot,
                        stale: false,
                        last_error: None,
                        cache_age: Some(Age { secs: 0, nanos: 0 }),
                    },
                ),
            ),
            other => other,
        },
        Event::Recorded => match progress {
            Progress::RecordError { status, text } => Progress::LoadAny {
                recorded: Some((status, text)),
            },
            other => other,
        },
        Event::Any(cached) => match progress {
            Progress::LoadAny { recorded } => Progress::Finished(
                match recorded {
                    None => fallback_silent(cached, config_plan_tier),
                    Some(e) => fallback_with_error(cached, Some(e), config_plan_tier),
                },
            ),
            other => other,
        },
    }
}

/// The key is sent as it is, in the one `Authorization` header.
pub proof fn law_key_is_sent_bare(url: Seq<char>, api_key: Seq<char>, i: int)
    requires
        0 <= i < request_of(url, api_key).headers.len(),
    ensures
        request_of(url, api_key).headers[i].0 == "Authorization"@ <==> i == 0,
        request_of(url, api_key).headers[0].1 == api_key,
{
    reveal_strlit("Authorization");
    reveal_strlit("Accept-Language");
    reveal_strlit("Content-Type");
    assert("Authorization"@.len() != "Accept-Language"@.len());
    assert("Authorization"@.len() != "Content-Type"@.len());
}

/// The snapshot of a cached payload is that of the answer in it. Where none can be read no window
/// is known and the plan is unknown.
pub proof fn law_cached_snapshot_is_the_answers(cached: Cached, tier: Option<&str>)
    ensures
        cached.envelope matches Some(env) ==> cached@.snapshot(tier_view(tier)) == env@.snapshot(
            tier_view(tier),
        ),
        cached.envelope is None ==> cached@.snapshot(tier_view(tier)) == (ZaiSnapshotView {
            plan: "GLM Coding Unknown"@,
            session: None,
            weekly: None,
            mcp: None,
        }),
{
}

/// A payload that is young enough is served as fresh, and the endpoint is not asked: the fetch
/// is over, and tells the error that was recorded last and the age of the payload.
pub proof fn law_fresh_cache_short_circuits(cached: CachedView, tier: Option<Seq<char>>)
    ensures
        ProgressView::LoadFresh.after(EventView::Fresh(Some(cached)), tier)
            == ProgressView::Finished(Ok(cached.outcome(false, tier))),
        ProgressView::LoadFresh.after(EventView::Fresh(Some(cached)), tier)
            == ProgressView::Finished(
            Ok(
                FetchOutcomeView {
                    snapshot: cached.snapshot(tier),
                    stale: false,
                    last_error: cached.last_error,
                    cache_age: cached.age,
                },
            ),
        ),
        ProgressView::LoadFresh.after(EventView::Fresh(None), tier) is CallLive,
{
}

/// An answer of the endpoint is cached as it came, and served as fresh.
pub proof fn law_answer_is_cached_and_served(
    bytes: Seq<u8>,
    envelope: EnvelopeView,
    tier: Option<Seq<char>>,
)
    ensures
        ({
            let stored = ProgressView::CallLive.after(EventView::Live { bytes, envelope }, tier);
            let end = stored.after(EventView::Stored, tier);
            &&& stored is StorePayload
            &&& stored->StorePayload_bytes == bytes
            &&& end == ProgressView::Finished(
                Ok(
                    FetchOutcomeView {
                        snapshot: envelope.snapshot(tier),
                        stale: false,
                        last_error: None,
                        cache_age: Some(Age { secs: 0, nanos: 0 }),
                    },
                ),
            )
        }),
{
}

/// An answer that is read back from the cache shows the snapshot that it showed at first.
pub proof fn law_cached_answer_shows_the_same(
    bytes: Seq<u8>,
    cached: CachedView,
    envelope: EnvelopeView,
    stale: bool,
    tier: Option<Seq<char>>,
)
    requires
        cached.envelope == Some(envelope),
    ensures
        ProgressView::CallLive.after(
            EventView::Live { bytes, envelope },
            tier,
        )->StorePayload_snapshot == cached.outcome(stale, tier).snapshot,
{
}

/// A fetch that was answered live, and one after it that finds the answer in the cache while it is
/// young enough, show the same snapshot, given that the stored bytes read as the same answer. The
/// second is over once the cache was read: it asks no endpoint, and what it serves is not stale.
pub proof fn law_next_fetch_shows_the_same(
    bytes: Seq<u8>,
    envelope: EnvelopeView,
    cached: CachedView,
    tier: Option<Seq<char>>,
)
    requires
        cached.envelope == Some(envelope),
    ensures
        ({
            let live = seq![
                EventView::Fresh(None),
                EventView::Live { bytes, envelope },
                EventView::Stored,
            ];
            let first = ProgressView::LoadFresh.run(live, tier);
            let second = ProgressView::LoadFresh.run(seq![EventView::Fresh(Some(cached))], tier);
            &&& ProgressView::LoadFresh.awaits_all(live, tier)
            &&& first is Finished && first->Finished_0 is Ok
            &&& second is Finished && second->Finished_0 is Ok
            &&& second->Finished_0->Ok_0.snapshot == first->Finished_0->Ok_0.snapshot
            &&& !first->Finished_0->Ok_0.stale
            &&& !second->Finished_0->Ok_0.stale
        }),
{
    reveal_with_fuel(ProgressView::run, 5);
    reveal_with_fuel(ProgressView::awaits_all, 5);
}

/// A failure of the network is not recorded: the fetch goes straight to the cache, serves it as
/// stale with the error that was recorded before, and fails only where nothing is cached.
pub proof fn law_network_failure_is_silent(
    message: Seq<char>,
    text: Seq<char>,
    cached: Option<CachedView>,
    tier: Option<Seq<char>>,
)
    ensures
        ({
            let load = ProgressView::CallLive.after(
                EventView::LiveFailed { error: AppErrorView::Transport(message), text },
                tier,
            );
            let end = load.after(EventView::Any(cached), tier);
            &&& load == ProgressView::LoadAny { recorded: None }
            &&& end == ProgressView::Finished(silent_fallback(cached, tier))
            &&& cached matches Some(c) ==> end == ProgressView::Finished(Ok(c.outcome(true, tier)))
            &&& cached matches Some(c) ==> end == ProgressView::Finished(
                Ok(
                    FetchOutcomeView {
                        snapshot: c.snapshot(tier),
                        stale: true,
                        last_error: c.last_error,
                        cache_age: c.age,
                    },
                ),
            )
            &&& cached is None ==> end == ProgressView::Finished(
                Err(AppErrorView::Transport("zai: no cache and network unreachable"@)),
            )
        }),
{
}

/// Any other failure is recorded before the cache is read, and what is cached is served as stale
/// with that very error; an HTTP error keeps its status and body.
pub proof fn law_other_failure_is_recorded_and_told(
    error: AppErrorView,
    text: Seq<char>,
    cached: Option<CachedView>,
    tier: Option<Seq<char>>,
)
    requires
        !(error is Transport),
    ensures
        ({
            let told: (u16, Seq<char>) = match error {
                AppErrorView::Http { status, body } => (status, body),
                _ => (0u16, text),
            };
            let record = ProgressView::CallLive.after(EventView::LiveFailed { error, text }, tier);
            let load = record.after(EventView::Recorded, tier);
            let end = load.after(EventView::Any(cached), tier);
            &&& record == ProgressView::RecordError { status: told.0, text: told.1 }
            &&& load == ProgressView::LoadAny { recorded: Some(told) }
            &&& end == ProgressView::Finished(error_fallback(cached, Some(told), tier))
            &&& cached matches Some(c) ==> end == ProgressView::Finished(
                Ok(
                    FetchOutcomeView {
                        snapshot: c.snapshot(tier),
                        stale: true,
                        last_error: Some(told),
                        cache_age: c.age,
                    },
                ),
            )
            &&& cached is None ==> end == ProgressView::Finished(
                Err(AppErrorView::Other("zai: no usable cache"@)),
            )
        }),
{
}

/// An answer with a status that is no success never reaches the cache, whatever was read from its
/// body: the status and the beginning of the body are recorded, and what was cached before is
/// served as stale with them.
pub proof fn law_refusal_serves_the_cache(
    url: Seq<char>,
    status: u16,
    body: Vec<u8>,
    parsed: Result<Envelope, String>,
    text: Seq<char>,
    cached: CachedView,
    tier: Option<Seq<char>>,
)
    requires
        status < 200 || status >= 300,
    ensures
        ({
            let reply = Reply::Response { status, body, parsed };
            let settled = reply.settled("zai timeout: "@ + url, "zai quota response: "@);
            let whole = lossy_utf8(body@);
            let told = if whole.len() < 200 { whole } else { whole.take(200) };
            let record = ProgressView::CallLive.after(
                EventView::LiveFailed { error: settled->Err_0, text },
                tier,
            );
            let end = record.after(EventView::Recorded, tier).after(
                EventView::Any(Some(cached)),
                tier,
            );
            &&& settled is Err
            &&& record == ProgressView::RecordError { status, text: told }
            &&& end == ProgressView::Finished(
                Ok(
                    FetchOutcomeView {
                        snapshot: cached.snapshot(tier),
                        stale: true,
                        last_error: Some((status, told)),
                        cache_age: cached.age,
                    },
                ),
            )
        }),
{
    assert(lossy_utf8(body@).take(lossy_utf8(body@).len() as int) =~= lossy_utf8(body@));
}

/// Every event that was awaited brings a fetch nearer to its end, and only a finished fetch
/// awaits nothing.
pub proof fn law_fetch_ends(progress: ProgressView, event: EventView, tier: Option<Seq<char>>)
    ensures
        progress.awaits(event) ==> progress.after(event, tier).events_left()
            < progress.events_left(),
        progress.events_left() == 0 <==> progress is Finished,
        progress.events_left() <= 4,
{
}

/// What a whole fetch comes to is stale exactly where the endpoint was asked in vain.
pub proof fn law_stale_means_failed(events: Seq<EventView>, tier: Option<Seq<char>>)
    requires
        ProgressView::LoadFresh.awaits_all(events, tier),
        ProgressView::LoadFresh.run(events, tier) is Finished,
        ProgressView::LoadFresh.run(events, tier)->Finished_0 is Ok,
    ensures
        ProgressView::LoadFresh.run(events, tier)->Finished_0->Ok_0.stale <==> exists|i: int|
            0 <= i < events.len() && (#[trigger] events[i]) is LiveFailed,
{
    reveal_with_fuel(ProgressView::run, 6);
    reveal_with_fuel(ProgressView::awaits_all, 6);
    let p1 = ProgressView::LoadFresh.after(events[0], tier);
    let e1 = events.skip(1);
    let p2 = p1.after(e1[0], tier);
    let e2 = e1.skip(1);
    let p3 = p2.after(e2[0], tier);
    let e3 = e2.skip(1);
    if events.len() > 1 {
        assert(events[1] == e1[0]);
        assert(p1 == ProgressView::CallLive);
        if e1.len() > 1 {
            assert(events[2] == e2[0]);
        }
        if e1.len() > 2 {
            assert(events[3] == e3[0]);
            assert(e3.skip(1).len() == 0);
        }
        assert(events.len() <= 4);
    }
}

}
