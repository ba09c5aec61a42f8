//! Fetching the OpenRouter snapshot, with the cache in front of the endpoints and behind them.
//!
//! Two endpoints are asked, one for the credits of the account and one for the key, and both
//! answers make up the snapshot. The key is sent behind `Bearer`.
//!
//! A fetch is a conversation. [`Progress`] says what has to happen next; whoever drives the
//! fetch does it and reports an [`Event`]; [`fetch_snapshot`] decides how to go on.

use vstd::prelude::*;
use crate::amount::Amount;
use crate::double::Double;
use crate::error::{AppError, AppErrorView};
use crate::http::{settle, GetRequest, GetRequestView, Reply, HTTP_TIMEOUT_SECS};
use crate::json::json_text;
use crate::openrouter::snapshot::{cache_payload, cached_snapshot, document_tree, parse_cache};
use crate::openrouter::types::{
    combine, combined, CreditsData, CreditsDataView, KeyData, KeyDataView,
};
use crate::text::{join, lossy_utf8};
use crate::usage::{error_view, Age, OpenRouterSnapshot, OpenRouterSnapshotView};

verus! {

pub const BASE_URL: &'static str = "https://openrouter.ai/api/v1";

/// How many seconds to wait for another fetch to give up the cache.
pub const LOCK_TIMEOUT_SECS: u64 = 15;

#[derive(Debug, Clone)]
pub struct Endpoints {
    pub credits: String,
    pub key: String,
}

impl Default for Endpoints {
    fn default() -> (e: Endpoints)
        ensures
            e.credits@ == BASE_URL@ + "/credits"@,
            e.key@ == BASE_URL@ + "/key"@,
    {
        Endpoints { credits: join(BASE_URL, "/credits"), key: join(BASE_URL, "/key") }
    }
}

/// What a fetch came to.
#[derive(Debug, Clone)]
pub struct FetchOutcome {
    pub snapshot: OpenRouterSnapshot,
    /// The endpoints could not be asked, and this is what was cached.
    pub stale: bool,
    pub last_error: Option<(u16, String)>,
    pub cache_age: Option<Age>,
}

#[verifier::ext_equal]
pub struct FetchOutcomeView {
    pub snapshot: OpenRouterSnapshotView,
    pub stale: bool,
    pub last_error: Option<(u16, Seq<char>)>,
    pub cache_age: Option<Age>,
}

impl View for FetchOutcome {
    type V = FetchOutcomeView;

    open spec fn view(&self) -> FetchOutcomeView {
        FetchOutcomeView {
            snapshot: self.snapshot@,
            stale: self.stale,
            last_error: error_view(self.last_error),
            cache_age: self.cache_age,
        }
    }
}

/// What the cache holds: the payload, the error that was recorded last, and the age of the
/// payload.
pub struct Cached {
    pub payload: Vec<u8>,
    pub last_error: Option<(u16, String)>,
    pub age: Option<Age>,
}

#[verifier::ext_equal]
pub struct CachedView {
    pub payload: Seq<u8>,
    pub last_error: Option<(u16, Seq<char>)>,
    pub age: Option<Age>,
}

impl View for Cached {
    type V = CachedView;

    open spec fn view(&self) -> CachedView {
        CachedView {
            payload: self.payload@,
            last_error: error_view(self.last_error),
            age: self.age,
        }
    }
}

/// A payload that may be missing.
pub open spec fn cached_view(c: Option<Cached>) -> Option<CachedView> {
    match c {
        Some(c) => Some(c@),
        None => None,
    }
}

/// An outcome or an error.
pub open spec fn result_view(r: Result<FetchOutcome, AppError>) -> Result<
    FetchOutcomeView,
    AppErrorView,
> {
    match r {
        Ok(o) => Ok(o@),
        Err(e) => Err(e@),
    }
}

/// What is shown where nothing can be read: no credit and no usage, on the free tier.
pub open spec fn neutral_snapshot() -> OpenRouterSnapshotView {
    let zero = Double { bits: 0 };
    OpenRouterSnapshotView {
        label: "OpenRouter"@,
        total_credits: zero,
        total_usage: zero,
        usage_daily: zero,
        usage_weekly: zero,
        usage_monthly: zero,
        is_free_tier: true,
        limit: None,
        limit_remaining: None,
    }
}

impl CachedView {
    /// The snapshot of a cached payload, and a neutral one where it cannot be read.
    pub open spec fn snapshot(self) -> OpenRouterSnapshotView {
        match cached_snapshot(self.payload) {
            Ok(s) => s,
            Err(_) => neutral_snapshot(),
        }
    }

    /// What a fetch comes to that is served from the cache.
    pub open spec fn outcome(self, stale: bool) -> FetchOutcomeView {
        FetchOutcomeView {
            snapshot: self.snapshot(),
            stale,
            last_error: self.last_error,
            cache_age: self.age,
        }
    }
}

/// What a fetch comes to that failed without leaving a trace.
pub open spec fn silent_fallback(cached: Option<CachedView>) -> Result<
    FetchOutcomeView,
    AppErrorView,
> {
    match cached {
        Some(c) => Ok(c.outcome(true)),
        None => Err(AppErrorView::Transport("openrouter: no cache and network unreachable"@)),
    }
}

/// What a fetch comes to that failed with an error worth telling.
pub open spec fn error_fallback(
    cached: Option<CachedView>,
    last_error: Option<(u16, Seq<char>)>,
) -> Result<FetchOutcomeView, AppErrorView> {
    match cached {
        Some(c) => Ok(FetchOutcomeView { last_error, ..c.outcome(true) }),
        None => Err(AppErrorView::Other("openrouter: no usable cache"@)),
    }
}

/// Serves what is cached.
pub fn reuse_cache(cached: Cached, stale: bool) -> (o: FetchOutcome)
    ensures
        o@ == cached@.outcome(stale),
        o.stale == stale,
        o.last_error == cached.last_error,
        o.cache_age == cached.age,
        cached_snapshot(cached.payload@) matches Ok(s) ==> o.snapshot@ == s,
        cached_snapshot(cached.payload@) is Err ==> {
            &&& o.snapshot.label@ == "OpenRouter"@
            &&& o.snapshot.total_credits@.bits == 0
            &&& o.snapshot.total_usage@.bits == 0
            &&& o.snapshot.usage_daily@.bits == 0
            &&& o.snapshot.usage_weekly@.bits == 0
            &&& o.snapshot.usage_monthly@.bits == 0
            &&& o.snapshot.is_free_tier
            &&& o.snapshot.limit is None
            &&& o.snapshot.limit_remaining is None
        },
{
    let snapshot: OpenRouterSnapshot = match parse_cache(cached.payload.as_slice()) {
        Ok(s) => s,
        Err(_) => OpenRouterSnapshot {
            label: "OpenRouter".to_string(),
            total_credits: Amount::zero(),
            total_usage: Amount::zero(),
            usage_daily: Amount::zero(),
            usage_weekly: Amount::zero(),
            usage_monthly: Amount::zero(),
            is_free_tier: true,
            limit: None,
            limit_remaining: None,
        },
    };
    FetchOutcome { snapshot, stale, last_error: cached.last_error, cache_age: cached.age }
}

/// Serves what is cached after a failure of the network.
pub fn fallback_silent(cached: Option<Cached>) -> (r: Result<FetchOutcome, AppError>)
    ensures
        result_view(r) == silent_fallback(cached_view(cached)),
        cached matches Some(c) ==> (r matches Ok(o) && {
            &&& o.stale
            &&& o.last_error == c.last_error
            &&& o.cache_age == c.age
            &&& o.snapshot@ == c@.snapshot()
        }),
        cached is None ==> (r matches Err(AppError::Transport(text)) && text@
            == "openrouter: no cache and network unreachable"@),
{
    match cached {
        Some(c) => Ok(reuse_cache(c, true)),
        None => Err(
            AppError::Transport("openrouter: no cache and network unreachable".to_string()),
        ),
    }
}

/// Serves what is cached after any other failure, and tells which it was.
pub fn fallback_with_error(
    cached: Option<Cached>,
    last_error: Option<(u16, String)>,
) -> (r: Result<FetchOutcome, AppError>)
    ensures
        result_view(r) == error_fallback(cached_view(cached), error_view(last_error)),
        cached matches Some(c) ==> (r matches Ok(o) && {
            &&& o.stale
            &&& o.last_error == last_error
            &&& o.cache_age == c.age
            &&& o.snapshot@ == c@.snapshot()
        }),
        cached is None ==> (r matches Err(AppError::Other(text)) && text@
            == "openrouter: no usable cache"@),
{
    match cached {
        Some(c) => {
            let mut outcome = reuse_cache(c, true);
            outcome.last_error = last_error;
            Ok(outcome)
        },
        None => Err(AppError::Other("openrouter: no usable cache".to_string())),
    }
}

/// The request to an endpoint, with the key behind `Bearer`.
pub open spec fn request_of(url: Seq<char>, api_key: Seq<char>) -> GetRequestView {
    GetRequestView {
        url,
        headers: seq![("Authorization"@, "Bearer "@ + api_key)],
        timeout_secs: HTTP_TIMEOUT_SECS,
    }
}

/// Builds the request to an endpoint.
pub fn endpoint_request(url: &str, api_key: &str) -> (r: GetRequest)
    ensures
        r@ == request_of(url@, api_key@),
        r.url@ == url@,
        r.timeout_secs == 10,
        r.headers@.len() == 1,
        r.headers@[0].0@ == "Authorization"@,
        r.headers@[0].1@ == "Bearer "@ + api_key@,
{
    let mut headers: Vec<(String, String)> = Vec::new();
    headers.push(("Authorization".to_string(), join("Bearer ", api_key)));
    let r = GetRequest { url: url.to_string(), headers, timeout_secs: HTTP_TIMEOUT_SECS };
    assert(r@.headers =~= request_of(url@, api_key@).headers);
    r
}

/// The key is sent behind `Bearer`, in the one header that there is.
pub proof fn law_key_is_sent_behind_bearer(url: Seq<char>, api_key: Seq<char>)
    ensures
        request_of(url, api_key).url == url,
        request_of(url, api_key).headers == seq![("Authorization"@, "Bearer "@ + api_key)],
        request_of(url, api_key).timeout_secs == 10,
{
}

/// The answer in a reply of the endpoint at `url`, or the error it stands for.
pub open spec fn answer_of<T>(url: Seq<char>, reply: Reply<T>) -> Result<T, AppErrorView> {
    match reply.settled("openrouter timeout: "@ + url, "openrouter "@ + url + ": "@) {
        Ok(live) => Ok(live.1),
        Err(e) => Err(e),
    }
}

/// Takes the reply of the endpoint at `url`: the answer in it, or the error it stands for.
pub fn fetch_one<T>(url: &str, reply: Reply<T>) -> (r: Result<T, AppError>)
    ensures
        match answer_of(url@, reply) {
            Ok(answer) => r == Ok::<T, AppError>(answer),
            Err(e) => r is Err && r->Err_0@ == e,
        },
        reply matches Reply::Response { status, body, parsed: Ok(answer) } ==> 200 <= status < 300
            ==> r == Ok::<T, AppError>(answer),
        reply is TimedOut ==> (r matches Err(AppError::Transport(text)) && text@
            == "openrouter timeout: "@ + url@),
        reply matches Reply::Failed(e) ==> r == Err::<T, AppError>(e),
        reply matches Reply::Response { status, body, parsed } ==> !(200 <= status < 300)
            ==> (r matches Err(AppError::Http { status: told, body: text }) && {
            let whole = lossy_utf8(body@);
            &&& told == status
            &&& text@.len() == if whole.len() < 200 { whole.len() } else { 200 }
            &&& text@ == whole.take(text@.len() as int)
        }),
        reply matches Reply::Response { status, body, parsed: Err(e) } ==> 200 <= status < 300
            ==> (r matches Err(AppError::Schema(text)) && text@ == "openrouter "@ + url@ + ": "@
            + e@),
{
    let schema = join(join("openrouter ", url).as_str(), ": ");
    match settle(reply, join("openrouter timeout: ", url), schema.as_str()) {
        Ok(live) => Ok(live.1),
        Err(e) => Err(e),
    }
}

/// Takes the replies of both endpoints. Where both failed, the error is that of the credits.
pub fn fetch_live(
    endpoints: &Endpoints,
    credits: Reply<CreditsData>,
    key: Reply<KeyData>,
) -> (r: Result<(CreditsData, KeyData), AppError>)
    ensures
        match (answer_of(endpoints.credits@, credits), answer_of(endpoints.key@, key)) {
            (Err(e), _) => r is Err && r->Err_0@ == e,
            (Ok(_), Err(e)) => r is Err && r->Err_0@ == e,
            (Ok(c), Ok(k)) => r == Ok::<(CreditsData, KeyData), AppError>((c, k)),
        },
        r is Ok <==> {
            &&& credits matches Reply::Response { status, body, parsed } && 200 <= status < 300
                && parsed is Ok
            &&& key matches Reply::Response { status, body, parsed } && 200 <= status < 300
                && parsed is Ok
        },
        r matches Ok(answers) ==> {
            &&& credits->parsed == Ok::<CreditsData, String>(answers.0)
            &&& key->parsed == Ok::<KeyData, String>(answers.1)
        },
        credits matches Reply::Failed(e) ==> r == Err::<(CreditsData, KeyData), AppError>(e),
        credits matches Reply::Response { status, body, parsed } ==> !(200 <= status < 300)
            ==> (r matches Err(AppError::Http { status: told, body: text }) && told == status),
{
    let credits_answer = fetch_one(endpoints.credits.as_str(), credits);
    let key_answer = fetch_one(endpoints.key.as_str(), key);
    match credits_answer {
        Err(e) => Err(e),
        Ok(c) => match key_answer {
            Err(e) => Err(e),
            Ok(k) => Ok((c, k)),
        },
    }
}

/// What has to happen next in a fetch.
pub enum Progress {
    /// Lock the cache and read the payload where it is young enough.
    LoadFresh,
    /// Ask both endpoints.
    CallLive,
    /// Write the payload to the cache.
    StorePayload { bytes: Vec<u8>, snapshot: OpenRouterSnapshot },
    /// Mark the cache as stale and record the error in it.
    RecordError { status: u16, text: String },
    /// Read the payload whatever its age.
    LoadAny { recorded: Option<(u16, String)> },
    /// Nothing: this is what the fetch came to.
    Finished(Result<FetchOutcome, AppError>),
}

#[verifier::ext_equal]
pub enum ProgressView {
    LoadFresh,
    CallLive,
    StorePayload { bytes: Seq<u8>, snapshot: OpenRouterSnapshotView },
    RecordError { status: u16, text: Seq<char> },
    LoadAny { recorded: Option<(u16, Seq<char>)> },
    Finished(Result<FetchOutcomeView, AppErrorView>),
}

impl View for Progress {
    type V = ProgressView;

    open spec fn view(&self) -> ProgressView {
        match *self {
            Progress::LoadFresh => ProgressView::LoadFresh,
            Progress::CallLive => ProgressView::CallLive,
            Progress::StorePayload { bytes, snapshot } => ProgressView::StorePayload {
                bytes: bytes@,
                snapshot: snapshot@,
            },
            Progress::RecordError { status, text } => ProgressView::RecordError {
                status,
                text: text@,
            },
            Progress::LoadAny { recorded } => ProgressView::LoadAny {
                recorded: error_view(recorded),
            },
            Progress::Finished(r) => ProgressView::Finished(result_view(r)),
        }
    }
}

/// What happened in a fetch.
pub enum Event {
    /// The payload was read, or there is none that is young enough.
    Fresh(Option<Cached>),
    /// Both endpoints answered.
    Live { credits: CreditsData, key: KeyData },
    /// An endpoint could not be asked, or its answer was no use; `text` tells the error.
    LiveFailed { error: AppError, text: String },
    /// The payload was written.
    Stored,
    /// The error was recorded.
    Recorded,
    /// The payload was read, or there is none.
    Any(Option<Cached>),
}

#[verifier::ext_equal]
pub enum EventView {
    Fresh(Option<CachedView>),
    Live { credits: CreditsDataView, key: KeyDataView },
    LiveFailed { error: AppErrorView, text: Seq<char> },
    Stored,
    Recorded,
    Any(Option<CachedView>),
}

impl View for Event {
    type V = EventView;

    open spec fn view(&self) -> EventView {
        match *self {
            Event::Fresh(c) => EventView::Fresh(cached_view(c)),
            Event::Live { credits, key } => EventView::Live { credits: credits@, key: key@ },
            Event::LiveFailed { error, text } => EventView::LiveFailed {
                error: error@,
                text: text@,
            },
            Event::Stored => EventView::Stored,
            Event::Recorded => EventView::Recorded,
            Event::Any(c) => EventView::Any(cached_view(c)),
        }
    }
}

impl ProgressView {
    /// The event is one that can follow on what had to happen.
    pub open spec fn awaits(self, event: EventView) -> bool {
        match self {
            ProgressView::LoadFresh => event is Fresh,
            ProgressView::CallLive => event is Live || event is LiveFailed,
            ProgressView::StorePayload { .. } => event is Stored,
            ProgressView::RecordError { .. } => event is Recorded,
            ProgressView::LoadAny { .. } => event is Any,
            ProgressView::Finished(_) => false,
        }
    }

    /// How a fetch goes on after an event.
    pub open spec fn after(self, event: EventView) -> ProgressView {
        match (self, event) {
            (ProgressView::LoadFresh, EventView::Fresh(Some(c))) => ProgressView::Finished(
                Ok(c.outcome(false)),
            ),
            (ProgressView::LoadFresh, EventView::Fresh(None)) => ProgressView::CallLive,
            (
                ProgressView::CallLive,
                EventView::Live { credits, key },
            ) => ProgressView::StorePayload {
                bytes: json_text(document_tree(combined(credits, key))),
                snapshot: combined(credits, key),
            },
            (ProgressView::CallLive, EventView::LiveFailed { error, text }) => match error {
                AppErrorView::Transport(_) => ProgressView::LoadAny { recorded: None },
                AppErrorView::Http { status, body } => ProgressView::RecordError {
                    status,
                    text: body,
                },
                _ => ProgressView::RecordError { status: 0, text },
            },
            (
                ProgressView::StorePayload { bytes: _, snapshot },
                EventView::Stored,
            ) => ProgressView::Finished(
                Ok(
                    FetchOutcomeView {
                        snapshot,
                        stale: false,
                        last_error: None,
                        cache_age: Some(Age { secs: 0, nanos: 0 }),
                    },
                ),
            ),
            (
                ProgressView::RecordError { status, text },
                EventView::Recorded,
            ) => ProgressView::LoadAny { recorded: Some((status, text)) },
            (ProgressView::LoadAny { recorded }, EventView::Any(c)) => ProgressView::Finished(
                match recorded {
                    None => silent_fallback(c),
                    Some(e) => error_fallback(c, Some(e)),
                },
            ),
            _ => self,
        }
    }

    /// How many events a fetch can take until it is finished.
    pub open spec fn events_left(self) -> nat {
        match self {
            ProgressView::LoadFresh => 4,
            ProgressView::CallLive => 3,
            ProgressView::RecordError { .. } => 2,
            ProgressView::StorePayload { .. } => 1,
            ProgressView::LoadAny { .. } => 1,
            ProgressView::Finished(_) => 0,
        }
    }

    /// Where a fetch stands after a number of events.
    pub open spec fn run(self, events: Seq<EventView>) -> ProgressView
        decreases events.len(),
    {
        if events.len() == 0 {
            self
        } else {
            self.after(events[0]).run(events.skip(1))
        }
    }

    /// Each event follows on what had to happen.
    pub open spec fn awaits_all(self, events: Seq<EventView>) -> bool
        decreases events.len(),
    {
        events.len() > 0 ==> self.awaits(events[0]) && self.after(events[0]).awaits_all(
            events.skip(1),
        )
    }
}

impl Progress {
    /// The event is one that can follow on what had to happen.
    pub fn awaits(&self, event: &Event) -> (r: bool)
        ensures
            r == self@.awaits(event@),
            r <==> {
                ||| *self is LoadFresh && *event is Fresh
                ||| *self is CallLive && (*event is Live || *event is LiveFailed)
                ||| *self is StorePayload && *event is Stored
                ||| *self is RecordError && *event is Recorded
                ||| *self is LoadAny && *event is Any
            },
    {
        match (self, event) {
            (Progress::LoadFresh, Event::Fresh(_)) => true,
            (Progress::CallLive, Event::Live { .. }) => true,
            (Progress::CallLive, Event::LiveFailed { .. }) => true,
            (Progress::StorePayload { .. }, Event::Stored) => true,
            (Progress::RecordError { .. }, Event::Recorded) => true,
            (Progress::LoadAny { .. }, Event::Any(_)) => true,
            _ => false,
        }
    }
}

/// Decides how a fetch goes on after an event. A payload that is young enough is served at once.
/// Otherwise both endpoints are asked, and the snapshot that their answers make up is cached and
/// served. Where they cannot be asked, what is cached is served as stale; a failure of the
/// network leaves no trace, any other is recorded.
pub fn fetch_snapshot(progress: Progress, event: Event) -> (next: Progress)
    requires
        progress@.awaits(event@),
    ensures
        next@ == progress@.after(event@),
        event matches Event::Fresh(Some(c)) ==> (next matches Progress::Finished(Ok(o)) && {
            &&& !o.stale
            &&& o.last_error == c.last_error
            &&& o.cache_age == c.age
            &&& o.snapshot@ == c@.snapshot()
        }),
        event matches Event::Fresh(None) ==> next is CallLive,
        event matches Event::Live { credits, key } ==> (next matches Progress::StorePayload {
            bytes,
            snapshot,
        } && {
            &&& bytes@ == json_text(document_tree(snapshot@))
            &&& key.label@.len() == 0 ==> snapshot.label@ == "OpenRouter"@
            &&& key.label@.len() > 0 ==> snapshot.label@ == "OpenRouter — "@ + key.label@
            &&& snapshot.total_credits == credits.total_credits
            &&& snapshot.total_usage == credits.total_usage
            &&& snapshot.usage_daily == key.usage_daily
            &&& snapshot.usage_weekly == key.usage_weekly
            &&& snapshot.usage_monthly == key.usage_monthly
            &&& snapshot.is_free_tier == key.is_free_tier
            &&& snapshot.limit == key.limit
            &&& snapshot.limit_remaining == key.limit_remaining
        }),
        event matches Event::LiveFailed { error: AppError::Transport(_), text } ==> next
            == (Progress::LoadAny { recorded: None }),
        event matches Event::LiveFailed { error: AppError::Http { status, body }, text } ==> next
            == (Progress::RecordError { status, text: body }),
        event matches Event::LiveFailed { error, text } ==> !(error is Transport) && !(error is Http)
            ==> next == (Progress::RecordError { status: 0, text }),
        event is Stored ==> (next matches Progress::Finished(Ok(o)) && {
            &&& o.snapshot == progress->StorePayload_snapshot
            &&& !o.stale
            &&& o.last_error is None
            &&& o.cache_age == Some(Age { secs: 0, nanos: 0 })
        }),
        event is Recorded ==> next == (Progress::LoadAny {
            recorded: Some((progress->RecordError_status, progress->RecordError_text)),
        }),
        event matches Event::Any(Some(c)) ==> (next matches Progress::Finished(Ok(o)) && {
            &&& o.stale
            &&& o.last_error == if progress->recorded is Some {
                progress->recorded
            } else {
                c.last_error
            }
            &&& o.cache_age == c.age
            &&& o.snapshot@ == c@.snapshot()
        }),
        event matches Event::Any(None) ==> progress->recorded is None ==> (next matches Progress::Finished(
            Err(AppError::Transport(text)),
        ) && text@ == "openrouter: no cache and network unreachable"@),
        event matches Event::Any(None) ==> progress->recorded is Some ==> (next matches Progress::Finished(
            Err(AppError::Other(text)),
        ) && text@ == "openrouter: no usable cache"@),
        next@ matches ProgressView::StorePayload { bytes, snapshot } ==> snapshot.rereads()
            ==> cached_snapshot(bytes) == Ok::<OpenRouterSnapshotView, AppErrorView>(
            snapshot.reread(),
        ),
        next@ matches ProgressView::StorePayload { bytes, snapshot } ==> !snapshot.rereads()
            ==> cached_snapshot(bytes) is Err && cached_snapshot(bytes)->Err_0 is Json,
        next@ matches ProgressView::StorePayload { bytes, snapshot } ==> snapshot.has_short_amounts()
            ==> cached_snapshot(bytes) == Ok::<OpenRouterSnapshotView, AppErrorView>(snapshot),
{
    match event {
        Event::Fresh(cached) => match cached {
            Some(c) => Progress::Finished(Ok(reuse_cache(c, false))),
            None => Progress::CallLive,
        },
        Event::Live { credits, key } => {
            let snapshot = combine(credits, key);
            let bytes = cache_payload(&snapshot);
            Progress::StorePayload { bytes, snapshot }
        },
        Event::LiveFailed { error, text } => {
            if error.is_transient() {
                return Progress::LoadAny { recorded: None };
            }
            match error {
                AppError::Http { status, body } => Progress::RecordError { status, text: body },
                _ => Progress::RecordError { status: 0, text },
            }
        },
        Event::Stored => match progress {
            Progress::StorePayload { bytes: _, snapshot } => Progress::Finished(
                Ok(
                    FetchOutcome {
                        snapshot,
                        stale: false,
                        last_error: None,
                        cache_age: Some(Age { secs: 0, nanos: 0 }),
                    },
                ),
            ),
            other => other,
        },
        Event::Recorded => match progress {
            Progress::RecordError { status, text } => Progress::LoadAny {
                recorded: Some((status, text)),
            },
            other => other,
        },
        Event::Any(cached) => match progress {
            Progress::LoadAny { recorded } => Progress::Finished(
                match recorded {
                    None => fallback_silent(cached),
                    Some(e) => fallback_with_error(cached, Some(e)),
                },
            ),
            other => other,
        },
    }
}

/// The snapshot of a cached payload is the one that the payload keeps. Where none can be read
/// nothing is credited and nothing used, on the free tier and without a limit.
pub proof fn law_cached_snapshot_is_the_kept_one(cached: Cached)
    ensures
        cached_snapshot(cached.payload@) matches Ok(s) ==> cached@.snapshot() == s,
        cached_snapshot(cached.payload@) is Err ==> {
            let s = cached@.snapshot();
            &&& s.label == "OpenRouter"@
            &&& s.total_credits.bits == 0 && s.total_usage.bits == 0
            &&& s.usage_daily.bits == 0 && s.usage_weekly.bits == 0 && s.usage_monthly.bits == 0
            &&& s.is_free_tier
            &&& s.limit is None && s.limit_remaining is None
        },
{
}

/// A payload that is young enough is served as fresh, and no endpoint is asked: the fetch is
/// over, and tells the error that was recorded last and the age of the payload.
pub proof fn law_fresh_cache_short_circuits(cached: CachedView)
    ensures
        ProgressView::LoadFresh.after(EventView::Fresh(Some(cached)))
            == ProgressView::Finished(Ok(cached.outcome(false))),
        ProgressView::LoadFresh.after(EventView::Fresh(Some(cached))) == ProgressView::Finished(
            Ok(
                FetchOutcomeView {
                    snapshot: cached.snapshot(),
                    stale: false,
                    last_error: cached.last_error,
                    cache_age: cached.age,
                },
            ),
        ),
        ProgressView::LoadFresh.after(EventView::Fresh(None)) is CallLive,
{
}

/// The answers of the endpoints are put together, cached, and served as fresh.
pub proof fn law_answers_are_cached_and_served(credits: CreditsDataView, key: KeyDataView)
    ensures
        ({
            let stored = ProgressView::CallLive.after(EventView::Live { credits, key });
            let end = stored.after(EventView::Stored);
            &&& stored is StorePayload
            &&& stored->StorePayload_bytes == json_text(document_tree(combined(credits, key)))
            &&& end == ProgressView::Finished(
                Ok(
                    FetchOutcomeView {
                        snapshot: combined(credits, key),
                        stale: false,
                        last_error: None,
                        cache_age: Some(Age { secs: 0, nanos: 0 }),
                    },
                ),
            )
        }),
        // What is served is what the endpoints said, field by field.
        ({
            let stored = ProgressView::CallLive.after(EventView::Live { credits, key });
            let s = stored.after(EventView::Stored)->Finished_0->Ok_0.snapshot;
            &&& s.total_credits == credits.total_credits
            &&& s.total_usage == credits.total_usage
            &&& s.usage_daily == key.usage_daily
            &&& s.usage_weekly == key.usage_weekly
            &&& s.usage_monthly == key.usage_monthly
            &&& s.is_free_tier == key.is_free_tier
            &&& s.limit == key.limit
            &&& s.limit_remaining == key.limit_remaining
            &&& key.label.len() == 0 ==> s.label == "OpenRouter"@
            &&& key.label.len() > 0 ==> s.label == "OpenRouter — "@ + key.label
        }),
{
}

/// A snapshot that can be read back from what was stored is the one that is shown when the
/// payload is served from the cache.
pub proof fn law_stored_snapshot_is_shown_again(
    stored: ProgressView,
    cached: CachedView,
    stale: bool,
)
    requires
        stored is StorePayload,
        cached.payload == stored->StorePayload_bytes,
        cached_snapshot(stored->StorePayload_bytes) == Ok::<OpenRouterSnapshotView, AppErrorView>(
            stored->StorePayload_snapshot,
        ),
    ensures
        cached.outcome(stale).snapshot == stored->StorePayload_snapshot,
{
}

/// A fetch that was answered live, and one after it that finds in the cache what the first stored
/// while it is young enough, show the same snapshot, given that what was stored reads back, which
/// [`fetch_snapshot`] promises of short amounts. The second is over once the cache was read: it
/// asks no endpoint, and what it serves is not stale.
pub proof fn law_next_fetch_shows_the_same(
    credits: CreditsDataView,
    key: KeyDataView,
    cached: CachedView,
)
    requires
        cached.payload == json_text(document_tree(combined(credits, key))),
        cached_snapshot(cached.payload) == Ok::<OpenRouterSnapshotView, AppErrorView>(
            combined(credits, key),
        ),
    ensures
        ({
            let live = seq![
                EventView::Fresh(None),
                EventView::Live { credits, key },
                EventView::Stored,
            ];
            let first = ProgressView::LoadFresh.run(live);
            let second = ProgressView::LoadFresh.run(seq![EventView::Fresh(Some(cached))]);
            &&& ProgressView::LoadFresh.awaits_all(live)
            &&& first is Finished && first->Finished_0 is Ok
            &&& second is Finished && second->Finished_0 is Ok
            &&& second->Finished_0->Ok_0.snapshot == first->Finished_0->Ok_0.snapshot
            &&& !first->Finished_0->Ok_0.stale
            &&& !second->Finished_0->Ok_0.stale
        }),
{
    reveal_with_fuel(ProgressView::run, 5);
    reveal_with_fuel(ProgressView::awaits_all, 5);
}

/// A failure of the network is not recorded: the fetch goes straight to the cache, serves it as
/// stale with the error that was recorded before, and fails only where nothing is cached.
pub proof fn law_network_failure_is_silent(
    message: Seq<char>,
    text: Seq<char>,
    cached: Option<CachedView>,
)
    ensures
        ({
            let load = ProgressView::CallLive.after(
                EventView::LiveFailed { error: AppErrorView::Transport(message), text },
            );
            let end = load.after(EventView::Any(cached));
            &&& load == ProgressView::LoadAny { recorded: None }
            &&& end == ProgressView::Finished(silent_fallback(cached))
            &&& cached matches Some(c) ==> end == ProgressView::Finished(Ok(c.outcome(true)))
            &&& cached matches Some(c) ==> end == ProgressView::Finished(
                Ok(
                    FetchOutcomeView {
                        snapshot: c.snapshot(),
                        stale: true,
                        last_error: c.last_error,
                        cache_age: c.age,
                    },
                ),
            )
            &&& cached is None ==> end == ProgressView::Finished(
                Err(AppErrorView::Transport("openrouter: no cache and network unreachable"@)),
            )
        }),
{
}

/// Any other failure is recorded before the cache is read, and what is cached is served as stale
/// with that very error; an HTTP error keeps its status and body.
pub proof fn law_other_failure_is_recorded_and_told(
    error: AppErrorView,
    text: Seq<char>,
    cached: Option<CachedView>,
)
    requires
        !(error is Transport),
    ensures
        ({
            let told: (u16, Seq<char>) = match error {
                AppErrorView::Http { status, body } => (status, body),
                _ => (0u16, text),
            };
            let record = ProgressView::CallLive.after(EventView::LiveFailed { error, text });
            let load = record.after(EventView::Recorded);
            let end = load.after(EventView::Any(cached));
            &&& record == ProgressView::RecordError { status: told.0, text: told.1 }
            &&& load == ProgressView::LoadAny { recorded: Some(told) }
            &&& end == ProgressView::Finished(error_fallback(cached, Some(told)))
            &&& cached matches Some(c) ==> end == ProgressView::Finished(
                Ok(
                    FetchOutcomeView {
                        snapshot: c.snapshot(),
                        stale: true,
                        last_error: Some(told),
                        cache_age: c.age,
                    },
                ),
            )
            &&& cached is None ==> end == ProgressView::Finished(
                Err(AppErrorView::Other("openrouter: no usable cache"@)),
            )
        }),
{
}

/// An answer of an endpoint with a status that is no success never reaches the cache, whatever was
/// read from its body: the status and the beginning of the body are recorded, and what was cached
/// before is served as stale with them.
pub proof fn law_refusal_serves_the_cache<T>(
    url: Seq<char>,
    status: u16,
    body: Vec<u8>,
    parsed: Result<T, String>,
    text: Seq<char>,
    cached: CachedView,
)
    requires
        status < 200 || status >= 300,
    ensures
        ({
            let answer = answer_of(url, Reply::Response { status, body, parsed });
            let whole = lossy_utf8(body@);
            let told = if whole.len() < 200 { whole } else { whole.take(200) };
            let record = ProgressView::CallLive.after(
                EventView::LiveFailed { error: answer->Err_0, text },
            );
            let end = record.after(EventView::Recorded).after(EventView::Any(Some(cached)));
            &&& answer is Err
            &&& record == ProgressView::RecordError { status, text: told }
            &&& end == ProgressView::Finished(
                Ok(
                    FetchOutcomeView {
                        snapshot: cached.snapshot(),
                        stale: true,
                        last_error: Some((status, told)),
                        cache_age: cached.age,
                    },
                ),
            )
        }),
{
    assert(lossy_utf8(body@).take(lossy_utf8(body@).len() as int) =~= lossy_utf8(body@));
}

/// An endpoint gave an answer exactly where it responded with a status from 200 to 299 and a body
/// that could be read, and the answer is what was read.
pub proof fn law_answers_are_what_was_read<T>(url: Seq<char>, reply: Reply<T>)
    ensures
        answer_of(url, reply) is Ok <==> {
            &&& reply matches Reply::Response { status, body, parsed } && 200 <= status < 300
                && parsed is Ok
        },
        answer_of(url, reply) matches Ok(answer) ==> reply->parsed == Ok::<T, String>(answer),
        reply is TimedOut ==> answer_of(url, reply) == Err::<T, AppErrorView>(
            AppErrorView::Transport("openrouter timeout: "@ + url),
        ),
        reply matches Reply::Failed(e) ==> answer_of(url, reply) == Err::<T, AppErrorView>(e@),
        reply matches Reply::Response { status, body, parsed: Err(e) } ==> 200 <= status < 300
            ==> answer_of(url, reply) == Err::<T, AppErrorView>(
            AppErrorView::Schema("openrouter "@ + url + ": "@ + e@),
        ),
{
}

/// Every event that was awaited brings a fetch nearer to its end, and only a finished fetch
/// awaits nothing.
pub proof fn law_fetch_ends(progress: ProgressView, event: EventView)
    ensures
        progress.awaits(event) ==> progress.after(event).events_left()
            < progress.events_left(),
        progress.events_left() == 0 <==> progress is Finished,
        progress.events_left() <= 4,
{
}

/// What a whole fetch comes to is stale exactly where the endpoints were asked in vain.
pub proof fn law_stale_means_failed(events: Seq<EventView>)
    requires
        ProgressView::LoadFresh.awaits_all(events),
        ProgressView::LoadFresh.run(events) is Finished,
        ProgressView::LoadFresh.run(events)->Finished_0 is Ok,
    ensures
        ProgressView::LoadFresh.run(events)->Finished_0->Ok_0.stale <==> exists|i: int|
            0 <= i < events.len() && (#[trigger] events[i]) is LiveFailed,
{
    reveal_with_fuel(ProgressView::run, 6);
    reveal_with_fuel(ProgressView::awaits_all, 6);
    let p1 = ProgressView::LoadFresh.after(events[0]);
    let e1 = events.skip(1);
    let p2 = p1.after(e1[0]);
    let e2 = e1.skip(1);
    let p3 = p2.after(e2[0]);
    let e3 = e2.skip(1);
    if events.len() > 1 {
        assert(events[1] == e1[0]);
        assert(p1 == ProgressView::CallLive);
        if e1.len() > 1 {
            assert(events[2] == e2[0]);
        }
        if e1.len() > 2 {
            assert(events[3] == e3[0]);
            assert(e3.skip(1).len() == 0);
        }
        assert(events.len() <= 4);
    }
}

}
