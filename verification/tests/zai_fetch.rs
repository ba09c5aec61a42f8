use ai_usagebar::double::Double;
use ai_usagebar::error::AppError;
use ai_usagebar::http::Reply;
use ai_usagebar::usage::Age;
use ai_usagebar::zai::fetch::{
    fallback_silent, fallback_with_error, fetch_live, fetch_snapshot, quota_request, reuse, Cached,
    Endpoints, Event, FetchOutcome, Progress,
};
use ai_usagebar::zai::types::{de_opt_ms, Envelope, LimitEntry, MonitorData};
use serde_json::Value;

fn entry(v: &Value) -> LimitEntry {
    LimitEntry {
        kind: v["type"].as_str().unwrap_or("").to_string(),
        percentage: Double { bits: v["percentage"].as_f64().unwrap_or(0.0).to_bits() },
        next_reset_time: de_opt_ms(&v["nextResetTime"]),
        unit: v["unit"].as_i64(),
        number: v["number"].as_i64(),
    }
}

fn envelope(body: &str) -> Envelope {
    let v: Value = serde_json::from_str(body).unwrap();
    let data = v.get("data").map(|d| MonitorData {
        limits: d["limits"].as_array().unwrap().iter().map(entry).collect(),
        level: d["level"].as_str().unwrap_or("").to_string(),
    });
    Envelope {
        code: v["code"].as_i64().unwrap_or(0),
        data,
        success: v["success"].as_bool().unwrap_or(false),
        msg: v["msg"].as_str().unwrap_or("").to_string(),
    }
}

const SEED: &str = r#"{"code":200,"data":{"limits":[
            {"type":"TOKENS_LIMIT","percentage":10}
        ],"level":"lite"},"success":true}"#;

fn seed() -> Cached {
    Cached {
        envelope: Some(envelope(SEED)),
        last_error: Some((500, "before".to_string())),
        age: Some(Age { secs: 90, nanos: 5 }),
    }
}

fn step(progress: Progress, event: Event) -> Progress {
    assert!(progress.awaits(&event));
    fetch_snapshot(progress, event, None)
}

fn finished(progress: Progress) -> Result<FetchOutcome, AppError> {
    match progress {
        Progress::Finished(r) => r,
        _ => panic!("the fetch goes on"),
    }
}

#[test]
fn live_200_parses_real_shape() {
    let text = r#"{"code":200,"msg":"Operation successful","data":{
                    "limits":[
                        {"type":"TOKENS_LIMIT","unit":3,"number":5,"percentage":42},
                        {"type":"TOKENS_LIMIT","unit":6,"number":1,"percentage":15,"nextResetTime":1779792169974}
                    ],"level":"pro"
                },"success":true}"#;
    let body = text.as_bytes().to_vec();
    let reply = Reply::Response { status: 200, body: body.clone(), parsed: Ok(envelope(text)) };
    let (bytes, envelope) = fetch_live("u", reply).unwrap();
    let progress = step(Progress::LoadFresh, Event::Fresh(None));
    assert!(matches!(progress, Progress::CallLive));
    let progress = step(progress, Event::Live { bytes, envelope });
    match &progress {
        Progress::StorePayload { bytes, .. } => assert_eq!(*bytes, body),
        _ => panic!("the payload is stored"),
    }
    let out = finished(step(progress, Event::Stored)).unwrap();
    assert_eq!(out.snapshot.plan, "GLM Coding Pro");
    assert_eq!(out.snapshot.session.as_ref().unwrap().utilization_pct, 42);
    assert_eq!(out.snapshot.weekly.as_ref().unwrap().utilization_pct, 15);
    assert!(!out.stale);
    assert_eq!(out.last_error, None);
    assert_eq!(out.cache_age, Some(Age { secs: 0, nanos: 0 }));
}

#[test]
fn http_401_falls_back_to_cache_when_present() {
    let reply: Reply<Envelope> = Reply::Response {
        status: 401,
        body: br#"{"code":401,"msg":"Unauthorized"}"#.to_vec(),
        parsed: Err("missing".to_string()),
    };
    let error = fetch_live("u", reply).err().unwrap();
    let text = "shown".to_string();
    let progress = step(Progress::CallLive, Event::LiveFailed { error, text });
    match &progress {
        Progress::RecordError { status, text } => {
            assert_eq!(*status, 401);
            assert_eq!(text, r#"{"code":401,"msg":"Unauthorized"}"#);
        }
        _ => panic!("the error is recorded"),
    }
    let progress = step(progress, Event::Recorded);
    let out = finished(step(progress, Event::Any(Some(seed())))).unwrap();
    assert!(out.stale);
    assert_eq!(out.snapshot.session.as_ref().unwrap().utilization_pct, 10);
    assert_eq!(out.last_error.as_ref().map(|(c, _)| *c), Some(401));
    assert_eq!(out.cache_age, Some(Age { secs: 90, nanos: 5 }));
}

#[test]
fn zai_fresh_cache_short_circuits() {
    let out = finished(step(Progress::LoadFresh, Event::Fresh(Some(seed())))).unwrap();
    assert!(!out.stale);
    assert_eq!(out.snapshot.plan, "GLM Coding Lite");
    assert_eq!(out.last_error, Some((500, "before".to_string())));
    assert_eq!(out.cache_age, Some(Age { secs: 90, nanos: 5 }));
}

#[test]
fn zai_next_fetch_shows_the_same() {
    let bytes = SEED.as_bytes().to_vec();
    let live = Event::Live { bytes, envelope: envelope(SEED) };
    let stored = step(step(Progress::LoadFresh, Event::Fresh(None)), live);
    let kept = match &stored {
        Progress::StorePayload { bytes, .. } => String::from_utf8(bytes.clone()).unwrap(),
        _ => panic!("the payload is stored"),
    };
    let first = finished(step(stored, Event::Stored)).unwrap();
    let cached = Cached { envelope: Some(envelope(&kept)), last_error: None, age: None };
    let second = finished(step(Progress::LoadFresh, Event::Fresh(Some(cached)))).unwrap();
    assert_eq!(second.snapshot, first.snapshot);
    assert!(!second.stale);
}

#[test]
fn zai_network_failure_is_silent() {
    let timed_out: Reply<Envelope> = Reply::TimedOut;
    let error = fetch_live("http://z", timed_out).err().unwrap();
    assert_eq!(error, AppError::Transport("zai timeout: http://z".to_string()));
    let event = Event::LiveFailed { error, text: "shown".to_string() };
    let progress = step(Progress::CallLive, event);
    assert!(matches!(progress, Progress::LoadAny { recorded: None }));
    let out = finished(step(progress, Event::Any(Some(seed())))).unwrap();
    assert!(out.stale);
    assert_eq!(out.last_error, Some((500, "before".to_string())));
    let lost = finished(step(Progress::LoadAny { recorded: None }, Event::Any(None)));
    assert_eq!(
        lost.err(),
        Some(AppError::Transport("zai: no cache and network unreachable".to_string()))
    );
}

#[test]
fn zai_schema_error_is_recorded_with_status_zero() {
    let drifted: Reply<Envelope> =
        Reply::Response { status: 200, body: vec![], parsed: Err("eof".to_string()) };
    let error = fetch_live("u", drifted).err().unwrap();
    assert_eq!(error, AppError::Schema("zai quota response: eof".to_string()));
    let event = Event::LiveFailed { error, text: "shown".to_string() };
    let progress = step(Progress::CallLive, event);
    let progress = step(progress, Event::Recorded);
    match &progress {
        Progress::LoadAny { recorded } => {
            assert_eq!(*recorded, Some((0, "shown".to_string())));
        }
        _ => panic!("the cache is read"),
    }
    let out = finished(step(progress, Event::Any(Some(seed())))).unwrap();
    assert_eq!(out.last_error, Some((0, "shown".to_string())));
}

#[test]
fn zai_unreadable_payload_shows_a_neutral_snapshot() {
    let cached = Cached { envelope: None, last_error: None, age: None };
    let out = reuse(cached, true, Some("pro"));
    assert_eq!(out.snapshot.plan, "GLM Coding Unknown");
    assert!(out.snapshot.session.is_none());
    assert!(out.snapshot.weekly.is_none());
    assert!(out.snapshot.mcp.is_none());
    assert!(out.stale);
}

#[test]
fn zai_fallbacks_without_cache_fail() {
    assert_eq!(
        fallback_silent(None, None).err(),
        Some(AppError::Transport("zai: no cache and network unreachable".to_string()))
    );
    assert_eq!(
        fallback_with_error(None, Some((401, "no".to_string())), None).err(),
        Some(AppError::Other("zai: no usable cache".to_string()))
    );
    let out = fallback_with_error(Some(seed()), None, None).unwrap();
    assert_eq!(out.last_error, None);
    assert!(out.stale);
}

#[test]
fn zai_key_is_sent_bare() {
    let r = quota_request("http://z/quota", "secret");
    assert_eq!(r.url, "http://z/quota");
    assert_eq!(r.timeout_secs, 10);
    assert_eq!(
        r.headers,
        vec![
            ("Authorization".to_string(), "secret".to_string()),
            ("Accept-Language".to_string(), "en-US,en".to_string()),
            ("Content-Type".to_string(), "application/json".to_string()),
        ]
    );
}

#[test]
fn zai_default_endpoint() {
    assert_eq!(Endpoints::default().quota, "https://api.z.ai/api/monitor/usage/quota/limit");
}

#[test]
fn zai_events_out_of_turn_are_not_awaited() {
    assert!(!Progress::LoadFresh.awaits(&Event::Stored));
    assert!(!Progress::CallLive.awaits(&Event::Fresh(None)));
    assert!(!Progress::LoadAny { recorded: None }.awaits(&Event::Recorded));
    let done = Progress::Finished(Err(AppError::Other("x".to_string())));
    assert!(!done.awaits(&Event::Any(None)));
}
