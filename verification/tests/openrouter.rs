use ai_usagebar::amount::Amount;
use ai_usagebar::error::AppError;
use ai_usagebar::http::Reply;
use ai_usagebar::openrouter::fetch::{
    endpoint_request, fallback_silent, fallback_with_error, fetch_live, fetch_one, fetch_snapshot,
    reuse_cache, Cached, Endpoints, Event, FetchOutcome, Progress,
};
use ai_usagebar::openrouter::snapshot::{cache_payload, parse_cache, read_document, serde_repr};
use ai_usagebar::openrouter::types::{combine, CreditsData, KeyData};
use ai_usagebar::usage::{Age, OpenRouterSnapshot};
use serde_json::Value;

fn amount(x: f64) -> Amount {
    Amount::from_json(&Value::from(x)).unwrap()
}

fn float(a: &Amount) -> f64 {
    f64::from_bits(a.to_double().bits)
}

const CREDITS_BODY: &str = r#"{"data":{"total_credits":100.0,"total_usage":25.5}}"#;

const KEY_BODY: &str = r#"{"data":{"label":"prod","limit":50.0,"limit_remaining":24.5,
                "usage":25.5,"usage_daily":1.0,"usage_weekly":7.0,"usage_monthly":25.5,
                "is_free_tier":false}}"#;

fn credits() -> CreditsData {
    let v: Value = serde_json::from_str(CREDITS_BODY).unwrap();
    let d = &v["data"];
    CreditsData {
        total_credits: Amount::from_json(&d["total_credits"]).unwrap(),
        total_usage: Amount::from_json(&d["total_usage"]).unwrap(),
    }
}

fn key() -> KeyData {
    let v: Value = serde_json::from_str(KEY_BODY).unwrap();
    let d = &v["data"];
    KeyData {
        label: d["label"].as_str().unwrap().to_string(),
        usage_daily: Amount::from_json(&d["usage_daily"]).unwrap(),
        usage_weekly: Amount::from_json(&d["usage_weekly"]).unwrap(),
        usage_monthly: Amount::from_json(&d["usage_monthly"]).unwrap(),
        is_free_tier: d["is_free_tier"].as_bool().unwrap(),
        limit: Amount::from_json(&d["limit"]),
        limit_remaining: Amount::from_json(&d["limit_remaining"]),
    }
}

fn same(a: &OpenRouterSnapshot, b: &OpenRouterSnapshot) {
    assert_eq!(a.label, b.label);
    assert_eq!(a.total_credits.to_double(), b.total_credits.to_double());
    assert_eq!(a.total_usage.to_double(), b.total_usage.to_double());
    assert_eq!(a.usage_daily.to_double(), b.usage_daily.to_double());
    assert_eq!(a.usage_weekly.to_double(), b.usage_weekly.to_double());
    assert_eq!(a.usage_monthly.to_double(), b.usage_monthly.to_double());
    assert_eq!(a.is_free_tier, b.is_free_tier);
    assert_eq!(a.limit.as_ref().map(|x| x.to_double()), b.limit.as_ref().map(|x| x.to_double()));
    assert_eq!(
        a.limit_remaining.as_ref().map(|x| x.to_double()),
        b.limit_remaining.as_ref().map(|x| x.to_double())
    );
}

const SEED: &str = r#"{"snapshot":{
    "label":"OpenRouter — seed","total_credits": 50.0,
    "total_usage": 10.0,"usage_daily":1.0,"usage_weekly":3.0,
    "usage_monthly":10.0,"is_free_tier":false,
    "limit":null,"limit_remaining":null
}}"#;

fn seed() -> Cached {
    Cached {
        payload: SEED.as_bytes().to_vec(),
        last_error: Some((500, "before".to_string())),
        age: Some(Age { secs: 90, nanos: 5 }),
    }
}

fn step(progress: Progress, event: Event) -> Progress {
    assert!(progress.awaits(&event));
    fetch_snapshot(progress, event)
}

fn finished(progress: Progress) -> Result<FetchOutcome, AppError> {
    match progress {
        Progress::Finished(r) => r,
        _ => panic!("the fetch goes on"),
    }
}

fn endpoints() -> Endpoints {
    Endpoints { credits: "http://o/credits".to_string(), key: "http://o/key".to_string() }
}

#[test]
fn live_fetch_combines_both_endpoints() {
    let c = Reply::Response {
        status: 200,
        body: CREDITS_BODY.as_bytes().to_vec(),
        parsed: Ok(credits()),
    };
    let k =
        Reply::Response { status: 200, body: KEY_BODY.as_bytes().to_vec(), parsed: Ok(key()) };
    let (c, k) = fetch_live(&endpoints(), c, k).unwrap();
    let progress = step(Progress::LoadFresh, Event::Fresh(None));
    let progress = step(progress, Event::Live { credits: c, key: k });
    let stored = match &progress {
        Progress::StorePayload { bytes, .. } => bytes.clone(),
        _ => panic!("the payload is stored"),
    };
    let out = finished(step(progress, Event::Stored)).unwrap();
    assert_eq!(float(&out.snapshot.total_credits), 100.0);
    assert_eq!(float(&out.snapshot.total_usage), 25.5);
    let balance = float(&out.snapshot.total_credits) - float(&out.snapshot.total_usage);
    assert!((balance - 74.5).abs() < 1e-9);
    assert_eq!(out.snapshot.label, "OpenRouter — prod");
    assert!(!out.stale);
    assert_eq!(out.last_error, None);
    assert_eq!(out.cache_age, Some(Age { secs: 0, nanos: 0 }));
    same(&parse_cache(&stored).unwrap(), &out.snapshot);
}

#[test]
fn http_error_falls_back_to_cache_when_present() {
    let body = br#"{"error":"unauthorized"}"#.to_vec();
    let c: Reply<CreditsData> =
        Reply::Response { status: 401, body: body.clone(), parsed: Err("e".to_string()) };
    let k: Reply<KeyData> = Reply::Response { status: 401, body, parsed: Err("e".to_string()) };
    let error = fetch_live(&endpoints(), c, k).err().unwrap();
    let event = Event::LiveFailed { error, text: "shown".to_string() };
    let progress = step(Progress::CallLive, event);
    match &progress {
        Progress::RecordError { status, text } => {
            assert_eq!(*status, 401);
            assert_eq!(text, r#"{"error":"unauthorized"}"#);
        }
        _ => panic!("the error is recorded"),
    }
    let progress = step(progress, Event::Recorded);
    let out = finished(step(progress, Event::Any(Some(seed())))).unwrap();
    assert!(out.stale);
    assert_eq!(out.snapshot.label, "OpenRouter — seed");
    assert_eq!(out.last_error.as_ref().map(|(c, _)| *c), Some(401));
}

#[test]
fn openrouter_fresh_cache_short_circuits() {
    let out = finished(step(Progress::LoadFresh, Event::Fresh(Some(seed())))).unwrap();
    assert!(!out.stale);
    assert_eq!(out.snapshot.label, "OpenRouter — seed");
    assert_eq!(float(&out.snapshot.total_credits), 50.0);
    assert_eq!(float(&out.snapshot.usage_weekly), 3.0);
    assert!(out.snapshot.limit.is_none());
    assert_eq!(out.last_error, Some((500, "before".to_string())));
    assert_eq!(out.cache_age, Some(Age { secs: 90, nanos: 5 }));
}

#[test]
fn openrouter_next_fetch_shows_the_same() {
    let live = Event::Live { credits: credits(), key: key() };
    let stored = step(step(Progress::LoadFresh, Event::Fresh(None)), live);
    let payload = match &stored {
        Progress::StorePayload { bytes, .. } => bytes.clone(),
        _ => panic!("the payload is stored"),
    };
    let first = finished(step(stored, Event::Stored)).unwrap();
    let cached = Cached { payload, last_error: None, age: None };
    let second = finished(step(Progress::LoadFresh, Event::Fresh(Some(cached)))).unwrap();
    same(&second.snapshot, &first.snapshot);
    assert!(!second.stale);
}

#[test]
fn openrouter_network_failure_is_silent() {
    let c: Reply<CreditsData> = Reply::TimedOut;
    let k = Reply::Response { status: 500, body: vec![], parsed: Ok(key()) };
    let error = fetch_live(&endpoints(), c, k).err().unwrap();
    assert_eq!(error, AppError::Transport("openrouter timeout: http://o/credits".to_string()));
    let event = Event::LiveFailed { error, text: "shown".to_string() };
    let progress = step(Progress::CallLive, event);
    assert!(matches!(progress, Progress::LoadAny { recorded: None }));
    let out = finished(step(progress, Event::Any(Some(seed())))).unwrap();
    assert!(out.stale);
    assert_eq!(out.last_error, Some((500, "before".to_string())));
}

#[test]
fn openrouter_key_error_is_told_where_credits_answered() {
    let c = Reply::Response { status: 200, body: vec![], parsed: Ok(credits()) };
    let k: Reply<KeyData> =
        Reply::Response { status: 200, body: vec![], parsed: Err("eof".to_string()) };
    let error = fetch_live(&endpoints(), c, k).err().unwrap();
    assert_eq!(error, AppError::Schema("openrouter http://o/key: eof".to_string()));
    let event = Event::LiveFailed { error, text: "shown".to_string() };
    let progress = step(step(Progress::CallLive, event), Event::Recorded);
    let out = finished(step(progress, Event::Any(Some(seed())))).unwrap();
    assert_eq!(out.last_error, Some((0, "shown".to_string())));
}

#[test]
fn openrouter_fallbacks_without_cache_fail() {
    assert_eq!(
        fallback_silent(None).err(),
        Some(AppError::Transport("openrouter: no cache and network unreachable".to_string()))
    );
    assert_eq!(
        fallback_with_error(None, Some((401, "no".to_string()))).err(),
        Some(AppError::Other("openrouter: no usable cache".to_string()))
    );
    assert_eq!(fallback_with_error(Some(seed()), None).unwrap().last_error, None);
    assert!(fallback_silent(Some(seed())).unwrap().stale);
}

#[test]
fn openrouter_unreadable_payload_shows_a_neutral_snapshot() {
    for payload in ["not json", "{}", "[1]"] {
        let cached =
            Cached { payload: payload.as_bytes().to_vec(), last_error: None, age: None };
        let s = reuse_cache(cached, false).snapshot;
        assert_eq!(s.label, "OpenRouter");
        assert_eq!(s.total_credits.to_double().bits, 0);
        assert_eq!(s.usage_monthly.to_double().bits, 0);
        assert!(s.is_free_tier);
        assert!(s.limit.is_none());
    }
}

#[test]
fn cache_errors_are_told_apart() {
    match parse_cache(b"not json").err().unwrap() {
        AppError::Json(text) => assert!(text.starts_with("expected ident")),
        other => panic!("{:?}", other),
    }
    assert_eq!(
        parse_cache(b"{\"other\":1}").err().unwrap(),
        AppError::Schema("openrouter cache missing 'snapshot' field".to_string())
    );
}

#[test]
fn missing_fields_have_defaults() {
    let s = parse_cache(br#"{"snapshot":{"label":7,"total_credits":12,"limit":"x"}}"#).unwrap();
    assert_eq!(s.label, "OpenRouter");
    assert_eq!(float(&s.total_credits), 12.0);
    assert_eq!(float(&s.total_usage), 0.0);
    assert!(!s.is_free_tier);
    assert!(s.limit.is_none());
    let ten = parse_cache(br#"{"snapshot":{"total_usage":10,"usage_daily":-3}}"#).unwrap();
    assert_eq!(float(&ten.total_usage), 10.0);
    assert_eq!(float(&ten.usage_daily), -3.0);
    let empty = parse_cache(br#"{"snapshot":null}"#).unwrap();
    assert_eq!(empty.label, "OpenRouter");
    let big = parse_cache(br#"{"snapshot":{"total_usage":-9007199254740993,"limit":18446744073709551615}}"#)
        .unwrap();
    assert_eq!(float(&big.total_usage), -9007199254740992.0);
    assert_eq!(float(&big.limit.unwrap()), 18446744073709551616.0);
}

#[test]
fn kept_snapshot_is_read_back() {
    let s = OpenRouterSnapshot {
        label: "a \"quoted\" \u{2014} \u{1}\n label".to_string(),
        total_credits: amount(0.1),
        total_usage: amount(-0.0),
        usage_daily: amount(12.34),
        usage_weekly: amount(5e-324),
        usage_monthly: amount(1e21),
        is_free_tier: true,
        limit: None,
        limit_remaining: Some(amount(99.99)),
    };
    same(&parse_cache(&cache_payload(&s)).unwrap(), &s);
    let repr = serde_repr(&s);
    assert_eq!(repr["usage_daily"], Value::from(12.34));
    assert_eq!(repr["limit"], Value::Null);
    assert_eq!(repr["is_free_tier"], Value::from(true));
    assert_eq!(repr.as_object().unwrap().len(), 9);
    let mut document = Value::Null;
    document["snapshot"] = repr;
    same(&read_document(&document).unwrap(), &s);
    assert_eq!(cache_payload(&s), serde_json::to_vec(&document).unwrap());
}

#[test]
fn short_decimal_amounts_are_kept_exactly() {
    let mut seed: u64 = 20260516;
    for _ in 0..5000 {
        let mut amounts: Vec<Amount> = vec![];
        for _ in 0..7 {
            seed = seed.wrapping_mul(6364136223846793005).wrapping_add(1442695040888963407);
            let width = (seed >> 33) % 16;
            let digits = (seed >> 13) % 10u64.pow(width as u32);
            let places = (seed >> 40) % 23;
            let sign = if seed >> 63 == 1 { "-" } else { "" };
            let x: f64 = format!("{}{}e-{}", sign, digits, places).parse().unwrap();
            amounts.push(amount(x));
        }
        let s = OpenRouterSnapshot {
            label: "x".to_string(),
            total_credits: amounts[0].clone(),
            total_usage: amounts[1].clone(),
            usage_daily: amounts[2].clone(),
            usage_weekly: amounts[3].clone(),
            usage_monthly: amounts[4].clone(),
            is_free_tier: false,
            limit: Some(amounts[5].clone()),
            limit_remaining: Some(amounts[6].clone()),
        };
        same(&parse_cache(&cache_payload(&s)).unwrap(), &s);
    }
}

#[test]
fn amounts_come_from_numbers_alone() {
    assert_eq!(Amount::zero().to_double().bits, 0);
    assert_eq!(Amount::zero().to_json(), Value::from(0.0));
    assert!(Amount::from_json(&Value::Null).is_none());
    assert!(Amount::from_json(&Value::from("1")).is_none());
    let three = Amount::from_json(&Value::from(3)).unwrap();
    assert_eq!(three.to_double().bits, (3.0f64).to_bits());
    assert_eq!(three.to_json(), Value::from(3.0));
    assert_eq!(three.clone().to_double(), three.to_double());
}

#[test]
fn integers_give_the_nearest_amount() {
    let mut n: u64 = 1;
    for _ in 0..2000 {
        n = n.wrapping_mul(6364136223846793005).wrapping_add(1442695040888963407);
        let unsigned = n >> (n % 64);
        let a = Amount::from_json(&Value::from(unsigned)).unwrap();
        assert_eq!(a.to_double().bits, (unsigned as f64).to_bits());
        let signed = -((unsigned >> 1) as i64);
        let b = Amount::from_json(&Value::from(signed)).unwrap();
        assert_eq!(b.to_double().bits, (signed as f64).to_bits());
    }
    let tie = Amount::from_json(&Value::from(9007199254740993u64)).unwrap();
    assert_eq!(float(&tie), 9007199254740992.0);
    let odd = Amount::from_json(&Value::from(9007199254740995u64)).unwrap();
    assert_eq!(float(&odd), 9007199254740996.0);
}

#[test]
fn labels_are_prefixed_where_there_are_any() {
    let mut unnamed = key();
    unnamed.label = String::new();
    assert_eq!(combine(credits(), unnamed).label, "OpenRouter");
    let s = combine(credits(), key());
    assert_eq!(s.label, "OpenRouter — prod");
    assert_eq!(float(&s.usage_weekly), 7.0);
    assert_eq!(s.limit_remaining.as_ref().map(float), Some(24.5));
}

#[test]
fn openrouter_key_is_sent_behind_bearer() {
    let r = endpoint_request("http://o/key", "sk-or-test");
    assert_eq!(r.url, "http://o/key");
    assert_eq!(r.timeout_secs, 10);
    assert_eq!(
        r.headers,
        vec![("Authorization".to_string(), "Bearer sk-or-test".to_string())]
    );
}

#[test]
fn openrouter_default_endpoints() {
    let e = Endpoints::default();
    assert_eq!(e.credits, "https://openrouter.ai/api/v1/credits");
    assert_eq!(e.key, "https://openrouter.ai/api/v1/key");
}

#[test]
fn one_reply_is_taken_for_what_it_is() {
    let good: Reply<u8> = Reply::Response { status: 200, body: vec![], parsed: Ok(9) };
    assert_eq!(fetch_one("u", good), Ok(9));
    let late: Reply<u8> = Reply::TimedOut;
    assert_eq!(
        fetch_one("u", late),
        Err(AppError::Transport("openrouter timeout: u".to_string()))
    );
}

#[test]
fn openrouter_events_out_of_turn_are_not_awaited() {
    assert!(!Progress::LoadFresh.awaits(&Event::Recorded));
    assert!(!Progress::CallLive.awaits(&Event::Any(None)));
}
