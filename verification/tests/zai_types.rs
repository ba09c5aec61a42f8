use ai_usagebar::double::Double;
use ai_usagebar::zai::types::{
    capitalize, de_opt_ms, to_window, with_initial, Envelope, LimitEntry, MonitorData,
};
use serde_json::Value;

const REAL_BODY: &str = r#"{"code":200,"msg":"Operation successful","data":{
        "limits":[
            {"type":"TOKENS_LIMIT","unit":3,"number":5,"percentage":0},
            {"type":"TOKENS_LIMIT","unit":6,"number":1,"percentage":0,"nextResetTime":1779792169974},
            {"type":"TIME_LIMIT","unit":5,"number":1,"usage":1000,"currentValue":0,"remaining":1000,"percentage":0,"nextResetTime":1779964969979,
             "usageDetails":[{"modelCode":"search-prime","usage":0}]}
        ],
        "level":"pro"
    },"success":true}"#;

fn entry(v: &Value) -> LimitEntry {
    LimitEntry {
        kind: v["type"].as_str().unwrap_or("").to_string(),
        percentage: Double { bits: v["percentage"].as_f64().unwrap_or(0.0).to_bits() },
        next_reset_time: de_opt_ms(&v["nextResetTime"]),
        unit: v["unit"].as_i64(),
        number: v["number"].as_i64(),
    }
}

fn envelope(body: &str) -> Envelope {
    let v: Value = serde_json::from_str(body).unwrap();
    let data = v.get("data").map(|d| MonitorData {
        limits: d["limits"].as_array().unwrap().iter().map(entry).collect(),
        level: d["level"].as_str().unwrap_or("").to_string(),
    });
    Envelope {
        code: v["code"].as_i64().unwrap_or(0),
        data,
        success: v["success"].as_bool().unwrap_or(false),
        msg: v["msg"].as_str().unwrap_or("").to_string(),
    }
}

#[test]
fn parses_real_response_shape() {
    let snap = envelope(REAL_BODY).into_snapshot(None);
    assert_eq!(snap.plan, "GLM Coding Pro");
    assert!(snap.session.is_some());
    assert!(snap.weekly.is_some());
    assert!(snap.mcp.is_some());
    assert_eq!(snap.session.as_ref().unwrap().utilization_pct, 0);
    assert!(snap.weekly.as_ref().unwrap().resets_at.is_some());
    assert_eq!(snap.session.as_ref().unwrap().resets_at, None);
    assert_eq!(snap.weekly.as_ref().unwrap().resets_at, Some(1779792169974));
    assert_eq!(snap.mcp.as_ref().unwrap().resets_at, Some(1779964969979));
    assert_eq!(snap.session.as_ref().unwrap().window_duration, 5 * 3600);
    assert_eq!(snap.weekly.as_ref().unwrap().window_duration, 7 * 86400);
    assert_eq!(snap.mcp.as_ref().unwrap().window_duration, 30 * 86400);
}

#[test]
fn missing_data_yields_neutral_snapshot() {
    let snap = envelope(r#"{"code":500,"success":false}"#).into_snapshot(Some("lite"));
    assert_eq!(snap.plan, "GLM Coding Lite");
    assert!(snap.session.is_none());
    assert!(snap.weekly.is_none());
    assert!(snap.mcp.is_none());
}

#[test]
fn percentage_with_float_rounds() {
    let body = r#"{"data":{"limits":[
            {"type":"TOKENS_LIMIT","percentage":42.7}
        ],"level":"max"},"success":true}"#;
    let snap = envelope(body).into_snapshot(None);
    assert_eq!(snap.session.as_ref().unwrap().utilization_pct, 43);
}

#[test]
fn percentage_clamps_to_hundred() {
    let body = r#"{"data":{"limits":[
            {"type":"TOKENS_LIMIT","percentage":150}
        ]},"success":true}"#;
    let snap = envelope(body).into_snapshot(None);
    assert_eq!(snap.session.as_ref().unwrap().utilization_pct, 100);
}

#[test]
fn only_time_limit_means_no_session_or_weekly() {
    let body = r#"{"data":{"limits":[
            {"type":"TIME_LIMIT","percentage":12}
        ]},"success":true}"#;
    let snap = envelope(body).into_snapshot(None);
    assert!(snap.session.is_none());
    assert!(snap.weekly.is_none());
    assert!(snap.mcp.is_some());
    assert_eq!(snap.mcp.as_ref().unwrap().utilization_pct, 12);
}

#[test]
fn config_plan_tier_used_when_level_empty() {
    let body = r#"{"data":{"limits":[],"level":""},"success":true}"#;
    let snap = envelope(body).into_snapshot(Some("max"));
    assert_eq!(snap.plan, "GLM Coding Max");
}

#[test]
fn reset_time_zero_or_null_becomes_none() {
    let body = r#"{"data":{"limits":[
            {"type":"TOKENS_LIMIT","percentage":0,"nextResetTime":null}
        ]},"success":true}"#;
    let snap = envelope(body).into_snapshot(None);
    assert!(snap.session.as_ref().unwrap().resets_at.is_none());
    let zero = r#"{"data":{"limits":[
            {"type":"TOKENS_LIMIT","percentage":0,"nextResetTime":0}
        ]},"success":true}"#;
    let snap = envelope(zero).into_snapshot(None);
    assert!(snap.session.as_ref().unwrap().resets_at.is_none());
}

#[test]
fn reset_times_are_read_from_numbers_alone() {
    assert_eq!(de_opt_ms(&Value::Null), None);
    assert_eq!(de_opt_ms(&Value::from("17")), None);
    assert_eq!(de_opt_ms(&Value::from(true)), None);
    assert_eq!(de_opt_ms(&Value::from(0)), None);
    assert_eq!(de_opt_ms(&Value::from(0.0)), None);
    assert_eq!(de_opt_ms(&Value::from(-0.0)), None);
    assert_eq!(de_opt_ms(&Value::from(0.4)), Some(0));
    assert_eq!(de_opt_ms(&Value::from(-0.4)), Some(0));
    assert_eq!(de_opt_ms(&Value::from(5e-324)), Some(0));
    assert_eq!(de_opt_ms(&Value::from(17)), Some(17));
    assert_eq!(de_opt_ms(&Value::from(-17)), Some(-17));
    assert_eq!(de_opt_ms(&Value::from(17.9)), Some(17));
    assert_eq!(de_opt_ms(&Value::from(-17.9)), Some(-17));
    assert_eq!(de_opt_ms(&Value::from(i64::MAX)), Some(i64::MAX));
    assert_eq!(de_opt_ms(&Value::from(i64::MAX as u64 + 1)), Some(i64::MAX));
    assert_eq!(de_opt_ms(&Value::from(u64::MAX)), Some(i64::MAX));
    assert_eq!(de_opt_ms(&Value::from(-1e300)), Some(i64::MIN));
}

#[test]
fn limits_are_told_apart_by_type_and_position() {
    let body = r#"{"data":{"limits":[
            {"type":"OTHER","percentage":1},
            {"type":"TIME_LIMIT","percentage":2},
            {"type":"TOKENS_LIMIT","percentage":3},
            {"type":"tokens_limit","percentage":4},
            {"type":"TIME_LIMIT","percentage":5},
            {"type":"TOKENS_LIMIT","percentage":6},
            {"type":"TOKENS_LIMIT","percentage":7}
        ],"level":"pro"},"success":true}"#;
    let snap = envelope(body).into_snapshot(Some("ignored"));
    assert_eq!(snap.plan, "GLM Coding Pro");
    assert_eq!(snap.session.unwrap().utilization_pct, 3);
    assert_eq!(snap.weekly.unwrap().utilization_pct, 6);
    assert_eq!(snap.mcp.unwrap().utilization_pct, 2);
}

#[test]
fn without_level_and_tier_the_plan_is_unknown() {
    let snap = envelope(r#"{"data":{"limits":[]}}"#).into_snapshot(None);
    assert_eq!(snap.plan, "GLM Coding Unknown");
    assert_eq!(envelope(r#"{"data":{"limits":[]}}"#).into_snapshot(Some("")).plan, "GLM Coding ");
}

#[test]
fn capitalize_changes_the_first_character_alone() {
    assert_eq!(capitalize(""), "");
    assert_eq!(capitalize("pro max"), "Pro max");
    assert_eq!(capitalize("Pro"), "Pro");
    assert_eq!(capitalize("9x"), "9x");
    assert_eq!(capitalize("élan"), "Élan");
    assert_eq!(capitalize("ßa"), "SSa");
    assert_eq!(with_initial("pro", "XY"), "XYro");
}

#[test]
fn capitalizing_twice_is_once() {
    for s in ["", "pro", "Pro", "9x", "élan", "ßa", "ŉx", "ﬁn", "ǆa", "\u{1}"] {
        let once = capitalize(s);
        assert_eq!(capitalize(&once), once);
    }
}

#[test]
fn reset_times_outside_the_calendar_are_dropped() {
    let mut l = LimitEntry::default();
    assert_eq!(to_window(&l, 60).resets_at, None);
    assert_eq!(to_window(&l, 60).utilization_pct, 0);
    assert_eq!(to_window(&l, 60).window_duration, 60);
    for (millis, kept) in [
        (1779792169974, true),
        (-1, true),
        (8_210_266_876_799_999, true),
        (8_210_266_876_800_000, false),
        (-8_334_601_228_800_000, true),
        (-8_334_601_228_800_001, false),
        (i64::MAX, false),
        (i64::MIN, false),
    ] {
        l.next_reset_time = Some(millis);
        assert_eq!(to_window(&l, 60).resets_at, if kept { Some(millis) } else { None });
    }
}

#[test]
fn defaults_are_empty() {
    let data = MonitorData::default();
    assert!(data.limits.is_empty());
    assert_eq!(data.level, "");
    let l = LimitEntry::default();
    assert_eq!(l.kind, "");
    assert_eq!(l.percentage.bits, 0);
}
