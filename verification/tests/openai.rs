use ai_usagebar::error::AppError;
use ai_usagebar::openai::oauth::{
    de_expires_in, needs_refresh, parse_error_body, read_description, refresh, refresh_call,
    refusal, RefreshReply, RefreshResponse, TOKEN_URL,
};
use serde_json::Value;

#[test]
fn needs_refresh_threshold() {
    let now = 1_000_000;
    assert!(needs_refresh(now + 100, now));
    assert!(!needs_refresh(now + 1000, now));
}

#[test]
fn refresh_is_due_below_the_buffer() {
    assert!(needs_refresh(299, 0));
    assert!(!needs_refresh(300, 0));
    assert!(needs_refresh(300, 1));
    assert!(needs_refresh(i64::MIN, i64::MIN));
    assert!(!needs_refresh(i64::MAX, i64::MAX - 300));
}

fn tokens(body: &str) -> RefreshResponse {
    let v: Value = serde_json::from_str(body).unwrap();
    RefreshResponse {
        access_token: v["access_token"].as_str().unwrap().to_string(),
        refresh_token: v["refresh_token"].as_str().map(|s| s.to_string()),
        id_token: v["id_token"].as_str().map(|s| s.to_string()),
        expires_in: de_expires_in(&v["expires_in"]),
    }
}

#[test]
fn refresh_success_parses_three_tokens() {
    let body = r#"{"access_token":"new-at","refresh_token":"new-rt","id_token":"new-id","expires_in":3600}"#;
    let reply =
        RefreshReply::Answered { status: 200, body: body.to_string(), parsed: Ok(tokens(body)) };
    let r = refresh(reply).unwrap();
    assert_eq!(r.access_token, "new-at");
    assert_eq!(r.refresh_token.as_deref(), Some("new-rt"));
    assert_eq!(r.id_token.as_deref(), Some("new-id"));
    assert_eq!(r.expires_in, Some(3600));
}

#[test]
fn refresh_400_returns_http_with_description() {
    let body = r#"{"error":"invalid_grant","error_description":"Refresh expired"}"#;
    let reply = RefreshReply::Answered {
        status: 400,
        body: body.to_string(),
        parsed: Err("missing field `access_token`".to_string()),
    };
    match refresh(reply).unwrap_err() {
        AppError::Http { status, body } => {
            assert_eq!(status, 400);
            assert_eq!(body, "Refresh expired");
        }
        other => panic!("expected Http error, got {:?}", other),
    }
}

#[test]
fn refusals_without_description_have_a_text_of_their_own() {
    for body in ["", "<html>", "{}", r#"{"error_description":7}"#, r#"["error_description"]"#] {
        assert_eq!(parse_error_body(body), None);
        let reply = RefreshReply::Answered {
            status: 500,
            body: body.to_string(),
            parsed: Err("e".to_string()),
        };
        assert_eq!(
            refresh(reply),
            Err(AppError::Http { status: 500, body: "Refresh failed".to_string() })
        );
    }
    assert_eq!(
        refusal(401, Some("why".to_string())),
        AppError::Http { status: 401, body: "why".to_string() }
    );
}

#[test]
fn descriptions_are_read_from_documents() {
    let v: Value = serde_json::from_str(r#"{"error_description":"grün"}"#).unwrap();
    assert_eq!(read_description(&v), Some("grün".to_string()));
    assert_eq!(parse_error_body(r#"{"error_description":"grün"}"#), Some("grün".to_string()));
}

#[test]
fn unreadable_tokens_are_a_schema_error() {
    let reply = RefreshReply::Answered {
        status: 200,
        body: "{}".to_string(),
        parsed: Err("missing field".to_string()),
    };
    assert_eq!(
        refresh(reply),
        Err(AppError::Schema("openai token response: missing field; body: {}".to_string()))
    );
}

#[test]
fn failed_requests_keep_their_error() {
    let e = AppError::Transport("down".to_string());
    assert_eq!(refresh(RefreshReply::Failed(e.clone())), Err(e));
}

#[test]
fn lifetimes_are_read_from_numbers_alone() {
    assert_eq!(de_expires_in(&Value::Null), None);
    assert_eq!(de_expires_in(&Value::from("60")), None);
    assert_eq!(de_expires_in(&Value::from(0)), Some(0));
    assert_eq!(de_expires_in(&Value::from(3600)), Some(3600));
    assert_eq!(de_expires_in(&Value::from(3599.9)), Some(3599));
    assert_eq!(de_expires_in(&Value::from(-5)), Some(0));
    assert_eq!(de_expires_in(&Value::from(i64::MIN)), Some(0));
    assert_eq!(de_expires_in(&Value::from(u64::MAX)), Some(u64::MAX));
    assert_eq!(de_expires_in(&Value::from(1e300)), Some(u64::MAX));
}

#[test]
fn refresh_call_names_client_and_scope() {
    let c = refresh_call(TOKEN_URL, "old");
    assert_eq!(c.url, "https://auth.openai.com/oauth/token");
    assert_eq!(
        c.headers,
        vec![("Content-Type".to_string(), "application/json".to_string())]
    );
    assert_eq!(c.body.client_id, "app_EMoamEEZ73f0CkXaXp7hrann");
    assert_eq!(c.body.grant_type, "refresh_token");
    assert_eq!(c.body.refresh_token, "old");
    assert_eq!(c.body.scope, "openid profile email");
}
