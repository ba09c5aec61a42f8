use ai_usagebar::error::AppError;
use ai_usagebar::http::{is_success, settle, Reply};
use ai_usagebar::text::{body_excerpt, excerpt};

#[test]
fn excerpt_keeps_two_hundred_characters() {
    assert_eq!(excerpt(""), "");
    assert_eq!(excerpt("short"), "short");
    let exact: String = "é".repeat(200);
    assert_eq!(excerpt(&exact), exact);
    let long = format!("{}{}", exact, "x");
    assert_eq!(excerpt(&long), exact);
}

#[test]
fn body_excerpt_replaces_what_is_not_utf8() {
    assert_eq!(body_excerpt("grün".as_bytes()), "grün");
    assert_eq!(body_excerpt(&[b'a', 0xff, b'b']), "a\u{fffd}b");
    assert_eq!(body_excerpt(&[b'y'; 500]), "y".repeat(200));
}

#[test]
fn success_is_any_status_of_the_second_hundred() {
    assert!(!is_success(199));
    assert!(is_success(200));
    assert!(is_success(299));
    assert!(!is_success(300));
    assert!(!is_success(401));
}

#[test]
fn replies_settle_by_kind() {
    let timed_out: Reply<u8> = Reply::TimedOut;
    assert_eq!(
        settle(timed_out, "late".to_string(), "bad: "),
        Err(AppError::Transport("late".to_string()))
    );
    let failed: Reply<u8> = Reply::Failed(AppError::Other("x".to_string()));
    assert_eq!(
        settle(failed, "late".to_string(), "bad: "),
        Err(AppError::Other("x".to_string()))
    );
    let refused: Reply<u8> = Reply::Response { status: 503, body: vec![b'z'; 300], parsed: Ok(1) };
    assert_eq!(
        settle(refused, "late".to_string(), "bad: "),
        Err(AppError::Http { status: 503, body: "z".repeat(200) })
    );
    let unread: Reply<u8> =
        Reply::Response { status: 200, body: vec![1], parsed: Err("eof".to_string()) };
    assert_eq!(
        settle(unread, "late".to_string(), "bad: "),
        Err(AppError::Schema("bad: eof".to_string()))
    );
    let good: Reply<u8> = Reply::Response { status: 204, body: vec![1, 2], parsed: Ok(7) };
    assert_eq!(settle(good, "late".to_string(), "bad: "), Ok((vec![1, 2], 7)));
}

#[test]
fn only_transport_errors_are_transient() {
    assert!(AppError::Transport("t".to_string()).is_transient());
    assert!(!AppError::Http { status: 500, body: "b".to_string() }.is_transient());
    assert!(!AppError::Schema("s".to_string()).is_transient());
    assert!(!AppError::Json("j".to_string()).is_transient());
    assert!(!AppError::Other("o".to_string()).is_transient());
}
