use mire::Error;
use mire::Failure;

fn plain_failure(token: u64, text: &str) -> Failure {
    Failure {
        token,
        display: text.to_string(),
        debug: format!("Plain({})", text),
        source: None,
    }
}

#[test]
fn message_display_is_the_text() {
    let e = Error::msg("boom");
    assert_eq!(e.to_display_string(), "boom");
}

#[test]
fn message_from_owned_text() {
    let e = Error::msg(String::from("out of cheese"));
    assert_eq!(e.to_display_string(), "out of cheese");
}

#[test]
fn downcast_round_trip_returns_the_original() {
    let f = plain_failure(7, "bad");
    let expected = plain_failure(7, "bad");
    let e = Error::new(f);
    match e.downcast(7) {
        Ok(back) => assert_eq!(back, expected),
        Err(_) => panic!("downcast with the matching token must succeed"),
    }
}

#[test]
fn downcast_mismatch_returns_the_error_unchanged() {
    let e = Error::new(plain_failure(7, "boom"));
    let before = e.to_display_string();
    match e.downcast(8) {
        Ok(_) => panic!("downcast with a foreign token must fail"),
        Err(unchanged) => {
            assert_eq!(unchanged.to_display_string(), before);
            assert_eq!(unchanged.to_display_string(), "boom");
        },
    }
}

#[test]
fn downcast_can_be_retried_after_a_mismatch() {
    let e = Error::new(plain_failure(7, "bad"));
    let e = e.downcast(9).unwrap_err();
    let back = e.downcast(7).unwrap();
    assert_eq!(back, plain_failure(7, "bad"));
}

#[test]
fn downcast_ref_matches_without_consuming() {
    let e = Error::new(plain_failure(21, "disk on fire"));
    let viewed = e.downcast_ref(21).expect("matching token must give a view");
    assert_eq!(viewed.display, "disk on fire");
    assert_eq!(viewed.token, 21);
    // The error is untouched and can be used again.
    assert!(e.downcast_ref(22).is_none());
    assert_eq!(e.to_display_string(), "disk on fire");
}

#[test]
fn message_errors_do_not_downcast_to_user_tokens() {
    let e = Error::msg("boom");
    assert!(e.downcast_ref(7).is_none());
    match e.downcast(9) {
        Ok(_) => panic!("a message error must not downcast under a foreign token"),
        Err(unchanged) => assert_eq!(unchanged.to_display_string(), "boom"),
    }
}

#[test]
fn message_errors_downcast_only_under_the_reserved_token() {
    let e = Error::msg("boom");
    let wrapper = e.downcast(mire::MESSAGE_TOKEN).expect("the reserved token recovers the wrapper");
    assert_eq!(wrapper.display, "boom");
    assert_eq!(wrapper.token, mire::MESSAGE_TOKEN);
}

#[test]
fn message_with_backtrace_keeps_both() {
    let e = Error::msg_with_backtrace("boom", Some("frame one".to_string()));
    assert_eq!(e.to_display_string(), "boom");
    assert_eq!(e.backtrace().map(|b| b.as_str()), Some("frame one"));
}

#[test]
fn backtrace_is_kept_when_given() {
    let e = Error::new_with_backtrace(plain_failure(1, "x"), Some("frame one".to_string()));
    assert_eq!(e.backtrace().map(|b| b.as_str()), Some("frame one"));
}

#[test]
fn backtrace_is_absent_by_default() {
    let e = Error::new(plain_failure(1, "x"));
    assert!(e.backtrace().is_none());
}
