//! The selector compiler against the real regex engine.

use regex::Regex;
use sqs_replay::error::ReplayError;
use sqs_replay::selector::compile;

#[test]
fn test_capture_group() {
    // no capture group returns 1 capture group
    let sel = String::from("test");
    let r = Regex::new(sel.as_str());
    let re = r.unwrap();
    assert_eq!(re.captures_len(), 1);
}

#[test]
fn compile_accepts_missing_selector() {
    let r = compile(None).unwrap();
    assert!(r.is_none());
}

#[test]
fn compile_rejects_zero_capture_groups() {
    let r = compile(Some(String::from("test")));
    assert!(matches!(r, Err(ReplayError::BadSelector(_))));
}

#[test]
fn compile_rejects_invalid_pattern() {
    let r = compile(Some(String::from("foo(bar")));
    match r {
        Err(ReplayError::BadSelector(detail)) => {
            assert!(detail.starts_with("invalid pattern: "));
        }
        _ => panic!("expected BadSelector"),
    }
}

#[test]
fn compile_accepts_one_capture_group() {
    let r = compile(Some(String::from("(test)"))).unwrap();
    assert!(r.is_some());
}

#[test]
fn bad_selector_message_is_prefixed() {
    let e = ReplayError::BadSelector(String::from("no capture group"));
    assert_eq!(e.message(), "bad selector: no capture group");
}

#[test]
fn sqs_error_message_is_passed_through() {
    let e = ReplayError::Sqs(String::from("access denied"));
    assert_eq!(e.message(), "access denied");
}
