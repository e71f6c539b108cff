use pyo3_build_config::decimal::dec_string;
use pyo3_build_config::errors::{bail, ensure, warn_line};
use pyo3_build_config::{Context, Error};

#[test]
fn message_is_kept_exactly() {
    let e = Error::from_message(String::from("failed to do a thing"));
    assert_eq!(e.message().as_str(), "failed to do a thing");
}

#[test]
fn message_is_kept_exactly_via_from() {
    let e = Error::from(String::from("no interpreter found"));
    assert_eq!(e.message().as_str(), "no interpreter found");
}

#[test]
fn message_is_kept_for_empty_string() {
    let e = Error::from_message(String::new());
    assert_eq!(e.message().as_str(), "");
}

#[test]
fn report_of_plain_error_is_its_message() {
    let e = Error::from_message(String::from("just one line"));
    assert_eq!(e.report().to_string(), "just one line");
}

#[test]
fn source_of_plain_error_is_none() {
    let e = Error::from_message(String::from("alone"));
    assert!(e.source().is_none());
}

#[test]
fn context_wraps_the_cause() {
    let root = Error::from_message(String::from("root cause"));
    let failed: Result<u8, Error> = Err(root);
    let e = failed.context(String::from("higher up")).unwrap_err();
    assert_eq!(e.message().as_str(), "higher up");
    let cause = e.source().expect("the wrapped cause must be kept");
    assert_eq!(cause.message().as_str(), "root cause");
}

#[test]
fn context_keeps_a_success_unchanged() {
    let fine: Result<u8, Error> = Ok(17);
    assert_eq!(fine.context(String::from("unused")).unwrap(), 17);
}

#[test]
fn with_context_wraps_the_cause_lazily() {
    let root = Error::from_message(String::from("deep failure"));
    let failed: Result<u8, Error> = Err(root);
    let e = failed.with_context(|| String::from("computed message")).unwrap_err();
    assert_eq!(e.message().as_str(), "computed message");
    assert_eq!(e.source().unwrap().message().as_str(), "deep failure");
}

#[test]
fn with_context_keeps_a_success_unchanged() {
    let fine: Result<u8, Error> = Ok(3);
    let kept = fine.with_context(|| panic!("must not be evaluated on the success path"));
    assert_eq!(kept.unwrap(), 3);
}

#[test]
fn report_shows_message_then_cause() {
    let root = Error::from_message(String::from("root cause"));
    let failed: Result<(), Error> = Err(root);
    let e = failed.context(String::from("top message")).unwrap_err();
    let text = e.report().to_string();
    assert_eq!(text, "top message\ncaused by:\n  - 0: root cause\n");
    assert_eq!(text.lines().next().unwrap(), "top message");
    assert!(text.lines().any(|line| line == "  - 0: root cause"));
}

#[test]
fn report_lists_every_cause_in_order() {
    let root = Error::from_message(String::from("root"));
    let mid: Result<(), Error> = Err(root);
    let mid = mid.context(String::from("middle")).unwrap_err();
    let top: Result<(), Error> = Err(mid);
    let top = top.context(String::from("top")).unwrap_err();
    let text = top.report().to_string();
    assert_eq!(text, "top\ncaused by:\n  - 0: middle\n  - 1: root\n");
    let indexed: Vec<&str> = text.lines().filter(|l| l.starts_with("  - ")).collect();
    assert_eq!(indexed.len(), 2);
    assert_eq!(indexed[0], "  - 0: middle");
    assert_eq!(indexed[1], "  - 1: root");
}

#[test]
fn report_of_deep_chain_has_one_line_per_cause() {
    let mut e = Error::from_message(String::from("depth 0"));
    for depth in 1..=12u32 {
        let wrapped: Result<(), Error> = Err(e);
        e = wrapped.context(format!("depth {}", depth)).unwrap_err();
    }
    let text = e.report().to_string();
    let indexed: Vec<&str> = text.lines().filter(|l| l.starts_with("  - ")).collect();
    assert_eq!(indexed.len(), 12);
    for (i, line) in indexed.iter().enumerate() {
        assert_eq!(*line, format!("  - {}: depth {}", i, 11 - i));
    }
}

#[test]
fn bail_fails_with_the_given_message() {
    let r: Result<(), Error> = bail("went wrong");
    let e = r.unwrap_err();
    assert_eq!(e.message().as_str(), "went wrong");
    assert!(e.source().is_none());
}

#[test]
fn ensure_false_behaves_as_bail() {
    let checked: Result<(), Error> = ensure(false, "X");
    let bailed: Result<(), Error> = bail("X");
    let checked = checked.unwrap_err();
    let bailed = bailed.unwrap_err();
    assert_eq!(checked.message().as_str(), bailed.message().as_str());
    assert_eq!(checked.report().to_string(), bailed.report().to_string());
    assert!(checked.source().is_none() && bailed.source().is_none());
}

#[test]
fn ensure_true_has_no_effect() {
    let checked: Result<(), Error> = ensure(true, "X");
    assert!(checked.is_ok());
}

#[test]
fn decimal_rendering_is_exact() {
    assert_eq!(dec_string(0), "0");
    assert_eq!(dec_string(7), "7");
    assert_eq!(dec_string(10), "10");
    assert_eq!(dec_string(109), "109");
    assert_eq!(dec_string(1234567890), "1234567890");
}

#[test]
fn warn_line_carries_the_directive_prefix() {
    assert_eq!(
        warn_line("missing sysconfigdata; falling back to the host interpreter"),
        "cargo:warning=missing sysconfigdata; falling back to the host interpreter"
    );
}
