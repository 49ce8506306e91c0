use kailo_core::signers::OperatorError;
use kailo_core::stream::Frame;
use kailo_core::subscription::{challenge_of, filters_acceptable, relay_step, Part, RelayStep};

fn t(s: &str) -> Part {
    Part::Text(s.to_owned())
}

fn j(s: &str) -> Part {
    Part::Json(s.to_owned())
}

#[test]
fn filter_counts_outside_one_to_ten_are_refused() {
    assert!(filters_acceptable(1).is_ok());
    assert!(filters_acceptable(10).is_ok());
    match filters_acceptable(0) {
        Err(OperatorError::Sign(m)) => assert_eq!(m, "单个 REQ 的 filter 数必须在 1..=10，得到 0"),
        other => panic!("got {other:?}"),
    }
    match filters_acceptable(11) {
        Err(OperatorError::Sign(m)) => assert_eq!(m, "单个 REQ 的 filter 数必须在 1..=10，得到 11"),
        other => panic!("got {other:?}"),
    }
}

#[test]
fn the_challenge_is_read_from_an_auth_message() {
    assert_eq!(challenge_of(&[t("AUTH"), t("c-1")]).as_deref(), Some("c-1"));
    assert_eq!(challenge_of(&[t("NOTICE"), t("hi")]), None);
    assert_eq!(challenge_of(&[t("AUTH"), j("{}")]), None);
    assert_eq!(challenge_of(&[t("AUTH")]), None);
}

#[test]
fn only_this_subscriptions_events_are_forwarded() {
    let ev = r#"{"id":"e1","kind":1}"#;
    assert_eq!(relay_step(&[t("EVENT"), t("s1"), j(ev)], "s1"), RelayStep::Forward(Frame::Event(ev.to_owned())));
    assert_eq!(relay_step(&[t("EVENT"), t("s2"), j(ev)], "s1"), RelayStep::Skip);
    assert_eq!(relay_step(&[t("EVENT"), t("s1")], "s1"), RelayStep::Skip);
    assert_eq!(relay_step(&[t("EVENT"), t("s1"), t("x")], "s1"), RelayStep::Forward(Frame::Event("\"x\"".to_owned())));
}

#[test]
fn the_end_of_stored_events_marks_live() {
    assert_eq!(relay_step(&[t("EOSE"), t("s1")], "s1"), RelayStep::Forward(Frame::EndOfStored));
    assert_eq!(relay_step(&[t("EOSE"), t("s9")], "s1"), RelayStep::Skip);
}

#[test]
fn a_mid_session_challenge_ends_the_subscription() {
    assert_eq!(
        relay_step(&[t("AUTH"), t("c-2")], "s1"),
        RelayStep::Close("会话中途要求重新认证".to_owned())
    );
}

#[test]
fn a_close_always_carries_a_reason() {
    assert_eq!(relay_step(&[t("CLOSED"), t("s1"), t("rate-limited")], "s1"), RelayStep::Close("rate-limited".to_owned()));
    assert_eq!(relay_step(&[t("CLOSED"), t("s1"), t("")], "s1"), RelayStep::Close("订阅被关闭".to_owned()));
    assert_eq!(relay_step(&[t("CLOSED"), t("s1")], "s1"), RelayStep::Close("订阅被关闭".to_owned()));
}

#[test]
fn anything_else_is_skipped() {
    assert_eq!(relay_step(&[t("NOTICE"), t("hi")], "s1"), RelayStep::Skip);
    assert_eq!(relay_step(&[j("1")], "s1"), RelayStep::Skip);
    assert_eq!(relay_step(&[], "s1"), RelayStep::Skip);
}
