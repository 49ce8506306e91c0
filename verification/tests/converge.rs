use kailo_core::buzz::{Presence, RosterEntry, Scope};
use kailo_core::converge::{converge_outcome, send_outcome};
use kailo_core::signers::OperatorError;

fn entry(k: &str) -> RosterEntry {
    RosterEntry { pubkey: k.to_owned(), role: "member".to_owned() }
}

#[test]
fn a_refusal_only_joins_the_details() {
    assert!(matches!(send_outcome(Ok(())), Ok(None)));
    match send_outcome(Err(OperatorError::Rejected { status: 400, body: "member not found".into() })) {
        Ok(Some(t)) => assert_eq!(t, "Relay 拒绝: HTTP 400 member not found"),
        other => panic!("got {other:?}"),
    }
    match send_outcome(Err(OperatorError::Transport("reset".into()))) {
        Err(OperatorError::Transport(m)) => assert_eq!(m, "reset"),
        other => panic!("got {other:?}"),
    }
}

#[test]
fn convergence_is_judged_by_the_second_reading() {
    let roster = vec![entry("ab"), entry("cd")];
    assert!(converge_outcome(&roster, "ab", Scope::Relay, Presence::Present, None).is_ok());
    assert!(converge_outcome(&roster, "ef", Scope::Relay, Presence::Absent, Some("x".into())).is_ok());
    match converge_outcome(&roster, "ab", Scope::Channel("c1"), Presence::Absent, Some("Relay 拒绝: HTTP 400 x".into())) {
        Err(OperatorError::NotConverged(m)) => {
            assert_eq!(m, "ab 在 Channel(\"c1\") 上未达到 Absent，当前 roster 2 人；上游拒绝：Relay 拒绝: HTTP 400 x")
        }
        other => panic!("got {other:?}"),
    }
    match converge_outcome(&[], "ab", Scope::Relay, Presence::Present, None) {
        Err(OperatorError::NotConverged(m)) => assert_eq!(m, "ab 在 Relay 上未达到 Present，当前 roster 0 人"),
        other => panic!("got {other:?}"),
    }
}
