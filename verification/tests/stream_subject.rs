use kailo_core::contracts::ErrorClass;
use kailo_core::stream::{frame_event, generation_of, readmission, resumes, Frame};
use kailo_core::subject::{
    identity_error_status, refused_sign_in_evidence, registered_identity, subject_digest, subject_lock_key,
};

const ISSUER: &str = "https://idp.example";
const SUBJECT: &str = "alice@example.com";

#[test]
fn the_subject_digest_is_sha256_of_issuer_zero_subject() {
    assert_eq!(
        subject_digest(ISSUER, SUBJECT),
        "d9d7050bb1313858f519f847a4dad5ff5e2fb049d440a3c79ce0405e26ae1e06"
    );
}

#[test]
fn the_issuer_takes_part_in_the_digest() {
    assert_ne!(subject_digest(ISSUER, SUBJECT), subject_digest("https://other.example", SUBJECT));
    assert_ne!(subject_digest("ab", "c"), subject_digest("a", "bc"));
}

#[test]
fn the_lock_key_is_the_signed_head_of_the_digest() {
    assert_eq!(subject_lock_key(ISSUER, SUBJECT), -2749723499710826408);
    assert_eq!(subject_lock_key(ISSUER, SUBJECT), subject_lock_key(ISSUER, SUBJECT));
}

#[test]
fn refused_sign_ins_keep_a_digest_only_with_both_headers() {
    assert_eq!(
        refused_sign_in_evidence(Some(ISSUER), Some(SUBJECT)).as_deref(),
        Some("d9d7050bb1313858f519f847a4dad5ff5e2fb049d440a3c79ce0405e26ae1e06")
    );
    assert_eq!(refused_sign_in_evidence(Some(ISSUER), Some("")), None);
    assert_eq!(refused_sign_in_evidence(None, Some(SUBJECT)), None);
    assert_eq!(refused_sign_in_evidence(Some(ISSUER), None), None);
}

#[test]
fn identity_failures_map_to_statuses_by_class() {
    assert_eq!(identity_error_status(ErrorClass::Denied), 403);
    assert_eq!(identity_error_status(ErrorClass::Blocked), 403);
    assert_eq!(identity_error_status(ErrorClass::Precondition), 503);
    assert_eq!(identity_error_status(ErrorClass::Unknown), 503);
    assert_eq!(identity_error_status(ErrorClass::Conflict), 500);
    assert_eq!(identity_error_status(ErrorClass::Limit), 500);
}

#[test]
fn an_existing_identity_is_used_as_it_is() {
    assert_eq!(registered_identity(Some((7, true))), Some(Some(7)));
    assert_eq!(registered_identity(Some((7, false))), Some(None));
    assert_eq!(registered_identity(None), None);
}

#[test]
fn the_generation_is_the_head_of_a_digest() {
    assert_eq!(generation_of(0x2a, "chan-1", 7), "5b732f245ae2bd48ba7dcd864f9228a5");
    assert_eq!(generation_of(0x2a, "chan-1", -1), "12d280f9401b48d12d56920a06cef59e");
}

#[test]
fn a_new_admission_or_principal_changes_the_generation() {
    let g = generation_of(0x2a, "chan-1", 7);
    assert_ne!(g, generation_of(0x2a, "chan-1", 8));
    assert_ne!(g, generation_of(0x2b, "chan-1", 7));
    assert_ne!(g, generation_of(0x2a, "chan-2", 7));
}

#[test]
fn a_stream_resumes_only_on_its_own_generation() {
    let g = generation_of(0x2a, "chan-1", 7);
    assert!(resumes(Some(&g), &g));
    assert!(!resumes(Some("5b732f245ae2bd48ba7dcd864f9228a4"), &g));
    assert!(!resumes(None, &g));
}

#[test]
fn readmission_ends_the_stream_unless_still_live() {
    assert_eq!(readmission(Some(true)), None);
    assert_eq!(readmission(Some(false)), Some("session-revoked"));
    assert_eq!(readmission(None), Some("readmission-unavailable"));
}

#[test]
fn frames_become_stream_events() {
    assert_eq!(frame_event(Frame::Event("{}".into()), "g"), ("event", "{}".to_owned(), false));
    assert_eq!(frame_event(Frame::EndOfStored, "g"), ("live", "g".to_owned(), false));
    assert_eq!(frame_event(Frame::Closed("bye".into()), "g"), ("closed", "bye".to_owned(), true));
}
