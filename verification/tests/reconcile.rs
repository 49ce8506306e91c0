use kailo_core::config::{GovernanceReconcileConfig, PublishReconcileConfig, RoleReconcileConfig};
use kailo_core::reconcile::{
    object_tenant, open_state_report, publish_result_code, publish_settlement, reconciled_event_key, relationship_text,
    removal_operation, removal_tenant, role_relationship_kept, settlement_label, ObjectTenant, OpenCount, PublishResult,
    RelationshipSubject, Settlement,
};

#[test]
fn a_found_event_is_accepted_whatever_the_window() {
    assert_eq!(publish_settlement(true, true, Some(true), false), Settlement::Record(PublishResult::Accepted));
    assert_eq!(publish_settlement(true, true, Some(true), true), Settlement::Record(PublishResult::Accepted));
}

#[test]
fn a_missing_event_waits_inside_the_window_and_is_undelivered_after_it() {
    assert_eq!(publish_settlement(true, true, Some(false), false), Settlement::Pending);
    assert_eq!(publish_settlement(true, true, Some(false), true), Settlement::Record(PublishResult::NotDelivered));
}

#[test]
fn observation_failures_settle_nothing() {
    assert_eq!(publish_settlement(false, true, Some(true), true), Settlement::EvidenceMissing);
    assert_eq!(publish_settlement(true, false, Some(true), true), Settlement::ControlUnreadable);
    assert_eq!(publish_settlement(true, true, None, true), Settlement::QueryFailed);
}

#[test]
fn settlement_labels() {
    assert_eq!(settlement_label(Settlement::Record(PublishResult::Accepted), true), "ACCEPTED");
    assert_eq!(settlement_label(Settlement::Record(PublishResult::NotDelivered), true), "NOT_DELIVERED");
    assert_eq!(settlement_label(Settlement::Record(PublishResult::Accepted), false), "WRITE_FAILED");
    assert_eq!(settlement_label(Settlement::Pending, true), "PENDING");
    assert_eq!(settlement_label(Settlement::QueryFailed, false), "QUERY_FAILED");
    assert_eq!(settlement_label(Settlement::ControlUnreadable, false), "CONTROL_UNREADABLE");
    assert_eq!(settlement_label(Settlement::EvidenceMissing, false), "EVIDENCE_MISSING");
    assert_eq!(publish_result_code(PublishResult::NotDelivered), "NOT_DELIVERED");
}

#[test]
fn the_settlement_key_names_the_event() {
    assert_eq!(reconciled_event_key("abc123"), "message.publish:abc123:reconciled");
}

fn subject(tenant: u128, kind: &str, membership: Option<&str>) -> Option<RelationshipSubject> {
    Some(RelationshipSubject { tenant_id: tenant, kind: kind.to_owned(), membership: membership.map(|m| m.to_owned()) })
}

#[test]
fn roles_stay_only_on_active_or_revoking_humans_of_the_same_tenant() {
    assert!(role_relationship_kept(&subject(1, "HUMAN", Some("ACTIVE")), Some(1)));
    assert!(role_relationship_kept(&subject(1, "HUMAN", Some("REVOKING")), Some(1)));
    assert!(!role_relationship_kept(&subject(1, "HUMAN", Some("REVOKED")), Some(1)));
    assert!(!role_relationship_kept(&subject(1, "HUMAN", Some("INVITED")), Some(1)));
    assert!(!role_relationship_kept(&subject(1, "HUMAN", None), Some(1)));
    assert!(!role_relationship_kept(&subject(1, "SERVICE", Some("ACTIVE")), Some(1)));
    assert!(!role_relationship_kept(&subject(1, "HUMAN", Some("ACTIVE")), Some(2)));
    assert!(!role_relationship_kept(&subject(1, "HUMAN", Some("ACTIVE")), None));
    assert!(!role_relationship_kept(&None, Some(1)));
}

#[test]
fn object_tenants_are_found_by_kind() {
    let t = "00000000-0000-0000-0000-000000000007";
    assert_eq!(object_tenant("tenant", t), ObjectTenant::Known(Some(7)));
    assert_eq!(object_tenant("tenant", "nope"), ObjectTenant::Known(None));
    assert_eq!(object_tenant("workspace", t), ObjectTenant::LookUpWorkspace(7));
    assert_eq!(object_tenant("workspace", "nope"), ObjectTenant::Known(None));
}

#[test]
fn removals_are_audited_under_the_subject_or_the_object() {
    assert_eq!(removal_tenant(&subject(3, "HUMAN", None), Some(4)), Some(3));
    assert_eq!(removal_tenant(&None, Some(4)), Some(4));
    assert_eq!(removal_tenant(&None, None), None);
}

#[test]
fn removal_operations_are_stable_per_relationship_and_token() {
    let w = uuid::Uuid::from_u128(1).to_string();
    let p = uuid::Uuid::from_u128(2).to_string();
    let text = relationship_text("workspace", &w, "admin", &p);
    assert_eq!(
        text,
        "workspace:00000000-0000-0000-0000-000000000001#admin@principal:00000000-0000-0000-0000-000000000002"
    );
    let op = removal_operation(&text, "tok-1");
    assert_eq!(uuid::Uuid::from_u128(op).to_string(), "f0bff3bc-d1e8-583a-87a6-7dfc40473a3e");
    assert_eq!(op, removal_operation(&text, "tok-1"));
    assert_ne!(op, removal_operation(&text, "tok-2"));
}

#[test]
fn every_open_state_is_reported_zero_included() {
    let rows = vec![
        OpenCount { gate: "WAITING".into(), dispatch: "NOT_DISPATCHED".into(), count: 3, oldest_age_seconds: 40 },
        OpenCount { gate: "ALLOWED".into(), dispatch: "UNKNOWN".into(), count: -1, oldest_age_seconds: -5 },
        OpenCount { gate: "WAITING".into(), dispatch: "NOT_DISPATCHED".into(), count: 9, oldest_age_seconds: 90 },
    ];
    let r = open_state_report(&rows);
    assert_eq!(
        r,
        vec![
            ("EVALUATING/NOT_DISPATCHED".to_owned(), 0, 0),
            ("WAITING/NOT_DISPATCHED".to_owned(), 3, 40),
            ("ALLOWED/NOT_DISPATCHED".to_owned(), 0, 0),
            ("ALLOWED/UNKNOWN".to_owned(), 0, 0),
        ]
    );
    assert_eq!(open_state_report(&[]).len(), 4);
}

#[test]
fn reconcile_settings_are_read_in_order() {
    let c = GovernanceReconcileConfig::from_values(Some("30"), Some("50")).unwrap();
    assert_eq!((c.interval_seconds, c.batch), (30, 50));
    assert_eq!(
        GovernanceReconcileConfig::from_values(None, Some("50")).unwrap_err(),
        "缺少 GOVERNANCE_RECONCILE_INTERVAL_SECONDS"
    );
    assert_eq!(
        GovernanceReconcileConfig::from_values(Some("30"), Some("0")).unwrap_err(),
        "GOVERNANCE_RECONCILE_BATCH 必须是正整数"
    );
    assert_eq!(
        GovernanceReconcileConfig::from_values(Some("30"), Some("9223372036854775808")).unwrap_err(),
        "GOVERNANCE_RECONCILE_BATCH 超出范围"
    );
    let p = PublishReconcileConfig::from_values(Some("10"), Some("600"), Some("100"), Some("86400")).unwrap();
    assert_eq!((p.interval_seconds, p.settle_seconds, p.batch, p.idempotency_retention_seconds), (10, 600, 100, 86400));
    assert_eq!(
        PublishReconcileConfig::from_values(Some("10"), None, Some("100"), None).unwrap_err(),
        "缺少 PUBLISH_RESULT_SETTLE_SECONDS"
    );
    assert_eq!(RoleReconcileConfig::from_values(Some("60")).unwrap().interval_seconds, 60);
    assert_eq!(
        RoleReconcileConfig::from_values(Some("-1")).unwrap_err(),
        "ROLE_RECONCILE_INTERVAL_SECONDS 必须是正整数"
    );
}
