use kailo_core::approval::{fresh_admission, report_step, satisfied_selectors, ReportStep};
use kailo_core::bootstrap::Args;
use kailo_core::client_keys::{registration_step, ExistingBinding, KeyRefusal, RegistrationStep};
use kailo_core::contracts::{
    ActionDispatchState, ActionGateState, ApprovalSelector, ApprovalStatus, ErrorClass, ReasonCode,
};
use kailo_core::dispatch::{dispatch_plan, start_outcome, DispatchPlan, RefState};
use kailo_core::governance::{owned_admission, Evaluation, OwnedAdmission, Refusal, Verdict};
use kailo_core::invitation::{redemption_membership, MembershipWrite};
use kailo_core::lifecycle::{scope_transition, LifecycleState};
use kailo_core::roles::{admin_subjects, role_listing_gate, Relationship};
use kailo_core::subscription::{relay_step, Part, RelayStep};
use kailo_core::stream::Frame;
use kailo_core::targets::{role_dispatch_record, FollowUp, RoleDispatch};

fn argv(items: &[&str]) -> Vec<String> {
    items.iter().map(|s| s.to_string()).collect()
}

#[test]
fn a_missing_slug_is_reported_without_a_default() {
    let a = argv(&["--name", "Acme", "--admin-subject", "sub-1", "--admin-display-name", "Alice", "--wait-seconds", "30"]);
    assert_eq!(Args::parse(&a).err(), Some("缺少 --slug".to_string()));
    let b = argv(&["--slug", "--name", "Acme", "--admin-subject", "sub-1", "--admin-display-name", "Alice", "--wait-seconds", "30"]);
    assert_eq!(Args::parse(&b).err(), Some("--slug 缺值".to_string()));
    let c = argv(&["--slug", "acme", "--name", "Acme", "--admin-subject", "sub-1", "--admin-display-name", "Alice", "--wait-seconds", "-5"]);
    assert_eq!(Args::parse(&c).err(), Some("--wait-seconds 必须是非负整数".to_string()));
}

#[test]
fn the_order_of_the_flags_does_not_matter() {
    let a = argv(&["--slug", "acme", "--name", "Acme", "--admin-subject", "sub-1", "--admin-display-name", "Alice", "--wait-seconds", "30"]);
    let b = argv(&["--wait-seconds", "30", "--admin-display-name", "Alice", "--slug", "acme", "--admin-subject", "sub-1", "--name", "Acme"]);
    let (x, y) = (Args::parse(&a).unwrap(), Args::parse(&b).unwrap());
    assert_eq!(x, y);
    assert_eq!(x.wait_seconds, 30);
}

#[test]
fn role_dispatch_records() {
    let w = role_dispatch_record(&RoleDispatch::Write { delete: false }, true, true, true).unwrap();
    assert_eq!((w.state, w.stage, w.result, w.allowed), (ActionDispatchState::Dispatched, "dispatch", "DISPATCHED", true));
    assert_eq!((w.outcome, w.follow_up), (Some("ROLE_GRANTED"), FollowUp::Consume));
    let r = role_dispatch_record(&RoleDispatch::Write { delete: true }, true, false, false).unwrap();
    assert_eq!((r.outcome, r.follow_up), (Some("ROLE_REVOKED"), FollowUp::Nothing));
    let u = role_dispatch_record(&RoleDispatch::Write { delete: false }, false, true, true).unwrap();
    assert_eq!((u.state, u.stage, u.result, u.outcome, u.follow_up), (ActionDispatchState::Unknown, "dispatch-unknown", "DISPATCH_RESULT_UNKNOWN", None, FollowUp::Nothing));
    let abort = RoleDispatch::Abort { reason: ReasonCode::LastTenantAdmin, retract: false };
    let a = role_dispatch_record(&abort, false, false, true).unwrap();
    assert_eq!((a.state, a.stage, a.result, a.allowed, a.follow_up), (ActionDispatchState::Aborted, "dispatch-aborted", "LAST_TENANT_ADMIN", false, FollowUp::Invalidate));
    let retract = RoleDispatch::Abort { reason: ReasonCode::TargetStateConflict, retract: true };
    assert_eq!(role_dispatch_record(&retract, false, true, true), None);
    assert_eq!(role_dispatch_record(&retract, true, true, false).unwrap().result, "TARGET_STATE_CONFLICT");
}

fn existing(mine: bool, state: &str) -> Option<ExistingBinding> {
    Some(ExistingBinding { mine, state: state.into(), version: 3 })
}

#[test]
fn a_bound_key_decides_before_the_limit() {
    assert_eq!(registration_step(&existing(true, "RECONCILING"), 99, 1), RegistrationStep::Resume(3));
    assert_eq!(registration_step(&existing(true, "ACTIVE"), 99, 1), RegistrationStep::AlreadyActive);
    let conflict = KeyRefusal { status: 409, class: ErrorClass::Conflict, reason: ReasonCode::ClientKeyAlreadyBound };
    assert_eq!(registration_step(&existing(false, "ACTIVE"), 0, 5), RegistrationStep::Refused(conflict.clone()));
    assert_eq!(registration_step(&existing(true, "REVOKED"), 0, 5), RegistrationStep::Refused(conflict));
    let limit = KeyRefusal { status: 429, class: ErrorClass::Limit, reason: ReasonCode::ClientKeyLimitReached };
    assert_eq!(registration_step(&None, 5, 5), RegistrationStep::Refused(limit));
    assert_eq!(registration_step(&None, 4, 5), RegistrationStep::Bind);
}

#[test]
fn redemption_after_the_plan() {
    assert_eq!(
        redemption_membership(None, &MembershipWrite::Written(1), true),
        Err(Refusal::Denied(ReasonCode::IdentityUnknown))
    );
    assert_eq!(redemption_membership(Some(7), &MembershipWrite::Written(2), true), Ok((7, 2)));
    assert_eq!(
        redemption_membership(Some(7), &MembershipWrite::Raced, true),
        Err(Refusal::Conflict(ReasonCode::TargetStateConflict))
    );
    assert_eq!(
        redemption_membership(Some(7), &MembershipWrite::Duplicate, true),
        Err(Refusal::Conflict(ReasonCode::InviteeAlreadyMember))
    );
    assert_eq!(
        redemption_membership(Some(7), &MembershipWrite::Failed("db".into()), true),
        Err(Refusal::Unavailable("db".into()))
    );
    assert_eq!(
        redemption_membership(Some(7), &MembershipWrite::Written(2), false),
        Err(Refusal::Blocked(ReasonCode::CapabilityBlocked))
    );
}

#[test]
fn the_role_listing_gate() {
    assert_eq!(role_listing_gate(None, false, None, None), Err(503));
    assert_eq!(role_listing_gate(Some(true), false, None, None), Ok((true, false)));
    assert_eq!(role_listing_gate(Some(false), false, None, None), Err(403));
    assert_eq!(role_listing_gate(Some(false), true, None, None), Err(503));
    assert_eq!(role_listing_gate(Some(true), true, Some(false), None), Err(403));
    assert_eq!(role_listing_gate(Some(false), true, Some(true), None), Err(503));
    assert_eq!(role_listing_gate(Some(false), true, Some(true), Some(true)), Ok((false, true)));
    assert_eq!(role_listing_gate(Some(false), true, Some(true), Some(false)), Err(403));
    let rel = |s: &str| Relationship {
        object_type: "tenant".into(),
        object_id: "t".into(),
        relation: "admin".into(),
        subject_principal: s.into(),
    };
    assert_eq!(admin_subjects(&[rel("00000000-0000-0000-0000-000000000005")]), Some(vec![5]));
    assert_eq!(admin_subjects(&[rel("00000000-0000-0000-0000-000000000005"), rel("svc")]), None);
    assert_eq!(admin_subjects(&[]), Some(vec![]));
}

#[test]
fn approval_reports() {
    let w = Some(ActionGateState::Waiting);
    assert_eq!(report_step(false, w, None, 1, ApprovalStatus::Approved), ReportStep::Invalid);
    assert_eq!(report_step(true, None, None, 1, ApprovalStatus::Approved), ReportStep::UnknownWorkflow);
    assert_eq!(report_step(true, w, Some(5), 5, ApprovalStatus::Approved), ReportStep::Stale);
    assert_eq!(report_step(true, w, Some(4), 5, ApprovalStatus::Approved), ReportStep::Apply { close: None, recheck: true });
    assert_eq!(
        report_step(true, w, None, 1, ApprovalStatus::Denied),
        ReportStep::Apply { close: Some((ActionGateState::Denied, ReasonCode::ApprovalDenied)), recheck: false }
    );
    assert_eq!(
        report_step(true, Some(ActionGateState::Allowed), None, 1, ApprovalStatus::Invalidated),
        ReportStep::Apply { close: None, recheck: false }
    );
}

#[test]
fn satisfied_selectors_keep_each_once() {
    let reqs = [ApprovalSelector::TenantAdmin, ApprovalSelector::WorkspaceAdmin, ApprovalSelector::TenantAdmin];
    let ws = Some(7u128);
    assert_eq!(satisfied_selectors(&reqs, &[true, false, true], ws), vec![ApprovalSelector::TenantAdmin]);
    assert_eq!(
        satisfied_selectors(&reqs, &[false, true, true], ws),
        vec![ApprovalSelector::WorkspaceAdmin, ApprovalSelector::TenantAdmin]
    );
    assert!(satisfied_selectors(&reqs, &[false, false, false], ws).is_empty());
}

#[test]
fn selectors_without_an_object_fail_closed() {
    let reqs = [ApprovalSelector::ResourceApprover, ApprovalSelector::WorkspaceAdmin, ApprovalSelector::TenantAdmin];
    assert_eq!(satisfied_selectors(&reqs, &[true, true, false], None), Vec::<ApprovalSelector>::new());
    assert_eq!(satisfied_selectors(&reqs, &[true, true, false], Some(3)), vec![ApprovalSelector::WorkspaceAdmin]);
    let refused = fresh_admission(true, false, &reqs, &[true, true, false], None);
    assert!(!refused.admitted);
    assert_eq!(refused.reason, Some(ReasonCode::ApproverNotEligible));
    let admitted = fresh_admission(true, false, &reqs, &[true, false, true], None);
    assert!(admitted.admitted);
    assert_eq!(admitted.reason, None);
    assert_eq!(admitted.satisfied_selectors, vec![ApprovalSelector::TenantAdmin]);
    let own = fresh_admission(true, true, &reqs, &[true, false, true], None);
    assert_eq!(own.reason, Some(ReasonCode::SelfApprovalDenied));
    assert!(own.satisfied_selectors.is_empty());
    let inactive = fresh_admission(false, false, &reqs, &[true, false, true], None);
    assert_eq!(inactive.reason, Some(ReasonCode::ApproverNotEligible));
}

#[test]
fn scope_transitions() {
    let active = Some((LifecycleState::Provisioning, 3));
    assert_eq!(scope_transition(true, "ACTIVE", active, 3), Ok((LifecycleState::Active, 4)));
    assert_eq!(scope_transition(false, "ACTIVE", active, 3), Err(403));
    assert_eq!(scope_transition(true, "DELETED", active, 3), Err(403));
    assert_eq!(scope_transition(true, "PROVISIONING", active, 3), Err(403));
    assert_eq!(scope_transition(true, "ACTIVE", active, 2), Err(409));
    assert_eq!(scope_transition(true, "SUSPENDED", active, 3), Err(409));
    assert_eq!(scope_transition(true, "ACTIVE", None, 3), Err(409));
}

#[test]
fn dispatch_plans() {
    assert_eq!(dispatch_plan(ActionGateState::Waiting, ActionDispatchState::NotDispatched, None), DispatchPlan::Nothing);
    assert_eq!(dispatch_plan(ActionGateState::Allowed, ActionDispatchState::Dispatched, None), DispatchPlan::Nothing);
    assert_eq!(
        dispatch_plan(ActionGateState::Allowed, ActionDispatchState::Unknown, Some(RefState::Running)),
        DispatchPlan::AlreadyStarted
    );
    assert_eq!(
        dispatch_plan(ActionGateState::Allowed, ActionDispatchState::NotDispatched, Some(RefState::PendingStart)),
        DispatchPlan::Start
    );
    assert_eq!(start_outcome("w", &Ok("w2".into())), ActionDispatchState::Aborted);
}

#[test]
fn owned_admissions() {
    let allow = Evaluation {
        allowed: true,
        scope: Verdict::Allow,
        authorization: Verdict::Allow,
        zed_token: Some("z".into()),
        reason: None,
    };
    assert_eq!(owned_admission(None, &allow), Err(Refusal::Blocked(ReasonCode::CapabilityBlocked)));
    assert_eq!(owned_admission(Some(2), &allow), Ok(OwnedAdmission { version: 2, zed_token: "z".into() }));
    let deny = Evaluation { allowed: false, scope: Verdict::Deny, authorization: Verdict::NotApplicable, zed_token: None, reason: None };
    assert_eq!(owned_admission(Some(2), &deny), Err(Refusal::Denied(ReasonCode::PermissionDenied)));
    let scoped = Evaluation { reason: Some(ReasonCode::ScopeGuardFailed), ..deny };
    assert_eq!(owned_admission(Some(2), &scoped), Err(Refusal::Denied(ReasonCode::ScopeGuardFailed)));
}

#[test]
fn string_parts_are_escaped_as_serde_json_does() {
    let step = relay_step(
        &[Part::Text("EVENT".into()), Part::Text("s".into()), Part::Text("a\"b\\c\n\u{1}é".into())],
        "s",
    );
    assert_eq!(step, RelayStep::Forward(Frame::Event("\"a\\\"b\\\\c\\n\\u0001é\"".to_owned())));
}
