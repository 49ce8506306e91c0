use kailo_core::approval::{
    add_selector, approval_observation, approval_ready, approval_resolvable, approval_workflow_id, approver_admission,
    report_gate, selector_object, self_approval_forbidden, triggers_recheck, update_refusal,
};
use kailo_core::contracts::{
    ActionDispatchState, ActionGateState, ApprovalOwnerRequirement, ApprovalSelector, ApprovalSelfApproval,
    ApprovalStatus, AuditEventType, ReasonCode, TaskStatus, WorkflowKind,
};
use kailo_core::dispatch::{already_started, dispatch_record, launch_of, needs_dispatch, start_outcome, Launch, RefState};
use kailo_core::governance::{Refusal, Semantic};
use kailo_core::launch::{
    launch_admission, membership_kind, membership_launch, scope_kind_text, scope_launch, start_result,
};
use kailo_core::lifecycle::{
    is_membership_edge, is_scope_edge, membership_audit_type, membership_sources, revokes_sessions, scope_sources,
    transition_gate, LifecycleState, MembershipScope, ScopeKind,
};
use kailo_core::paging::{fetch_limit, keep_allowed, next_cursor, next_offset, page_rows, requested_offset, RoleWorkspaceQuery};
use kailo_core::roster::{add_drift, diff, drift_outcome, parse_positive_seconds, Config, Drift};
use kailo_core::service::{
    bearer_token, caller_allowed, check_answer, check_url, consistency_json, key_algorithm, preshared_key_usable,
    Consistency, ServiceAuthError, TokenAlgorithm,
};
use kailo_core::targets::{invite_target, tenant_member_revoke_target, workspace_create_target, Target};
use kailo_core::tasks::service_auth_status;
use kailo_core::temporal::{
    describe_failure, observed_state, retention_parts, retry_with_fresh_token, start_error_result, start_failure,
    ObservedState, StartFailure, Started, TemporalError,
};
use kailo_core::reconcile::{object_tenant, ObjectTenant};
use kailo_core::views::{workspace_views, WorkspaceRow};
use kailo_core::workflow::{is_terminal, parse_keyed_workflow_id, workflow_id};

#[test]
fn wire_values_read_back() {
    for s in [ReasonCode::LastTenantAdmin, ReasonCode::InvitationExpired, ReasonCode::WaitingApproval] {
        assert_eq!(ReasonCode::from_wire(s.wire()), Some(s));
    }
    assert_eq!(ReasonCode::LastTenantAdmin.wire(), "LAST_TENANT_ADMIN");
    assert_eq!(ReasonCode::from_wire("NOT_A_REASON"), None);
    assert_eq!(TaskStatus::from_wire("TIMED_OUT"), Some(TaskStatus::TimedOut));
    assert_eq!(ApprovalOwnerRequirement::NoRequirement.wire(), "NONE");
    assert_eq!(ApprovalOwnerRequirement::from_wire("NONE"), Some(ApprovalOwnerRequirement::NoRequirement));
    assert_eq!(LifecycleState::from_wire("REVOKING"), Some(LifecycleState::Revoking));
    assert_eq!(LifecycleState::Error.wire(), "ERROR");
    assert_eq!(WorkflowKind::from_wire("MEMBERSHIP_REVOCATION"), Some(WorkflowKind::MembershipRevocation));
}

#[test]
fn identifiers_and_workflow_ids() {
    let id = 0x0123_4567_89ab_cdef_fedc_ba98_7654_3210_u128;
    let shown = workspace_views(&[WorkspaceRow { id, slug: "s".into(), name: "n".into() }]);
    assert_eq!(shown[0].id, "01234567-89ab-cdef-fedc-ba9876543210");
    assert_eq!(object_tenant("tenant", "01234567-89AB-cdef-fedc-ba9876543210"), ObjectTenant::Known(Some(id)));
    assert_eq!(object_tenant("tenant", "0123456789abcdeffedcba9876543210"), ObjectTenant::Known(Some(id)));
    assert_eq!(object_tenant("tenant", "not-a-uuid"), ObjectTenant::Known(None));
    assert_eq!(
        workflow_id("TENANT_LIFECYCLE", 1, "e", -2),
        "kailo:TENANT_LIFECYCLE:00000000-0000-0000-0000-000000000001:e:-2"
    );
    assert_eq!(parse_keyed_workflow_id("kailo:K:00000000-0000-0000-0000-000000000001:pk:7", "K", 1), Some(("pk".to_string(), 7)));
    assert_eq!(parse_keyed_workflow_id("kailo:K:00000000-0000-0000-0000-000000000001:pk:x", "K", 1), None);
    assert_eq!(
        approval_workflow_id(1, 2),
        "kailo:APPROVAL:00000000-0000-0000-0000-000000000001:00000000-0000-0000-0000-000000000002:1"
    );
    assert!(is_terminal(&TaskStatus::Canceled));
    assert!(!is_terminal(&TaskStatus::Running));
}

#[test]
fn lifecycle_machines() {
    assert!(is_membership_edge(MembershipScope::Tenant, LifecycleState::Invited, LifecycleState::Provisioning));
    assert!(!is_membership_edge(MembershipScope::Workspace, LifecycleState::Invited, LifecycleState::Provisioning));
    assert!(is_membership_edge(MembershipScope::Tenant, LifecycleState::Revoking, LifecycleState::Revoked));
    assert!(!is_membership_edge(MembershipScope::Tenant, LifecycleState::Revoked, LifecycleState::Active));
    assert!(is_scope_edge(LifecycleState::Suspended, LifecycleState::Restoring));
    assert!(!is_scope_edge(LifecycleState::Active, LifecycleState::Revoked));
    assert_eq!(scope_sources("ACTIVE"), vec![LifecycleState::Provisioning, LifecycleState::Restoring]);
    assert!(scope_sources("NOPE").is_empty());
    let to_revoking = membership_sources(MembershipScope::Tenant, "REVOKING");
    assert!(to_revoking.contains(&LifecycleState::Active) && to_revoking.contains(&LifecycleState::Error));
    assert_eq!(transition_gate(false, &vec![LifecycleState::Active]), Err(403));
    assert_eq!(transition_gate(true, &vec![]), Err(403));
    assert_eq!(transition_gate(true, &vec![LifecycleState::Active]), Ok(()));
    assert_eq!(membership_audit_type(LifecycleState::Revoked), AuditEventType::Revocation);
    assert!(revokes_sessions(MembershipScope::Tenant, LifecycleState::Revoking));
    assert!(!revokes_sessions(MembershipScope::Workspace, LifecycleState::Revoking));
}

#[test]
fn approval_decisions() {
    assert!(approval_resolvable(ApprovalOwnerRequirement::NoRequirement, &[ApprovalSelector::TenantAdmin], false));
    assert!(!approval_resolvable(ApprovalOwnerRequirement::NoRequirement, &[ApprovalSelector::WorkspaceAdmin], false));
    assert!(approval_resolvable(ApprovalOwnerRequirement::NoRequirement, &[ApprovalSelector::WorkspaceAdmin], true));
    assert!(!approval_resolvable(ApprovalOwnerRequirement::NoRequirement, &[ApprovalSelector::ResourceApprover], true));
    assert!(approval_ready(Some((ApprovalStatus::Approved, true))));
    assert!(!approval_ready(Some((ApprovalStatus::Approved, false))));
    assert!(!approval_ready(None));
    assert_eq!(report_gate(ApprovalStatus::Denied), Some((ActionGateState::Denied, ReasonCode::ApprovalDenied)));
    assert_eq!(report_gate(ApprovalStatus::Cancelled), Some((ActionGateState::Revoked, ReasonCode::ApprovalWithdrawn)));
    assert_eq!(report_gate(ApprovalStatus::Approved), None);
    assert!(triggers_recheck(ApprovalStatus::Approved, ActionGateState::Waiting));
    assert!(!triggers_recheck(ApprovalStatus::Approved, ActionGateState::Allowed));
    assert_eq!(update_refusal(Some(ReasonCode::ApproverNotEligible), "m".into()), Refusal::Denied(ReasonCode::ApproverNotEligible));
    assert_eq!(update_refusal(Some(ReasonCode::DependencyUnavailable), "m".into()), Refusal::Unavailable("m".into()));
    assert_eq!(update_refusal(Some(ReasonCode::DuplicateDecision), "m".into()), Refusal::Conflict(ReasonCode::DuplicateDecision));
    assert_eq!(update_refusal(None, "m".into()), Refusal::Conflict(ReasonCode::ApprovalNotOpen));
    assert_eq!(selector_object(ApprovalSelector::WorkspaceAdmin, 1, Some(2)), Some((true, 2)));
    assert_eq!(selector_object(ApprovalSelector::ResourceApprover, 1, Some(2)), None);
    let mut s = vec![];
    add_selector(&mut s, ApprovalSelector::TenantAdmin);
    add_selector(&mut s, ApprovalSelector::TenantAdmin);
    assert_eq!(s, vec![ApprovalSelector::TenantAdmin]);
    assert!(self_approval_forbidden(ApprovalSelfApproval::Deny, 3, 3));
    assert!(!self_approval_forbidden(ApprovalSelfApproval::Deny, 3, 4));
    let a = approver_admission(true, true, vec![ApprovalSelector::TenantAdmin]);
    assert!(!a.admitted && a.reason == Some(ReasonCode::SelfApprovalDenied));
    let a = approver_admission(true, false, vec![]);
    assert_eq!(a.reason, Some(ReasonCode::ApproverNotEligible));
    let a = approver_admission(true, false, vec![ApprovalSelector::TenantAdmin]);
    assert!(a.admitted && a.satisfied_selectors == vec![ApprovalSelector::TenantAdmin]);
    assert_eq!(approval_observation(true, false, ApprovalStatus::Approved), Some(ReasonCode::ExternalResultUnknown));
    assert_eq!(approval_observation(false, true, ApprovalStatus::Waiting), Some(ReasonCode::ProjectionDelayed));
    assert_eq!(approval_observation(false, true, ApprovalStatus::Denied), None);
}

#[test]
fn dispatch_decisions() {
    assert!(needs_dispatch(ActionGateState::Allowed, ActionDispatchState::Unknown));
    assert!(!needs_dispatch(ActionGateState::Allowed, ActionDispatchState::Aborted));
    assert!(!needs_dispatch(ActionGateState::Waiting, ActionDispatchState::NotDispatched));
    assert_eq!(launch_of(Semantic::WorkspaceCreate), Some(Launch::Scope(ScopeKind::Workspace)));
    assert_eq!(launch_of(Semantic::TenantMemberAdmit), Some(Launch::Membership(MembershipScope::Tenant)));
    assert_eq!(launch_of(Semantic::TenantRoleGrant), None);
    assert!(already_started(Some(RefState::Terminal)));
    assert_eq!(RefState::from_wire("RUNNING"), Some(RefState::Running));
    assert_eq!(start_outcome("w", &Ok("w".to_string())), ActionDispatchState::Dispatched);
    assert_eq!(start_outcome("w", &Ok("v".to_string())), ActionDispatchState::Aborted);
    assert_eq!(start_outcome("w", &Err(503)), ActionDispatchState::Unknown);
    assert_eq!(start_outcome("w", &Err(409)), ActionDispatchState::Aborted);
    assert_eq!(dispatch_record(ActionDispatchState::Unknown), ("dispatch-unknown", "DISPATCH_RESULT_UNKNOWN"));
}

#[test]
fn target_decisions() {
    assert_eq!(workspace_create_target(false, Some(7)), Ok(Target { id: 7, version: 0, workspace_id: None }));
    assert_eq!(workspace_create_target(true, None), Err(Refusal::Conflict(ReasonCode::TargetStateConflict)));
    assert_eq!(
        tenant_member_revoke_target(Some((3, 2, LifecycleState::Active))),
        Ok(Target { id: 3, version: 2, workspace_id: None })
    );
    assert_eq!(
        tenant_member_revoke_target(Some((3, 2, LifecycleState::Invited))),
        Err(Refusal::Conflict(ReasonCode::TargetStateConflict))
    );
    assert_eq!(tenant_member_revoke_target(None), Err(Refusal::Precondition(ReasonCode::TargetNotFound)));
    assert_eq!(invite_target(Some(9)), Ok(Target { id: 9, version: 0, workspace_id: None }));
    let (a, b) = (invite_target(None).unwrap(), invite_target(None).unwrap());
    assert_ne!(a.id, b.id);
    assert_eq!(a.id >> 76 & 0xf, 4);
    assert_eq!(a.id >> 62 & 0x3, 2);
    assert_eq!((a.version, a.workspace_id), (0, None));
    let w = workspace_create_target(false, None).unwrap();
    assert_eq!(w.id >> 76 & 0xf, 4);
}

#[test]
fn temporal_answers() {
    assert_eq!(start_failure(6), StartFailure::AlreadyStarted);
    assert_eq!(start_failure(3), StartFailure::Rejected);
    assert_eq!(start_failure(14), StartFailure::Unknown);
    assert_eq!(start_error_result(6, "m".into(), "d".into()), Ok(Started::AlreadyStarted));
    assert_eq!(start_error_result(9, "m".into(), "d".into()), Err(TemporalError::Rejected("m".into())));
    assert_eq!(start_error_result(4, "m".into(), "d".into()), Err(TemporalError::Unknown("d".into())));
    assert!(retry_with_fresh_token(0, 16));
    assert!(!retry_with_fresh_token(1, 16));
    assert!(!retry_with_fresh_token(0, 14));
    assert_eq!(observed_state(8), ObservedState::Open);
    assert_eq!(observed_state(7), ObservedState::Closed(TaskStatus::TimedOut));
    assert_eq!(observed_state(6), ObservedState::Unrecognized(6));
    assert_eq!(retention_parts(-5, 7), (0, 7));
    assert!(matches!(describe_failure(5, "d".into()), Ok(None)));
    assert!(matches!(describe_failure(14, "d".into()), Err(TemporalError::Unknown(_))));
}

#[test]
fn lifecycle_starts() {
    assert_eq!(start_result(true, Ok(Started::AlreadyStarted)), Err(409));
    assert_eq!(start_result(false, Ok(Started::Created { run_id: "r".into() })), Ok(Some("r".into())));
    assert_eq!(start_result(false, Ok(Started::AlreadyStarted)), Ok(None));
    assert_eq!(start_result(false, Err(TemporalError::Rejected("x".into()))), Err(409));
    assert_eq!(start_result(false, Err(TemporalError::Token("x".into()))), Err(503));
    assert_eq!(membership_kind("PROVISIONING"), Some("MEMBERSHIP_PROJECTION"));
    assert_eq!(membership_kind("REVOKING"), Some("MEMBERSHIP_REVOCATION"));
    assert_eq!(membership_kind("ACTIVE"), None);
    assert_eq!(scope_kind_text(ScopeKind::Workspace), "WORKSPACE_LIFECYCLE");
    let (id, kind, env) = membership_launch(MembershipScope::Workspace, 2, 1, 3, 4, 5, "REVOKING").unwrap();
    assert_eq!(kind, "MEMBERSHIP_REVOCATION");
    assert_eq!(id, "kailo:MEMBERSHIP_REVOCATION:00000000-0000-0000-0000-000000000001:00000000-0000-0000-0000-000000000002:5");
    assert_eq!(env.membership.scope, "WORKSPACE");
    assert_eq!(env.membership.relation_object_id, "00000000-0000-0000-0000-000000000004");
    assert!(membership_launch(MembershipScope::Tenant, 2, 1, 3, 1, 5, "ACTIVE").is_err());
    let (_, k, env) = scope_launch(ScopeKind::Workspace, 2, 1, 0, "PROVISIONING").unwrap();
    assert_eq!(k, "WORKSPACE_LIFECYCLE");
    assert_eq!(env.scope.tenant_id.as_deref(), Some("00000000-0000-0000-0000-000000000001"));
    let (_, _, env) = scope_launch(ScopeKind::Tenant, 1, 1, 0, "PROVISIONING").unwrap();
    assert_eq!(env.scope.tenant_id, None);
    assert!(scope_launch(ScopeKind::Tenant, 1, 1, 0, "ACTIVE").is_err());
    assert_eq!(launch_admission(false), Err(403));
}

#[test]
fn pages() {
    assert_eq!(fetch_limit(50), Some(51));
    assert_eq!(fetch_limit(i64::MAX), None);
    assert_eq!(page_rows(vec![1, 2, 3], 2), (vec![1, 2], true));
    assert_eq!(page_rows(vec![1, 2], 2), (vec![1, 2], false));
    assert_eq!(requested_offset(&RoleWorkspaceQuery { offset: None }), Ok(0));
    assert_eq!(requested_offset(&RoleWorkspaceQuery { offset: Some(-1) }), Err(400));
    assert_eq!(next_offset(10, 5, true), Ok(Some(15)));
    assert_eq!(next_offset(10, 5, false), Ok(None));
    assert_eq!(next_offset(i64::MAX, 1, true), Err(400));
    assert_eq!(next_cursor(&[4, 8], true), Some(8));
    assert_eq!(next_cursor(&[4, 8], false), None);
    assert_eq!(keep_allowed(&[1, 2, 3, 4], &[4, 2]), vec![2, 4]);
}

#[test]
fn service_authentication_and_checks() {
    assert_eq!(bearer_token(Some("Bearer abc")), Ok("abc".to_string()));
    assert_eq!(bearer_token(Some("Bearer ")), Err(ServiceAuthError::TokenMissing));
    assert_eq!(bearer_token(Some("Basic abc")), Err(ServiceAuthError::TokenMissing));
    assert_eq!(bearer_token(None), Err(ServiceAuthError::TokenMissing));
    assert_eq!(key_algorithm(Some("RS256")), Ok(TokenAlgorithm::RS256));
    assert_eq!(key_algorithm(Some("EdDSA")), Ok(TokenAlgorithm::EdDSA));
    assert_eq!(key_algorithm(Some("HS256")), Err(ServiceAuthError::TokenInvalid));
    assert_eq!(key_algorithm(None), Err(ServiceAuthError::TokenInvalid));
    assert_eq!(caller_allowed("worker".into(), "worker"), Ok("worker".to_string()));
    assert_eq!(caller_allowed("web".into(), "worker"), Err(ServiceAuthError::TokenInvalid));
    assert_eq!(service_auth_status(ServiceAuthError::KeysUnavailable), 503);
    assert_eq!(service_auth_status(ServiceAuthError::TokenInvalid), 401);
    assert_eq!(consistency_json(Consistency::FullyConsistent), "{\"fullyConsistent\":true}");
    let c = check_answer(true, "PERMISSIONSHIP_HAS_PERMISSION", Some("t".into())).ok().unwrap();
    assert!(c.allowed && c.zed_token == "t");
    let c = check_answer(true, "PERMISSIONSHIP_CONDITIONAL_PERMISSION", None).ok().unwrap();
    assert!(!c.allowed && c.zed_token.is_empty());
    assert!(check_answer(false, "PERMISSIONSHIP_HAS_PERMISSION", None).is_err());
    assert_eq!(check_url("http://spicedb:8443//"), "http://spicedb:8443/v1/permissions/check");
    assert!(preshared_key_usable("k") && !preshared_key_usable(""));
}

#[test]
fn roster_drift_counts_distinct_settled_keys() {
    let s = |v: &[&str]| v.iter().map(|x| x.to_string()).collect::<Vec<_>>();
    let d = diff(&s(&["a", "b", "b", "x"]), &s(&["a", "c", "c", "p"]), &s(&["p", "x"]));
    assert_eq!(d, Drift { missing: 1, unexpected: 1 });
    assert_eq!(drift_outcome(d), "DRIFTED");
    assert_eq!(drift_outcome(Drift { missing: 0, unexpected: 0 }), "CONSISTENT");
    let mut total = Drift { missing: 1, unexpected: 0 };
    add_drift(&mut total, d);
    assert_eq!(total, Drift { missing: 2, unexpected: 1 });
    assert_eq!(parse_positive_seconds("30"), Some(30));
    assert_eq!(parse_positive_seconds("0"), None);
    assert_eq!(Config::from_value("x"), None);
    assert_eq!(Config::from_value("5").map(|c| c.interval_seconds), Some(5));
}
