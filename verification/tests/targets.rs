use kailo_core::contracts::{
    ActionDispatchState as D, ActionGateState as G, ApprovalStatus, ReasonCode, WorkflowKind,
};
use kailo_core::dispatch::{drive_step, DriveStep, RefState};
use kailo_core::governance::{denial_refusal, evaluation_object, evaluation_verdict, Refusal, Semantic, Verdict};
use kailo_core::lifecycle::{conditional_update, drives_memberships, drives_scopes, LifecycleState, MembershipScope};
use kailo_core::projection::unconverged_status;
use kailo_core::roles::{target_id, Relationship, RoleTemplate};
use kailo_core::server_keys::{key_action_result, key_admission};
use kailo_core::targets::{
    admission_still_holds, admit_target, entity_advance, role_dispatch, role_object_consistent, role_still_holds,
    role_target, workspace_member_target, EntityAdvance, RoleDispatch, Target,
};

fn template(object: &str, rels: &[&str]) -> RoleTemplate {
    RoleTemplate { role_key: "R".into(), object_type: object.into(), relations: rels.iter().map(|s| s.to_string()).collect() }
}

#[test]
fn role_actions_and_templates_must_agree_on_the_object() {
    assert_eq!(role_object_consistent(Semantic::WorkspaceRoleGrant, "workspace"), Ok(()));
    assert_eq!(role_object_consistent(Semantic::TenantRoleGrant, "tenant"), Ok(()));
    assert_eq!(
        role_object_consistent(Semantic::TenantRoleRevoke, "workspace"),
        Err(Refusal::Blocked(ReasonCode::CapabilityBlocked))
    );
    assert_eq!(
        role_object_consistent(Semantic::WorkspaceRoleRevoke, "tenant"),
        Err(Refusal::Blocked(ReasonCode::CapabilityBlocked))
    );
}

#[test]
fn role_targets() {
    let t = template("workspace", &["admin"]);
    assert_eq!(
        role_target(&t, Semantic::WorkspaceRoleGrant, 1, Some(2), true, None, true),
        Err(Refusal::Precondition(ReasonCode::InvalidParameters))
    );
    assert_eq!(
        role_target(&t, Semantic::WorkspaceRoleGrant, 1, Some(2), false, Some(3), true),
        Err(Refusal::Denied(ReasonCode::ScopeGuardFailed))
    );
    assert_eq!(
        role_target(&t, Semantic::WorkspaceRoleGrant, 1, None, true, Some(3), true),
        Err(Refusal::Precondition(ReasonCode::InvalidParameters))
    );
    assert_eq!(
        role_target(&t, Semantic::WorkspaceRoleGrant, 1, Some(2), true, Some(3), false),
        Err(Refusal::Precondition(ReasonCode::TargetNotFound))
    );
    let ok = role_target(&t, Semantic::WorkspaceRoleGrant, 1, Some(2), true, Some(3), true).unwrap();
    assert_eq!(ok, Target { id: target_id(&t, 2, 3), version: 0, workspace_id: Some(2) });
    let tt = template("tenant", &["admin"]);
    let ok = role_target(&tt, Semantic::TenantRoleRevoke, 1, None, false, Some(3), true).unwrap();
    assert_eq!(ok, Target { id: target_id(&tt, 1, 3), version: 0, workspace_id: None });
}

#[test]
fn workspace_member_targets() {
    assert_eq!(
        workspace_member_target(Semantic::WorkspaceMemberAdd, Some(9), false, None, true, None),
        Err(Refusal::Denied(ReasonCode::ScopeGuardFailed))
    );
    assert_eq!(
        workspace_member_target(Semantic::WorkspaceMemberRevoke, Some(9), true, Some((5, 2, LifecycleState::Active)), true, None),
        Ok(Target { id: 5, version: 2, workspace_id: Some(9) })
    );
    assert_eq!(
        workspace_member_target(Semantic::WorkspaceMemberRevoke, Some(9), true, Some((5, 2, LifecycleState::Revoked)), true, None),
        Err(Refusal::Conflict(ReasonCode::TargetStateConflict))
    );
    assert_eq!(
        workspace_member_target(Semantic::WorkspaceMemberRevoke, Some(9), true, None, true, None),
        Err(Refusal::Precondition(ReasonCode::TargetNotFound))
    );
    assert_eq!(
        workspace_member_target(Semantic::WorkspaceMemberAdd, Some(9), true, None, false, None),
        Err(Refusal::Precondition(ReasonCode::TargetNotFound))
    );
    assert_eq!(
        workspace_member_target(Semantic::WorkspaceMemberAdd, Some(9), true, None, true, Some(77)),
        Ok(Target { id: 77, version: 0, workspace_id: Some(9) })
    );
    assert_eq!(
        workspace_member_target(Semantic::WorkspaceMemberAdd, Some(9), true, Some((5, 3, LifecycleState::Revoked)), true, None),
        Ok(Target { id: 5, version: 3, workspace_id: Some(9) })
    );
    assert_eq!(
        workspace_member_target(Semantic::WorkspaceMemberAdd, Some(9), true, Some((5, 3, LifecycleState::Active)), true, None),
        Err(Refusal::Conflict(ReasonCode::TargetStateConflict))
    );
}

#[test]
fn only_invited_members_are_admitted() {
    assert_eq!(admit_target(Some((4, 1, LifecycleState::Invited))), Ok(Target { id: 4, version: 1, workspace_id: None }));
    assert_eq!(admit_target(Some((4, 1, LifecycleState::Active))), Err(Refusal::Conflict(ReasonCode::TargetStateConflict)));
    assert!(admit_target(None).is_err());
}

#[test]
fn an_admission_holds_only_on_the_same_target_version_and_parameters() {
    let t = Target { id: 1, version: 4, workspace_id: None };
    assert_eq!(admission_still_holds(&t, 1, Some(4), "h", "h"), Ok(()));
    let conflict = Err(Refusal::Conflict(ReasonCode::TargetStateConflict));
    assert_eq!(admission_still_holds(&t, 2, Some(4), "h", "h"), conflict);
    assert_eq!(admission_still_holds(&t, 1, Some(5), "h", "h"), conflict);
    assert_eq!(admission_still_holds(&t, 1, None, "h", "h"), conflict);
    assert_eq!(admission_still_holds(&t, 1, Some(4), "h", "g"), conflict);
}

#[test]
fn allowed_actions_advance_their_entity() {
    assert_eq!(entity_advance(Semantic::WorkspaceCreate, 0), Ok(EntityAdvance::CreateWorkspace));
    assert_eq!(entity_advance(Semantic::WorkspaceMemberAdd, 0), Ok(EntityAdvance::CreateWorkspaceMembership));
    assert_eq!(entity_advance(Semantic::WorkspaceMemberAdd, 2), Ok(EntityAdvance::RestoreWorkspaceMembership));
    assert_eq!(entity_advance(Semantic::WorkspaceMemberRevoke, 2), Ok(EntityAdvance::CloseWorkspaceMembership));
    assert_eq!(entity_advance(Semantic::TenantMemberAdmit, 1), Ok(EntityAdvance::AdmitTenantMembership));
    assert_eq!(entity_advance(Semantic::TenantMemberRevoke, 1), Ok(EntityAdvance::CloseTenantMembership));
    assert_eq!(entity_advance(Semantic::TenantRoleGrant, 0), Err(Refusal::Blocked(ReasonCode::CapabilityBlocked)));
}

#[test]
fn role_dispatch_rechecks_its_facts() {
    let t = Target { id: 8, version: 0, workspace_id: None };
    assert_eq!(role_still_holds(Ok(t.clone()), 8, false, true), Ok(()));
    assert_eq!(role_still_holds(Ok(t.clone()), 8, true, false), Ok(()));
    assert_eq!(role_still_holds(Ok(t.clone()), 8, true, true), Err(Refusal::Precondition(ReasonCode::LastTenantAdmin)));
    assert_eq!(role_still_holds(Ok(t), 9, false, false), Err(Refusal::Conflict(ReasonCode::TargetStateConflict)));
    assert_eq!(
        role_still_holds(Err(Refusal::Unavailable("db".into())), 8, false, false),
        Err(Refusal::Unavailable("db".into()))
    );
    assert_eq!(role_dispatch(&Ok(()), true, true), RoleDispatch::Write { delete: false });
    assert_eq!(role_dispatch(&Ok(()), false, false), RoleDispatch::Write { delete: true });
    assert_eq!(
        role_dispatch(&Err(Refusal::Precondition(ReasonCode::LastTenantAdmin)), false, true),
        RoleDispatch::Abort { reason: ReasonCode::LastTenantAdmin, retract: false }
    );
    assert_eq!(
        role_dispatch(&Err(Refusal::Conflict(ReasonCode::TargetStateConflict)), true, true),
        RoleDispatch::Abort { reason: ReasonCode::TargetStateConflict, retract: true }
    );
}

#[test]
fn templates_expand_to_relationships_and_are_held_only_whole() {
    let t = template("workspace", &["admin", "member"]);
    let rels = t.expand(1, 2);
    assert_eq!(
        rels,
        vec![
            Relationship {
                object_type: "workspace".into(),
                object_id: "00000000-0000-0000-0000-000000000001".into(),
                relation: "admin".into(),
                subject_principal: "00000000-0000-0000-0000-000000000002".into(),
            },
            Relationship {
                object_type: "workspace".into(),
                object_id: "00000000-0000-0000-0000-000000000001".into(),
                relation: "member".into(),
                subject_principal: "00000000-0000-0000-0000-000000000002".into(),
            },
        ]
    );
    assert!(t.held_in(&rels));
    assert!(!t.held_in(&rels[..1]));
    assert!(template("workspace", &[]).held_in(&[]));
}

#[test]
fn admission_denials_and_verdicts() {
    assert_eq!(denial_refusal(ReasonCode::ScopeGuardFailed), Refusal::Denied(ReasonCode::ScopeGuardFailed));
    assert_eq!(denial_refusal(ReasonCode::PermissionDenied), Refusal::Denied(ReasonCode::PermissionDenied));
    assert_eq!(denial_refusal(ReasonCode::LastTenantAdmin), Refusal::Precondition(ReasonCode::LastTenantAdmin));

    assert_eq!(evaluation_object(true, "tenant", 1, Some(2)).ok(), Some(1));
    assert_eq!(evaluation_object(true, "workspace", 1, Some(2)).ok(), Some(2));
    let e = evaluation_object(true, "workspace", 1, None).unwrap_err();
    assert!(!e.allowed && e.scope == Verdict::Deny && e.reason == Some(ReasonCode::ScopeGuardFailed));
    assert!(evaluation_object(false, "tenant", 1, None).is_err());

    let ok = evaluation_verdict(true, true, "use", "workspace", true, "z1".into());
    assert!(ok.allowed && ok.reason.is_none() && ok.zed_token.as_deref() == Some("z1"));
    let manage = evaluation_verdict(true, false, "manage", "workspace", true, "z2".into());
    assert!(manage.allowed);
    let outside = evaluation_verdict(true, false, "use", "workspace", true, "z3".into());
    assert_eq!(outside.reason, Some(ReasonCode::ScopeGuardFailed));
    assert_eq!(outside.authorization, Verdict::NotApplicable);
    let refused = evaluation_verdict(false, false, "use", "tenant", false, "z4".into());
    assert_eq!((refused.allowed, refused.scope, refused.authorization), (false, Verdict::Allow, Verdict::Deny));
    assert_eq!(refused.reason, Some(ReasonCode::PermissionDenied));
}

#[test]
fn semantics_that_serialize_on_the_tenant() {
    assert!(Semantic::TenantRoleGrant.serializes_on_tenant());
    assert!(Semantic::WorkspaceRoleRevoke.serializes_on_tenant());
    assert!(Semantic::TenantMemberRevoke.serializes_on_tenant());
    assert!(!Semantic::WorkspaceCreate.serializes_on_tenant());
    assert!(Refusal::Unavailable("x".into()).is_unavailable());
    assert!(!Refusal::Denied(ReasonCode::PermissionDenied).is_unavailable());
}

#[test]
fn reconciliation_drives_only_what_is_due() {
    assert_eq!(drive_step(G::Evaluating, D::NotDispatched, true, None, None), DriveStep::ExpireEvaluation);
    assert_eq!(drive_step(G::Evaluating, D::NotDispatched, false, None, None), DriveStep::Nothing);
    assert_eq!(
        drive_step(G::Waiting, D::NotDispatched, false, Some(RefState::Running), Some(ApprovalStatus::Approved)),
        DriveStep::Recheck
    );
    assert_eq!(
        drive_step(G::Waiting, D::NotDispatched, true, Some(RefState::PendingStart), None),
        DriveStep::RedriveApprovalStart
    );
    assert_eq!(
        drive_step(G::Waiting, D::NotDispatched, false, Some(RefState::Terminal), Some(ApprovalStatus::Waiting)),
        DriveStep::ExpireLostApproval
    );
    assert_eq!(
        drive_step(G::Waiting, D::NotDispatched, false, Some(RefState::Terminal), Some(ApprovalStatus::Denied)),
        DriveStep::Nothing
    );
    assert_eq!(drive_step(G::Allowed, D::Unknown, true, None, None), DriveStep::RedriveDispatch);
    assert_eq!(drive_step(G::Allowed, D::Dispatched, false, None, Some(ApprovalStatus::Approved)), DriveStep::ResendConsume);
    assert_eq!(drive_step(G::Revoked, D::NotDispatched, false, None, Some(ApprovalStatus::Approved)), DriveStep::ResendInvalidate);
    assert_eq!(drive_step(G::Allowed, D::Aborted, false, None, Some(ApprovalStatus::Approved)), DriveStep::ResendInvalidate);
    assert_eq!(DriveStep::ResendConsume.label(), "CONSUME_RESENT");
    assert_eq!(DriveStep::Nothing.label(), "NOTHING_TO_DO");
}

#[test]
fn transitions_follow_the_machine_and_the_version() {
    assert!(drives_memberships(Some(WorkflowKind::MembershipProjection)));
    assert!(!drives_memberships(Some(WorkflowKind::TenantLifecycle)));
    assert!(drives_scopes(Some(WorkflowKind::WorkspaceLifecycle)));
    assert!(!drives_scopes(None));
    assert_eq!(
        conditional_update(Some(MembershipScope::Tenant), LifecycleState::Provisioning, 3, 3, LifecycleState::Active),
        Ok((LifecycleState::Active, 4))
    );
    assert_eq!(
        conditional_update(Some(MembershipScope::Tenant), LifecycleState::Provisioning, 3, 2, LifecycleState::Active),
        Err(409)
    );
    assert_eq!(
        conditional_update(Some(MembershipScope::Tenant), LifecycleState::Revoked, 3, 3, LifecycleState::Active),
        Err(409)
    );
}

#[test]
fn key_actions() {
    assert_eq!(key_admission(true), Ok(()));
    assert_eq!(key_admission(false), Err(403));
    assert_eq!(key_action_result(true), "REVOKING");
    assert_eq!(key_action_result(false), "RECONCILING");
    assert_eq!(unconverged_status(), 503);
}
