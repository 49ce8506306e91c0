use kailo_core::contracts::{ActionDispatchState, ActionGateState, ErrorClass, ReasonCode};
use kailo_core::digest::{credential_digest, new_credential, parameter_hash};
use kailo_core::governance::{
    closes_gate, confirmation, parse_command, replay_step, same_request, submission_status, valid_slug,
    ActionCommand, Confirmation, Params, Refusal, ReplayStep, Semantic,
};

fn cmd(key: &str) -> ActionCommand {
    ActionCommand {
        action_key: key.into(),
        idempotency_key: "k".into(),
        name: None,
        principal_id: None,
        slug: None,
        workspace_id: None,
        invitation_id: None,
    }
}

#[test]
fn refusal_classes_and_statuses() {
    assert_eq!(Refusal::Denied(ReasonCode::PermissionDenied).class_status(), (ErrorClass::Denied, 403));
    assert_eq!(Refusal::Blocked(ReasonCode::CapabilityBlocked).class_status(), (ErrorClass::Blocked, 403));
    assert_eq!(Refusal::Precondition(ReasonCode::InvalidParameters).class_status(), (ErrorClass::Precondition, 422));
    assert_eq!(Refusal::Conflict(ReasonCode::TargetStateConflict).class_status(), (ErrorClass::Conflict, 409));
    assert_eq!(Refusal::Unavailable("x".into()).class_status(), (ErrorClass::Unknown, 503));
    assert_eq!(Refusal::Unavailable("x".into()).reason(), ReasonCode::DependencyUnavailable);
    assert_eq!(Refusal::Conflict(ReasonCode::LastTenantAdmin).reason(), ReasonCode::LastTenantAdmin);
}

#[test]
fn semantics_of_action_keys() {
    assert_eq!(Semantic::from_key("workspace.create"), Some(Semantic::WorkspaceCreate));
    assert_eq!(Semantic::from_key("tenant.member.admit"), Some(Semantic::TenantMemberAdmit));
    assert_eq!(Semantic::from_key("tenant.member.invite.revoke"), Some(Semantic::TenantMemberInviteRevoke));
    assert_eq!(Semantic::from_key("workspace.delete"), None);
    assert!(!Semantic::TenantMemberAdmit.bff_submittable());
    assert!(Semantic::WorkspaceCreate.bff_submittable());
    assert!(Semantic::TenantMemberInvite.completes_in_admission());
    assert!(Semantic::TenantRoleGrant.is_role() && Semantic::TenantRoleGrant.is_grant());
    assert!(Semantic::WorkspaceRoleRevoke.is_role() && !Semantic::WorkspaceRoleRevoke.is_grant());
    assert!(!Semantic::WorkspaceCreate.is_role());
}

#[test]
fn slugs_are_lowercase_words_with_hyphens() {
    assert!(valid_slug("team-1"));
    assert!(valid_slug("9lives"));
    assert!(!valid_slug(""));
    assert!(!valid_slug("-team"));
    assert!(!valid_slug("Team"));
    assert!(!valid_slug("te am"));
}

#[test]
fn commands_need_exactly_their_parameters() {
    let mut c = cmd("workspace.create");
    c.slug = Some("team".into());
    c.name = Some("  Team  ".into());
    let p = parse_command(Semantic::WorkspaceCreate, &c).unwrap();
    assert_eq!(p.name.as_deref(), Some("Team"));
    assert_eq!(p.slug.as_deref(), Some("team"));
    c.principal_id = Some("00000000-0000-0000-0000-000000000005".into());
    assert_eq!(
        parse_command(Semantic::WorkspaceCreate, &c),
        Err(Refusal::Precondition(ReasonCode::InvalidParameters))
    );
    let mut g = cmd("tenant.admin.grant");
    g.principal_id = Some("00000000-0000-0000-0000-000000000005".into());
    let p = parse_command(Semantic::TenantRoleGrant, &g).unwrap();
    assert_eq!(p.principal_id, Some(5));
    g.principal_id = Some("not-a-uuid".into());
    assert_eq!(
        parse_command(Semantic::TenantRoleGrant, &g),
        Err(Refusal::Precondition(ReasonCode::InvalidParameters))
    );
    let mut n = cmd("tenant.member.invite");
    n.name = Some("   ".into());
    assert_eq!(
        parse_command(Semantic::TenantMemberInvite, &n),
        Err(Refusal::Precondition(ReasonCode::InvalidParameters))
    );
}

#[test]
fn parameter_hash_binds_action_version_target_and_params() {
    let p = Params { workspace_id: None, principal_id: None, slug: Some("team".into()), name: Some("Team".into()), invitation_id: None };
    assert_eq!(
        parameter_hash("workspace.create", 1, 0, &p),
        "f6050bfaf78a8aed12bb4765fd68c7386a53d0a2535f2b1a933cc755b5ab733c"
    );
    let q = Params { workspace_id: None, principal_id: Some(5), slug: None, name: None, invitation_id: None };
    assert_eq!(
        parameter_hash("tenant.admin.grant", 2, 7, &q),
        "d97e43afe3e1469f054f03e83ead3092800947b257969ee59957d3ad21a816ce"
    );
    assert_eq!(parameter_hash("workspace.create", 1, 0, &p), parameter_hash("workspace.create", 1, 0, &p));
    assert_ne!(parameter_hash("workspace.create", 1, 0, &p), parameter_hash("workspace.create", 2, 0, &p));
}

#[test]
fn credentials_are_random_and_stored_by_digest() {
    assert_eq!(credential_digest("abc"), "ba7816bf8f01cfea414140de5dae2223b00361a396177a9cb410ff61f20015ad");
    let a = new_credential().unwrap();
    let b = new_credential().unwrap();
    assert_eq!(a.len(), 64);
    assert!(a.chars().all(|c| c.is_ascii_hexdigit() && !c.is_ascii_uppercase()));
    assert_ne!(a, b);
}

#[test]
fn submission_replay_and_gate_closing() {
    assert!(closes_gate(&Refusal::Denied(ReasonCode::PermissionDenied)));
    assert!(!closes_gate(&Refusal::Unavailable("db".into())));
    assert_eq!(confirmation("APPROVAL"), Confirmation::Approval);
    assert_eq!(confirmation("NONE"), Confirmation::Direct);
    assert_eq!(confirmation("SYNC"), Confirmation::Blocked);
    assert_eq!(submission_status(ActionGateState::Waiting, ActionDispatchState::NotDispatched, None), Ok(202));
    assert_eq!(submission_status(ActionGateState::Allowed, ActionDispatchState::Dispatched, None), Ok(200));
    assert_eq!(
        submission_status(ActionGateState::Denied, ActionDispatchState::NotDispatched, None),
        Err(Refusal::Denied(ReasonCode::PermissionDenied))
    );
    assert_eq!(
        submission_status(ActionGateState::Denied, ActionDispatchState::NotDispatched, Some(ReasonCode::TargetStateConflict)),
        Err(Refusal::Conflict(ReasonCode::TargetStateConflict))
    );
    assert_eq!(
        submission_status(ActionGateState::Denied, ActionDispatchState::NotDispatched, Some(ReasonCode::LastTenantAdmin)),
        Err(Refusal::Precondition(ReasonCode::LastTenantAdmin))
    );
    let p = Params { workspace_id: None, principal_id: Some(1), slug: None, name: None, invitation_id: None };
    let q = Params { workspace_id: None, principal_id: Some(2), slug: None, name: None, invitation_id: None };
    assert!(same_request("tenant.admin.grant", &Some(p.clone()), "tenant.admin.grant", &p));
    assert!(!same_request("tenant.admin.grant", &Some(p.clone()), "tenant.admin.grant", &q));
    assert!(!same_request("tenant.admin.grant", &None, "tenant.admin.grant", &p));
    assert!(!same_request("tenant.admin.grant", &Some(p.clone()), "tenant.admin.revoke", &p));
    assert_eq!(replay_step(false, ActionGateState::Allowed, ActionDispatchState::Dispatched), ReplayStep::Reject);
    assert_eq!(replay_step(true, ActionGateState::Evaluating, ActionDispatchState::NotDispatched), ReplayStep::Decide);
    assert_eq!(replay_step(true, ActionGateState::Allowed, ActionDispatchState::Unknown), ReplayStep::Dispatch);
    assert_eq!(replay_step(true, ActionGateState::Waiting, ActionDispatchState::NotDispatched), ReplayStep::EnsureApproval);
    assert_eq!(replay_step(true, ActionGateState::Allowed, ActionDispatchState::Dispatched), ReplayStep::Answer);
}
