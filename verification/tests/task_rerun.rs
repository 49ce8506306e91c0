use kailo_core::contracts::TaskStatus;
use kailo_core::rerun::{
    closed_execution_matches_projection, converging_state, existing_workflow, identity_check, next_workflow_id,
    rerun_admission, rerunnable_status, resolve_target, still_stranded, terminal_check, terminal_repair,
    version_raised, ExistingWorkflow, OriginalWorkflow, RerunTarget,
};
use kailo_core::lifecycle::{MembershipScope, ScopeKind};
use kailo_core::temporal::{Observed, ObservedState};
use kailo_core::workflow::{parse_workflow_id, workflow_id};

#[test]
fn rerun_requires_matching_temporal_close_not_just_terminal_projection() {
    let mut observed = Observed {
        run_id: "run-1".into(),
        first_run_id: "run-1".into(),
        history_length: 1,
        state: ObservedState::Open,
    };
    assert_eq!(
        closed_execution_matches_projection(Some("FAILED"), Some("run-1"), &observed),
        Err(409),
        "a run still open cannot be rerun even when the terminal projection came first"
    );

    observed.state = ObservedState::Closed(TaskStatus::Failed);
    assert_eq!(closed_execution_matches_projection(Some("FAILED"), Some("run-1"), &observed), Ok(()));
    for (status, run_id) in [(Some("CANCELED"), Some("run-1")), (Some("FAILED"), Some("run-0")), (Some("FAILED"), None)] {
        assert_eq!(
            closed_execution_matches_projection(status, run_id, &observed),
            Err(503),
            "a projection that disagrees with the close is an unknown outcome"
        );
    }
    observed.run_id.clear();
    assert_eq!(
        closed_execution_matches_projection(Some("FAILED"), Some(""), &observed),
        Err(503),
        "an empty run ID is no evidence of a close"
    );
    observed.state = ObservedState::Unrecognized(99);
    assert_eq!(closed_execution_matches_projection(Some("FAILED"), Some(""), &observed), Err(503));
}

#[test]
fn workflow_id_must_match_its_ref() {
    let tenant = uuid::Uuid::new_v4().as_u128();
    let entity = uuid::Uuid::new_v4().as_u128();
    let id = workflow_id("TENANT_LIFECYCLE", tenant, &uuid::Uuid::from_u128(entity).to_string(), 3);
    assert_eq!(parse_workflow_id(&id, "TENANT_LIFECYCLE", tenant), Some((entity, 3)));
    assert_eq!(parse_workflow_id(&id, "WORKSPACE_LIFECYCLE", tenant), None);
    assert_eq!(parse_workflow_id(&id, "TENANT_LIFECYCLE", uuid::Uuid::new_v4().as_u128()), None);
    assert_eq!(parse_workflow_id("kailo:TENANT_LIFECYCLE:x", "TENANT_LIFECYCLE", tenant), None);
}

#[test]
fn converging_states_of_the_rerunnable_kinds() {
    assert_eq!(converging_state("TENANT_LIFECYCLE"), Some("PROVISIONING"));
    assert_eq!(converging_state("WORKSPACE_LIFECYCLE"), Some("PROVISIONING"));
    assert_eq!(converging_state("MEMBERSHIP_PROJECTION"), Some("PROVISIONING"));
    assert_eq!(converging_state("MEMBERSHIP_REVOCATION"), Some("REVOKING"));
    assert_eq!(converging_state("BUZZ_IDENTITY_PROJECTION"), None);
}

#[test]
fn only_unfinished_closes_are_rerunnable() {
    for s in ["FAILED", "CANCELED", "TERMINATED", "TIMED_OUT"] {
        assert!(rerunnable_status(Some(s)));
    }
    assert!(!rerunnable_status(Some("COMPLETED")));
    assert!(!rerunnable_status(Some("RUNNING")));
    assert!(!rerunnable_status(None));
}

fn original(kind: &str, tenant: u128, target: u128, status: Option<&str>, run: Option<&str>) -> OriginalWorkflow {
    OriginalWorkflow {
        kind: kind.into(),
        tenant_id: tenant,
        original_action_execution_id: 77,
        original_target_id: target,
        workspace_id: None,
        projection_state: "TERMINAL".into(),
        status: status.map(str::to_owned),
        run_id: run.map(str::to_owned),
    }
}

#[test]
fn reference_checks_come_before_any_lookup() {
    let (tenant, entity) = (5u128, 6u128);
    let id = workflow_id("TENANT_LIFECYCLE", tenant, &uuid::Uuid::from_u128(entity).to_string(), 4);
    let old = original("TENANT_LIFECYCLE", tenant, entity, Some("FAILED"), Some("r"));
    assert_eq!(identity_check(&old, &id, None), Ok(("PROVISIONING", entity, 4)));
    assert_eq!(identity_check(&old, &id, Some((tenant, 77, "TENANT_LIFECYCLE"))), Ok(("PROVISIONING", entity, 4)));
    assert_eq!(identity_check(&old, &id, Some((tenant, 78, "TENANT_LIFECYCLE"))), Err(403));
    assert_eq!(identity_check(&old, &id, Some((tenant, 77, "WORKSPACE_LIFECYCLE"))), Err(403));
    let other = original("TENANT_LIFECYCLE", tenant, 9, Some("FAILED"), Some("r"));
    assert_eq!(identity_check(&other, &id, None), Err(409));
    let odd = original("BUZZ_IDENTITY_PROJECTION", tenant, entity, Some("FAILED"), Some("r"));
    assert_eq!(identity_check(&odd, &id, None), Err(409));
}

#[test]
fn terminal_check_needs_an_agreeing_rerunnable_close() {
    let closed = Observed { run_id: "r".into(), first_run_id: "r".into(), history_length: 3, state: ObservedState::Closed(TaskStatus::Failed) };
    let old = original("TENANT_LIFECYCLE", 1, 2, Some("FAILED"), Some("r"));
    assert_eq!(terminal_check(&old, Some(&closed)), Ok(()));
    assert_eq!(terminal_check(&old, None), Err(503));
    let mut pending = original("TENANT_LIFECYCLE", 1, 2, Some("FAILED"), Some("r"));
    pending.projection_state = "RUNNING".into();
    assert_eq!(terminal_check(&pending, Some(&closed)), Err(409));
    let done = Observed { run_id: "r".into(), first_run_id: "r".into(), history_length: 3, state: ObservedState::Closed(TaskStatus::Completed) };
    let completed = original("TENANT_LIFECYCLE", 1, 2, Some("COMPLETED"), Some("r"));
    assert_eq!(terminal_check(&completed, Some(&done)), Err(409));
    assert_eq!(terminal_repair(true, &closed), Some(TaskStatus::Failed));
    assert_eq!(terminal_repair(false, &closed), None);
}

#[test]
fn rerun_bookkeeping() {
    let next = next_workflow_id("MEMBERSHIP_PROJECTION", 0, 0, 1);
    assert_eq!(next, "kailo:MEMBERSHIP_PROJECTION:00000000-0000-0000-0000-000000000000:00000000-0000-0000-0000-000000000000:2");
    assert!(still_stranded(Some((3, "REVOKING")), 3, "REVOKING"));
    assert!(!still_stranded(Some((4, "REVOKING")), 3, "REVOKING"));
    assert!(!still_stranded(None, 3, "REVOKING"));
    assert_eq!(rerun_admission(Some("task.rerun"), "task.rerun", Some(true)), Ok(()));
    assert_eq!(rerun_admission(Some("task.cancel"), "task.rerun", Some(true)), Err(403));
    assert_eq!(rerun_admission(Some("task.rerun"), "task.rerun", Some(false)), Err(403));
    assert_eq!(existing_workflow(None, "x"), ExistingWorkflow::Fresh);
    assert_eq!(existing_workflow(Some("x"), "x"), ExistingWorkflow::Same);
    assert_eq!(existing_workflow(Some("y"), "x"), ExistingWorkflow::Other);
    assert!(version_raised(Some(4), 3));
    assert!(!version_raised(Some(3), 3));
    assert!(!version_raised(None, 3));
    assert_eq!(resolve_target("TENANT_LIFECYCLE", false, false), Some(RerunTarget::Scope(ScopeKind::Tenant)));
    assert_eq!(resolve_target("MEMBERSHIP_PROJECTION", false, true), Some(RerunTarget::Membership(MembershipScope::Workspace)));
    assert_eq!(resolve_target("MEMBERSHIP_PROJECTION", true, true), Some(RerunTarget::Membership(MembershipScope::Tenant)));
    assert_eq!(resolve_target("MEMBERSHIP_REVOCATION", false, false), None);
    assert_eq!(RerunTarget::Membership(MembershipScope::Tenant).table(), "identity.tenant_membership");
}
