use kailo_core::governance::Refusal;
use kailo_core::contracts::{ActionDispatchState, ActionGateState, ReasonCode, TaskStatus, WorkflowKind};
use kailo_core::tasks::{
    apply_report, closes_reference, observation, task_view, ProjectTaskStateResponse, ProjectedTask, TaskRow,
};

fn terminal_row(task_status: Option<&str>) -> TaskRow {
    TaskRow {
        id: uuid::Uuid::new_v4().as_u128(),
        operation_id: uuid::Uuid::new_v4().as_u128(),
        action_key: "scope.provision".to_owned(),
        action_version: 1,
        workspace_id: None,
        target_id: uuid::Uuid::new_v4().as_u128(),
        gate_state: "ALLOWED".to_owned(),
        dispatch_state: "DISPATCHED".to_owned(),
        reason_code: None,
        approval_workflow_id: None,
        temporal_workflow_id: Some("workflow".to_owned()),
        created_at: "2025-01-01T00:00:00Z".to_owned(),
        approval_status: None,
        approval_ref_state: None,
        approval_ref_stale: None,
        kind: Some("TENANT_LIFECYCLE".to_owned()),
        ref_state: Some("TERMINAL".to_owned()),
        ref_stale: Some(false),
        task_status: task_status.map(str::to_owned),
        waiting_reason: None,
        observation_gap: Some(false),
    }
}

#[test]
fn terminal_ref_requires_terminal_task_projection() {
    assert_eq!(observation(&terminal_row(None)), Some(ReasonCode::ProjectionDelayed));
    assert_eq!(observation(&terminal_row(Some("RUNNING"))), Some(ReasonCode::ProjectionDelayed));
    assert_eq!(observation(&terminal_row(Some("COMPLETED"))), None);
}

#[test]
fn unknown_persisted_task_enums_do_not_become_absent_fields() {
    let mut row = terminal_row(Some("COMPLETED"));
    row.reason_code = Some("UNRECOGNIZED_REASON".to_owned());
    assert_eq!(task_view(row).unwrap_err().class_status().1, 503);

    let mut row = terminal_row(Some("COMPLETED"));
    row.approval_status = Some("UNRECOGNIZED_APPROVAL".to_owned());
    assert_eq!(task_view(row).unwrap_err().class_status().1, 503);

    let mut row = terminal_row(Some("COMPLETED"));
    row.kind = Some("UNRECOGNIZED_KIND".to_owned());
    assert_eq!(task_view(row).unwrap_err().class_status().1, 503);

    let row = terminal_row(Some("UNRECOGNIZED_TASK"));
    assert_eq!(task_view(row).unwrap_err().class_status().1, 503);
}

#[test]
fn an_unreadable_task_names_its_column() {
    let mut row = terminal_row(Some("COMPLETED"));
    row.reason_code = Some("UNRECOGNIZED_REASON".to_owned());
    assert_eq!(task_view(row).unwrap_err(), Refusal::Unavailable("任务投影的 reason_code 状态值不在契约枚举内".into()));
    let row = terminal_row(Some("UNRECOGNIZED_TASK"));
    assert_eq!(task_view(row).unwrap_err(), Refusal::Unavailable("任务投影的 task_status 状态值不在契约枚举内".into()));
}

#[test]
fn a_readable_row_becomes_its_view() {
    let mut row = terminal_row(Some("COMPLETED"));
    row.operation_id = 1;
    row.workspace_id = Some(2);
    row.reason_code = Some("WAITING_APPROVAL".to_owned());
    let v = task_view(row).unwrap();
    assert_eq!(v.operation_id, "00000000-0000-0000-0000-000000000001");
    assert_eq!(v.workspace_id.as_deref(), Some("00000000-0000-0000-0000-000000000002"));
    assert_eq!(v.gate_state, ActionGateState::Allowed);
    assert_eq!(v.dispatch_state, ActionDispatchState::Dispatched);
    assert_eq!(v.reason, Some(ReasonCode::WaitingApproval));
    assert_eq!(v.workflow_kind, Some(WorkflowKind::TenantLifecycle));
    assert_eq!(v.task_status, Some(TaskStatus::Completed));
    assert_eq!(v.observation, None);
    assert_eq!(v.action_version, 1);
    assert_eq!(v.created_at, "2025-01-01T00:00:00Z");
}

#[test]
fn unknown_outcomes_come_before_delays() {
    let mut row = terminal_row(Some("COMPLETED"));
    row.dispatch_state = "UNKNOWN".to_owned();
    row.observation_gap = Some(true);
    assert_eq!(observation(&row), Some(ReasonCode::ExternalResultUnknown));
    let mut row = terminal_row(Some("COMPLETED"));
    row.observation_gap = Some(true);
    assert_eq!(observation(&row), Some(ReasonCode::ProjectionDelayed));
    let mut row = terminal_row(None);
    row.ref_state = Some("RUNNING".to_owned());
    row.ref_stale = Some(true);
    assert_eq!(observation(&row), Some(ReasonCode::ProjectionDelayed));
    row.task_status = Some("RUNNING".to_owned());
    assert_eq!(observation(&row), None);
    let mut row = terminal_row(Some("COMPLETED"));
    row.approval_ref_state = Some("TERMINAL".to_owned());
    row.approval_status = Some("APPROVED".to_owned());
    assert_eq!(observation(&row), Some(ReasonCode::ProjectionDelayed));
    row.approval_status = Some("CONSUMED".to_owned());
    assert_eq!(observation(&row), None);
}

#[test]
fn projection_upsert_is_monotonic() {
    let a = ProjectedTask { last_event_id: 5, status: TaskStatus::Running, observation_gap: false };
    let b = ProjectedTask { last_event_id: 9, status: TaskStatus::Completed, observation_gap: false };
    let (s1, r1) = apply_report(None, a);
    assert_eq!(r1, ProjectTaskStateResponse { applied: true, last_event_id: 5 });
    let (s2, r2) = apply_report(s1, b);
    assert_eq!(r2, ProjectTaskStateResponse { applied: true, last_event_id: 9 });
    let (s3, r3) = apply_report(s2, a);
    assert_eq!(r3, ProjectTaskStateResponse { applied: false, last_event_id: 9 });
    assert_eq!(s3, Some(b));
    let (s4, r4) = apply_report(s3, b);
    assert!(!r4.applied);
    assert_eq!(s4, Some(b));
    assert!(closes_reference(true, TaskStatus::Completed));
    assert!(!closes_reference(false, TaskStatus::Completed));
    assert!(!closes_reference(true, TaskStatus::Running));
}
