//! The caller's own governed actions and how current their projection is.
//!
//! A projection is shown as a result only when it can be vouched for; otherwise
//! the view carries the reason it must be shown as pending reconciliation,
//! never as success or failure. A stored value outside a contract enum is an
//! error, not an absent field.

use vstd::prelude::*;

use crate::contracts::{
    ActionDispatchState, ActionGateState, ApprovalStatus, ReasonCode, TaskStatus, TaskView, WorkflowKind,
};
use crate::governance::Refusal;
use crate::ids::{hyphenated, uuid_text};
use crate::digest::push_chars;
use crate::text::{chars_of, string_from_chars, text_eq};

verus! {

/// A stored action of the caller with its workflow references and projections.
#[derive(Debug, Clone, PartialEq, Eq)]
pub struct TaskRow {
    pub id: u128,
    pub operation_id: u128,
    pub action_key: String,
    pub action_version: i32,
    pub workspace_id: Option<u128>,
    pub target_id: u128,
    pub gate_state: String,
    pub dispatch_state: String,
    pub reason_code: Option<String>,
    pub approval_workflow_id: Option<String>,
    pub temporal_workflow_id: Option<String>,
    /// RFC 3339, UTC.
    pub created_at: String,
    pub approval_status: Option<String>,
    pub approval_ref_state: Option<String>,
    /// Whether the approval workflow's reference is older than the freshness
    /// bound.
    pub approval_ref_stale: Option<bool>,
    pub kind: Option<String>,
    pub ref_state: Option<String>,
    /// Whether the business workflow's reference is older than the freshness
    /// bound.
    pub ref_stale: Option<bool>,
    pub task_status: Option<String>,
    pub waiting_reason: Option<String>,
    pub observation_gap: Option<bool>,
}

/// Whether an optional text holds `lit`.
pub open spec fn holds(o: Option<String>, lit: Seq<char>) -> bool {
    o matches Some(s) && s@ == lit
}

/// Whether an optional text holds `lit` (`o.as_deref() == Some(lit)`).
pub fn opt_is(o: &Option<String>, lit: &str) -> (r: bool)
    ensures
        r == holds(*o, lit@),
{
    match o {
        Some(s) => text_eq(s.as_str(), lit),
        None => false,
    }
}

/// The close statuses of a task projection.
pub open spec fn terminal_task_text(s: Seq<char>) -> bool {
    s == "COMPLETED"@ || s == "FAILED"@ || s == "CANCELED"@ || s == "TERMINATED"@ || s == "TIMED_OUT"@
}

/// The final statuses of an approval projection.
pub open spec fn final_approval_text(s: Seq<char>) -> bool {
    s == "DENIED"@ || s == "EXPIRED"@ || s == "CANCELLED"@ || s == "INVALIDATED"@ || s == "CONSUMED"@
}

/// A workflow started but never reported back within the freshness bound.
pub open spec fn stale_of(state: Option<String>, stale: Option<bool>, written: bool) -> bool {
    (holds(state, "PENDING_START"@) || holds(state, "RUNNING"@)) && stale == Some(true) && !written
}

/// Whether the projection can be vouched for as current: `None` if so,
/// otherwise the reason the view must show it as pending reconciliation. An
/// unknown dispatch or reference outcome comes first; then a close that only
/// the fallback reconciliation observed, a terminal reference without a
/// terminal task projection, a workflow silent past the freshness bound, and a
/// closed approval workflow without a final approval projection.
pub open spec fn observation_of(r: TaskRow) -> Option<ReasonCode> {
    if r.dispatch_state@ == "UNKNOWN"@ || holds(r.ref_state, "UNKNOWN"@) || holds(r.approval_ref_state, "UNKNOWN"@) {
        Some(ReasonCode::ExternalResultUnknown)
    } else if r.observation_gap == Some(true) {
        Some(ReasonCode::ProjectionDelayed)
    } else if holds(r.ref_state, "TERMINAL"@) && !(r.task_status matches Some(s) && terminal_task_text(s@)) {
        Some(ReasonCode::ProjectionDelayed)
    } else if stale_of(r.ref_state, r.ref_stale, r.task_status is Some && !holds(r.ref_state, "PENDING_START"@)) {
        Some(ReasonCode::ProjectionDelayed)
    } else if stale_of(
        r.approval_ref_state,
        r.approval_ref_stale,
        r.approval_status is Some && !holds(r.approval_ref_state, "PENDING_START"@),
    ) {
        Some(ReasonCode::ProjectionDelayed)
    } else if holds(r.approval_ref_state, "TERMINAL"@) && !(r.approval_status matches Some(s) && final_approval_text(
        s@,
    )) {
        Some(ReasonCode::ProjectionDelayed)
    } else {
        None
    }
}

fn stale(state: &Option<String>, outdated: Option<bool>, written: bool) -> (r: bool)
    ensures
        r == stale_of(*state, outdated, written),
{
    (opt_is(state, "PENDING_START") || opt_is(state, "RUNNING")) && outdated == Some(true) && !written
}

/// Whether the task's projection can be vouched for (see `observation_of`).
pub fn observation(r: &TaskRow) -> (o: Option<ReasonCode>)
    ensures
        o == observation_of(*r),
{
    let unknown = text_eq(r.dispatch_state.as_str(), "UNKNOWN") || opt_is(&r.ref_state, "UNKNOWN") || opt_is(
        &r.approval_ref_state,
        "UNKNOWN",
    );
    if unknown {
        return Some(ReasonCode::ExternalResultUnknown);
    }
    if r.observation_gap == Some(true) {
        return Some(ReasonCode::ProjectionDelayed);
    }
    let task_closed = opt_is(&r.task_status, "COMPLETED") || opt_is(&r.task_status, "FAILED") || opt_is(
        &r.task_status,
        "CANCELED",
    ) || opt_is(&r.task_status, "TERMINATED") || opt_is(&r.task_status, "TIMED_OUT");
    if opt_is(&r.ref_state, "TERMINAL") && !task_closed {
        return Some(ReasonCode::ProjectionDelayed);
    }
    if stale(&r.ref_state, r.ref_stale, r.task_status.is_some() && !opt_is(&r.ref_state, "PENDING_START")) {
        return Some(ReasonCode::ProjectionDelayed);
    }
    if stale(
        &r.approval_ref_state,
        r.approval_ref_stale,
        r.approval_status.is_some() && !opt_is(&r.approval_ref_state, "PENDING_START"),
    ) {
        return Some(ReasonCode::ProjectionDelayed);
    }
    let approval_final = opt_is(&r.approval_status, "DENIED") || opt_is(&r.approval_status, "EXPIRED") || opt_is(
        &r.approval_status,
        "CANCELLED",
    ) || opt_is(&r.approval_status, "INVALIDATED") || opt_is(&r.approval_status, "CONSUMED");
    if opt_is(&r.approval_ref_state, "TERMINAL") && !approval_final {
        return Some(ReasonCode::ProjectionDelayed);
    }
    None
}

/// Whether an optional stored value reads as a member of its enum (absent
/// values read as absent).
pub open spec fn opt_reads<T>(o: Option<String>, read: spec_fn(Seq<char>) -> Option<T>) -> bool {
    o matches Some(s) ==> read(s@) is Some
}

/// The optional enum value a stored optional text reads as.
pub open spec fn opt_read<T>(o: Option<String>, read: spec_fn(Seq<char>) -> Option<T>) -> Option<T> {
    match o {
        Some(s) => read(s@),
        None => None,
    }
}

/// Whether every stored state of the row reads as a member of its contract
/// enum.
pub open spec fn row_reads(r: TaskRow) -> bool {
    &&& ActionGateState::from_wire_text(r.gate_state@) is Some
    &&& ActionDispatchState::from_wire_text(r.dispatch_state@) is Some
    &&& opt_reads(r.reason_code, |s: Seq<char>| ReasonCode::from_wire_text(s))
    &&& opt_reads(r.approval_status, |s: Seq<char>| ApprovalStatus::from_wire_text(s))
    &&& opt_reads(r.kind, |s: Seq<char>| WorkflowKind::from_wire_text(s))
    &&& opt_reads(r.task_status, |s: Seq<char>| TaskStatus::from_wire_text(s))
}

/// The view of an optional identifier.
pub open spec fn opt_id_text(o: Option<u128>) -> Option<Seq<char>> {
    match o {
        Some(i) => Some(hyphenated(i)),
        None => None,
    }
}

/// The view of an optional owned text.
pub open spec fn opt_text(o: Option<String>) -> Option<Seq<char>> {
    match o {
        Some(s) => Some(s@),
        None => None,
    }
}

/// Whether `v` shows row `r`.
pub open spec fn shows(v: TaskView, r: TaskRow) -> bool {
    &&& v.operation_id@ == hyphenated(r.operation_id)
    &&& v.action_execution_id@ == hyphenated(r.id)
    &&& v.action_key@ == r.action_key@
    &&& v.action_version == r.action_version as i64
    &&& opt_text(v.workspace_id) == opt_id_text(r.workspace_id)
    &&& v.target_id@ == hyphenated(r.target_id)
    &&& v.gate_state == ActionGateState::from_wire_text(r.gate_state@)->0
    &&& v.dispatch_state == ActionDispatchState::from_wire_text(r.dispatch_state@)->0
    &&& v.reason == opt_read(r.reason_code, |s: Seq<char>| ReasonCode::from_wire_text(s))
    &&& opt_text(v.approval_workflow_id) == opt_text(r.approval_workflow_id)
    &&& v.approval_status == opt_read(r.approval_status, |s: Seq<char>| ApprovalStatus::from_wire_text(s))
    &&& opt_text(v.workflow_id) == opt_text(r.temporal_workflow_id)
    &&& v.workflow_kind == opt_read(r.kind, |s: Seq<char>| WorkflowKind::from_wire_text(s))
    &&& v.task_status == opt_read(r.task_status, |s: Seq<char>| TaskStatus::from_wire_text(s))
    &&& opt_text(v.waiting_reason) == opt_text(r.waiting_reason)
    &&& v.observation == observation_of(r)
    &&& v.created_at@ == r.created_at@
}

fn opt_uuid_text(o: Option<u128>) -> (r: Option<String>)
    ensures
        opt_text(r) == opt_id_text(o),
{
    match o {
        Some(i) => Some(uuid_text(i)),
        None => None,
    }
}

/// The refusal of a task whose `column` holds a value outside its enum.
pub open spec fn unreadable_message(column: Seq<char>) -> Seq<char> {
    "任务投影的 "@ + column + " 状态值不在契约枚举内"@
}

/// The first column, in the order the view reads them, whose value is outside
/// its enum.
pub open spec fn first_unreadable(r: TaskRow) -> Seq<char> {
    if ActionGateState::from_wire_text(r.gate_state@) is None {
        "gate_state"@
    } else if ActionDispatchState::from_wire_text(r.dispatch_state@) is None {
        "dispatch_state"@
    } else if !opt_reads(r.reason_code, |s: Seq<char>| ReasonCode::from_wire_text(s)) {
        "reason_code"@
    } else if !opt_reads(r.approval_status, |s: Seq<char>| ApprovalStatus::from_wire_text(s)) {
        "approval_status"@
    } else if !opt_reads(r.kind, |s: Seq<char>| WorkflowKind::from_wire_text(s)) {
        "workflow_kind"@
    } else {
        "task_status"@
    }
}

fn unreadable(column: &str) -> (r: Refusal)
    ensures
        r matches Refusal::Unavailable(m) && m@ == unreadable_message(column@),
{
    let mut v: Vec<char> = Vec::new();
    let a = chars_of("任务投影的 ");
    push_chars(&mut v, a.as_slice());
    let b = chars_of(column);
    push_chars(&mut v, b.as_slice());
    let c = chars_of(" 状态值不在契约枚举内");
    push_chars(&mut v, c.as_slice());
    Refusal::Unavailable(string_from_chars(v.as_slice()))
}

/// The view of a stored task. A stored state outside its contract enum makes
/// the whole answer `Unavailable` rather than an absent field.
pub fn task_view(r: TaskRow) -> (v: Result<TaskView, Refusal>)
    ensures
        v is Ok <==> row_reads(r),
        v matches Ok(t) ==> shows(t, r),
        v matches Err(e) ==> (e matches Refusal::Unavailable(m) && m@ == unreadable_message(first_unreadable(r))),
{
    let observation = observation(&r);
    let gate_state = match ActionGateState::from_wire(r.gate_state.as_str()) {
        Some(g) => g,
        None => {
            return Err(unreadable("gate_state"));
        },
    };
    let dispatch_state = match ActionDispatchState::from_wire(r.dispatch_state.as_str()) {
        Some(d) => d,
        None => {
            return Err(unreadable("dispatch_state"));
        },
    };
    let reason = match &r.reason_code {
        Some(s) => match ReasonCode::from_wire(s.as_str()) {
            Some(c) => Some(c),
            None => {
                return Err(unreadable("reason_code"));
            },
        },
        None => None,
    };
    let approval_status = match &r.approval_status {
        Some(s) => match ApprovalStatus::from_wire(s.as_str()) {
            Some(c) => Some(c),
            None => {
                return Err(unreadable("approval_status"));
            },
        },
        None => None,
    };
    let workflow_kind = match &r.kind {
        Some(s) => match WorkflowKind::from_wire(s.as_str()) {
            Some(c) => Some(c),
            None => {
                return Err(unreadable("workflow_kind"));
            },
        },
        None => None,
    };
    let task_status = match &r.task_status {
        Some(s) => match TaskStatus::from_wire(s.as_str()) {
            Some(c) => Some(c),
            None => {
                return Err(unreadable("task_status"));
            },
        },
        None => None,
    };
    let ghost row = r;
    let view = TaskView {
        operation_id: uuid_text(r.operation_id),
        action_execution_id: uuid_text(r.id),
        action_key: r.action_key,
        action_version: r.action_version as i64,
        workspace_id: opt_uuid_text(r.workspace_id),
        target_id: uuid_text(r.target_id),
        gate_state,
        dispatch_state,
        reason,
        approval_workflow_id: r.approval_workflow_id,
        approval_status,
        workflow_id: r.temporal_workflow_id,
        workflow_kind,
        task_status,
        waiting_reason: r.waiting_reason,
        observation,
        created_at: r.created_at,
    };
    proof {
        assert(shows(view, row));
    }
    Ok(view)
}

/// A view is shown as a plain result only when its projection is current: a
/// terminal workflow reference shows a result only beside a terminal task
/// projection, and an unknown dispatch is never shown as a result.
pub proof fn lemma_terminal_reference_needs_terminal_task(r: TaskRow)
    ensures
        holds(r.ref_state, "TERMINAL"@) && observation_of(r) is None ==> (r.task_status matches Some(s)
            && terminal_task_text(s@)),
        r.dispatch_state@ == "UNKNOWN"@ ==> observation_of(r) == Some(ReasonCode::ExternalResultUnknown),
{
}


/// The answer to a task state report: whether it was applied, and the last
/// event the projection holds. An older or repeated report is ignored, and
/// that is still a success.
#[derive(Debug, Clone, Copy, PartialEq, Eq, Structural)]
pub struct ProjectTaskStateResponse {
    pub applied: bool,
    pub last_event_id: i64,
}

/// The projected state of one task, as far as the upsert rule reads it.
#[derive(Debug, Clone, Copy, PartialEq, Eq, Structural)]
pub struct ProjectedTask {
    pub last_event_id: i64,
    pub status: TaskStatus,
    pub observation_gap: bool,
}

/// What applying a report gives: a report replaces the projection only when
/// its event is newer than the last one held.
pub open spec fn apply_report_of(current: Option<ProjectedTask>, report: ProjectedTask) -> (
    Option<ProjectedTask>,
    ProjectTaskStateResponse,
) {
    match current {
        Some(c) => if c.last_event_id < report.last_event_id {
            (Some(report), ProjectTaskStateResponse { applied: true, last_event_id: report.last_event_id })
        } else {
            (Some(c), ProjectTaskStateResponse { applied: false, last_event_id: c.last_event_id })
        },
        None => (Some(report), ProjectTaskStateResponse { applied: true, last_event_id: report.last_event_id }),
    }
}

/// Applies a report under the monotonic rule (see `apply_report_of`).
pub fn apply_report(current: Option<ProjectedTask>, report: ProjectedTask) -> (r: (
    Option<ProjectedTask>,
    ProjectTaskStateResponse,
))
    ensures
        r == apply_report_of(current, report),
{
    match current {
        Some(c) => if c.last_event_id < report.last_event_id {
            (Some(report), ProjectTaskStateResponse { applied: true, last_event_id: report.last_event_id })
        } else {
            (Some(c), ProjectTaskStateResponse { applied: false, last_event_id: c.last_event_id })
        },
        None => (Some(report), ProjectTaskStateResponse { applied: true, last_event_id: report.last_event_id }),
    }
}

/// Whether an applied report closes the workflow's reference: only an applied
/// report with a terminal status does.
pub fn closes_reference(applied: bool, status: TaskStatus) -> (r: bool)
    ensures
        r == (applied && status != TaskStatus::Running),
{
    applied && crate::workflow::is_terminal(&status)
}

/// A projection never goes back: after a report, it holds the newer of the two
/// events; a repeated report changes nothing; and two reports of distinct
/// events end in the same projection whichever arrives first.
pub proof fn lemma_projection_is_monotonic(current: Option<ProjectedTask>, a: ProjectedTask, b: ProjectedTask)
    ensures
        apply_report_of(current, a).0 is Some,
        current is None ==> apply_report_of(current, a).0 == Some(a),
        current matches Some(c) ==> (apply_report_of(current, a).0->0.last_event_id == if c.last_event_id
            < a.last_event_id {
            a.last_event_id
        } else {
            c.last_event_id
        }),
        apply_report_of(apply_report_of(current, a).0, a).0 == apply_report_of(current, a).0,
        !apply_report_of(apply_report_of(current, a).0, a).1.applied,
        a.last_event_id != b.last_event_id ==> apply_report_of(apply_report_of(current, a).0, b).0
            == apply_report_of(apply_report_of(current, b).0, a).0,
{
}

/// The status of a refused service call: unobtainable signing keys leave the
/// outcome unknown (503); any other failure is unauthenticated (401).
pub fn service_auth_status(e: crate::service::ServiceAuthError) -> (r: u16)
    ensures
        r == (if e == crate::service::ServiceAuthError::KeysUnavailable {
            503u16
        } else {
            401u16
        }),
{
    match e {
        crate::service::ServiceAuthError::KeysUnavailable => 503,
        _ => 401,
    }
}

} // verus!
