//! Dispatch of allowed actions and the reconciliation step that drives a
//! non-terminal ActionExecution from its persisted facts.

use vstd::prelude::*;

use crate::contracts::{ActionDispatchState, ActionGateState, ApprovalStatus};
use crate::governance::{Semantic, HTTP_UNAVAILABLE};
use crate::lifecycle::{MembershipScope, ScopeKind};
use crate::text::text_eq;

verus! {

/// Projection state of a workflow reference.
#[derive(Debug, Clone, Copy, PartialEq, Eq, Structural)]
pub enum RefState {
    PendingStart,
    Running,
    Terminal,
    Unknown,
}

impl RefState {
    /// The state named by a stored value.
    pub open spec fn from_text(s: Seq<char>) -> Option<RefState> {
        if s == "PENDING_START"@ {
            Some(RefState::PendingStart)
        } else if s == "RUNNING"@ {
            Some(RefState::Running)
        } else if s == "TERMINAL"@ {
            Some(RefState::Terminal)
        } else if s == "UNKNOWN"@ {
            Some(RefState::Unknown)
        } else {
            None
        }
    }

    /// Reads a stored projection state.
    pub fn from_wire(s: &str) -> (r: Option<RefState>)
        ensures
            r == RefState::from_text(s@),
    {
        if text_eq(s, "PENDING_START") {
            Some(RefState::PendingStart)
        } else if text_eq(s, "RUNNING") {
            Some(RefState::Running)
        } else if text_eq(s, "TERMINAL") {
            Some(RefState::Terminal)
        } else if text_eq(s, "UNKNOWN") {
            Some(RefState::Unknown)
        } else {
            None
        }
    }
}

/// Whether dispatch still has work for an execution: its gate is ALLOWED and
/// its dispatch neither DISPATCHED nor ABORTED.
pub fn needs_dispatch(gate: ActionGateState, dispatch: ActionDispatchState) -> (r: bool)
    ensures
        r == (gate == ActionGateState::Allowed && dispatch != ActionDispatchState::Dispatched && dispatch
            != ActionDispatchState::Aborted),
{
    gate == ActionGateState::Allowed && dispatch != ActionDispatchState::Dispatched && dispatch
        != ActionDispatchState::Aborted
}

/// The lifecycle workflow a semantic dispatches.
#[derive(Debug, Clone, Copy, PartialEq, Eq, Structural)]
pub enum Launch {
    Scope(ScopeKind),
    Membership(MembershipScope),
}

/// The lifecycle workflow of a semantic: creating a workspace runs the
/// workspace lifecycle; member changes run the membership lifecycle of their
/// table. Role and invitation actions are synchronous and launch nothing.
pub fn launch_of(sem: Semantic) -> (r: Option<Launch>)
    ensures
        r == (match sem {
            Semantic::WorkspaceCreate => Some(Launch::Scope(ScopeKind::Workspace)),
            Semantic::WorkspaceMemberAdd | Semantic::WorkspaceMemberRevoke => Some(
                Launch::Membership(MembershipScope::Workspace),
            ),
            Semantic::TenantMemberRevoke | Semantic::TenantMemberAdmit => Some(
                Launch::Membership(MembershipScope::Tenant),
            ),
            _ => None::<Launch>,
        }),
{
    match sem {
        Semantic::WorkspaceCreate => Some(Launch::Scope(ScopeKind::Workspace)),
        Semantic::WorkspaceMemberAdd | Semantic::WorkspaceMemberRevoke => Some(
            Launch::Membership(MembershipScope::Workspace),
        ),
        Semantic::TenantMemberRevoke | Semantic::TenantMemberAdmit => Some(
            Launch::Membership(MembershipScope::Tenant),
        ),
        _ => None,
    }
}

/// Whether the workflow reference already proves the start: it runs or ended.
pub fn already_started(ref_state: Option<RefState>) -> (r: bool)
    ensures
        r == (ref_state == Some(RefState::Running) || ref_state == Some(RefState::Terminal)),
{
    matches!(ref_state, Some(RefState::Running) | Some(RefState::Terminal))
}

/// The dispatch state a start attempt leads to. A start under the prewritten
/// ID is a dispatch; a start that reports another ID belongs to a later version
/// of the entity and aborts this dispatch; an unknown outcome (503) stays
/// UNKNOWN for the same ID to converge; any other refusal aborts.
pub fn start_outcome(expected: &str, started: &Result<String, u16>) -> (r: ActionDispatchState)
    ensures
        r == (match started {
            Ok(id) => if id@ == expected@ {
                ActionDispatchState::Dispatched
            } else {
                ActionDispatchState::Aborted
            },
            Err(code) => if *code == HTTP_UNAVAILABLE {
                ActionDispatchState::Unknown
            } else {
                ActionDispatchState::Aborted
            },
        }),
{
    match started {
        Ok(id) => if text_eq(id.as_str(), expected) {
            ActionDispatchState::Dispatched
        } else {
            ActionDispatchState::Aborted
        },
        Err(code) => if *code == HTTP_UNAVAILABLE {
            ActionDispatchState::Unknown
        } else {
            ActionDispatchState::Aborted
        },
    }
}

/// The audit stage and result code recorded with a dispatch state.
pub open spec fn dispatch_record_text(state: ActionDispatchState) -> (Seq<char>, Seq<char>) {
    match state {
        ActionDispatchState::Dispatched => ("dispatch"@, "DISPATCHED"@),
        ActionDispatchState::Unknown => ("dispatch-unknown"@, "DISPATCH_RESULT_UNKNOWN"@),
        _ => ("dispatch-aborted"@, "DISPATCH_ABORTED"@),
    }
}

/// The audit stage and result code recorded with a dispatch state.
pub fn dispatch_record(state: ActionDispatchState) -> (r: (&'static str, &'static str))
    ensures
        (r.0@, r.1@) == dispatch_record_text(state),
{
    match state {
        ActionDispatchState::Dispatched => ("dispatch", "DISPATCHED"),
        ActionDispatchState::Unknown => ("dispatch-unknown", "DISPATCH_RESULT_UNKNOWN"),
        _ => ("dispatch-aborted", "DISPATCH_ABORTED"),
    }
}

/// What dispatching an execution does first.
#[derive(Debug, Clone, Copy, PartialEq, Eq, Structural)]
pub enum DispatchPlan {
    /// The admission gate is not ALLOWED, or the dispatch already settled: nothing is
    /// written.
    Nothing,
    /// The workflow reference already shows a run: record DISPATCHED without
    /// starting anything.
    AlreadyStarted,
    /// Start the workflow under its prewritten ID.
    Start,
}

/// The plan of a dispatch (see `DispatchPlan`).
pub open spec fn dispatch_plan_of(
    gate: ActionGateState,
    dispatch: ActionDispatchState,
    ref_state: Option<RefState>,
) -> DispatchPlan {
    if !(gate == ActionGateState::Allowed && dispatch != ActionDispatchState::Dispatched && dispatch
        != ActionDispatchState::Aborted) {
        DispatchPlan::Nothing
    } else if ref_state == Some(RefState::Running) || ref_state == Some(RefState::Terminal) {
        DispatchPlan::AlreadyStarted
    } else {
        DispatchPlan::Start
    }
}

/// Plans a dispatch (see `dispatch_plan_of`).
pub fn dispatch_plan(gate: ActionGateState, dispatch: ActionDispatchState, ref_state: Option<RefState>) -> (r:
    DispatchPlan)
    ensures
        r == dispatch_plan_of(gate, dispatch, ref_state),
{
    if !needs_dispatch(gate, dispatch) {
        DispatchPlan::Nothing
    } else if already_started(ref_state) {
        DispatchPlan::AlreadyStarted
    } else {
        DispatchPlan::Start
    }
}

/// The dispatch state a dispatch records, `None` when it writes nothing;
/// `started` is what starting under the prewritten ID `expected` answered
/// (read only when the plan starts).
pub open spec fn dispatch_result_of(
    gate: ActionGateState,
    dispatch: ActionDispatchState,
    ref_state: Option<RefState>,
    expected: Seq<char>,
    started: Result<Seq<char>, u16>,
) -> Option<ActionDispatchState> {
    match dispatch_plan_of(gate, dispatch, ref_state) {
        DispatchPlan::Nothing => None,
        DispatchPlan::AlreadyStarted => Some(ActionDispatchState::Dispatched),
        DispatchPlan::Start => Some(
            match started {
                Ok(id) => if id == expected {
                    ActionDispatchState::Dispatched
                } else {
                    ActionDispatchState::Aborted
                },
                Err(code) => if code == HTTP_UNAVAILABLE {
                    ActionDispatchState::Unknown
                } else {
                    ActionDispatchState::Aborted
                },
            },
        ),
    }
}

/// Dispatch writes nothing unless the admission gate is ALLOWED and the dispatch has not
/// settled; a run proven by the workflow reference is DISPATCHED without a
/// start; otherwise only a start under the prewritten ID is DISPATCHED (a start
/// that reports another ID aborts, so the prewritten ID is never replaced), an
/// unknown outcome (503) stays UNKNOWN, and any other answer aborts.
pub proof fn lemma_dispatch_law(
    gate: ActionGateState,
    dispatch: ActionDispatchState,
    ref_state: Option<RefState>,
    expected: Seq<char>,
    started: Result<Seq<char>, u16>,
)
    ensures
        (dispatch_result_of(gate, dispatch, ref_state, expected, started) is None) <==> (gate != ActionGateState::Allowed
            || dispatch == ActionDispatchState::Dispatched || dispatch == ActionDispatchState::Aborted),
        dispatch_result_of(gate, dispatch, ref_state, expected, started) == Some(ActionDispatchState::Dispatched) ==> (
        ref_state == Some(RefState::Running) || ref_state == Some(RefState::Terminal) || started == Ok::<
            Seq<char>,
            u16,
        >(expected)),
        dispatch_result_of(gate, dispatch, ref_state, expected, started) == Some(ActionDispatchState::Unknown) ==> started
            == Err::<Seq<char>, u16>(HTTP_UNAVAILABLE),
{
}

// ---------------------------------------------------------------------------
// Reconciliation: one step for one non-terminal ActionExecution
// ---------------------------------------------------------------------------

/// The step reconciliation takes for an execution.
#[derive(Debug, Clone, Copy, PartialEq, Eq, Structural)]
pub enum DriveStep {
    /// evaluation stalled: the admission gate expires as ADMISSION_ABANDONED
    ExpireEvaluation,
    /// approved: re-admit and dispatch
    Recheck,
    /// approval start unconfirmed for too long: start again under the same ID
    RedriveApprovalStart,
    /// approval workflow ended without a terminal projection: the admission gate expires
    ExpireLostApproval,
    /// allowed but dispatch stalled: dispatch again under the same ID
    RedriveDispatch,
    /// dispatched while the approval is still APPROVED: consume again
    ResendConsume,
    /// revoked or aborted while the approval is still APPROVED: invalidate again
    ResendInvalidate,
    Nothing,
}

impl DriveStep {
    /// The metric label of a step.
    pub open spec fn label_text(self) -> Seq<char> {
        match self {
            DriveStep::ExpireEvaluation => "EVALUATION_EXPIRED"@,
            DriveStep::Recheck => "RECHECKED"@,
            DriveStep::RedriveApprovalStart => "APPROVAL_START_REDRIVEN"@,
            DriveStep::ExpireLostApproval => "APPROVAL_LOST"@,
            DriveStep::RedriveDispatch => "DISPATCH_REDRIVEN"@,
            DriveStep::ResendConsume => "CONSUME_RESENT"@,
            DriveStep::ResendInvalidate => "INVALIDATE_RESENT"@,
            DriveStep::Nothing => "NOTHING_TO_DO"@,
        }
    }

    /// The metric label of a step.
    pub fn label(self) -> (r: &'static str)
        ensures
            r@ == self.label_text(),
    {
        match self {
            DriveStep::ExpireEvaluation => "EVALUATION_EXPIRED",
            DriveStep::Recheck => "RECHECKED",
            DriveStep::RedriveApprovalStart => "APPROVAL_START_REDRIVEN",
            DriveStep::ExpireLostApproval => "APPROVAL_LOST",
            DriveStep::RedriveDispatch => "DISPATCH_REDRIVEN",
            DriveStep::ResendConsume => "CONSUME_RESENT",
            DriveStep::ResendInvalidate => "INVALIDATE_RESENT",
            DriveStep::Nothing => "NOTHING_TO_DO",
        }
    }
}

/// Whether an approval status is terminal as projected.
pub open spec fn approval_settled(status: Option<ApprovalStatus>) -> bool {
    status == Some(ApprovalStatus::Denied) || status == Some(ApprovalStatus::Expired) || status == Some(
        ApprovalStatus::Cancelled,
    ) || status == Some(ApprovalStatus::Invalidated) || status == Some(ApprovalStatus::Consumed)
}

/// The step reconciliation takes, from persisted facts alone: the admission gate and
/// dispatch states, whether the execution is older than the evaluation
/// timeout, and the approval workflow's reference state and projected status.
pub open spec fn drive_step_of(
    gate: ActionGateState,
    dispatch: ActionDispatchState,
    stale: bool,
    ref_state: Option<RefState>,
    status: Option<ApprovalStatus>,
) -> DriveStep {
    let approved = status == Some(ApprovalStatus::Approved);
    if gate == ActionGateState::Evaluating && stale {
        DriveStep::ExpireEvaluation
    } else if gate == ActionGateState::Waiting && approved {
        DriveStep::Recheck
    } else if gate == ActionGateState::Waiting && ref_state == Some(RefState::PendingStart) && stale {
        DriveStep::RedriveApprovalStart
    } else if gate == ActionGateState::Waiting && ref_state == Some(RefState::Terminal) && !approval_settled(
        status,
    ) {
        DriveStep::ExpireLostApproval
    } else if gate == ActionGateState::Allowed && (dispatch == ActionDispatchState::NotDispatched || dispatch
        == ActionDispatchState::Unknown) && stale {
        DriveStep::RedriveDispatch
    } else if gate == ActionGateState::Allowed && dispatch == ActionDispatchState::Dispatched && approved {
        DriveStep::ResendConsume
    } else if (gate == ActionGateState::Revoked || (gate == ActionGateState::Allowed && dispatch
        == ActionDispatchState::Aborted)) && approved {
        DriveStep::ResendInvalidate
    } else {
        DriveStep::Nothing
    }
}

/// The step reconciliation takes for an execution.
pub fn drive_step(
    gate: ActionGateState,
    dispatch: ActionDispatchState,
    stale: bool,
    ref_state: Option<RefState>,
    status: Option<ApprovalStatus>,
) -> (r: DriveStep)
    ensures
        r == drive_step_of(gate, dispatch, stale, ref_state, status),
{
    let approved = status == Some(ApprovalStatus::Approved);
    let settled = matches!(
        status,
        Some(ApprovalStatus::Denied) | Some(ApprovalStatus::Expired) | Some(ApprovalStatus::Cancelled) | Some(
            ApprovalStatus::Invalidated,
        ) | Some(ApprovalStatus::Consumed)
    );
    match (gate, dispatch) {
        (ActionGateState::Evaluating, _) if stale => DriveStep::ExpireEvaluation,
        (ActionGateState::Waiting, _) if approved => DriveStep::Recheck,
        (ActionGateState::Waiting, _) if ref_state == Some(RefState::PendingStart) && stale => {
            DriveStep::RedriveApprovalStart
        },
        (ActionGateState::Waiting, _) if ref_state == Some(RefState::Terminal) && !settled => {
            DriveStep::ExpireLostApproval
        },
        (ActionGateState::Allowed, ActionDispatchState::NotDispatched) if stale => DriveStep::RedriveDispatch,
        (ActionGateState::Allowed, ActionDispatchState::Unknown) if stale => DriveStep::RedriveDispatch,
        (ActionGateState::Allowed, ActionDispatchState::Dispatched) if approved => DriveStep::ResendConsume,
        (ActionGateState::Revoked, _) if approved => DriveStep::ResendInvalidate,
        (ActionGateState::Allowed, ActionDispatchState::Aborted) if approved => DriveStep::ResendInvalidate,
        _ => DriveStep::Nothing,
    }
}

/// What reconciliation does, gate by gate:
/// - EVALUATING: a stale evaluation expires; a fresh one is left alone.
/// - WAITING: an APPROVED approval is re-admitted; otherwise an approval
///   still pending start is started again once stale, and an approval whose
///   workflow ended without a settled status (DENIED, EXPIRED, CANCELLED,
///   INVALIDATED, CONSUMED) is lost; anything else waits.
/// - ALLOWED: a dispatch that never ran or whose outcome is unknown is driven
///   again once stale, whatever the approval says; a dispatched one resends
///   the consume of an APPROVED approval; an aborted one resends the
///   invalidation of an APPROVED approval.
/// - REVOKED: resends the invalidation of an APPROVED approval.
/// - DENIED and EXPIRED: nothing.
pub proof fn lemma_drive_step_by_gate(
    gate: ActionGateState,
    dispatch: ActionDispatchState,
    stale: bool,
    ref_state: Option<RefState>,
    status: Option<ApprovalStatus>,
)
    ensures
        gate == ActionGateState::Evaluating ==> drive_step_of(gate, dispatch, stale, ref_state, status) == (if stale {
            DriveStep::ExpireEvaluation
        } else {
            DriveStep::Nothing
        }),
        gate == ActionGateState::Waiting && status == Some(ApprovalStatus::Approved) ==> drive_step_of(
            gate,
            dispatch,
            stale,
            ref_state,
            status,
        ) == DriveStep::Recheck,
        gate == ActionGateState::Waiting && status != Some(ApprovalStatus::Approved) && ref_state == Some(
            RefState::PendingStart,
        ) ==> drive_step_of(gate, dispatch, stale, ref_state, status) == (if stale {
            DriveStep::RedriveApprovalStart
        } else {
            DriveStep::Nothing
        }),
        gate == ActionGateState::Waiting && status != Some(ApprovalStatus::Approved) && ref_state == Some(
            RefState::Terminal,
        ) ==> drive_step_of(gate, dispatch, stale, ref_state, status) == (if status == Some(ApprovalStatus::Denied)
            || status == Some(ApprovalStatus::Expired) || status == Some(ApprovalStatus::Cancelled) || status == Some(
            ApprovalStatus::Invalidated,
        ) || status == Some(ApprovalStatus::Consumed) {
            DriveStep::Nothing
        } else {
            DriveStep::ExpireLostApproval
        }),
        gate == ActionGateState::Waiting && status != Some(ApprovalStatus::Approved) && ref_state != Some(
            RefState::PendingStart,
        ) && ref_state != Some(RefState::Terminal) ==> drive_step_of(gate, dispatch, stale, ref_state, status)
            == DriveStep::Nothing,
        gate == ActionGateState::Allowed && (dispatch == ActionDispatchState::NotDispatched || dispatch
            == ActionDispatchState::Unknown) ==> drive_step_of(gate, dispatch, stale, ref_state, status) == (if stale {
            DriveStep::RedriveDispatch
        } else {
            DriveStep::Nothing
        }),
        gate == ActionGateState::Allowed && dispatch == ActionDispatchState::Dispatched ==> drive_step_of(
            gate,
            dispatch,
            stale,
            ref_state,
            status,
        ) == (if status == Some(ApprovalStatus::Approved) {
            DriveStep::ResendConsume
        } else {
            DriveStep::Nothing
        }),
        (gate == ActionGateState::Revoked || (gate == ActionGateState::Allowed && dispatch
            == ActionDispatchState::Aborted)) ==> drive_step_of(gate, dispatch, stale, ref_state, status) == (if status
            == Some(ApprovalStatus::Approved) {
            DriveStep::ResendInvalidate
        } else {
            DriveStep::Nothing
        }),
        gate == ActionGateState::Denied || gate == ActionGateState::Expired ==> drive_step_of(
            gate,
            dispatch,
            stale,
            ref_state,
            status,
        ) == DriveStep::Nothing,
{
}

/// Reconciliation never dispatches an execution whose gate is not ALLOWED, and
/// never re-admits one that is not WAITING on an APPROVED approval.
pub proof fn lemma_drive_respects_gate(
    gate: ActionGateState,
    dispatch: ActionDispatchState,
    stale: bool,
    ref_state: Option<RefState>,
    status: Option<ApprovalStatus>,
)
    ensures
        drive_step_of(gate, dispatch, stale, ref_state, status) == DriveStep::RedriveDispatch ==> gate
            == ActionGateState::Allowed && dispatch != ActionDispatchState::Dispatched && dispatch
            != ActionDispatchState::Aborted,
        drive_step_of(gate, dispatch, stale, ref_state, status) == DriveStep::Recheck ==> gate
            == ActionGateState::Waiting && status == Some(ApprovalStatus::Approved),
        drive_step_of(gate, dispatch, stale, ref_state, status) == DriveStep::ResendConsume ==> dispatch
            == ActionDispatchState::Dispatched,
        !stale && status != Some(ApprovalStatus::Approved) && ref_state != Some(RefState::Terminal) ==> drive_step_of(
            gate,
            dispatch,
            stale,
            ref_state,
            status,
        ) == DriveStep::Nothing,
{
}

} // verus!
