//! Approvals: whether a policy can be satisfied on a target, who may decide,
//! how the projected status closes the admission gate, and how update refusals are
//! classified.

use vstd::prelude::*;

use crate::contracts::{
    ActionGateState, ApprovalOwnerRequirement, ApprovalSelector, ApprovalSelfApproval, ApprovalStatus, ReasonCode,
};
use crate::governance::Refusal;
use crate::ids::{hyphenated, uuid_text};
use crate::workflow::{workflow_id, workflow_id_text};

verus! {

/// The ID segment that marks an approval workflow in the fixed ID format.
pub open spec fn approval_segment() -> Seq<char> {
    "APPROVAL"@
}

/// The approval workflow ID of an ActionExecution: the fixed format with the
/// APPROVAL segment, the execution as entity, version 1.
pub fn approval_workflow_id(tenant: u128, action_execution_id: u128) -> (r: String)
    ensures
        r@ == workflow_id_text(approval_segment(), tenant, hyphenated(action_execution_id), 1),
{
    let entity = uuid_text(action_execution_id);
    workflow_id("APPROVAL", tenant, entity.as_str(), 1)
}

/// Whether every selector of a policy resolves on the target: owner
/// requirements have no owner facts to resolve against, a workspace admin needs
/// a frozen workspace, and a resource approver needs a resource target, which
/// no action has. No wider role stands in.
pub open spec fn resolvable(owner: ApprovalOwnerRequirement, selectors: Seq<ApprovalSelector>, has_workspace: bool) -> bool {
    owner == ApprovalOwnerRequirement::NoRequirement && forall|i: int|
        0 <= i < selectors.len() ==> match #[trigger] selectors[i] {
            ApprovalSelector::TenantAdmin => true,
            ApprovalSelector::WorkspaceAdmin => has_workspace,
            ApprovalSelector::ResourceApprover => false,
        }
}

/// Whether an approval policy can be satisfied on the target.
pub fn approval_resolvable(owner: ApprovalOwnerRequirement, selectors: &[ApprovalSelector], has_workspace: bool) -> (r:
    bool)
    ensures
        r == resolvable(owner, selectors@, has_workspace),
{
    if owner != ApprovalOwnerRequirement::NoRequirement {
        return false;
    }
    let mut i: usize = 0;
    while i < selectors.len()
        invariant
            i <= selectors@.len(),
            owner == ApprovalOwnerRequirement::NoRequirement,
            forall|j: int|
                0 <= j < i ==> match #[trigger] selectors@[j] {
                    ApprovalSelector::TenantAdmin => true,
                    ApprovalSelector::WorkspaceAdmin => has_workspace,
                    ApprovalSelector::ResourceApprover => false,
                },
        decreases selectors.len() - i,
    {
        let ok = match selectors[i] {
            ApprovalSelector::TenantAdmin => true,
            ApprovalSelector::WorkspaceAdmin => has_workspace,
            ApprovalSelector::ResourceApprover => false,
        };
        if !ok {
            return false;
        }
        i = i + 1;
    }
    true
}

/// Whether re-admission may run: the projection says APPROVED and the consume
/// deadline leaves at least the dispatch margin. With too little margin the
/// approval is left to lapse rather than dispatched and refused on consume.
pub fn approval_ready(projection: Option<(ApprovalStatus, bool)>) -> (r: bool)
    ensures
        r == (projection matches Some((status, margin_left)) && status == ApprovalStatus::Approved && margin_left),
{
    match projection {
        Some((ApprovalStatus::Approved, true)) => true,
        _ => false,
    }
}

/// How a projected approval status closes a WAITING gate: denied approvals
/// deny, expired ones expire, cancelled ones revoke, and an invalidation while
/// still waiting can only be the consume deadline passing.
pub fn report_gate(status: ApprovalStatus) -> (r: Option<(ActionGateState, ReasonCode)>)
    ensures
        r == (match status {
            ApprovalStatus::Denied => Some((ActionGateState::Denied, ReasonCode::ApprovalDenied)),
            ApprovalStatus::Expired => Some((ActionGateState::Expired, ReasonCode::ApprovalExpired)),
            ApprovalStatus::Cancelled => Some((ActionGateState::Revoked, ReasonCode::ApprovalWithdrawn)),
            ApprovalStatus::Invalidated => Some(
                (ActionGateState::Expired, ReasonCode::ApprovalConsumeWindowClosed),
            ),
            _ => None::<(ActionGateState, ReasonCode)>,
        }),
{
    match status {
        ApprovalStatus::Denied => Some((ActionGateState::Denied, ReasonCode::ApprovalDenied)),
        ApprovalStatus::Expired => Some((ActionGateState::Expired, ReasonCode::ApprovalExpired)),
        ApprovalStatus::Cancelled => Some((ActionGateState::Revoked, ReasonCode::ApprovalWithdrawn)),
        ApprovalStatus::Invalidated => Some((ActionGateState::Expired, ReasonCode::ApprovalConsumeWindowClosed)),
        _ => None,
    }
}

/// Whether an accepted report must trigger re-admission: it reports APPROVED
/// for an execution still WAITING.
pub fn triggers_recheck(status: ApprovalStatus, gate: ActionGateState) -> (r: bool)
    ensures
        r == (status == ApprovalStatus::Approved && gate == ActionGateState::Waiting),
{
    status == ApprovalStatus::Approved && gate == ActionGateState::Waiting
}

/// The refusal an approval update answers with when the workflow rejects it:
/// an ineligible approver is a denial; a dependency outage is an unknown outcome
/// to be resent under the same update ID; any other known reason is a conflict,
/// and an unreadable one APPROVAL_NOT_OPEN.
pub fn update_refusal(reason: Option<ReasonCode>, message: String) -> (r: Refusal)
    ensures
        reason == Some(ReasonCode::ApproverNotEligible) ==> r == Refusal::Denied(ReasonCode::ApproverNotEligible),
        reason == Some(ReasonCode::DependencyUnavailable) ==> r == Refusal::Unavailable(message),
        forall|x: ReasonCode|
            reason == Some(x) && x != ReasonCode::ApproverNotEligible && x != ReasonCode::DependencyUnavailable
                ==> r == Refusal::Conflict(x),
        reason is None ==> r == Refusal::Conflict(ReasonCode::ApprovalNotOpen),
{
    match reason {
        Some(ReasonCode::ApproverNotEligible) => Refusal::Denied(ReasonCode::ApproverNotEligible),
        Some(ReasonCode::DependencyUnavailable) => Refusal::Unavailable(message),
        Some(x) => Refusal::Conflict(x),
        None => Refusal::Conflict(ReasonCode::ApprovalNotOpen),
    }
}

/// The object a selector's `manage` check runs on: the tenant for a tenant
/// admin, the frozen workspace for a workspace admin; a resource approver has
/// no object on these targets. `true` marks a workspace object.
pub fn selector_object(selector: ApprovalSelector, tenant: u128, workspace: Option<u128>) -> (r: Option<(bool, u128)>)
    ensures
        r == (match selector {
            ApprovalSelector::TenantAdmin => Some((false, tenant)),
            ApprovalSelector::WorkspaceAdmin => match workspace {
                Some(w) => Some((true, w)),
                None => None::<(bool, u128)>,
            },
            ApprovalSelector::ResourceApprover => None::<(bool, u128)>,
        }),
{
    match selector {
        ApprovalSelector::TenantAdmin => Some((false, tenant)),
        ApprovalSelector::WorkspaceAdmin => match workspace {
            Some(w) => Some((true, w)),
            None => None,
        },
        ApprovalSelector::ResourceApprover => None,
    }
}

/// Adds a satisfied selector once.
pub fn add_selector(satisfied: &mut Vec<ApprovalSelector>, selector: ApprovalSelector)
    ensures
        old(satisfied)@.contains(selector) ==> final(satisfied)@ == old(satisfied)@,
        !old(satisfied)@.contains(selector) ==> final(satisfied)@ == old(satisfied)@.push(selector),
{
    let mut i: usize = 0;
    while i < satisfied.len()
        invariant
            i <= satisfied@.len(),
            satisfied@ == old(satisfied)@,
            forall|j: int| 0 <= j < i ==> satisfied@[j] != selector,
        decreases satisfied.len() - i,
    {
        if satisfied[i] == selector {
            return;
        }
        i = i + 1;
    }
    satisfied.push(selector);
}

/// The eligibility result of an approver.
#[derive(Debug, Clone, PartialEq, Eq)]
pub struct ApproverAdmission {
    pub admitted: bool,
    pub reason: Option<ReasonCode>,
    pub satisfied_selectors: Vec<ApprovalSelector>,
}

/// Whether separation of duties forbids this approver: the policy denies self
/// approval and the approver initiated the request.
pub fn self_approval_forbidden(policy: ApprovalSelfApproval, approver: u128, initiator: u128) -> (r: bool)
    ensures
        r == (policy == ApprovalSelfApproval::Deny && approver == initiator),
{
    policy == ApprovalSelfApproval::Deny && approver == initiator
}

/// An approver's eligibility: an active human member of the tenant, not the
/// initiator where the policy forbids it, and holding at least one selector's
/// role. The first failing condition gives the reason.
pub fn approver_admission(active: bool, self_forbidden: bool, satisfied: Vec<ApprovalSelector>) -> (r:
    ApproverAdmission)
    ensures
        !active ==> !r.admitted && r.reason == Some(ReasonCode::ApproverNotEligible) && r.satisfied_selectors@.len()
            == 0,
        active && self_forbidden ==> !r.admitted && r.reason == Some(ReasonCode::SelfApprovalDenied)
            && r.satisfied_selectors@.len() == 0,
        active && !self_forbidden && satisfied@.len() == 0 ==> !r.admitted && r.reason == Some(
            ReasonCode::ApproverNotEligible,
        ) && r.satisfied_selectors@.len() == 0,
        active && !self_forbidden && satisfied@.len() > 0 ==> r.admitted && r.reason is None
            && r.satisfied_selectors@ == satisfied@,
{
    if !active {
        ApproverAdmission { admitted: false, reason: Some(ReasonCode::ApproverNotEligible), satisfied_selectors: Vec::new() }
    } else if self_forbidden {
        ApproverAdmission { admitted: false, reason: Some(ReasonCode::SelfApprovalDenied), satisfied_selectors: Vec::new() }
    } else if satisfied.len() == 0 {
        ApproverAdmission { admitted: false, reason: Some(ReasonCode::ApproverNotEligible), satisfied_selectors: Vec::new() }
    } else {
        ApproverAdmission { admitted: true, reason: None, satisfied_selectors: satisfied }
    }
}

/// Whether an approval view must show that its projection lags: the reference
/// is of unknown outcome, or the workflow ended while the projection still shows
/// an open status.
pub fn approval_observation(ref_unknown: bool, ref_terminal: bool, status: ApprovalStatus) -> (r: Option<ReasonCode>)
    ensures
        ref_unknown ==> r == Some(ReasonCode::ExternalResultUnknown),
        !ref_unknown && ref_terminal && (status == ApprovalStatus::Requested || status == ApprovalStatus::Waiting
            || status == ApprovalStatus::Approved) ==> r == Some(ReasonCode::ProjectionDelayed),
        !ref_unknown && !(ref_terminal && (status == ApprovalStatus::Requested || status
            == ApprovalStatus::Waiting || status == ApprovalStatus::Approved)) ==> r is None,
{
    let open = matches!(status, ApprovalStatus::Requested | ApprovalStatus::Waiting | ApprovalStatus::Approved);
    if ref_unknown {
        Some(ReasonCode::ExternalResultUnknown)
    } else if ref_terminal && open {
        Some(ReasonCode::ProjectionDelayed)
    } else {
        None
    }
}

/// What an approval report does.
#[derive(Debug, Clone, PartialEq, Eq)]
pub enum ReportStep {
    /// A timestamp of the report does not read: refused, nothing written.
    Invalid,
    /// No execution waits on this workflow: nothing written.
    UnknownWorkflow,
    /// The projection already holds this or a newer event: accepted again,
    /// nothing written.
    Stale,
    /// Store the report, with its audit records; close the admission gate with this
    /// state and reason if given; re-admit the execution if `recheck`.
    Apply { close: Option<(ActionGateState, ReasonCode)>, recheck: bool },
}

/// The step for an approval report (event `event_id`, status `status`), given
/// whether its timestamps read, the admission gate of the execution that waits on its
/// workflow, if any, and the last event the projection holds, if any. The
/// projection only moves forward; the admission gate closes, and re-admission starts,
/// only from WAITING.
pub open spec fn report_step_of(
    timestamps_read: bool,
    gate: Option<ActionGateState>,
    stored_event: Option<i64>,
    event_id: i64,
    status: ApprovalStatus,
) -> ReportStep {
    if !timestamps_read {
        ReportStep::Invalid
    } else {
        match gate {
            None => ReportStep::UnknownWorkflow,
            Some(g) => if stored_event matches Some(e) && e >= event_id {
                ReportStep::Stale
            } else {
                ReportStep::Apply {
                    close: if g == ActionGateState::Waiting {
                        match status {
                            ApprovalStatus::Denied => Some((ActionGateState::Denied, ReasonCode::ApprovalDenied)),
                            ApprovalStatus::Expired => Some((ActionGateState::Expired, ReasonCode::ApprovalExpired)),
                            ApprovalStatus::Cancelled => Some((ActionGateState::Revoked, ReasonCode::ApprovalWithdrawn)),
                            ApprovalStatus::Invalidated => Some(
                                (ActionGateState::Expired, ReasonCode::ApprovalConsumeWindowClosed),
                            ),
                            _ => None,
                        }
                    } else {
                        None
                    },
                    recheck: status == ApprovalStatus::Approved && g == ActionGateState::Waiting,
                }
            },
        }
    }
}

/// Decides what an approval report does (see `report_step_of`).
pub fn report_step(
    timestamps_read: bool,
    gate: Option<ActionGateState>,
    stored_event: Option<i64>,
    event_id: i64,
    status: ApprovalStatus,
) -> (r: ReportStep)
    ensures
        r == report_step_of(timestamps_read, gate, stored_event, event_id, status),
{
    if !timestamps_read {
        return ReportStep::Invalid;
    }
    let g = match gate {
        None => {
            return ReportStep::UnknownWorkflow;
        },
        Some(g) => g,
    };
    if let Some(e) = stored_event {
        if e >= event_id {
            return ReportStep::Stale;
        }
    }
    let close = if g == ActionGateState::Waiting {
        report_gate(status)
    } else {
        None
    };
    ReportStep::Apply { close, recheck: triggers_recheck(status, g) }
}

/// A report that is stored again, or an older one, changes nothing, and only
/// a WAITING gate is closed or re-admitted by a report.
pub proof fn lemma_reports_only_move_forward(
    gate: ActionGateState,
    stored_event: i64,
    event_id: i64,
    status: ApprovalStatus,
)
    ensures
        stored_event >= event_id ==> report_step_of(true, Some(gate), Some(stored_event), event_id, status)
            == ReportStep::Stale,
        gate != ActionGateState::Waiting ==> (report_step_of(true, Some(gate), Some(stored_event), event_id, status)
            matches ReportStep::Apply { close, recheck } ==> close is None && !recheck),
{
}

/// Whether a selector has an object to check on a target in `workspace` (see
/// `selector_object`): a tenant admin always, a workspace admin when the
/// target has a workspace, a resource approver never.
pub open spec fn has_object(selector: ApprovalSelector, workspace: Option<u128>) -> bool {
    match selector {
        ApprovalSelector::TenantAdmin => true,
        ApprovalSelector::WorkspaceAdmin => workspace is Some,
        ApprovalSelector::ResourceApprover => false,
    }
}

/// Whether a report is fresh: its timestamps read and no event at or after it
/// is stored.
pub open spec fn fresh_report(timestamps_read: bool, stored_event: Option<i64>, event_id: i64) -> bool {
    timestamps_read && !(stored_event matches Some(e) && e >= event_id)
}

/// What a report does, case by case. Unreadable timestamps refuse it; a
/// workflow no execution waits on, or an event at or before the stored one,
/// changes nothing. A fresh report is kept, and when the admission gate is WAITING its
/// status closes it: DENIED as DENIED (APPROVAL_DENIED), EXPIRED as EXPIRED
/// (APPROVAL_EXPIRED), CANCELLED as REVOKED (APPROVAL_WITHDRAWN), INVALIDATED
/// as EXPIRED (APPROVAL_CONSUME_WINDOW_CLOSED), while APPROVED leaves it open
/// and starts re-admission; any other status, or any other admission gate state, changes no
/// gate and re-admits nothing.
pub proof fn lemma_report_step_cases(
    timestamps_read: bool,
    gate: Option<ActionGateState>,
    stored_event: Option<i64>,
    event_id: i64,
    status: ApprovalStatus,
)
    ensures
        !timestamps_read ==> report_step_of(timestamps_read, gate, stored_event, event_id, status)
            == ReportStep::Invalid,
        timestamps_read && gate is None ==> report_step_of(timestamps_read, gate, stored_event, event_id, status)
            == ReportStep::UnknownWorkflow,
        timestamps_read && gate is Some && !fresh_report(timestamps_read, stored_event, event_id) ==> report_step_of(
            timestamps_read,
            gate,
            stored_event,
            event_id,
            status,
        ) == ReportStep::Stale,
        fresh_report(timestamps_read, stored_event, event_id) && gate == Some(ActionGateState::Waiting) && status
            == ApprovalStatus::Denied ==> report_step_of(timestamps_read, gate, stored_event, event_id, status)
            == (ReportStep::Apply { close: Some((ActionGateState::Denied, ReasonCode::ApprovalDenied)), recheck: false }),
        fresh_report(timestamps_read, stored_event, event_id) && gate == Some(ActionGateState::Waiting) && status
            == ApprovalStatus::Expired ==> report_step_of(timestamps_read, gate, stored_event, event_id, status)
            == (ReportStep::Apply { close: Some((ActionGateState::Expired, ReasonCode::ApprovalExpired)), recheck: false }),
        fresh_report(timestamps_read, stored_event, event_id) && gate == Some(ActionGateState::Waiting) && status
            == ApprovalStatus::Cancelled ==> report_step_of(timestamps_read, gate, stored_event, event_id, status)
            == (ReportStep::Apply {
            close: Some((ActionGateState::Revoked, ReasonCode::ApprovalWithdrawn)),
            recheck: false,
        }),
        fresh_report(timestamps_read, stored_event, event_id) && gate == Some(ActionGateState::Waiting) && status
            == ApprovalStatus::Invalidated ==> report_step_of(timestamps_read, gate, stored_event, event_id, status)
            == (ReportStep::Apply {
            close: Some((ActionGateState::Expired, ReasonCode::ApprovalConsumeWindowClosed)),
            recheck: false,
        }),
        fresh_report(timestamps_read, stored_event, event_id) && gate == Some(ActionGateState::Waiting) && status
            == ApprovalStatus::Approved ==> report_step_of(timestamps_read, gate, stored_event, event_id, status)
            == (ReportStep::Apply { close: None, recheck: true }),
        fresh_report(timestamps_read, stored_event, event_id) && gate == Some(ActionGateState::Waiting) && (status
            == ApprovalStatus::Requested || status == ApprovalStatus::Waiting || status == ApprovalStatus::Consumed)
            ==> report_step_of(timestamps_read, gate, stored_event, event_id, status) == (ReportStep::Apply {
            close: None,
            recheck: false,
        }),
        fresh_report(timestamps_read, stored_event, event_id) && gate is Some && gate != Some(ActionGateState::Waiting)
            ==> report_step_of(timestamps_read, gate, stored_event, event_id, status) == (ReportStep::Apply {
            close: None,
            recheck: false,
        }),
{
}

/// The selectors an approver satisfies: each role requirement of the policy,
/// in order, that has an object to check and whose check allowed
/// (`allowed[i]`), each selector kept once, first time first. A requirement
/// with no object fails closed whatever `allowed[i]` says.
pub open spec fn satisfied_of(reqs: Seq<ApprovalSelector>, allowed: Seq<bool>, workspace: Option<u128>) -> Seq<
    ApprovalSelector,
>
    decreases reqs.len(),
{
    if reqs.len() == 0 || allowed.len() == 0 {
        Seq::empty()
    } else {
        let prev = satisfied_of(reqs.drop_last(), allowed.drop_last(), workspace);
        if allowed.last() && has_object(reqs.last(), workspace) && !prev.contains(reqs.last()) {
            prev.push(reqs.last())
        } else {
            prev
        }
    }
}

/// Collects the selectors an approver satisfies (see `satisfied_of`).
pub fn satisfied_selectors(reqs: &[ApprovalSelector], allowed: &[bool], workspace: Option<u128>) -> (r: Vec<
    ApprovalSelector,
>)
    requires
        reqs@.len() == allowed@.len(),
    ensures
        r@ == satisfied_of(reqs@, allowed@, workspace),
{
    let mut out: Vec<ApprovalSelector> = Vec::new();
    let mut i: usize = 0;
    while i < reqs.len()
        invariant
            i <= reqs@.len(),
            reqs@.len() == allowed@.len(),
            out@ == satisfied_of(reqs@.subrange(0, i as int), allowed@.subrange(0, i as int), workspace),
        decreases reqs.len() - i,
    {
        proof {
            assert(reqs@.subrange(0, i + 1).drop_last() =~= reqs@.subrange(0, i as int));
            assert(allowed@.subrange(0, i + 1).drop_last() =~= allowed@.subrange(0, i as int));
        }
        let object = selector_object(reqs[i], 0, workspace);
        if allowed[i] && object.is_some() {
            add_selector(&mut out, reqs[i]);
        }
        i = i + 1;
    }
    proof {
        assert(reqs@.subrange(0, reqs@.len() as int) =~= reqs@);
        assert(allowed@.subrange(0, allowed@.len() as int) =~= allowed@);
    }
    out
}

/// The whole eligibility decision for a fresh approval: the approver's
/// standing and separation of duties first, then the selectors whose
/// `manage` check allowed (`allowed[i]` for `reqs[i]`) on an object the
/// target has (see `satisfied_of`).
pub fn fresh_admission(
    active: bool,
    self_forbidden: bool,
    reqs: &[ApprovalSelector],
    allowed: &[bool],
    workspace: Option<u128>,
) -> (r: ApproverAdmission)
    requires
        reqs@.len() == allowed@.len(),
    ensures
        !active ==> !r.admitted && r.reason == Some(ReasonCode::ApproverNotEligible) && r.satisfied_selectors@.len()
            == 0,
        active && self_forbidden ==> !r.admitted && r.reason == Some(ReasonCode::SelfApprovalDenied)
            && r.satisfied_selectors@.len() == 0,
        active && !self_forbidden ==> r.admitted == (satisfied_of(reqs@, allowed@, workspace).len() > 0),
        active && !self_forbidden && !r.admitted ==> r.reason == Some(ReasonCode::ApproverNotEligible)
            && r.satisfied_selectors@.len() == 0,
        r.admitted ==> r.reason is None && r.satisfied_selectors@ == satisfied_of(reqs@, allowed@, workspace),
{
    let satisfied = satisfied_selectors(reqs, allowed, workspace);
    approver_admission(active, self_forbidden, satisfied)
}

/// A satisfied selector always had an object to check, was allowed, and
/// occurs once: a resource approver, or a workspace admin on a target without
/// a workspace, is never counted.
pub proof fn lemma_satisfied_selectors_checked(reqs: Seq<ApprovalSelector>, allowed: Seq<bool>, workspace: Option<
    u128,
>)
    requires
        reqs.len() == allowed.len(),
    ensures
        forall|i: int|
            0 <= i < satisfied_of(reqs, allowed, workspace).len() ==> has_object(
                #[trigger] satisfied_of(reqs, allowed, workspace)[i],
                workspace,
            ) && (exists|k: int| 0 <= k < reqs.len() && reqs[k] == satisfied_of(reqs, allowed, workspace)[i] && allowed[k]),
        satisfied_of(reqs, allowed, workspace).no_duplicates(),
    decreases reqs.len(),
{
    if reqs.len() > 0 {
        let (rs, al) = (reqs.drop_last(), allowed.drop_last());
        lemma_satisfied_selectors_checked(rs, al, workspace);
        let prev = satisfied_of(rs, al, workspace);
        let cur = satisfied_of(reqs, allowed, workspace);
        assert forall|i: int| 0 <= i < cur.len() implies has_object(#[trigger] cur[i], workspace) && (exists|k: int|
            0 <= k < reqs.len() && reqs[k] == cur[i] && allowed[k]) by {
            if i < prev.len() {
                assert(cur[i] == prev[i]);
                let k = choose|k: int| 0 <= k < rs.len() && rs[k] == prev[i] && al[k];
                assert(reqs[k] == rs[k] && allowed[k] == al[k]);
            } else {
                assert(reqs[reqs.len() - 1] == cur[i] && allowed[allowed.len() - 1]);
            }
        }
    }
}

} // verus!
