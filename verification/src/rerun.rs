//! Rerunning a stranded entity.
//!
//! When a lifecycle workflow closed without reaching its goal, the entity it
//! drove stays in its converging state and the workflow's fixed ID is spent. A
//! rerun raises the entity's version by one, keeps its state, and starts a new
//! workflow under the ID of the new version. It is refused whenever the old
//! run's outcome is not proven: the projection and Temporal's own close must
//! agree on run and status.

use vstd::prelude::*;

use crate::contracts::TaskStatus;
use crate::governance::{HTTP_CONFLICT, HTTP_FORBIDDEN, HTTP_UNAVAILABLE};
use crate::ids::{hyphenated, uuid_text};
use crate::lifecycle::{MembershipScope, ScopeKind};
use crate::temporal::{Observed, ObservedState};
use crate::text::text_eq;
use crate::workflow::{parse_workflow_id, parse_workflow_id_result, workflow_id, workflow_id_text};

verus! {

/// The status of a missing entity.
pub const HTTP_NOT_FOUND: u16 = 404;

/// The converging state in which an entity driven by a workflow of `kind`
/// waits: scopes only have a provisioning chain; memberships provision or
/// revoke.
pub open spec fn converging_state_of(kind: Seq<char>) -> Option<Seq<char>> {
    if kind == "TENANT_LIFECYCLE"@ || kind == "WORKSPACE_LIFECYCLE"@ || kind == "MEMBERSHIP_PROJECTION"@ {
        Some("PROVISIONING"@)
    } else if kind == "MEMBERSHIP_REVOCATION"@ {
        Some("REVOKING"@)
    } else {
        None
    }
}

/// The converging state of the entities a workflow kind drives; `None` for a
/// kind that cannot be rerun.
pub fn converging_state(kind: &str) -> (r: Option<&'static str>)
    ensures
        r is Some <==> converging_state_of(kind@) is Some,
        r matches Some(s) ==> s@ == converging_state_of(kind@)->0,
{
    if text_eq(kind, "TENANT_LIFECYCLE") || text_eq(kind, "WORKSPACE_LIFECYCLE") || text_eq(
        kind,
        "MEMBERSHIP_PROJECTION",
    ) {
        Some("PROVISIONING")
    } else if text_eq(kind, "MEMBERSHIP_REVOCATION") {
        Some("REVOKING")
    } else {
        None
    }
}

/// The close statuses after which the driven entity did not reach its goal.
/// COMPLETED is not among them: a completed run that left its entity
/// converging is another defect, which a rerun would hide.
pub open spec fn rerunnable_status_text(s: Seq<char>) -> bool {
    s == "FAILED"@ || s == "CANCELED"@ || s == "TERMINATED"@ || s == "TIMED_OUT"@
}

/// Whether the projected close status allows a rerun.
pub fn rerunnable_status(status: Option<&str>) -> (r: bool)
    ensures
        r == (status matches Some(s) && rerunnable_status_text(s@)),
{
    match status {
        Some(s) => text_eq(s, "FAILED") || text_eq(s, "CANCELED") || text_eq(s, "TERMINATED") || text_eq(
            s,
            "TIMED_OUT",
        ),
        None => false,
    }
}

/// What proves a closed run: Temporal reports it closed, with a non-empty run
/// ID, and the projection holds the same run ID and the same status.
pub open spec fn closed_match_of(
    projection_status: Option<Seq<char>>,
    projection_run_id: Option<Seq<char>>,
    run_id: Seq<char>,
    state: ObservedState,
) -> Result<(), u16> {
    match state {
        ObservedState::Open => Err(HTTP_CONFLICT),
        ObservedState::Closed(status) => if run_id.len() > 0 && projection_run_id == Some(run_id)
            && projection_status == Some(status.wire_text()) {
            Ok(())
        } else {
            Err(HTTP_UNAVAILABLE)
        },
        ObservedState::Unrecognized(_) => Err(HTTP_UNAVAILABLE),
    }
}

/// The view of an optional text.
pub open spec fn opt_view(o: Option<&str>) -> Option<Seq<char>> {
    match o {
        Some(s) => Some(s@),
        None => None,
    }
}

/// Whether Temporal's close of the old run agrees with the projection. A run
/// still open is a definite "not yet" (409); any other gap leaves the outcome
/// unknown (503), and no new workflow is allotted on it.
pub fn closed_execution_matches_projection(
    projection_status: Option<&str>,
    projection_run_id: Option<&str>,
    observed: &Observed,
) -> (r: Result<(), u16>)
    ensures
        r == closed_match_of(opt_view(projection_status), opt_view(projection_run_id), observed.run_id@, observed.state),
{
    match observed.state {
        ObservedState::Open => Err(HTTP_CONFLICT),
        ObservedState::Closed(status) => {
            let run_ok = match projection_run_id {
                Some(p) => !observed.run_id.as_str().is_empty() && text_eq(p, observed.run_id.as_str()),
                None => false,
            };
            let status_ok = match projection_status {
                Some(p) => text_eq(p, status.wire()),
                None => false,
            };
            if run_ok && status_ok {
                Ok(())
            } else {
                Err(HTTP_UNAVAILABLE)
            }
        },
        ObservedState::Unrecognized(_) => Err(HTTP_UNAVAILABLE),
    }
}

/// The entity a rerun drives, and so the table it lives in.
#[derive(Debug, Clone, Copy, PartialEq, Eq, Structural)]
pub enum RerunTarget {
    Scope(ScopeKind),
    Membership(MembershipScope),
}

impl RerunTarget {
    /// The table holding the entity.
    pub fn table(self) -> (r: &'static str)
        ensures
            r@ == (match self {
                RerunTarget::Scope(ScopeKind::Tenant) => "identity.tenant"@,
                RerunTarget::Scope(ScopeKind::Workspace) => "identity.workspace"@,
                RerunTarget::Membership(MembershipScope::Tenant) => "identity.tenant_membership"@,
                RerunTarget::Membership(MembershipScope::Workspace) => "identity.workspace_membership"@,
            }),
    {
        match self {
            RerunTarget::Scope(ScopeKind::Tenant) => "identity.tenant",
            RerunTarget::Scope(ScopeKind::Workspace) => "identity.workspace",
            RerunTarget::Membership(MembershipScope::Tenant) => "identity.tenant_membership",
            RerunTarget::Membership(MembershipScope::Workspace) => "identity.workspace_membership",
        }
    }
}

/// The target of a workflow kind. A membership kind does not say which kind
/// of membership, so the entity is looked up among tenant memberships first,
/// then workspace memberships.
pub fn resolve_target(kind: &str, in_tenant_memberships: bool, in_workspace_memberships: bool) -> (r: Option<
    RerunTarget,
>)
    ensures
        r == (if kind@ == "TENANT_LIFECYCLE"@ {
            Some(RerunTarget::Scope(ScopeKind::Tenant))
        } else if kind@ == "WORKSPACE_LIFECYCLE"@ {
            Some(RerunTarget::Scope(ScopeKind::Workspace))
        } else if in_tenant_memberships {
            Some(RerunTarget::Membership(MembershipScope::Tenant))
        } else if in_workspace_memberships {
            Some(RerunTarget::Membership(MembershipScope::Workspace))
        } else {
            None
        }),
{
    if text_eq(kind, "TENANT_LIFECYCLE") {
        Some(RerunTarget::Scope(ScopeKind::Tenant))
    } else if text_eq(kind, "WORKSPACE_LIFECYCLE") {
        Some(RerunTarget::Scope(ScopeKind::Workspace))
    } else if in_tenant_memberships {
        Some(RerunTarget::Membership(MembershipScope::Tenant))
    } else if in_workspace_memberships {
        Some(RerunTarget::Membership(MembershipScope::Workspace))
    } else {
        None
    }
}

/// The old workflow's reference, its source action and its projection.
#[derive(Debug, Clone, PartialEq, Eq)]
pub struct OriginalWorkflow {
    pub kind: String,
    pub tenant_id: u128,
    pub original_action_execution_id: u128,
    pub original_target_id: u128,
    pub workspace_id: Option<u128>,
    pub projection_state: String,
    pub status: Option<String>,
    pub run_id: Option<String>,
}

/// The view of an optional owned text.
pub open spec fn opt_string_view(o: Option<String>) -> Option<Seq<char>> {
    match o {
        Some(s) => Some(s@),
        None => None,
    }
}

/// What the old workflow's reference must say before anything else is read: a
/// caller that names the tenant, the original action and the kind must match
/// it (403); the kind must be rerunnable and the ID must parse under the
/// reference's own kind and tenant to the original target (409). Gives the
/// converging state, the entity and its version.
pub open spec fn identity_check_of(
    kind: Seq<char>,
    tenant: u128,
    original: u128,
    target: u128,
    workflow_id: Seq<char>,
    expected: Option<(u128, u128, Seq<char>)>,
) -> Result<(Seq<char>, u128, i32), u16> {
    if expected matches Some((t, o, k)) && (tenant != t || original != o || kind != k) {
        Err(HTTP_FORBIDDEN)
    } else if converging_state_of(kind) is None {
        Err(HTTP_CONFLICT)
    } else {
        match parse_workflow_id_result(workflow_id, kind, tenant) {
            None => Err(HTTP_CONFLICT),
            Some((entity, version)) => if entity != target {
                Err(HTTP_CONFLICT)
            } else {
                Ok((converging_state_of(kind)->0, entity, version))
            },
        }
    }
}

/// Checks the old workflow's reference (see `identity_check_of`).
pub fn identity_check(prior: &OriginalWorkflow, workflow_id: &str, expected: Option<(u128, u128, &str)>) -> (r: Result<
    (&'static str, u128, i32),
    u16,
>)
    ensures
        (match identity_check_of(
            prior.kind@,
            prior.tenant_id,
            prior.original_action_execution_id,
            prior.original_target_id,
            workflow_id@,
            match expected {
                Some((t, o, k)) => Some((t, o, k@)),
                None => None,
            },
        ) {
            Ok((c, e, v)) => r matches Ok((rc, re, rv)) && rc@ == c && re == e && rv == v,
            Err(code) => r == Err::<(&'static str, u128, i32), u16>(code),
        }),
{
    if let Some((t, o, k)) = expected {
        if prior.tenant_id != t || prior.original_action_execution_id != o || !text_eq(prior.kind.as_str(), k) {
            return Err(HTTP_FORBIDDEN);
        }
    }
    let converging = match converging_state(prior.kind.as_str()) {
        None => {
            return Err(HTTP_CONFLICT);
        },
        Some(c) => c,
    };
    match parse_workflow_id(workflow_id, prior.kind.as_str(), prior.tenant_id) {
        None => Err(HTTP_CONFLICT),
        Some((entity, version)) => if entity != prior.original_target_id {
            Err(HTTP_CONFLICT)
        } else {
            Ok((converging, entity, version))
        },
    }
}

/// What must hold of the old run's close before a rerun: its reference is
/// TERMINAL (409 otherwise), Temporal answered the describe (503 otherwise),
/// the close agrees with the projection, and the projected status is
/// rerunnable (409 otherwise).
pub open spec fn terminal_check_of(
    projection_state: Seq<char>,
    status: Option<Seq<char>>,
    run_id: Option<Seq<char>>,
    observed: Option<(Seq<char>, ObservedState)>,
) -> Result<(), u16> {
    if projection_state != "TERMINAL"@ {
        Err(HTTP_CONFLICT)
    } else {
        match observed {
            None => Err(HTTP_UNAVAILABLE),
            Some((rid, state)) => match closed_match_of(status, run_id, rid, state) {
                Err(c) => Err(c),
                Ok(()) => if status matches Some(s) && rerunnable_status_text(s) {
                    Ok(())
                } else {
                    Err(HTTP_CONFLICT)
                },
            },
        }
    }
}

/// Checks the old run's close (see `terminal_check_of`). `observed` is `None`
/// when Temporal did not find the ID or could not be asked.
pub fn terminal_check(prior: &OriginalWorkflow, observed: Option<&Observed>) -> (r: Result<(), u16>)
    ensures
        r == terminal_check_of(
            prior.projection_state@,
            opt_string_view(prior.status),
            opt_string_view(prior.run_id),
            match observed {
                Some(o) => Some((o.run_id@, o.state)),
                None => None,
            },
        ),
{
    if !text_eq(prior.projection_state.as_str(), "TERMINAL") {
        return Err(HTTP_CONFLICT);
    }
    let o = match observed {
        None => {
            return Err(HTTP_UNAVAILABLE);
        },
        Some(o) => o,
    };
    let status: Option<&str> = match &prior.status {
        Some(s) => Some(s.as_str()),
        None => None,
    };
    let run_id: Option<&str> = match &prior.run_id {
        Some(s) => Some(s.as_str()),
        None => None,
    };
    if let Err(c) = closed_execution_matches_projection(status, run_id, o) {
        return Err(c);
    }
    if !rerunnable_status(status) {
        return Err(HTTP_CONFLICT);
    }
    Ok(())
}

/// The close status with which a wrong terminal projection is repaired: when
/// the close and the projection disagree and Temporal reports the run closed.
pub fn terminal_repair(mismatch: bool, observed: &Observed) -> (r: Option<TaskStatus>)
    ensures
        r == (match observed.state {
            ObservedState::Closed(s) => if mismatch {
                Some(s)
            } else {
                None
            },
            _ => None,
        }),
{
    if mismatch {
        match observed.state {
            ObservedState::Closed(s) => Some(s),
            _ => None,
        }
    } else {
        None
    }
}

/// The workflow ID of the rerun: the same kind, tenant and entity, at the next
/// version.
pub fn next_workflow_id(kind: &str, tenant: u128, entity: u128, version: i32) -> (r: String)
    requires
        version < i32::MAX,
    ensures
        r@ == workflow_id_text(kind@, tenant, hyphenated(entity), version + 1),
{
    let e = uuid_text(entity);
    workflow_id(kind, tenant, e.as_str(), version + 1)
}

/// Whether the entity still stands where the old workflow left it: at the
/// frozen version, in the converging state.
pub fn still_stranded(current: Option<(i32, &str)>, version: i32, converging: &str) -> (r: bool)
    ensures
        r == (current matches Some((v, s)) && v == version && s@ == converging@),
{
    match current {
        Some((v, s)) => v == version && text_eq(s, converging),
        None => false,
    }
}

/// The admission a rerun runs under must be an allowed action of the exact
/// key expected (403 otherwise) in the same workspace as the original (403).
pub fn rerun_admission(action_key: Option<&str>, expected_action_key: &str, same_workspace: Option<bool>) -> (r:
    Result<(), u16>)
    ensures
        r == (if action_key matches Some(k) && k@ == expected_action_key@ && same_workspace == Some(true) {
            Ok::<(), u16>(())
        } else {
            Err(HTTP_FORBIDDEN)
        }),
{
    let key_ok = match action_key {
        Some(k) => text_eq(k, expected_action_key),
        None => false,
    };
    if key_ok && same_workspace == Some(true) {
        Ok(())
    } else {
        Err(HTTP_FORBIDDEN)
    }
}

/// What a rerun does about the workflow its action already drives.
#[derive(Debug, Clone, Copy, PartialEq, Eq, Structural)]
pub enum ExistingWorkflow {
    /// The action drives none yet: go on.
    Fresh,
    /// It drives this rerun's workflow already (a retry): converge on it.
    Same,
    /// It drives another workflow: one admission cannot buy two executions.
    Other,
}

/// Classifies the workflow an action already drives.
pub fn existing_workflow(existing: Option<&str>, next_id: &str) -> (r: ExistingWorkflow)
    ensures
        r == (match existing {
            None => ExistingWorkflow::Fresh,
            Some(e) => if e@ == next_id@ {
                ExistingWorkflow::Same
            } else {
                ExistingWorkflow::Other
            },
        }),
{
    match existing {
        None => ExistingWorkflow::Fresh,
        Some(e) => if text_eq(e, next_id) {
            ExistingWorkflow::Same
        } else {
            ExistingWorkflow::Other
        },
    }
}

/// Whether the version raise took: exactly one step up from the frozen one.
pub fn version_raised(bumped: Option<i32>, version: i32) -> (r: bool)
    ensures
        r == (bumped matches Some(v) && v == version + 1),
{
    match bumped {
        Some(v) => version < i32::MAX && v == version + 1,
        None => false,
    }
}

/// A rerun only goes ahead on a proven closed run: when the terminal check
/// passes, Temporal reported the run closed with a non-empty run ID that the
/// projection holds, and the projected status is one after which the entity did
/// not reach its goal.
pub proof fn lemma_rerun_needs_proven_close(
    projection_state: Seq<char>,
    status: Option<Seq<char>>,
    run_id: Option<Seq<char>>,
    observed: Option<(Seq<char>, ObservedState)>,
)
    requires
        terminal_check_of(projection_state, status, run_id, observed) is Ok,
    ensures
        projection_state == "TERMINAL"@,
        observed matches Some((rid, state)) && state is Closed && rid.len() > 0 && run_id == Some(rid),
        status matches Some(s) && rerunnable_status_text(s),
{
}

} // verus!
