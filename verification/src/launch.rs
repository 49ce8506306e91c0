//! Starting lifecycle workflows of scopes and memberships.
//!
//! Every kind starts the same way: the workflow reference is stored first, the
//! workflow starts at most once under its fixed ID, and its run ID is filled
//! in. A start whose outcome is unknown is converged under the same ID; a
//! version whose workflow is already closed is never started again.

use vstd::prelude::*;

use crate::governance::{HTTP_CONFLICT, HTTP_FORBIDDEN, HTTP_UNAVAILABLE};
use crate::ids::{hyphenated, uuid_text};
use crate::lifecycle::{MembershipScope, ScopeKind};
use crate::temporal::{Started, TemporalError};
use crate::text::text_eq;
use crate::workflow::{workflow_id, workflow_id_text};

verus! {

/// The workflow type the worker registers.
pub open spec fn workflow_type() -> Seq<char> {
    "ComponentTaskWorkflow"@
}

/// The frozen input of a workflow: its kind and its target.
#[derive(Debug, Clone, PartialEq, Eq)]
pub struct ComponentTaskInput<T> {
    pub kind: String,
    pub target: T,
}

/// The answer of a start: the fixed ID, the kind, and the run ID when this
/// call created the run.
#[derive(Debug, Clone, PartialEq, Eq)]
pub struct LifecycleResponse {
    pub workflow_id: String,
    pub kind: String,
    pub run_id: Option<String>,
}

/// A membership workflow's target.
#[derive(Debug, Clone, PartialEq, Eq)]
pub struct MembershipTarget {
    pub scope: String,
    pub membership_id: String,
    pub membership_version: i32,
    pub subject_principal_id: String,
    pub relation_object_id: String,
}

/// The input envelope of a membership workflow.
#[derive(Debug, Clone, PartialEq, Eq)]
pub struct MembershipEnvelope {
    pub membership: MembershipTarget,
}

/// A scope workflow's target; a workspace names its tenant.
#[derive(Debug, Clone, PartialEq, Eq)]
pub struct ScopeTarget {
    pub id: String,
    pub version: i32,
    pub tenant_id: Option<String>,
}

/// The input envelope of a scope workflow.
#[derive(Debug, Clone, PartialEq, Eq)]
pub struct ScopeEnvelope {
    pub scope: ScopeTarget,
}

/// The result of a start: the run ID when this call created the run, `None`
/// when the ID exists already. A reference that is already TERMINAL, or a
/// refused start, is a conflict (409); any other failure leaves the outcome
/// unknown (503), to be converged under the same ID.
pub open spec fn start_result_of(terminal: bool, started: Result<Started, TemporalError>) -> Result<
    Option<String>,
    u16,
> {
    if terminal {
        Err(HTTP_CONFLICT)
    } else {
        match started {
            Ok(Started::Created { run_id }) => Ok(Some(run_id)),
            Ok(Started::AlreadyStarted) => Ok(None),
            Err(TemporalError::Rejected(_)) => Err(HTTP_CONFLICT),
            Err(_) => Err(HTTP_UNAVAILABLE),
        }
    }
}

/// Reads a start (see `start_result_of`). `terminal` is whether the stored
/// reference of this ID is already TERMINAL, checked before starting.
pub fn start_result(terminal: bool, started: Result<Started, TemporalError>) -> (r: Result<Option<String>, u16>)
    ensures
        r == start_result_of(terminal, started),
{
    if terminal {
        return Err(HTTP_CONFLICT);
    }
    match started {
        Ok(Started::Created { run_id }) => Ok(Some(run_id)),
        Ok(Started::AlreadyStarted) => Ok(None),
        Err(TemporalError::Rejected(_)) => Err(HTTP_CONFLICT),
        Err(_) => Err(HTTP_UNAVAILABLE),
    }
}

/// The workflow kind a membership in `state` can start: the provisioning
/// chain from PROVISIONING, the revocation chain from REVOKING.
pub open spec fn membership_kind_of(state: Seq<char>) -> Option<Seq<char>> {
    if state == "PROVISIONING"@ {
        Some("MEMBERSHIP_PROJECTION"@)
    } else if state == "REVOKING"@ {
        Some("MEMBERSHIP_REVOCATION"@)
    } else {
        None
    }
}

/// The workflow kind of a membership in `state`; `None` (409) for any other
/// state.
pub fn membership_kind(state: &str) -> (r: Option<&'static str>)
    ensures
        r is Some <==> membership_kind_of(state@) is Some,
        r matches Some(k) ==> k@ == membership_kind_of(state@)->0,
{
    if text_eq(state, "PROVISIONING") {
        Some("MEMBERSHIP_PROJECTION")
    } else if text_eq(state, "REVOKING") {
        Some("MEMBERSHIP_REVOCATION")
    } else {
        None
    }
}

/// The lifecycle kind of a scope.
pub fn scope_kind_text(kind: ScopeKind) -> (r: &'static str)
    ensures
        r@ == (match kind {
            ScopeKind::Tenant => "TENANT_LIFECYCLE"@,
            ScopeKind::Workspace => "WORKSPACE_LIFECYCLE"@,
        }),
{
    match kind {
        ScopeKind::Tenant => "TENANT_LIFECYCLE",
        ScopeKind::Workspace => "WORKSPACE_LIFECYCLE",
    }
}

/// The wire value of a membership scope.
pub fn scope_wire(scope: MembershipScope) -> (r: String)
    ensures
        r@ == (match scope {
            MembershipScope::Tenant => "TENANT"@,
            MembershipScope::Workspace => "WORKSPACE"@,
        }),
{
    match scope {
        MembershipScope::Tenant => "TENANT".to_owned(),
        MembershipScope::Workspace => "WORKSPACE".to_owned(),
    }
}

/// A membership's lifecycle start: its fixed workflow ID, its kind and its
/// frozen target. The relation object is the tenant for a tenant membership
/// and the workspace for a workspace membership.
pub fn membership_launch(
    scope: MembershipScope,
    membership_id: u128,
    tenant_id: u128,
    principal_id: u128,
    object_id: u128,
    version: i32,
    state: &str,
) -> (r: Result<(String, &'static str, MembershipEnvelope), u16>)
    ensures
        membership_kind_of(state@) is None ==> r == Err::<(String, &'static str, MembershipEnvelope), u16>(
            HTTP_CONFLICT,
        ),
        (match membership_kind_of(state@) {
            Some(k) => r matches Ok((id, kind, env)) && kind@ == k && id@ == workflow_id_text(
                k,
                tenant_id,
                hyphenated(membership_id),
                version as int,
            ) && env.membership.membership_id@ == hyphenated(membership_id) && env.membership.membership_version
                == version && env.membership.subject_principal_id@ == hyphenated(principal_id)
                && env.membership.relation_object_id@ == hyphenated(object_id) && env.membership.scope@ == (
            match scope {
                MembershipScope::Tenant => "TENANT"@,
                MembershipScope::Workspace => "WORKSPACE"@,
            }),
            None => true,
        }),
{
    let kind = match membership_kind(state) {
        None => {
            return Err(HTTP_CONFLICT);
        },
        Some(k) => k,
    };
    let m = uuid_text(membership_id);
    let id = workflow_id(kind, tenant_id, m.as_str(), version);
    let target = MembershipTarget {
        scope: scope_wire(scope),
        membership_id: m,
        membership_version: version,
        subject_principal_id: uuid_text(principal_id),
        relation_object_id: uuid_text(object_id),
    };
    Ok((id, kind, MembershipEnvelope { membership: target }))
}

/// A scope's lifecycle start: only a PROVISIONING scope starts its
/// provisioning chain (409 otherwise).
pub fn scope_launch(kind: ScopeKind, id: u128, tenant_id: u128, version: i32, state: &str) -> (r: Result<
    (String, &'static str, ScopeEnvelope),
    u16,
>)
    ensures
        state@ != "PROVISIONING"@ ==> r == Err::<(String, &'static str, ScopeEnvelope), u16>(HTTP_CONFLICT),
        state@ == "PROVISIONING"@ ==> (r matches Ok((wid, k, env)) && k@ == (match kind {
            ScopeKind::Tenant => "TENANT_LIFECYCLE"@,
            ScopeKind::Workspace => "WORKSPACE_LIFECYCLE"@,
        }) && wid@ == workflow_id_text(k@, tenant_id, hyphenated(id), version as int) && env.scope.id@ == hyphenated(
            id,
        ) && env.scope.version == version && (match kind {
            ScopeKind::Tenant => env.scope.tenant_id is None,
            ScopeKind::Workspace => env.scope.tenant_id matches Some(t) && t@ == hyphenated(tenant_id),
        })),
{
    if !text_eq(state, "PROVISIONING") {
        return Err(HTTP_CONFLICT);
    }
    let k = scope_kind_text(kind);
    let s = uuid_text(id);
    let wid = workflow_id(k, tenant_id, s.as_str(), version);
    let tenant = match kind {
        ScopeKind::Workspace => Some(uuid_text(tenant_id)),
        ScopeKind::Tenant => None,
    };
    Ok((wid, k, ScopeEnvelope { scope: ScopeTarget { id: s, version, tenant_id: tenant } }))
}

/// A start runs only under an allowed admission of the same tenant (403).
pub fn launch_admission(allowed: bool) -> (r: Result<(), u16>)
    ensures
        r == (if allowed {
            Ok::<(), u16>(())
        } else {
            Err(HTTP_FORBIDDEN)
        }),
{
    if allowed {
        Ok(())
    } else {
        Err(HTTP_FORBIDDEN)
    }
}

/// A closed workflow is never started again, whatever Temporal answers.
pub proof fn lemma_terminal_never_restarts(started: Result<Started, TemporalError>)
    ensures
        start_result_of(true, started) == Err::<Option<String>, u16>(HTTP_CONFLICT),
{
}

} // verus!
