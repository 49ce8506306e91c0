//! State machines of tenants, workspaces and memberships.
//!
//! A transition is accepted only when it follows an edge of the fixed table of
//! its machine, names a registered lifecycle workflow of the right kind, and
//! carries the version it read; the store applies table, version and state in
//! one conditional update whose sources are computed here.

use vstd::prelude::*;

use crate::contracts::{AuditEventType, WorkflowKind};
use crate::text::text_eq;
use self::LifecycleState::{
    Active, Error, Invited, Provisioning, Restoring, Revoked, Revoking, Suspended, Suspending,
};

verus! {

/// State of a tenant, workspace or membership entity.
#[derive(Debug, Clone, Copy, PartialEq, Eq, Structural)]
pub enum LifecycleState {
    Invited,
    Provisioning,
    Active,
    Suspending,
    Suspended,
    Restoring,
    Revoking,
    Revoked,
    Error,
}

impl LifecycleState {
    /// The wire value of this variant.
    pub open spec fn wire_text(self) -> Seq<char> {
        match self {
            LifecycleState::Invited => "INVITED"@,
            LifecycleState::Provisioning => "PROVISIONING"@,
            LifecycleState::Active => "ACTIVE"@,
            LifecycleState::Suspending => "SUSPENDING"@,
            LifecycleState::Suspended => "SUSPENDED"@,
            LifecycleState::Restoring => "RESTORING"@,
            LifecycleState::Revoking => "REVOKING"@,
            LifecycleState::Revoked => "REVOKED"@,
            LifecycleState::Error => "ERROR"@,
        }
    }

    /// The variant whose wire value is `s`, if any.
    pub open spec fn from_wire_text(s: Seq<char>) -> Option<Self> {
        if s == "INVITED"@ {
            Some(LifecycleState::Invited)
        } else if s == "PROVISIONING"@ {
            Some(LifecycleState::Provisioning)
        } else if s == "ACTIVE"@ {
            Some(LifecycleState::Active)
        } else if s == "SUSPENDING"@ {
            Some(LifecycleState::Suspending)
        } else if s == "SUSPENDED"@ {
            Some(LifecycleState::Suspended)
        } else if s == "RESTORING"@ {
            Some(LifecycleState::Restoring)
        } else if s == "REVOKING"@ {
            Some(LifecycleState::Revoking)
        } else if s == "REVOKED"@ {
            Some(LifecycleState::Revoked)
        } else if s == "ERROR"@ {
            Some(LifecycleState::Error)
        } else {
            None
        }
    }

    /// The wire value of this variant.
    pub fn wire(&self) -> (r: &'static str)
        ensures
            r@ == self.wire_text(),
    {
        match self {
            LifecycleState::Invited => "INVITED",
            LifecycleState::Provisioning => "PROVISIONING",
            LifecycleState::Active => "ACTIVE",
            LifecycleState::Suspending => "SUSPENDING",
            LifecycleState::Suspended => "SUSPENDED",
            LifecycleState::Restoring => "RESTORING",
            LifecycleState::Revoking => "REVOKING",
            LifecycleState::Revoked => "REVOKED",
            LifecycleState::Error => "ERROR",
        }
    }

    /// Reads a wire value back; `None` for a value outside the enum.
    pub fn from_wire(s: &str) -> (r: Option<Self>)
        ensures
            r == Self::from_wire_text(s@),
    {
        if text_eq(s, "INVITED") {
            Some(LifecycleState::Invited)
        } else if text_eq(s, "PROVISIONING") {
            Some(LifecycleState::Provisioning)
        } else if text_eq(s, "ACTIVE") {
            Some(LifecycleState::Active)
        } else if text_eq(s, "SUSPENDING") {
            Some(LifecycleState::Suspending)
        } else if text_eq(s, "SUSPENDED") {
            Some(LifecycleState::Suspended)
        } else if text_eq(s, "RESTORING") {
            Some(LifecycleState::Restoring)
        } else if text_eq(s, "REVOKING") {
            Some(LifecycleState::Revoking)
        } else if text_eq(s, "REVOKED") {
            Some(LifecycleState::Revoked)
        } else if text_eq(s, "ERROR") {
            Some(LifecycleState::Error)
        } else {
            None
        }
    }
}

/// Reading back the wire value of any `LifecycleState` gives that variant.
pub proof fn lemma_lifecycle_state_wire_roundtrip(x: LifecycleState)
    ensures
        LifecycleState::from_wire_text(x.wire_text()) == Some(x),
{
    reveal_strlit("INVITED");
    assert("INVITED"@.len() == 7);
    reveal_strlit("PROVISIONING");
    assert("PROVISIONING"@.len() == 12);
    reveal_strlit("ACTIVE");
    assert("ACTIVE"@.len() == 6);
    reveal_strlit("SUSPENDING");
    assert("SUSPENDING"@.len() == 10);
    reveal_strlit("SUSPENDED");
    assert("SUSPENDED"@.len() == 9);
    reveal_strlit("RESTORING");
    assert("RESTORING"@.len() == 9);
    reveal_strlit("REVOKING");
    assert("REVOKING"@.len() == 8);
    reveal_strlit("REVOKED");
    assert("REVOKED"@.len() == 7);
    reveal_strlit("ERROR");
    assert("ERROR"@.len() == 5);
    match x {
        LifecycleState::Invited => {
        },
        LifecycleState::Provisioning => {
        },
        LifecycleState::Active => {
        },
        LifecycleState::Suspending => {
        },
        LifecycleState::Suspended => {
        },
        LifecycleState::Restoring => {
            assert("RESTORING"@[0] == 'R' && "SUSPENDED"@[0] == 'S');
        },
        LifecycleState::Revoking => {
        },
        LifecycleState::Revoked => {
            assert("REVOKED"@[0] == 'R' && "INVITED"@[0] == 'I');
        },
        LifecycleState::Error => {
        },
    }
}

/// Which membership table a transition addresses.
#[derive(Debug, Clone, Copy, PartialEq, Eq, Structural)]
pub enum MembershipScope {
    Tenant,
    Workspace,
}

/// Which scope table a transition addresses.
#[derive(Debug, Clone, Copy, PartialEq, Eq, Structural)]
pub enum ScopeKind {
    Tenant,
    Workspace,
}

/// The fixed membership state machine. Tenant memberships start INVITED (from an
/// invitation) or PROVISIONING; workspace memberships start PROVISIONING.
pub open spec fn membership_edge(scope: MembershipScope, from: LifecycleState, to: LifecycleState) -> bool {
    match (from, to) {
        (Invited, Provisioning) | (Invited, Revoked) => scope == MembershipScope::Tenant,
        (Provisioning, Active) | (Provisioning, Error) | (Active, Revoking) | (Revoking, Revoked) | (
            Revoking,
            Error,
        ) | (Error, Revoking) => true,
        _ => false,
    }
}

/// The fixed scope state machine, the same for tenants and workspaces. It has
/// no delete: no transition reaches a deleting state.
pub open spec fn scope_edge(from: LifecycleState, to: LifecycleState) -> bool {
    match (from, to) {
        (Provisioning, Active) | (Provisioning, Error) | (Active, Suspending) | (Suspending, Suspended) | (
            Suspending,
            Error,
        ) | (Suspended, Restoring) | (Restoring, Active) | (Restoring, Error) | (Error, Suspending) => true,
        _ => false,
    }
}

/// Whether an edge of the membership machine leads from `from` to `to`.
pub fn is_membership_edge(scope: MembershipScope, from: LifecycleState, to: LifecycleState) -> (r: bool)
    ensures
        r == membership_edge(scope, from, to),
{
    match (from, to) {
        (Invited, Provisioning) | (Invited, Revoked) => scope == MembershipScope::Tenant,
        (Provisioning, Active) | (Provisioning, Error) | (Active, Revoking) | (Revoking, Revoked) | (
            Revoking,
            Error,
        ) | (Error, Revoking) => true,
        _ => false,
    }
}

/// Whether an edge of the scope machine leads from `from` to `to`.
pub fn is_scope_edge(from: LifecycleState, to: LifecycleState) -> (r: bool)
    ensures
        r == scope_edge(from, to),
{
    match (from, to) {
        (Provisioning, Active) | (Provisioning, Error) | (Active, Suspending) | (Suspending, Suspended) | (
            Suspending,
            Error,
        ) | (Suspended, Restoring) | (Restoring, Active) | (Restoring, Error) | (Error, Suspending) => true,
        _ => false,
    }
}

/// Every state, in a fixed order.
pub open spec fn all_states() -> Seq<LifecycleState> {
    seq![Invited, Provisioning, Active, Suspending, Suspended, Restoring, Revoking, Revoked, Error]
}

/// The states from which the membership machine reaches `to`.
pub open spec fn membership_sources_of(scope: MembershipScope, to: LifecycleState) -> Seq<LifecycleState> {
    all_states().filter(|f: LifecycleState| machine_edge(Some(scope), f, to))
}

/// The states from which the scope machine reaches `to`.
pub open spec fn scope_sources_of(to: LifecycleState) -> Seq<LifecycleState> {
    all_states().filter(|f: LifecycleState| machine_edge(None, f, to))
}

/// The states from which the membership machine reaches `to_state`. Empty when
/// `to_state` is no target of that machine, including text that is no state.
pub fn membership_sources(scope: MembershipScope, to_state: &str) -> (r: Vec<LifecycleState>)
    ensures
        r@ == (match LifecycleState::from_wire_text(to_state@) {
            Some(to) => membership_sources_of(scope, to),
            None => Seq::empty(),
        }),
{
    match LifecycleState::from_wire(to_state) {
        Some(to) => sources_where(Some(scope), to),
        None => Vec::new(),
    }
}

/// The states from which the scope machine reaches `to_state`.
pub fn scope_sources(to_state: &str) -> (r: Vec<LifecycleState>)
    ensures
        r@ == (match LifecycleState::from_wire_text(to_state@) {
            Some(to) => scope_sources_of(to),
            None => Seq::empty(),
        }),
{
    match LifecycleState::from_wire(to_state) {
        Some(to) => sources_where(None, to),
        None => Vec::new(),
    }
}

/// An edge of the membership machine of `machine`, or of the scope machine
/// when `machine` is `None`.
pub open spec fn machine_edge(machine: Option<MembershipScope>, from: LifecycleState, to: LifecycleState) -> bool {
    match machine {
        Some(scope) => membership_edge(scope, from, to),
        None => scope_edge(from, to),
    }
}

/// The states with an edge to `to`, in the fixed order.
fn sources_where(machine: Option<MembershipScope>, to: LifecycleState) -> (r: Vec<LifecycleState>)
    ensures
        r@ == all_states().filter(|f: LifecycleState| machine_edge(machine, f, to)),
{
    let ghost spec_edge = |f: LifecycleState| machine_edge(machine, f, to);
    let states = vec![Invited, Provisioning, Active, Suspending, Suspended, Restoring, Revoking, Revoked, Error];
    assert(states@ =~= all_states());
    let mut r: Vec<LifecycleState> = Vec::new();
    let mut i: usize = 0;
    assert(states@.take(0).filter(spec_edge) =~= Seq::<LifecycleState>::empty()) by {
        reveal(Seq::filter);
    }
    while i < states.len()
        invariant
            states@ == all_states(),
            i <= states@.len(),
            r@ == states@.take(i as int).filter(spec_edge),
            spec_edge == (|f: LifecycleState| machine_edge(machine, f, to)),
        decreases states.len() - i,
    {
        let f = states[i];
        let keep = match machine {
            Some(scope) => is_membership_edge(scope, f, to),
            None => is_scope_edge(f, to),
        };
        if keep {
            r.push(f);
        }
        proof {
            states@.take(i as int).lemma_filter_push(f, spec_edge);
            assert(states@.take(i + 1) =~= states@.take(i as int).push(f));
        }
        i = i + 1;
    }
    assert(states@.take(states@.len() as int) =~= states@);
    r
}

/// A state is a source of `to` in the membership machine exactly when an edge
/// leads from it to `to`.
pub proof fn lemma_membership_sources(scope: MembershipScope, to: LifecycleState, f: LifecycleState)
    ensures
        membership_sources_of(scope, to).contains(f) <==> membership_edge(scope, f, to),
{
    lemma_filter_iff(|g: LifecycleState| machine_edge(Some(scope), g, to), f);
}

/// A state is a source of `to` in the scope machine exactly when an edge leads
/// from it to `to`.
pub proof fn lemma_scope_sources(to: LifecycleState, f: LifecycleState)
    ensures
        scope_sources_of(to).contains(f) <==> scope_edge(f, to),
{
    lemma_filter_iff(|g: LifecycleState| machine_edge(None, g, to), f);
}

proof fn lemma_filter_iff(p: spec_fn(LifecycleState) -> bool, f: LifecycleState)
    ensures
        all_states().filter(p).contains(f) <==> p(f),
{
    let s = all_states();
    if s.filter(p).contains(f) {
        let k = choose|k: int| 0 <= k < s.filter(p).len() && s.filter(p)[k] == f;
        s.lemma_filter_pred(p, k);
    }
    if p(f) {
        let k: int = match f {
            Invited => 0,
            Provisioning => 1,
            Active => 2,
            Suspending => 3,
            Suspended => 4,
            Restoring => 5,
            Revoking => 6,
            Revoked => 7,
            Error => 8,
        };
        assert(s[k] == f);
        s.lemma_filter_contains(p, k);
    }
}

/// HTTP 403: the request is refused.
pub const HTTP_FORBIDDEN: u16 = 403;

/// Whether a workflow of this kind may drive membership transitions: a
/// membership projection or revocation workflow.
pub fn drives_memberships(kind: Option<WorkflowKind>) -> (r: bool)
    ensures
        r == (kind == Some(WorkflowKind::MembershipProjection) || kind == Some(
            WorkflowKind::MembershipRevocation,
        )),
{
    matches!(kind, Some(WorkflowKind::MembershipProjection) | Some(WorkflowKind::MembershipRevocation))
}

/// Whether a workflow of this kind may drive scope transitions: a tenant or
/// workspace lifecycle workflow.
pub fn drives_scopes(kind: Option<WorkflowKind>) -> (r: bool)
    ensures
        r == (kind == Some(WorkflowKind::TenantLifecycle) || kind == Some(WorkflowKind::WorkspaceLifecycle)),
{
    matches!(kind, Some(WorkflowKind::TenantLifecycle) | Some(WorkflowKind::WorkspaceLifecycle))
}

/// Whether a transition request may go to the store: it names a workflow that
/// may drive it and a target that some state reaches. Refused with 403
/// otherwise.
pub fn transition_gate(attributable: bool, sources: &Vec<LifecycleState>) -> (r: Result<(), u16>)
    ensures
        r == (if attributable && sources@.len() > 0 {
            Ok(())
        } else {
            Err(HTTP_FORBIDDEN)
        }),
{
    if attributable && sources.len() > 0 {
        Ok(())
    } else {
        Err(HTTP_FORBIDDEN)
    }
}

/// The audit type of a membership transition: REVOKED is a revocation, every
/// other state an outcome.
pub fn membership_audit_type(new_state: LifecycleState) -> (r: AuditEventType)
    ensures
        r == (if new_state == Revoked {
            AuditEventType::Revocation
        } else {
            AuditEventType::Outcome
        }),
{
    if new_state == Revoked {
        AuditEventType::Revocation
    } else {
        AuditEventType::Outcome
    }
}

/// Whether entering `new_state` revokes the member's platform sessions in the
/// same transaction: a tenant membership entering REVOKING or REVOKED.
pub fn revokes_sessions(scope: MembershipScope, new_state: LifecycleState) -> (r: bool)
    ensures
        r == (scope == MembershipScope::Tenant && (new_state == Revoking || new_state == Revoked)),
{
    scope == MembershipScope::Tenant && (new_state == Revoking || new_state == Revoked)
}

/// A revoked workspace membership, and a revoked tenant membership, never move
/// again: no edge of the membership machine leaves REVOKED.
pub proof fn lemma_revoked_is_final(scope: MembershipScope, to: LifecycleState)
    ensures
        !membership_edge(scope, Revoked, to),
{
}

/// Only a tenant membership starts from an invitation.
pub proof fn lemma_invited_only_for_tenant(from: LifecycleState, to: LifecycleState)
    ensures
        !membership_edge(MembershipScope::Workspace, from, to) || (from != Invited && to != Invited),
{
}

/// The scope machine never enters or leaves the membership-only states.
pub proof fn lemma_scope_machine_closed(from: LifecycleState, to: LifecycleState)
    requires
        scope_edge(from, to),
    ensures
        from != Invited && from != Revoking && from != Revoked,
        to != Invited && to != Revoking && to != Revoked,
{
}


/// The scope machine, edge by edge: PROVISIONING goes ACTIVE or ERROR;
/// ACTIVE is suspended through SUSPENDING, which ends SUSPENDED or ERROR;
/// SUSPENDED is restored through RESTORING, which ends ACTIVE or ERROR; ERROR
/// can only be suspended. Nothing else is an edge.
pub proof fn lemma_scope_edges_are_the_table(from: LifecycleState, to: LifecycleState)
    ensures
        scope_edge(from, to) <==> {
            ||| from == Provisioning && to == Active
            ||| from == Provisioning && to == Error
            ||| from == Active && to == Suspending
            ||| from == Suspending && to == Suspended
            ||| from == Suspending && to == Error
            ||| from == Suspended && to == Restoring
            ||| from == Restoring && to == Active
            ||| from == Restoring && to == Error
            ||| from == Error && to == Suspending
        },
{
}

/// The membership machine, edge by edge. A tenant membership may start from
/// an invitation (INVITED goes PROVISIONING, or REVOKED when the invitation is
/// withdrawn); then for both scopes PROVISIONING goes ACTIVE or ERROR, an
/// ACTIVE member is removed through REVOKING, which ends REVOKED or ERROR, and
/// ERROR can only be revoked. Nothing else is an edge.
pub proof fn lemma_membership_edges_are_the_table(scope: MembershipScope, from: LifecycleState, to: LifecycleState)
    ensures
        membership_edge(scope, from, to) <==> {
            ||| scope == MembershipScope::Tenant && from == Invited && to == Provisioning
            ||| scope == MembershipScope::Tenant && from == Invited && to == Revoked
            ||| from == Provisioning && to == Active
            ||| from == Provisioning && to == Error
            ||| from == Active && to == Revoking
            ||| from == Revoking && to == Revoked
            ||| from == Revoking && to == Error
            ||| from == Error && to == Revoking
        },
{
}

/// At the version read, an active tenant or workspace is suspended and an
/// active membership of either scope starts its removal: each update takes and
/// raises the version by one.
pub proof fn lemma_active_can_be_suspended_or_removed(scope: MembershipScope, version: i32)
    ensures
        conditional_update_of(None, Active, version, version, Suspending) == Ok::<(LifecycleState, int), u16>(
            (Suspending, version + 1),
        ),
        conditional_update_of(Some(scope), Active, version, version, Revoking) == Ok::<(LifecycleState, int), u16>(
            (Revoking, version + 1),
        ),
        scope_sources_of(Suspending).contains(Active),
        membership_sources_of(scope, Revoking).contains(Active),
{
    lemma_scope_sources(Suspending, Active);
    lemma_membership_sources(scope, Revoking, Active);
}

/// The answer to a membership transition: the new state and version.
#[derive(Debug, Clone, PartialEq, Eq)]
pub struct TransitionResponse {
    pub state: String,
    pub version: i32,
}

/// The answer to a scope transition: the new state and version.
#[derive(Debug, Clone, PartialEq, Eq)]
pub struct ScopeTransitionResponse {
    pub state: String,
    pub version: i32,
}

/// One conditional update of an entity, as the store applies it: it takes
/// only when the stored version is the one read and the stored state has an
/// edge of the entity's machine to the target; then the state moves and the
/// version rises by one. No row changes otherwise (409): the ID, the version
/// or the state no longer fits, and the request is not retried.
pub open spec fn conditional_update_of(
    machine: Option<MembershipScope>,
    state: LifecycleState,
    version: i32,
    from_version: i32,
    to: LifecycleState,
) -> Result<(LifecycleState, int), u16> {
    if version == from_version && machine_edge(machine, state, to) {
        Ok((to, version + 1))
    } else {
        Err(409u16)
    }
}

/// Applies one conditional update (see `conditional_update_of`).
pub fn conditional_update(
    machine: Option<MembershipScope>,
    state: LifecycleState,
    version: i32,
    from_version: i32,
    to: LifecycleState,
) -> (r: Result<(LifecycleState, i32), u16>)
    requires
        version < i32::MAX,
    ensures
        (match conditional_update_of(machine, state, version, from_version, to) {
            Ok((s, v)) => r matches Ok((rs, rv)) && rs == s && rv == v,
            Err(c) => r == Err::<(LifecycleState, i32), u16>(c),
        }),
{
    let edge = match machine {
        Some(scope) => is_membership_edge(scope, state, to),
        None => is_scope_edge(state, to),
    };
    if version == from_version && edge {
        Ok((to, version + 1))
    } else {
        Err(409)
    }
}

/// Every change that a conditional update makes follows an edge of the
/// machine and raises the version by exactly one; a stale version never
/// changes anything.
pub proof fn lemma_updates_follow_the_machine(
    machine: Option<MembershipScope>,
    state: LifecycleState,
    version: i32,
    from_version: i32,
    to: LifecycleState,
)
    ensures
        conditional_update_of(machine, state, version, from_version, to) matches Ok((s, v)) ==> machine_edge(
            machine,
            state,
            s,
        ) && v == version + 1,
        version != from_version ==> conditional_update_of(machine, state, version, from_version, to) is Err,
        state == Revoked && machine is Some ==> conditional_update_of(machine, state, version, from_version, to)
            is Err,
{
}

/// A scope transition request: it must be attributable to a TENANT_ or
/// WORKSPACE_LIFECYCLE workflow reference and name a target that some state
/// reaches (403 otherwise, the target text included when it is no state);
/// then the row (`None` when it does not exist) changes only along an edge at
/// the requested version (409 otherwise).
pub open spec fn scope_transition_of(
    attributable: bool,
    to_state: Seq<char>,
    current: Option<(LifecycleState, i32)>,
    from_version: i32,
) -> Result<(LifecycleState, int), u16> {
    match LifecycleState::from_wire_text(to_state) {
        None => Err(HTTP_FORBIDDEN),
        Some(to) => if !attributable || scope_sources_of(to).len() == 0 {
            Err(HTTP_FORBIDDEN)
        } else {
            match current {
                None => Err(409u16),
                Some((state, version)) => conditional_update_of(None, state, version, from_version, to),
            }
        },
    }
}

/// Decides a scope transition request (see `scope_transition_of`).
pub fn scope_transition(attributable: bool, to_state: &str, current: Option<(LifecycleState, i32)>, from_version: i32) -> (r:
    Result<(LifecycleState, i32), u16>)
    requires
        current matches Some((_, v)) ==> v < i32::MAX,
    ensures
        (match scope_transition_of(attributable, to_state@, current, from_version) {
            Ok((s, v)) => r matches Ok((rs, rv)) && rs == s && rv == v,
            Err(c) => r == Err::<(LifecycleState, i32), u16>(c),
        }),
{
    let sources = scope_sources(to_state);
    transition_gate(attributable, &sources)?;
    let to = match LifecycleState::from_wire(to_state) {
        Some(t) => t,
        None => {
            return Err(HTTP_FORBIDDEN);
        },
    };
    match current {
        None => Err(409),
        Some((state, version)) => conditional_update(None, state, version, from_version, to),
    }
}

/// A scope transition succeeds exactly when its workflow may drive it, the
/// target is a state, the row exists at the requested version and an edge of
/// the scope machine leads from its state to the target; it then moves to the
/// target and raises the version by one. It is refused with 403 exactly when
/// the workflow may not drive it or nothing reaches the target, and is a 409
/// conflict otherwise.
pub proof fn lemma_scope_transition_law(
    attributable: bool,
    to_state: Seq<char>,
    current: Option<(LifecycleState, i32)>,
    from_version: i32,
)
    ensures
        (scope_transition_of(attributable, to_state, current, from_version) is Ok) <==> (attributable
            && LifecycleState::from_wire_text(to_state) is Some && current is Some && current.unwrap().1 == from_version
            && scope_edge(current.unwrap().0, LifecycleState::from_wire_text(to_state)->Some_0)),
        scope_transition_of(attributable, to_state, current, from_version) matches Ok((t, nv)) ==> (current is Some
            && nv == current.unwrap().1 + 1 && Some(t) == LifecycleState::from_wire_text(to_state)),
        (scope_transition_of(attributable, to_state, current, from_version) == Err::<(LifecycleState, int), u16>(
            HTTP_FORBIDDEN,
        )) <==> (!attributable || LifecycleState::from_wire_text(to_state) is None || scope_sources_of(
            LifecycleState::from_wire_text(to_state)->Some_0,
        ).len() == 0),
{
    if let Some(to) = LifecycleState::from_wire_text(to_state) {
        if let Some((s, v)) = current {
            lemma_scope_sources(to, s);
            if scope_edge(s, to) {
                assert(scope_sources_of(to).contains(s));
            }
        }
    }
}

} // verus!
