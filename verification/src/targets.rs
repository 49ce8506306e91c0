//! Resolving the target of an action from current facts, re-checking it when
//! the admission settles, and the entity advance an allowed action performs.

use vstd::prelude::*;

use crate::contracts::{ActionDispatchState, ReasonCode};
use crate::governance::{Refusal, Semantic};
use crate::ids::{new_uuid, uuid_v5_url_result};
use crate::lifecycle::LifecycleState;
use crate::roles::{role_target_name, target_id, RoleTemplate};
use crate::text::text_eq;
use vstd::utf8::encode_utf8;

verus! {

/// A resolved target: its ID, the version read at admission (0 for a new
/// entity), and the workspace the action executes in.
#[derive(Debug, Clone, Copy, PartialEq, Eq, Structural)]
pub struct Target {
    pub id: u128,
    pub version: i32,
    pub workspace_id: Option<u128>,
}

/// The ID of a new entity: the frozen one when re-admitting, a fresh one on
/// first admission.
fn new_entity_id(frozen: Option<u128>) -> (r: Result<u128, Refusal>)
    ensures
        frozen matches Some(f) ==> r == Ok::<u128, Refusal>(f),
        r matches Err(e) ==> e is Unavailable,
{
    match frozen {
        Some(f) => Ok(f),
        None => new_uuid(),
    }
}

/// Whether a role action and the template it references agree on the object
/// type: a workspace role action needs a workspace template and a tenant role
/// action a tenant one. Anything else is an inconsistent catalog and blocked.
pub fn role_object_consistent(sem: Semantic, template_object_type: &str) -> (r: Result<(), Refusal>)
    ensures
        (template_object_type@ == "workspace"@) == (sem == Semantic::WorkspaceRoleGrant || sem
            == Semantic::WorkspaceRoleRevoke) ==> r == Ok::<(), Refusal>(()),
        (template_object_type@ == "workspace"@) != (sem == Semantic::WorkspaceRoleGrant || sem
            == Semantic::WorkspaceRoleRevoke) ==> r == Err::<(), Refusal>(Refusal::Blocked(ReasonCode::CapabilityBlocked)),
{
    if text_eq(template_object_type, "workspace") == sem.in_workspace() {
        Ok(())
    } else {
        Err(Refusal::Blocked(ReasonCode::CapabilityBlocked))
    }
}

/// The stable ID of a role tuple (see `roles::target_id`).
pub open spec fn role_tuple_id(t: &RoleTemplate, object: u128, principal: u128) -> u128 {
    uuid_v5_url_result(encode_utf8(role_target_name(t.object_type@, object, t.role_key@, principal)))
}

/// The target of a role action. A workspace role needs an active workspace of
/// the tenant (a scope-guard denial otherwise); the subject must be, for a
/// grant, an active human member and, for a revoke, a human of the tenant. The
/// target ID is the role tuple's stable ID.
pub fn role_target(
    t: &RoleTemplate,
    sem: Semantic,
    tenant: u128,
    workspace: Option<u128>,
    workspace_active: bool,
    principal: Option<u128>,
    subject_ok: bool,
) -> (r: Result<Target, Refusal>)
    ensures
        principal is None ==> r == Err::<Target, Refusal>(Refusal::Precondition(ReasonCode::InvalidParameters)),
        principal matches Some(p) && sem.in_workspace_spec() && !workspace_active ==> r == Err::<Target, Refusal>(
            Refusal::Denied(ReasonCode::ScopeGuardFailed),
        ),
        principal matches Some(p) && sem.in_workspace_spec() && workspace_active && workspace is None ==> r
            == Err::<Target, Refusal>(Refusal::Precondition(ReasonCode::InvalidParameters)),
        principal is Some && (!sem.in_workspace_spec() || (workspace_active && workspace is Some)) && !subject_ok
            ==> r == Err::<Target, Refusal>(Refusal::Precondition(ReasonCode::TargetNotFound)),
        principal is Some && subject_ok && (!sem.in_workspace_spec() || (workspace_active && workspace is Some))
            ==> (r matches Ok(target) && target.version == 0 && (if sem.in_workspace_spec() {
            target.workspace_id == workspace && target.id == role_tuple_id(t, workspace.unwrap(), principal.unwrap())
        } else {
            target.workspace_id is None && target.id == role_tuple_id(t, tenant, principal.unwrap())
        })),
{
    let p = match principal {
        Some(p) => p,
        None => return Err(Refusal::Precondition(ReasonCode::InvalidParameters)),
    };
    let in_workspace = sem.in_workspace();
    let object = if in_workspace {
        if !workspace_active {
            return Err(Refusal::Denied(ReasonCode::ScopeGuardFailed));
        }
        match workspace {
            Some(w) => w,
            None => return Err(Refusal::Precondition(ReasonCode::InvalidParameters)),
        }
    } else {
        tenant
    };
    if !subject_ok {
        return Err(Refusal::Precondition(ReasonCode::TargetNotFound));
    }
    Ok(Target {
        id: target_id(t, object, p),
        version: 0,
        workspace_id: if in_workspace {
            Some(object)
        } else {
            None
        },
    })
}

/// The target of creating a workspace: a slug already taken in the tenant is a
/// conflict; otherwise a new workspace, under the frozen ID when re-admitting.
pub fn workspace_create_target(taken: bool, frozen: Option<u128>) -> (r: Result<Target, Refusal>)
    ensures
        taken ==> r == Err::<Target, Refusal>(Refusal::Conflict(ReasonCode::TargetStateConflict)),
        !taken && frozen is Some ==> r == Ok::<Target, Refusal>(Target { id: frozen.unwrap(), version: 0, workspace_id: None }),
        !taken && frozen is None ==> (r matches Ok(t) && t.version == 0 && t.workspace_id is None) || (r matches Err(e)
            && e is Unavailable),
{
    if taken {
        return Err(Refusal::Conflict(ReasonCode::TargetStateConflict));
    }
    let id = new_entity_id(frozen)?;
    Ok(Target { id, version: 0, workspace_id: None })
}

/// A membership row as read: ID, version and state.
pub type MembershipRow = (u128, i32, LifecycleState);

/// The target of adding or revoking a workspace member. The workspace must be
/// an active workspace of the tenant, or the scope guard denies (another
/// tenant's ID and a missing one get the same answer). A revoke needs an ACTIVE
/// or ERROR membership. An add needs an active human member of the tenant as
/// subject, and either no membership (a new one) or a REVOKED one (restored
/// under a new version).
pub fn workspace_member_target(
    sem: Semantic,
    workspace: Option<u128>,
    workspace_active: bool,
    row: Option<MembershipRow>,
    subject_ok: bool,
    frozen: Option<u128>,
) -> (r: Result<Target, Refusal>)
    requires
        sem == Semantic::WorkspaceMemberAdd || sem == Semantic::WorkspaceMemberRevoke,
    ensures
        !workspace_active ==> r == Err::<Target, Refusal>(Refusal::Denied(ReasonCode::ScopeGuardFailed)),
        workspace_active && sem == Semantic::WorkspaceMemberRevoke ==> r == (match row {
            Some((id, version, state)) => if state == LifecycleState::Active || state == LifecycleState::Error {
                Ok::<Target, Refusal>(Target { id, version, workspace_id: workspace })
            } else {
                Err(Refusal::Conflict(ReasonCode::TargetStateConflict))
            },
            None => Err(Refusal::Precondition(ReasonCode::TargetNotFound)),
        }),
        workspace_active && sem == Semantic::WorkspaceMemberAdd && !subject_ok ==> r == Err::<Target, Refusal>(
            Refusal::Precondition(ReasonCode::TargetNotFound),
        ),
        workspace_active && sem == Semantic::WorkspaceMemberAdd && subject_ok ==> (match row {
            None => if frozen is Some {
                r == Ok::<Target, Refusal>(Target { id: frozen.unwrap(), version: 0, workspace_id: workspace })
            } else {
                (r matches Ok(t) && t.version == 0 && t.workspace_id == workspace) || (r matches Err(e)
                    && e is Unavailable)
            },
            Some((id, version, state)) => if state == LifecycleState::Revoked {
                r == Ok::<Target, Refusal>(Target { id, version, workspace_id: workspace })
            } else {
                r == Err::<Target, Refusal>(Refusal::Conflict(ReasonCode::TargetStateConflict))
            },
        }),
{
    if !workspace_active {
        return Err(Refusal::Denied(ReasonCode::ScopeGuardFailed));
    }
    if sem == Semantic::WorkspaceMemberRevoke {
        return match row {
            Some((id, version, state)) => if state == LifecycleState::Active || state == LifecycleState::Error {
                Ok(Target { id, version, workspace_id: workspace })
            } else {
                Err(Refusal::Conflict(ReasonCode::TargetStateConflict))
            },
            None => Err(Refusal::Precondition(ReasonCode::TargetNotFound)),
        };
    }
    if !subject_ok {
        return Err(Refusal::Precondition(ReasonCode::TargetNotFound));
    }
    match row {
        None => {
            let id = new_entity_id(frozen)?;
            Ok(Target { id, version: 0, workspace_id: workspace })
        },
        Some((id, version, state)) => if state == LifecycleState::Revoked {
            Ok(Target { id, version, workspace_id: workspace })
        } else {
            Err(Refusal::Conflict(ReasonCode::TargetStateConflict))
        },
    }
}

/// The target of revoking a tenant membership: an ACTIVE or ERROR membership.
pub fn tenant_member_revoke_target(row: Option<MembershipRow>) -> (r: Result<Target, Refusal>)
    ensures
        r == (match row {
            Some((id, version, state)) => if state == LifecycleState::Active || state == LifecycleState::Error {
                Ok::<Target, Refusal>(Target { id, version, workspace_id: None })
            } else {
                Err(Refusal::Conflict(ReasonCode::TargetStateConflict))
            },
            None => Err(Refusal::Precondition(ReasonCode::TargetNotFound)),
        }),
{
    match row {
        Some((id, version, state)) => if state == LifecycleState::Active || state == LifecycleState::Error {
            Ok(Target { id, version, workspace_id: None })
        } else {
            Err(Refusal::Conflict(ReasonCode::TargetStateConflict))
        },
        None => Err(Refusal::Precondition(ReasonCode::TargetNotFound)),
    }
}

/// The target of admitting a redeemed invitee: the INVITED membership that the
/// redeemed invitation is bound to.
pub fn admit_target(row: Option<MembershipRow>) -> (r: Result<Target, Refusal>)
    ensures
        r == (match row {
            Some((id, version, state)) => if state == LifecycleState::Invited {
                Ok::<Target, Refusal>(Target { id, version, workspace_id: None })
            } else {
                Err(Refusal::Conflict(ReasonCode::TargetStateConflict))
            },
            None => Err(Refusal::Precondition(ReasonCode::TargetNotFound)),
        }),
{
    match row {
        Some((id, version, state)) => if state == LifecycleState::Invited {
            Ok(Target { id, version, workspace_id: None })
        } else {
            Err(Refusal::Conflict(ReasonCode::TargetStateConflict))
        },
        None => Err(Refusal::Precondition(ReasonCode::TargetNotFound)),
    }
}

/// The target of issuing an invitation: a new invitation, under the frozen ID
/// when re-admitting; `Unavailable` when no fresh ID can be drawn.
pub fn invite_target(frozen: Option<u128>) -> (r: Result<Target, Refusal>)
    ensures
        frozen is Some ==> r == Ok::<Target, Refusal>(Target { id: frozen.unwrap(), version: 0, workspace_id: None }),
        frozen is None ==> (r matches Ok(t) && t.version == 0 && t.workspace_id is None) || (r matches Err(e)
            && e is Unavailable),
{
    let id = new_entity_id(frozen)?;
    Ok(Target { id, version: 0, workspace_id: None })
}

/// Whether the admission still stands when it settles: the target resolves to
/// the same object at the frozen version and the parameter hash is unchanged.
pub fn admission_still_holds(
    target: &Target,
    recorded_target: u128,
    frozen_version: Option<i32>,
    hash_now: &str,
    recorded_hash: &str,
) -> (r: Result<(), Refusal>)
    ensures
        (target.id == recorded_target && frozen_version == Some(target.version) && hash_now@ == recorded_hash@)
            ==> r == Ok::<(), Refusal>(()),
        !(target.id == recorded_target && frozen_version == Some(target.version) && hash_now@ == recorded_hash@)
            ==> r == Err::<(), Refusal>(Refusal::Conflict(ReasonCode::TargetStateConflict)),
{
    if target.id != recorded_target || frozen_version != Some(target.version) || !text_eq(hash_now, recorded_hash) {
        Err(Refusal::Conflict(ReasonCode::TargetStateConflict))
    } else {
        Ok(())
    }
}

/// The entity change that an allowed asynchronous action performs in the same
/// transaction as its gate, before its workflow is dispatched.
#[derive(Debug, Clone, Copy, PartialEq, Eq, Structural)]
pub enum EntityAdvance {
    /// insert the workspace as PROVISIONING
    CreateWorkspace,
    /// insert the workspace membership as PROVISIONING
    CreateWorkspaceMembership,
    /// REVOKED workspace membership to PROVISIONING, next version
    RestoreWorkspaceMembership,
    /// workspace membership to REVOKING, next version: the admission gate closes first
    CloseWorkspaceMembership,
    /// INVITED tenant membership to PROVISIONING, next version
    AdmitTenantMembership,
    /// tenant membership to REVOKING, next version, with its sessions revoked
    CloseTenantMembership,
}

impl EntityAdvance {
    /// The state the entity is left in.
    pub open spec fn resulting_state(self) -> LifecycleState {
        match self {
            EntityAdvance::CloseWorkspaceMembership | EntityAdvance::CloseTenantMembership => LifecycleState::Revoking,
            _ => LifecycleState::Provisioning,
        }
    }
}

/// The entity change of an allowed asynchronous action. Synchronous role and
/// invitation actions have none here: reaching this with one means the catalog
/// registered them otherwise, which is blocked.
pub fn entity_advance(sem: Semantic, target_version: i32) -> (r: Result<EntityAdvance, Refusal>)
    ensures
        r == (match sem {
            Semantic::WorkspaceCreate => Ok::<EntityAdvance, Refusal>(EntityAdvance::CreateWorkspace),
            Semantic::WorkspaceMemberAdd => if target_version == 0 {
                Ok(EntityAdvance::CreateWorkspaceMembership)
            } else {
                Ok(EntityAdvance::RestoreWorkspaceMembership)
            },
            Semantic::WorkspaceMemberRevoke => Ok(EntityAdvance::CloseWorkspaceMembership),
            Semantic::TenantMemberAdmit => Ok(EntityAdvance::AdmitTenantMembership),
            Semantic::TenantMemberRevoke => Ok(EntityAdvance::CloseTenantMembership),
            _ => Err(Refusal::Blocked(ReasonCode::CapabilityBlocked)),
        }),
{
    match sem {
        Semantic::WorkspaceCreate => Ok(EntityAdvance::CreateWorkspace),
        Semantic::WorkspaceMemberAdd => if target_version == 0 {
            Ok(EntityAdvance::CreateWorkspaceMembership)
        } else {
            Ok(EntityAdvance::RestoreWorkspaceMembership)
        },
        Semantic::WorkspaceMemberRevoke => Ok(EntityAdvance::CloseWorkspaceMembership),
        Semantic::TenantMemberAdmit => Ok(EntityAdvance::AdmitTenantMembership),
        Semantic::TenantMemberRevoke => Ok(EntityAdvance::CloseTenantMembership),
        _ => Err(Refusal::Blocked(ReasonCode::CapabilityBlocked)),
    }
}

// ---------------------------------------------------------------------------
// Synchronous role dispatch
// ---------------------------------------------------------------------------

/// What the synchronous dispatch of a role action does.
#[derive(Debug, Clone, PartialEq, Eq)]
pub enum RoleDispatch {
    /// write the relationships: touch for a grant, delete for a revoke
    Write { delete: bool },
    /// the target facts no longer hold: abort with this reason; `retract` first
    /// deletes what an earlier write of unknown outcome may have made
    Abort { reason: ReasonCode, retract: bool },
}

/// Whether a role action's target facts still hold at dispatch: the target
/// resolves to the recorded ID and, for revoking a role granting tenant
/// manage, the principal is not the last effective admin. An unknown outcome
/// of the resolution is passed on.
pub fn role_still_holds(
    resolved: Result<Target, Refusal>,
    recorded_target: u128,
    revoke_of_manage: bool,
    last_admin: bool,
) -> (r: Result<(), Refusal>)
    ensures
        resolved matches Err(e) ==> r == Err::<(), Refusal>(e),
        resolved matches Ok(t) && t.id != recorded_target ==> r == Err::<(), Refusal>(
            Refusal::Conflict(ReasonCode::TargetStateConflict),
        ),
        resolved matches Ok(t) && t.id == recorded_target && revoke_of_manage && last_admin ==> r == Err::<
            (),
            Refusal,
        >(Refusal::Precondition(ReasonCode::LastTenantAdmin)),
        resolved matches Ok(t) && t.id == recorded_target && !(revoke_of_manage && last_admin) ==> r == Ok::<
            (),
            Refusal,
        >(()),
{
    match resolved {
        Err(e) => Err(e),
        Ok(t) => if t.id != recorded_target {
            Err(Refusal::Conflict(ReasonCode::TargetStateConflict))
        } else if revoke_of_manage && last_admin {
            Err(Refusal::Precondition(ReasonCode::LastTenantAdmin))
        } else {
            Ok(())
        },
    }
}

/// The dispatch of a role action whose facts were re-checked. Holding facts
/// write; failing ones abort with their reason, and a grant whose earlier write
/// had an unknown outcome retracts first, since intermediate states may only
/// tighten.
pub fn role_dispatch(still: &Result<(), Refusal>, is_grant: bool, prior_unknown: bool) -> (r: RoleDispatch)
    requires
        !(still matches Err(e) && (e is Unavailable)),
    ensures
        still is Ok ==> (r == (RoleDispatch::Write { delete: !is_grant })),
        still matches Err(e) ==> (r == (RoleDispatch::Abort { reason: e.reason_of(), retract: is_grant && prior_unknown })),
{
    match still {
        Ok(()) => RoleDispatch::Write { delete: !is_grant },
        Err(e) => RoleDispatch::Abort { reason: e.reason(), retract: is_grant && prior_unknown },
    }
}

/// What follows a role dispatch once it is recorded: an approval behind a
/// dispatched action is consumed, one behind an aborted action invalidated.
#[derive(Debug, Clone, Copy, PartialEq, Eq, Structural)]
pub enum FollowUp {
    Consume,
    Invalidate,
    Nothing,
}

/// What a role dispatch records: the new dispatch state, the audit stage, the
/// audit result and decision, and the outcome audit a dispatched write adds.
#[derive(Debug, Clone, PartialEq, Eq)]
pub struct RoleDispatchRecord {
    pub state: ActionDispatchState,
    pub stage: &'static str,
    pub result: &'static str,
    pub allowed: bool,
    pub outcome: Option<&'static str>,
    pub follow_up: FollowUp,
}

/// The record of a role dispatch after its write, `write_ok` being whether
/// the relationship write (for an abort: the retracting write, if one was
/// needed) succeeded. A write of unknown outcome leaves the dispatch UNKNOWN;
/// an abort whose retraction failed is not recorded at all (`None`): the
/// execution stays UNKNOWN for the next pass.
pub fn role_dispatch_record(step: &RoleDispatch, write_ok: bool, is_grant: bool, has_approval: bool) -> (r: Option<
    RoleDispatchRecord,
>)
    ensures
        (match *step {
            RoleDispatch::Write { .. } => if write_ok {
                r matches Some(rec) && rec.state == ActionDispatchState::Dispatched && rec.stage@ == "dispatch"@
                    && rec.result@ == "DISPATCHED"@ && rec.allowed && (rec.outcome matches Some(o) && o@ == (if is_grant {
                    "ROLE_GRANTED"@
                } else {
                    "ROLE_REVOKED"@
                })) && rec.follow_up == (if has_approval {
                    FollowUp::Consume
                } else {
                    FollowUp::Nothing
                })
            } else {
                r matches Some(rec) && rec.state == ActionDispatchState::Unknown && rec.stage@ == "dispatch-unknown"@
                    && rec.result@ == "DISPATCH_RESULT_UNKNOWN"@ && rec.allowed && rec.outcome is None
                    && rec.follow_up == FollowUp::Nothing
            },
            RoleDispatch::Abort { reason, retract } => if retract && !write_ok {
                r is None
            } else {
                r matches Some(rec) && rec.state == ActionDispatchState::Aborted && rec.stage@ == "dispatch-aborted"@
                    && rec.result@ == reason.wire_text() && !rec.allowed && rec.outcome is None && rec.follow_up == (
                if has_approval {
                    FollowUp::Invalidate
                } else {
                    FollowUp::Nothing
                })
            },
        }),
{
    match step {
        RoleDispatch::Write { .. } => if write_ok {
            Some(
                RoleDispatchRecord {
                    state: ActionDispatchState::Dispatched,
                    stage: "dispatch",
                    result: "DISPATCHED",
                    allowed: true,
                    outcome: Some(
                        if is_grant {
                            "ROLE_GRANTED"
                        } else {
                            "ROLE_REVOKED"
                        },
                    ),
                    follow_up: if has_approval {
                        FollowUp::Consume
                    } else {
                        FollowUp::Nothing
                    },
                },
            )
        } else {
            Some(
                RoleDispatchRecord {
                    state: ActionDispatchState::Unknown,
                    stage: "dispatch-unknown",
                    result: "DISPATCH_RESULT_UNKNOWN",
                    allowed: true,
                    outcome: None,
                    follow_up: FollowUp::Nothing,
                },
            )
        },
        RoleDispatch::Abort { reason, retract } => if *retract && !write_ok {
            None
        } else {
            Some(
                RoleDispatchRecord {
                    state: ActionDispatchState::Aborted,
                    stage: "dispatch-aborted",
                    result: reason.wire(),
                    allowed: false,
                    outcome: None,
                    follow_up: if has_approval {
                        FollowUp::Invalidate
                    } else {
                        FollowUp::Nothing
                    },
                },
            )
        },
    }
}

} // verus!
