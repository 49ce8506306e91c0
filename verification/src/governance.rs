//! Admission of governed actions: semantic commands, closed parameter sets,
//! refusals and their classes, and the configuration the chain runs under.

use vstd::prelude::*;

use crate::contracts::{
    ActionDispatchState, ActionGateState, ApprovalOwnerRequirement, ApprovalSelector,
    ApprovalSelfApproval, ApprovalStatus, ErrorClass, ReasonCode,
};
use crate::lifecycle::{LifecycleState, MembershipScope, ScopeKind};
use crate::ids::{parse_uuid, uuid_parse_result};
use crate::text::{chars_of, string_from_chars, text_eq, trim_chars, trimmed};

verus! {

/// HTTP status codes that the refusal classes map to.
pub const HTTP_OK: u16 = 200;
pub const HTTP_ACCEPTED: u16 = 202;
pub const HTTP_FORBIDDEN: u16 = 403;
pub const HTTP_CONFLICT: u16 = 409;
pub const HTTP_UNPROCESSABLE: u16 = 422;
pub const HTTP_UNAVAILABLE: u16 = 503;

/// The outcome of an admission other than a definite answer. Each falls in one
/// error class; `Unavailable` is an unknown outcome, not a refusal.
#[derive(Debug, Clone, PartialEq, Eq)]
pub enum Refusal {
    Denied(ReasonCode),
    Blocked(ReasonCode),
    Precondition(ReasonCode),
    Conflict(ReasonCode),
    Unavailable(String),
}

impl Refusal {
    /// The reason code a refusal reports; an unknown outcome reports
    /// DEPENDENCY_UNAVAILABLE.
    pub open spec fn reason_of(&self) -> ReasonCode {
        match self {
            Refusal::Denied(r) | Refusal::Blocked(r) | Refusal::Precondition(r) | Refusal::Conflict(r) => *r,
            Refusal::Unavailable(_) => ReasonCode::DependencyUnavailable,
        }
    }

    /// The error class and HTTP status of a refusal.
    pub open spec fn class_status_of(&self) -> (ErrorClass, u16) {
        match self {
            Refusal::Denied(_) => (ErrorClass::Denied, HTTP_FORBIDDEN),
            Refusal::Blocked(_) => (ErrorClass::Blocked, HTTP_FORBIDDEN),
            Refusal::Precondition(_) => (ErrorClass::Precondition, HTTP_UNPROCESSABLE),
            Refusal::Conflict(_) => (ErrorClass::Conflict, HTTP_CONFLICT),
            Refusal::Unavailable(_) => (ErrorClass::Unknown, HTTP_UNAVAILABLE),
        }
    }

    /// The error class and HTTP status of this refusal.
    pub fn class_status(&self) -> (r: (ErrorClass, u16))
        ensures
            r == self.class_status_of(),
    {
        match self {
            Refusal::Denied(_) => (ErrorClass::Denied, HTTP_FORBIDDEN),
            Refusal::Blocked(_) => (ErrorClass::Blocked, HTTP_FORBIDDEN),
            Refusal::Precondition(_) => (ErrorClass::Precondition, HTTP_UNPROCESSABLE),
            Refusal::Conflict(_) => (ErrorClass::Conflict, HTTP_CONFLICT),
            Refusal::Unavailable(_) => (ErrorClass::Unknown, HTTP_UNAVAILABLE),
        }
    }

    /// The reason code of this refusal.
    pub fn reason(&self) -> (r: ReasonCode)
        ensures
            r == self.reason_of(),
    {
        match self {
            Refusal::Denied(r) | Refusal::Blocked(r) | Refusal::Precondition(r) | Refusal::Conflict(r) => *r,
            Refusal::Unavailable(_) => ReasonCode::DependencyUnavailable,
        }
    }

    /// Whether the outcome is unknown rather than a refusal.
    pub fn is_unavailable(&self) -> (r: bool)
        ensures
            r == (self is Unavailable),
    {
        matches!(self, Refusal::Unavailable(_))
    }
}

/// The action semantics that have an execution path. A catalogued action key
/// without one is blocked.
#[derive(Debug, Clone, Copy, PartialEq, Eq, Structural)]
pub enum Semantic {
    WorkspaceCreate,
    WorkspaceMemberAdd,
    WorkspaceMemberRevoke,
    TenantMemberRevoke,
    TenantRoleGrant,
    TenantRoleRevoke,
    WorkspaceRoleGrant,
    WorkspaceRoleRevoke,
    TenantMemberInvite,
    TenantMemberInviteRevoke,
    TenantMemberAdmit,
}

impl Semantic {
    /// The semantic of an action key.
    pub open spec fn from_key_text(k: Seq<char>) -> Option<Semantic> {
        if k == "workspace.create"@ {
            Some(Semantic::WorkspaceCreate)
        } else if k == "workspace.member.add"@ {
            Some(Semantic::WorkspaceMemberAdd)
        } else if k == "workspace.member.revoke"@ {
            Some(Semantic::WorkspaceMemberRevoke)
        } else if k == "tenant.member.revoke"@ {
            Some(Semantic::TenantMemberRevoke)
        } else if k == "tenant.admin.grant"@ {
            Some(Semantic::TenantRoleGrant)
        } else if k == "tenant.admin.revoke"@ {
            Some(Semantic::TenantRoleRevoke)
        } else if k == "workspace.admin.grant"@ {
            Some(Semantic::WorkspaceRoleGrant)
        } else if k == "workspace.admin.revoke"@ {
            Some(Semantic::WorkspaceRoleRevoke)
        } else if k == "tenant.member.invite"@ {
            Some(Semantic::TenantMemberInvite)
        } else if k == "tenant.member.invite.revoke"@ {
            Some(Semantic::TenantMemberInviteRevoke)
        } else if k == "tenant.member.admit"@ {
            Some(Semantic::TenantMemberAdmit)
        } else {
            None
        }
    }

    /// The semantic of an action key; `None` for a key without an execution path.
    pub fn from_key(k: &str) -> (r: Option<Semantic>)
        ensures
            r == Semantic::from_key_text(k@),
    {
        if text_eq(k, "workspace.create") {
            Some(Semantic::WorkspaceCreate)
        } else if text_eq(k, "workspace.member.add") {
            Some(Semantic::WorkspaceMemberAdd)
        } else if text_eq(k, "workspace.member.revoke") {
            Some(Semantic::WorkspaceMemberRevoke)
        } else if text_eq(k, "tenant.member.revoke") {
            Some(Semantic::TenantMemberRevoke)
        } else if text_eq(k, "tenant.admin.grant") {
            Some(Semantic::TenantRoleGrant)
        } else if text_eq(k, "tenant.admin.revoke") {
            Some(Semantic::TenantRoleRevoke)
        } else if text_eq(k, "workspace.admin.grant") {
            Some(Semantic::WorkspaceRoleGrant)
        } else if text_eq(k, "workspace.admin.revoke") {
            Some(Semantic::WorkspaceRoleRevoke)
        } else if text_eq(k, "tenant.member.invite") {
            Some(Semantic::TenantMemberInvite)
        } else if text_eq(k, "tenant.member.invite.revoke") {
            Some(Semantic::TenantMemberInviteRevoke)
        } else if text_eq(k, "tenant.member.admit") {
            Some(Semantic::TenantMemberAdmit)
        } else {
            None
        }
    }

    /// Whether a semantic command may start it: admission of a redeemed invitee
    /// starts only from the redemption.
    pub fn bff_submittable(self) -> (r: bool)
        ensures
            r == (self != Semantic::TenantMemberAdmit),
    {
        self != Semantic::TenantMemberAdmit
    }

    /// Whether it completes inside the admitting transaction, with no external
    /// side effect: issuing and revoking an invitation.
    pub fn completes_in_admission(self) -> (r: bool)
        ensures
            r == (self == Semantic::TenantMemberInvite || self == Semantic::TenantMemberInviteRevoke),
    {
        matches!(self, Semantic::TenantMemberInvite | Semantic::TenantMemberInviteRevoke)
    }

    /// Whether it grants or revokes a role.
    pub open spec fn is_role_spec(self) -> bool {
        self == Semantic::TenantRoleGrant || self == Semantic::TenantRoleRevoke || self
            == Semantic::WorkspaceRoleGrant || self == Semantic::WorkspaceRoleRevoke
    }

    /// Whether it grants or revokes a role.
    pub fn is_role(self) -> (r: bool)
        ensures
            r == self.is_role_spec(),
    {
        matches!(
            self,
            Semantic::TenantRoleGrant | Semantic::TenantRoleRevoke | Semantic::WorkspaceRoleGrant
                | Semantic::WorkspaceRoleRevoke
        )
    }

    /// Whether it grants a role.
    pub fn is_grant(self) -> (r: bool)
        ensures
            r == (self == Semantic::TenantRoleGrant || self == Semantic::WorkspaceRoleGrant),
    {
        matches!(self, Semantic::TenantRoleGrant | Semantic::WorkspaceRoleGrant)
    }

    /// Whether it can change the set of effective tenant admins, and so is
    /// decided and written under the tenant's row lock.
    pub fn serializes_on_tenant(self) -> (r: bool)
        ensures
            r == (self.is_role_spec() || self == Semantic::TenantMemberRevoke),
    {
        self.is_role() || self == Semantic::TenantMemberRevoke
    }

    /// Whether the role it changes lives on a workspace.
    pub open spec fn in_workspace_spec(self) -> bool {
        self == Semantic::WorkspaceRoleGrant || self == Semantic::WorkspaceRoleRevoke
    }

    /// Whether the role it changes lives on a workspace.
    pub fn in_workspace(self) -> (r: bool)
        ensures
            r == self.in_workspace_spec(),
    {
        matches!(self, Semantic::WorkspaceRoleGrant | Semantic::WorkspaceRoleRevoke)
    }
}

/// Whether `c` may stand in a slug: a lowercase ASCII letter, a digit or `-`.
pub open spec fn slug_char(c: char) -> bool {
    ('a' <= c && c <= 'z') || ('0' <= c && c <= '9') || c == '-'
}

/// A slug: non-empty, starting with a lowercase letter or digit, and made of
/// lowercase letters, digits and hyphens.
pub open spec fn is_slug(s: Seq<char>) -> bool {
    s.len() > 0 && s[0] != '-' && forall|i: int| 0 <= i < s.len() ==> slug_char(#[trigger] s[i])
}

/// Whether `s` is a valid slug.
pub fn valid_slug(s: &str) -> (r: bool)
    ensures
        r == is_slug(s@),
{
    let cs = chars_of(s);
    if cs.len() == 0 || cs[0] == '-' {
        return false;
    }
    let mut i: usize = 0;
    while i < cs.len()
        invariant
            cs@ == s@,
            i <= cs@.len(),
            forall|j: int| 0 <= j < i ==> slug_char(#[trigger] cs@[j]),
        decreases cs.len() - i,
    {
        let c = cs[i];
        if !(('a' <= c && c <= 'z') || ('0' <= c && c <= '9') || c == '-') {
            return false;
        }
        i = i + 1;
    }
    true
}

/// The semantic command of `POST /api/v1/actions`, its parameters as sent.
#[derive(Debug, Clone, PartialEq, Eq)]
pub struct ActionCommand {
    pub action_key: String,
    pub idempotency_key: String,
    pub name: Option<String>,
    pub principal_id: Option<String>,
    pub slug: Option<String>,
    pub workspace_id: Option<String>,
    pub invitation_id: Option<String>,
}

/// Normalized parameters: identifiers and platform-owned names only.
#[derive(Debug, Clone, PartialEq, Eq)]
pub struct Params {
    pub workspace_id: Option<u128>,
    pub principal_id: Option<u128>,
    pub slug: Option<String>,
    pub name: Option<String>,
    pub invitation_id: Option<u128>,
}

/// The text of an optional string.
pub open spec fn opt_text(o: Option<String>) -> Option<Seq<char>> {
    match o {
        Some(s) => Some(s@),
        None => None,
    }
}

/// An optional identifier as sent: `Some(None)` when absent, `Some(Some(id))`
/// when it reads as a UUID, `None` when it does not.
pub open spec fn opt_uuid(o: Option<Seq<char>>) -> Option<Option<u128>> {
    match o {
        None => Some(None),
        Some(s) => match uuid_parse_result(s) {
            Some(id) => Some(Some(id)),
            None => None,
        },
    }
}

/// Whether a parameter set is exactly the closed set a semantic requires.
pub open spec fn params_fit(
    sem: Semantic,
    ws: Option<u128>,
    principal: Option<u128>,
    invitation: Option<u128>,
    slug: Option<Seq<char>>,
    name: Option<Seq<char>>,
) -> bool {
    match sem {
        Semantic::WorkspaceCreate => ws is None && principal is None && invitation is None && (slug matches Some(
            s,
        ) && is_slug(s)) && (name matches Some(n) && n.len() > 0),
        Semantic::WorkspaceMemberAdd | Semantic::WorkspaceMemberRevoke | Semantic::WorkspaceRoleGrant
        | Semantic::WorkspaceRoleRevoke => ws is Some && principal is Some && invitation is None && slug is None
            && name is None,
        Semantic::TenantMemberRevoke | Semantic::TenantRoleGrant | Semantic::TenantRoleRevoke => ws is None
            && principal is Some && invitation is None && slug is None && name is None,
        Semantic::TenantMemberInvite => ws is None && principal is None && invitation is None && slug is None
            && (name matches Some(n) && n.len() > 0),
        Semantic::TenantMemberInviteRevoke => ws is None && principal is None && invitation is Some
            && slug is None && name is None,
        Semantic::TenantMemberAdmit => ws is None && principal is Some && invitation is Some && slug is None
            && name is None,
    }
}

/// The name as normalized: trimmed of surrounding white space.
pub open spec fn normalized_name(o: Option<Seq<char>>) -> Option<Seq<char>> {
    match o {
        Some(n) => Some(trimmed(n)),
        None => None,
    }
}

/// Whether `p` holds exactly the given normalized parameters.
pub open spec fn params_are(
    p: Params,
    ws: Option<u128>,
    principal: Option<u128>,
    invitation: Option<u128>,
    slug: Option<Seq<char>>,
    name: Option<Seq<char>>,
) -> bool {
    p.workspace_id == ws && p.principal_id == principal && p.invitation_id == invitation && opt_text(p.slug)
        == slug && opt_text(p.name) == name
}

/// What parsing a command gives: the normalized parameters when every
/// identifier reads and the set is exactly the one its semantic requires;
/// INVALID_PARAMETERS otherwise.
pub open spec fn command_accepted(sem: Semantic, cmd: ActionCommand, r: Result<Params, Refusal>) -> bool {
    match (
        opt_uuid(opt_text(cmd.workspace_id)),
        opt_uuid(opt_text(cmd.principal_id)),
        opt_uuid(opt_text(cmd.invitation_id)),
    ) {
        (Some(ws), Some(principal), Some(invitation)) => {
            let slug = opt_text(cmd.slug);
            let name = normalized_name(opt_text(cmd.name));
            if params_fit(sem, ws, principal, invitation, slug, name) {
                r matches Ok(p) && params_are(p, ws, principal, invitation, slug, name)
            } else {
                r matches Err(Refusal::Precondition(ReasonCode::InvalidParameters))
            }
        },
        _ => r matches Err(Refusal::Precondition(ReasonCode::InvalidParameters)),
    }
}

/// Reads an optional identifier; `Err` when it is present and not a UUID.
fn uuid_param(o: &Option<String>) -> (r: Result<Option<u128>, ()>)
    ensures
        match opt_uuid(opt_text(*o)) {
            Some(v) => r == Ok::<Option<u128>, ()>(v),
            None => r is Err,
        },
{
    match o {
        None => Ok(None),
        Some(s) => match parse_uuid(s.as_str()) {
            Some(id) => Ok(Some(id)),
            None => Err(()),
        },
    }
}

fn clone_opt(o: &Option<String>) -> (r: Option<String>)
    ensures
        opt_text(r) == opt_text(*o),
{
    match o {
        Some(s) => Some(s.clone()),
        None => None,
    }
}

/// Normalizes a command's parameters against the closed set of its semantic.
/// Extra and missing parameters are both refused; nothing is guessed from an
/// empty field.
pub fn parse_command(sem: Semantic, cmd: &ActionCommand) -> (r: Result<Params, Refusal>)
    ensures
        command_accepted(sem, *cmd, r),
{
    let bad = Refusal::Precondition(ReasonCode::InvalidParameters);
    let ws = match uuid_param(&cmd.workspace_id) {
        Ok(v) => v,
        Err(_) => return Err(bad),
    };
    let principal = match uuid_param(&cmd.principal_id) {
        Ok(v) => v,
        Err(_) => return Err(bad),
    };
    let invitation = match uuid_param(&cmd.invitation_id) {
        Ok(v) => v,
        Err(_) => return Err(bad),
    };
    let slug = clone_opt(&cmd.slug);
    let name: Option<String> = match &cmd.name {
        Some(n) => {
            let cs = chars_of(n.as_str());
            let t = trim_chars(cs.as_slice());
            Some(string_from_chars(t.as_slice()))
        },
        None => None,
    };
    let slug_ok = match &slug {
        Some(s) => valid_slug(s.as_str()),
        None => false,
    };
    let name_ok = match &name {
        Some(n) => n.as_str().unicode_len() > 0,
        None => false,
    };
    let ok = match sem {
        Semantic::WorkspaceCreate => ws.is_none() && principal.is_none() && invitation.is_none() && slug_ok
            && name_ok,
        Semantic::WorkspaceMemberAdd | Semantic::WorkspaceMemberRevoke | Semantic::WorkspaceRoleGrant
        | Semantic::WorkspaceRoleRevoke => ws.is_some() && principal.is_some() && invitation.is_none()
            && slug.is_none() && name.is_none(),
        Semantic::TenantMemberRevoke | Semantic::TenantRoleGrant | Semantic::TenantRoleRevoke => ws.is_none()
            && principal.is_some() && invitation.is_none() && slug.is_none() && name.is_none(),
        Semantic::TenantMemberInvite => ws.is_none() && principal.is_none() && invitation.is_none()
            && slug.is_none() && name_ok,
        Semantic::TenantMemberInviteRevoke => ws.is_none() && principal.is_none() && invitation.is_some()
            && slug.is_none() && name.is_none(),
        Semantic::TenantMemberAdmit => ws.is_none() && principal.is_some() && invitation.is_some()
            && slug.is_none() && name.is_none(),
    };
    if ok {
        Ok(Params { workspace_id: ws, principal_id: principal, slug, name, invitation_id: invitation })
    } else {
        Err(bad)
    }
}

// ---------------------------------------------------------------------------
// Evaluation: scope guard, then a fresh permission check
// ---------------------------------------------------------------------------

/// One facet of a decision.
#[derive(Debug, Clone, Copy, PartialEq, Eq, Structural)]
pub enum Verdict {
    Allow,
    Deny,
    NotApplicable,
}

/// The outcome of evaluating an actor against a definition and target.
#[derive(Debug, Clone, PartialEq, Eq)]
pub struct Evaluation {
    pub allowed: bool,
    pub scope: Verdict,
    pub authorization: Verdict,
    pub zed_token: Option<String>,
    pub reason: Option<ReasonCode>,
}

/// Whether `e` denies with exactly these facets and reason.
pub open spec fn denies(e: Evaluation, scope: Verdict, authorization: Verdict, reason: ReasonCode) -> bool {
    !e.allowed && e.scope == scope && e.authorization == authorization && e.reason == Some(reason)
}

fn denial(scope: Verdict, authorization: Verdict, zed_token: Option<String>, reason: ReasonCode) -> (e: Evaluation)
    ensures
        denies(e, scope, authorization, reason),
        opt_text(e.zed_token) == opt_text(zed_token),
{
    Evaluation { allowed: false, scope, authorization, zed_token, reason: Some(reason) }
}

/// The object a permission is checked on. The actor must be an active human
/// member of an active tenant; the definition's object type must be the tenant,
/// or a workspace that the target executes in. Anything else is a scope-guard
/// denial before any check.
pub fn evaluation_object(active: bool, object_type: &str, tenant: u128, target_workspace: Option<u128>) -> (r:
    Result<u128, Evaluation>)
    ensures
        active && object_type@ == "tenant"@ ==> (r matches Ok(o) && o == tenant),
        active && object_type@ == "workspace"@ && target_workspace is Some ==> (r matches Ok(o) && o
            == target_workspace.unwrap()),
        !(active && (object_type@ == "tenant"@ || (object_type@ == "workspace"@ && target_workspace is Some)))
            ==> (r matches Err(e) && denies(e, Verdict::Deny, Verdict::NotApplicable, ReasonCode::ScopeGuardFailed)
            && e.zed_token is None),
{
    proof {
        reveal_strlit("tenant");
        reveal_strlit("workspace");
        assert("tenant"@.len() == 6 && "workspace"@.len() == 9);
    }
    if !active {
        return Err(denial(Verdict::Deny, Verdict::NotApplicable, None, ReasonCode::ScopeGuardFailed));
    }
    if text_eq(object_type, "tenant") {
        Ok(tenant)
    } else if text_eq(object_type, "workspace") {
        match target_workspace {
            Some(w) => Ok(w),
            None => Err(denial(Verdict::Deny, Verdict::NotApplicable, None, ReasonCode::ScopeGuardFailed)),
        }
    } else {
        Err(denial(Verdict::Deny, Verdict::NotApplicable, None, ReasonCode::ScopeGuardFailed))
    }
}

/// The evaluation once the fresh check answered. A workspace-scoped action
/// needs an active workspace membership or, for a workspace `manage` check,
/// the check itself; otherwise the scope guard denies. A failed check is a
/// permission denial. Only a passing check allows.
pub fn evaluation_verdict(
    workspace_required: bool,
    member: bool,
    permission: &str,
    object_type: &str,
    allowed: bool,
    zed_token: String,
) -> (e: Evaluation)
    ensures
        opt_text(e.zed_token) == Some(zed_token@),
        e.allowed ==> allowed,
        ({
            let manage = permission@ == "manage"@ && object_type@ == "workspace"@ && allowed;
            if workspace_required && !member && !manage {
                denies(e, Verdict::Deny, Verdict::NotApplicable, ReasonCode::ScopeGuardFailed)
            } else if !allowed {
                denies(e, Verdict::Allow, Verdict::Deny, ReasonCode::PermissionDenied)
            } else {
                e.allowed && e.scope == Verdict::Allow && e.authorization == Verdict::Allow && e.reason is None
            }
        }),
{
    if workspace_required {
        let manage = text_eq(permission, "manage") && text_eq(object_type, "workspace") && allowed;
        if !member && !manage {
            return denial(Verdict::Deny, Verdict::NotApplicable, Some(zed_token), ReasonCode::ScopeGuardFailed);
        }
    }
    if !allowed {
        return denial(Verdict::Allow, Verdict::Deny, Some(zed_token), ReasonCode::PermissionDenied);
    }
    Evaluation {
        allowed: true,
        scope: Verdict::Allow,
        authorization: Verdict::Allow,
        zed_token: Some(zed_token),
        reason: None,
    }
}

/// The refusal an admission denial answers with: scope and permission
/// failures are denials, every other reason a failed precondition.
pub fn denial_refusal(reason: ReasonCode) -> (r: Refusal)
    ensures
        reason == ReasonCode::ScopeGuardFailed || reason == ReasonCode::PermissionDenied ==> r == Refusal::Denied(
            reason,
        ),
        !(reason == ReasonCode::ScopeGuardFailed || reason == ReasonCode::PermissionDenied) ==> r
            == Refusal::Precondition(reason),
{
    match reason {
        ReasonCode::ScopeGuardFailed | ReasonCode::PermissionDenied => Refusal::Denied(reason),
        other => Refusal::Precondition(other),
    }
}

/// Whether a refusal met while deciding closes the admission gate with an audit record:
/// conflicts, failed preconditions and denials do; an unknown outcome or a
/// blocked capability leaves the execution for the next attempt.
pub fn closes_gate(r: &Refusal) -> (b: bool)
    ensures
        b == (r is Conflict || r is Precondition || r is Denied),
{
    matches!(r, Refusal::Conflict(_) | Refusal::Precondition(_) | Refusal::Denied(_))
}

/// How an allowed evaluation proceeds by the definition's confirmation mode.
#[derive(Debug, Clone, Copy, PartialEq, Eq, Structural)]
pub enum Confirmation {
    /// `APPROVAL`: wait for an approval workflow
    Approval,
    /// `NONE`: allow now
    Direct,
    /// any other mode has no entry here and is blocked
    Blocked,
}

/// The path a confirmation mode takes.
pub fn confirmation(mode: &str) -> (r: Confirmation)
    ensures
        r == (if mode@ == "APPROVAL"@ {
            Confirmation::Approval
        } else if mode@ == "NONE"@ {
            Confirmation::Direct
        } else {
            Confirmation::Blocked
        }),
{
    if text_eq(mode, "APPROVAL") {
        Confirmation::Approval
    } else if text_eq(mode, "NONE") {
        Confirmation::Direct
    } else {
        Confirmation::Blocked
    }
}

/// The answer to a submission from the execution's state: a denial is refused
/// by its reason (PERMISSION_DENIED when none is readable); an allowed and
/// dispatched action is 200; anything still moving, or of unknown outcome, is 202.
pub fn submission_status(gate: ActionGateState, dispatch: ActionDispatchState, reason: Option<ReasonCode>) -> (r:
    Result<u16, Refusal>)
    ensures
        gate == ActionGateState::Denied ==> ({
            let why = match reason {
                Some(x) => x,
                None => ReasonCode::PermissionDenied,
            };
            if why == ReasonCode::ScopeGuardFailed || why == ReasonCode::PermissionDenied || why
                == ReasonCode::ApprovalDenied {
                r == Err::<u16, Refusal>(Refusal::Denied(why))
            } else if why == ReasonCode::TargetStateConflict {
                r == Err::<u16, Refusal>(Refusal::Conflict(why))
            } else {
                r == Err::<u16, Refusal>(Refusal::Precondition(why))
            }
        }),
        gate == ActionGateState::Allowed && dispatch == ActionDispatchState::Dispatched ==> r == Ok::<
            u16,
            Refusal,
        >(HTTP_OK),
        gate != ActionGateState::Denied && !(gate == ActionGateState::Allowed && dispatch
            == ActionDispatchState::Dispatched) ==> r == Ok::<u16, Refusal>(HTTP_ACCEPTED),
{
    match gate {
        ActionGateState::Denied => {
            let why = match reason {
                Some(x) => x,
                None => ReasonCode::PermissionDenied,
            };
            match why {
                ReasonCode::ScopeGuardFailed | ReasonCode::PermissionDenied | ReasonCode::ApprovalDenied => Err(
                    Refusal::Denied(why),
                ),
                ReasonCode::TargetStateConflict => Err(Refusal::Conflict(why)),
                _ => Err(Refusal::Precondition(why)),
            }
        },
        ActionGateState::Allowed if dispatch == ActionDispatchState::Dispatched => Ok(HTTP_OK),
        _ => Ok(HTTP_ACCEPTED),
    }
}

// ---------------------------------------------------------------------------
// Replay under an idempotency key
// ---------------------------------------------------------------------------

/// What a resend under an existing idempotency key does.
#[derive(Debug, Clone, Copy, PartialEq, Eq, Structural)]
pub enum ReplayStep {
    /// other action or other parameters under the same key: IDEMPOTENCY_KEY_REUSED
    Reject,
    /// still evaluating: decide now
    Decide,
    /// allowed but not (knowingly) dispatched: drive dispatch under the same ID
    Dispatch,
    /// waiting: make sure the approval workflow started, under the same ID
    EnsureApproval,
    /// answer the recorded state
    Answer,
}

/// The step a resend takes.
pub fn replay_step(same_request: bool, gate: ActionGateState, dispatch: ActionDispatchState) -> (r: ReplayStep)
    ensures
        !same_request ==> r == ReplayStep::Reject,
        same_request && gate == ActionGateState::Evaluating ==> r == ReplayStep::Decide,
        same_request && gate == ActionGateState::Allowed && (dispatch == ActionDispatchState::NotDispatched
            || dispatch == ActionDispatchState::Unknown) ==> r == ReplayStep::Dispatch,
        same_request && gate == ActionGateState::Waiting ==> r == ReplayStep::EnsureApproval,
        same_request && gate != ActionGateState::Evaluating && gate != ActionGateState::Waiting && !(gate
            == ActionGateState::Allowed && (dispatch == ActionDispatchState::NotDispatched || dispatch
            == ActionDispatchState::Unknown)) ==> r == ReplayStep::Answer,
{
    if !same_request {
        return ReplayStep::Reject;
    }
    match (gate, dispatch) {
        (ActionGateState::Evaluating, _) => ReplayStep::Decide,
        (ActionGateState::Allowed, ActionDispatchState::NotDispatched)
        | (ActionGateState::Allowed, ActionDispatchState::Unknown) => ReplayStep::Dispatch,
        (ActionGateState::Waiting, _) => ReplayStep::EnsureApproval,
        _ => ReplayStep::Answer,
    }
}

fn opt_text_eq(a: &Option<String>, b: &Option<String>) -> (r: bool)
    ensures
        r == (opt_text(*a) == opt_text(*b)),
{
    match (a, b) {
        (Some(x), Some(y)) => text_eq(x.as_str(), y.as_str()),
        (None, None) => true,
        _ => false,
    }
}

/// Whether two parameter sets are equal.
pub fn params_eq(a: &Params, b: &Params) -> (r: bool)
    ensures
        r == params_are(*a, b.workspace_id, b.principal_id, b.invitation_id, opt_text(b.slug), opt_text(b.name)),
{
    a.workspace_id == b.workspace_id && a.principal_id == b.principal_id && a.invitation_id == b.invitation_id
        && opt_text_eq(&a.slug, &b.slug) && opt_text_eq(&a.name, &b.name)
}

/// Whether a resend is the same request as the recorded one: the same action
/// key and the same normalized parameters.
pub fn same_request(recorded_key: &str, recorded: &Option<Params>, key: &str, params: &Params) -> (r: bool)
    ensures
        r == (recorded_key@ == key@ && (recorded matches Some(p) && params_are(
            *p,
            params.workspace_id,
            params.principal_id,
            params.invitation_id,
            opt_text(params.slug),
            opt_text(params.name),
        ))),
{
    if !text_eq(recorded_key, key) {
        return false;
    }
    match recorded {
        Some(p) => params_eq(p, params),
        None => false,
    }
}

/// What an admitted action on the caller's own principal (a device key's
/// registration or revocation) was admitted under: the exact definition
/// version and the permission check's revision.
#[derive(Debug, Clone, PartialEq, Eq)]
pub struct OwnedAdmission {
    pub version: i32,
    pub zed_token: String,
}

/// The admission of an action on the caller's own principal: an action
/// without an active definition (`definition` is its version) is blocked;
/// otherwise the evaluation decides, a refusal being a denial with its
/// reason (PERMISSION_DENIED when it gives none). A missing revision reads as
/// empty.
pub fn owned_admission(definition: Option<i32>, eval: &Evaluation) -> (r: Result<OwnedAdmission, Refusal>)
    ensures
        definition is None ==> r == Err::<OwnedAdmission, Refusal>(Refusal::Blocked(ReasonCode::CapabilityBlocked)),
        definition is Some && eval.allowed ==> (r matches Ok(a) && a.version == definition.unwrap() && a.zed_token@ == (
        match eval.zed_token {
            Some(t) => t@,
            None => Seq::<char>::empty(),
        })),
        definition is Some && !eval.allowed ==> r == Err::<OwnedAdmission, Refusal>(
            Refusal::Denied(
                match eval.reason {
                    Some(x) => x,
                    None => ReasonCode::PermissionDenied,
                },
            ),
        ),
{
    let v = match definition {
        None => {
            return Err(Refusal::Blocked(ReasonCode::CapabilityBlocked));
        },
        Some(v) => v,
    };
    if eval.allowed {
        let zed_token = match &eval.zed_token {
            Some(t) => t.clone(),
            None => String::new(),
        };
        return Ok(OwnedAdmission { version: v, zed_token });
    }
    let reason = match eval.reason {
        Some(x) => x,
        None => ReasonCode::PermissionDenied,
    };
    Err(Refusal::Denied(reason))
}

} // verus!
