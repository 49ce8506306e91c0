//! Roles: expanding a role template into relationships, whether a principal
//! holds a role, and the rule that the set of effective tenant admins never
//! becomes empty.
//!
//! Roles live as relationships in the permission store, not as facts here;
//! every decision below takes what was read from there and from the member
//! facts as plain values.

use vstd::prelude::*;
use vstd::string::*;
use vstd::utf8::encode_utf8;

use crate::contracts::ReasonCode;
use crate::governance::{Refusal, HTTP_FORBIDDEN, HTTP_UNAVAILABLE};
use crate::ids::{hyphenated, parse_uuid, uuid_parse_result, uuid_text, uuid_v5_url, uuid_v5_url_result};
use crate::text::{chars_of, string_from_chars, text_eq};

verus! {

/// The relation of the fixed schema that gives `tenant manage`; effective
/// tenant admins are defined by it.
pub open spec fn tenant_manage_relation() -> Seq<char> {
    "admin"@
}

/// One exact version of a role template from the catalog.
#[derive(Debug, Clone, PartialEq, Eq)]
pub struct RoleTemplate {
    pub role_key: String,
    pub object_type: String,
    pub relations: Vec<String>,
}

/// A relationship `object_type:object_id#relation@principal:subject`.
#[derive(Debug, Clone, PartialEq, Eq)]
pub struct Relationship {
    pub object_type: String,
    pub object_id: String,
    pub relation: String,
    pub subject_principal: String,
}

/// The texts of a list of strings.
pub open spec fn texts(v: Seq<String>) -> Seq<Seq<char>> {
    v.map_values(|s: String| s@)
}

impl RoleTemplate {
    /// Whether this template grants `tenant manage`: it is on the tenant and
    /// includes the admin relation.
    pub open spec fn grants_tenant_manage_spec(&self) -> bool {
        self.object_type@ == "tenant"@ && texts(self.relations@).contains(tenant_manage_relation())
    }

    /// Whether revoking this role must respect the last-admin rule.
    pub fn grants_tenant_manage(&self) -> (r: bool)
        ensures
            r == self.grants_tenant_manage_spec(),
    {
        if !text_eq(self.object_type.as_str(), "tenant") {
            return false;
        }
        let mut i: usize = 0;
        while i < self.relations.len()
            invariant
                i <= self.relations@.len(),
                self.object_type@ == "tenant"@,
                forall|j: int| 0 <= j < i ==> self.relations@[j]@ != tenant_manage_relation(),
            decreases self.relations.len() - i,
        {
            if text_eq(self.relations[i].as_str(), "admin") {
                assert(texts(self.relations@)[i as int] == tenant_manage_relation());
                assert(texts(self.relations@).contains(tenant_manage_relation()));
                return true;
            }
            i = i + 1;
        }
        proof {
            if texts(self.relations@).contains(tenant_manage_relation()) {
                let k = choose|k: int| 0 <= k < texts(self.relations@).len() && texts(self.relations@)[k]
                    == tenant_manage_relation();
                assert(self.relations@[k]@ == tenant_manage_relation());
            }
        }
        false
    }

    /// Every relationship this role expands to on an object for a principal:
    /// one per template relation, in template order.
    pub fn expand(&self, object_id: u128, principal: u128) -> (r: Vec<Relationship>)
        ensures
            r@.len() == self.relations@.len(),
            forall|i: int|
                0 <= i < r@.len() ==> (#[trigger] r@[i]).object_type@ == self.object_type@ && r@[i].object_id@
                    == hyphenated(object_id) && r@[i].relation@ == self.relations@[i]@
                    && r@[i].subject_principal@ == hyphenated(principal),
    {
        let mut r: Vec<Relationship> = Vec::new();
        let mut i: usize = 0;
        while i < self.relations.len()
            invariant
                i <= self.relations@.len(),
                r@.len() == i,
                forall|j: int|
                    0 <= j < i ==> (#[trigger] r@[j]).object_type@ == self.object_type@ && r@[j].object_id@
                        == hyphenated(object_id) && r@[j].relation@ == self.relations@[j]@
                        && r@[j].subject_principal@ == hyphenated(principal),
            decreases self.relations.len() - i,
        {
            r.push(
                Relationship {
                    object_type: self.object_type.clone(),
                    object_id: uuid_text(object_id),
                    relation: self.relations[i].clone(),
                    subject_principal: uuid_text(principal),
                },
            );
            i = i + 1;
        }
        r
    }

    /// Whether the relationships read for a principal on an object hold every
    /// relation of this template: missing one means the role is not held.
    pub fn held_in(&self, read: &[Relationship]) -> (r: bool)
        ensures
            r == (forall|i: int| 0 <= i < self.relations@.len() ==> has_relation(read@, #[trigger] self.relations@[i]@)),
    {
        let mut i: usize = 0;
        while i < self.relations.len()
            invariant
                i <= self.relations@.len(),
                forall|k: int| 0 <= k < i ==> has_relation(read@, #[trigger] self.relations@[k]@),
            decreases self.relations.len() - i,
        {
            let mut j: usize = 0;
            let mut found = false;
            while j < read.len() && !found
                invariant
                    j <= read@.len(),
                    i < self.relations@.len(),
                    found ==> has_relation(read@, self.relations@[i as int]@),
                    !found ==> forall|m: int| 0 <= m < j ==> read@[m].relation@ != self.relations@[i as int]@,
                decreases read.len() - j,
            {
                if text_eq(read[j].relation.as_str(), self.relations[i].as_str()) {
                    found = true;
                }
                j = j + 1;
            }
            if !found {
                assert(!has_relation(read@, self.relations@[i as int]@));
                return false;
            }
            i = i + 1;
        }
        true
    }
}

/// Whether some relationship read has relation `rel`.
pub open spec fn has_relation(read: Seq<Relationship>, rel: Seq<char>) -> bool {
    exists|j: int| 0 <= j < read.len() && read[j].relation@ == rel
}

/// The name under which a role target's ID is derived.
pub open spec fn role_target_name(object_type: Seq<char>, object_id: u128, role_key: Seq<char>, principal: u128) -> Seq<char> {
    "urn:kailo:role:"@ + object_type + seq![':'] + hyphenated(object_id) + seq![':'] + role_key + seq![':']
        + hyphenated(principal)
}

/// The stable target ID of one role of one principal on one object: the
/// name-based UUID of `urn:kailo:role:<object_type>:<object>:<role>:<principal>`.
/// The same tuple always gives the same ID, so concurrent grants and revokes of
/// it queue behind one another while other tuples do not.
pub fn target_id(t: &RoleTemplate, object_id: u128, principal: u128) -> (r: u128)
    ensures
        r == uuid_v5_url_result(encode_utf8(role_target_name(t.object_type@, object_id, t.role_key@, principal))),
{
    let mut name: Vec<char> = chars_of("urn:kailo:role:");
    let a = chars_of(t.object_type.as_str());
    let b = chars_of(uuid_text(object_id).as_str());
    let c = chars_of(t.role_key.as_str());
    let d = chars_of(uuid_text(principal).as_str());
    append_chars(&mut name, a.as_slice());
    name.push(':');
    append_chars(&mut name, b.as_slice());
    name.push(':');
    append_chars(&mut name, c.as_slice());
    name.push(':');
    append_chars(&mut name, d.as_slice());
    assert(name@ =~= role_target_name(t.object_type@, object_id, t.role_key@, principal));
    let text = string_from_chars(name.as_slice());
    uuid_v5_url(text.as_str().as_bytes())
}

fn append_chars(r: &mut Vec<char>, t: &[char])
    ensures
        final(r)@ == old(r)@ + t@,
{
    let mut i: usize = 0;
    let ghost start = r@;
    while i < t.len()
        invariant
            r@ == start + t@.subrange(0, i as int),
            i <= t@.len(),
        decreases t.len() - i,
    {
        r.push(t[i]);
        i = i + 1;
        assert(r@ =~= start + t@.subrange(0, i as int));
    }
    assert(t@.subrange(0, t@.len() as int) =~= t@);
}

/// Whether removing `leaving` empties the effective tenant admins: `leaving` is
/// one of them and every one of them is `leaving`. A principal that is no
/// effective admin leaves the set unchanged.
pub open spec fn empties(effective: Seq<u128>, leaving: u128) -> bool {
    effective.contains(leaving) && forall|i: int| 0 <= i < effective.len() ==> effective[i] == leaving
}

/// Whether removing `leaving` empties the effective tenant admins.
pub fn would_empty(effective: &[u128], leaving: u128) -> (r: bool)
    ensures
        r == empties(effective@, leaving),
{
    let mut contains = false;
    let mut all = true;
    let mut i: usize = 0;
    while i < effective.len()
        invariant
            i <= effective@.len(),
            contains == (exists|j: int| 0 <= j < i && effective@[j] == leaving),
            all == (forall|j: int| 0 <= j < i ==> effective@[j] == leaving),
        decreases effective.len() - i,
    {
        if effective[i] == leaving {
            contains = true;
        } else {
            all = false;
        }
        i = i + 1;
    }
    contains && all
}

/// Removing a principal empties the effective admins exactly when the set of
/// effective admins is that one principal.
pub proof fn lemma_would_empty_iff_sole_admin(effective: Seq<u128>, leaving: u128)
    ensures
        empties(effective, leaving) <==> effective.to_set() == set![leaving],
{
    if empties(effective, leaving) {
        assert(effective.to_set() =~= set![leaving]);
    }
    if effective.to_set() == set![leaving] {
        assert(set![leaving].contains(leaving));
        assert(effective.to_set().contains(leaving));
        assert forall|i: int| 0 <= i < effective.len() implies effective[i] == leaving by {
            assert(effective.to_set().contains(effective[i]));
        }
    }
}

/// Whether the facts in the permission store allow a role change. A grant of a
/// role already held is a conflict, not a replayed success. A revoke of a role
/// not held has no target. Revoking a role that grants tenant manage from the
/// last effective tenant admin is refused.
pub fn role_change_gate(is_grant: bool, held: bool, grants_manage: bool, effective: &[u128], principal: u128) -> (r:
    Result<(), Refusal>)
    ensures
        is_grant && held ==> r == Err::<(), Refusal>(Refusal::Conflict(ReasonCode::TargetStateConflict)),
        is_grant && !held ==> r == Ok::<(), Refusal>(()),
        !is_grant && !held ==> r == Err::<(), Refusal>(Refusal::Precondition(ReasonCode::TargetNotFound)),
        !is_grant && held && grants_manage && empties(effective@, principal) ==> r == Err::<(), Refusal>(
            Refusal::Precondition(ReasonCode::LastTenantAdmin),
        ),
        !is_grant && held && !(grants_manage && empties(effective@, principal)) ==> r == Ok::<(), Refusal>(()),
{
    if is_grant {
        return if held {
            Err(Refusal::Conflict(ReasonCode::TargetStateConflict))
        } else {
            Ok(())
        };
    }
    if !held {
        return Err(Refusal::Precondition(ReasonCode::TargetNotFound));
    }
    if grants_manage && would_empty(effective, principal) {
        return Err(Refusal::Precondition(ReasonCode::LastTenantAdmin));
    }
    Ok(())
}

/// Revoking a tenant membership also revokes every role: refused when it would
/// remove the last effective tenant admin.
pub fn member_revoke_gate(effective: &[u128], principal: u128) -> (r: Result<(), Refusal>)
    ensures
        empties(effective@, principal) ==> r == Err::<(), Refusal>(Refusal::Precondition(ReasonCode::LastTenantAdmin)),
        !empties(effective@, principal) ==> r == Ok::<(), Refusal>(()),
{
    if would_empty(effective, principal) {
        Err(Refusal::Precondition(ReasonCode::LastTenantAdmin))
    } else {
        Ok(())
    }
}

/// No change the gates admit empties the effective tenant admins: whenever a
/// revocation of tenant manage, or of a tenant membership, passes its gate, the
/// principal is not the sole effective admin.
pub proof fn lemma_gates_keep_an_admin(effective: Seq<u128>, principal: u128)
    ensures
        empties(effective, principal) ==> effective.to_set() == set![principal],
        !empties(effective, principal) ==> effective.to_set() != set![principal],
{
    lemma_would_empty_iff_sole_admin(effective, principal);
}

/// One row of the role management view.
#[derive(Debug, Clone, PartialEq, Eq)]
pub struct RoleMemberView {
    pub principal_id: u128,
    pub tenant_admin: bool,
    pub workspace_admin: bool,
    pub can_grant_tenant_admin: bool,
    pub can_revoke_tenant_admin: bool,
    pub can_grant_workspace_admin: bool,
    pub can_revoke_workspace_admin: bool,
    pub last_tenant_admin: bool,
}

/// Which role actions the catalog offers in their expected form.
#[derive(Debug, Clone, PartialEq, Eq)]
pub struct EnabledRoleActions {
    pub tenant_grant: bool,
    pub tenant_revoke: bool,
    pub workspace_grant: bool,
    pub workspace_revoke: bool,
}

/// The role view of one candidate. A button appears only when the viewer
/// manages the object, the catalog offers the action, and the change is not
/// already made; the sole effective tenant admin gets no revoke button.
pub fn role_member_view(
    principal: u128,
    tenant_admins: &[u128],
    workspace_admins: &[u128],
    effective: &[u128],
    tenant_manage: bool,
    workspace_manage: bool,
    enabled: &EnabledRoleActions,
) -> (r: RoleMemberView)
    ensures
        r.principal_id == principal,
        r.tenant_admin == tenant_admins@.contains(principal),
        r.workspace_admin == workspace_admins@.contains(principal),
        r.last_tenant_admin == (r.tenant_admin && effective@.len() == 1 && effective@[0] == principal),
        r.can_grant_tenant_admin == (tenant_manage && !r.tenant_admin && enabled.tenant_grant),
        r.can_revoke_tenant_admin == (tenant_manage && r.tenant_admin && !r.last_tenant_admin
            && enabled.tenant_revoke),
        r.can_grant_workspace_admin == (workspace_manage && !r.workspace_admin && enabled.workspace_grant),
        r.can_revoke_workspace_admin == (workspace_manage && r.workspace_admin && enabled.workspace_revoke),
{
    let tenant_admin = contains_id(tenant_admins, principal);
    let workspace_admin = contains_id(workspace_admins, principal);
    let last_tenant_admin = tenant_admin && effective.len() == 1 && effective[0] == principal;
    RoleMemberView {
        principal_id: principal,
        tenant_admin,
        workspace_admin,
        can_grant_tenant_admin: tenant_manage && !tenant_admin && enabled.tenant_grant,
        can_revoke_tenant_admin: tenant_manage && tenant_admin && !last_tenant_admin && enabled.tenant_revoke,
        can_grant_workspace_admin: workspace_manage && !workspace_admin && enabled.workspace_grant,
        can_revoke_workspace_admin: workspace_manage && workspace_admin && enabled.workspace_revoke,
        last_tenant_admin,
    }
}

/// Whether `ids` contains `id`.
pub fn contains_id(ids: &[u128], id: u128) -> (r: bool)
    ensures
        r == ids@.contains(id),
{
    let mut i: usize = 0;
    while i < ids.len()
        invariant
            i <= ids@.len(),
            forall|j: int| 0 <= j < i ==> ids@[j] != id,
        decreases ids.len() - i,
    {
        if ids[i] == id {
            assert(ids@[i as int] == id);
            return true;
        }
        i = i + 1;
    }
    false
}

/// Who may open the role listing: a tenant manager, or a manager of an
/// active workspace of the tenant named by the query. Each check answers
/// `Some(allowed)` or `None` when it could not be made, which is 503; a
/// workspace outside the tenant or not active is 403, as is a caller who
/// manages neither. Gives the two manage facets.
pub open spec fn role_listing_gate_of(
    tenant_manage: Option<bool>,
    workspace_asked: bool,
    workspace_belongs: Option<bool>,
    workspace_manage: Option<bool>,
) -> Result<(bool, bool), u16> {
    match tenant_manage {
        None => Err(HTTP_UNAVAILABLE),
        Some(t) => if !workspace_asked {
            if t {
                Ok((t, false))
            } else {
                Err(HTTP_FORBIDDEN)
            }
        } else {
            match workspace_belongs {
                None => Err(HTTP_UNAVAILABLE),
                Some(false) => Err(HTTP_FORBIDDEN),
                Some(true) => match workspace_manage {
                    None => Err(HTTP_UNAVAILABLE),
                    Some(w) => if t || w {
                        Ok((t, w))
                    } else {
                        Err(HTTP_FORBIDDEN)
                    },
                },
            }
        },
    }
}

/// Decides who may open the role listing (see `role_listing_gate_of`).
pub fn role_listing_gate(
    tenant_manage: Option<bool>,
    workspace_asked: bool,
    workspace_belongs: Option<bool>,
    workspace_manage: Option<bool>,
) -> (r: Result<(bool, bool), u16>)
    ensures
        r == role_listing_gate_of(tenant_manage, workspace_asked, workspace_belongs, workspace_manage),
{
    let t = match tenant_manage {
        None => {
            return Err(HTTP_UNAVAILABLE);
        },
        Some(t) => t,
    };
    let w = if workspace_asked {
        match workspace_belongs {
            None => {
                return Err(HTTP_UNAVAILABLE);
            },
            Some(false) => {
                return Err(HTTP_FORBIDDEN);
            },
            Some(true) => {},
        }
        match workspace_manage {
            None => {
                return Err(HTTP_UNAVAILABLE);
            },
            Some(w) => w,
        }
    } else {
        false
    };
    if !t && !w {
        return Err(HTTP_FORBIDDEN);
    }
    Ok((t, w))
}

/// The principals that admin relationships name; `None` (a 503: the view
/// fails rather than show "nobody holds the role") when any subject is no
/// UUID.
pub fn admin_subjects(rels: &[Relationship]) -> (r: Option<Vec<u128>>)
    ensures
        (forall|i: int| 0 <= i < rels@.len() ==> (#[trigger] uuid_parse_result(rels@[i].subject_principal@)) is Some)
            ==> (r matches Some(v) && v@.len() == rels@.len() && forall|i: int|
            0 <= i < rels@.len() ==> Some(#[trigger] v@[i]) == uuid_parse_result(rels@[i].subject_principal@)),
        !(forall|i: int| 0 <= i < rels@.len() ==> (#[trigger] uuid_parse_result(rels@[i].subject_principal@)) is Some)
            ==> r is None,
{
    let mut out: Vec<u128> = Vec::new();
    let mut i: usize = 0;
    while i < rels.len()
        invariant
            i <= rels@.len(),
            out@.len() == i,
            forall|j: int| 0 <= j < i ==> Some(#[trigger] out@[j]) == uuid_parse_result(rels@[j].subject_principal@),
        decreases rels.len() - i,
    {
        match parse_uuid(rels[i].subject_principal.as_str()) {
            Some(u) => out.push(u),
            None => {
                return None;
            },
        }
        i = i + 1;
    }
    assert forall|j: int| 0 <= j < rels@.len() implies (#[trigger] uuid_parse_result(rels@[j].subject_principal@)) is Some by {
        assert(Some(out@[j]) == uuid_parse_result(rels@[j].subject_principal@));
    }
    Some(out)
}

} // verus!
