//! The read-only views of the platform pages, built from rows the store
//! returned for the caller's own scope.
//!
//! A state column is read back into its contract enum; a value outside the
//! enum means the store and the contract have drifted, which is a server
//! fault: the whole view is refused rather than handing a client a value it
//! does not know.

use vstd::prelude::*;

use crate::contracts::{
    AuditEventType, NativeCommunityFacts, OwnAuditEntry, PlatformSessionView, WorkspaceMemberView,
    WorkspaceMembershipState, WorkspaceView,
};
use crate::ids::{hyphenated, parse_uuid, uuid_parse_result, uuid_text};
use crate::roles::texts;
use crate::text::{chars_of, string_from_chars};

verus! {

fn clone_text(s: &String) -> (r: String)
    ensures
        r@ == s@,
{
    s.as_str().to_owned()
}

fn clone_texts(v: &Vec<String>) -> (r: Vec<String>)
    ensures
        texts(r@) == texts(v@),
{
    let mut out: Vec<String> = Vec::new();
    let mut i: usize = 0;
    while i < v.len()
        invariant
            i <= v@.len(),
            out@.len() == i,
            forall|j: int| 0 <= j < i ==> (#[trigger] out@[j])@ == v@[j]@,
        decreases v.len() - i,
    {
        out.push(clone_text(&v[i]));
        i = i + 1;
    }
    assert(texts(out@) =~= texts(v@));
    out
}

/// A workspace row: id, slug and name.
#[derive(Debug, Clone, PartialEq, Eq)]
pub struct WorkspaceRow {
    pub id: u128,
    pub slug: String,
    pub name: String,
}

/// Whether a view shows a workspace row.
pub open spec fn shows_workspace(v: WorkspaceView, row: WorkspaceRow) -> bool {
    v.id@ == hyphenated(row.id) && v.slug@ == row.slug@ && v.name@ == row.name@
}

/// The workspaces the caller may enter, in the order the store gave them.
pub fn workspace_views(rows: &[WorkspaceRow]) -> (r: Vec<WorkspaceView>)
    ensures
        r@.len() == rows@.len(),
        forall|i: int| 0 <= i < rows@.len() ==> shows_workspace(#[trigger] r@[i], rows@[i]),
{
    let mut out: Vec<WorkspaceView> = Vec::new();
    let mut i: usize = 0;
    while i < rows.len()
        invariant
            i <= rows@.len(),
            out@.len() == i,
            forall|j: int| 0 <= j < i ==> shows_workspace(#[trigger] out@[j], rows@[j]),
        decreases rows.len() - i,
    {
        let r = &rows[i];
        out.push(WorkspaceView { id: uuid_text(r.id), slug: clone_text(&r.slug), name: clone_text(&r.name) });
        i = i + 1;
    }
    out
}

/// A member row: the member's principal, name, active public keys and the
/// state column of the workspace membership.
#[derive(Debug, Clone, PartialEq, Eq)]
pub struct MemberRow {
    pub principal_id: u128,
    pub display_name: String,
    pub pubkeys: Vec<String>,
    pub state: String,
}

/// Whether a view shows a member row, its state read back into the enum.
pub open spec fn shows_member(v: WorkspaceMemberView, row: MemberRow) -> bool {
    &&& v.principal_id@ == hyphenated(row.principal_id)
    &&& v.display_name@ == row.display_name@
    &&& texts(v.pubkeys@) == texts(row.pubkeys@)
    &&& WorkspaceMembershipState::from_wire_text(row.state@) == Some(v.state)
}

/// Whether every member row's state is a contract value.
pub open spec fn member_states_known(rows: Seq<MemberRow>) -> bool {
    forall|i: int| 0 <= i < rows.len() ==> (#[trigger] WorkspaceMembershipState::from_wire_text(rows[i].state@)) is Some
}

/// The members of a workspace; `None` when a state is outside the contract.
pub fn member_views(rows: &[MemberRow]) -> (r: Option<Vec<WorkspaceMemberView>>)
    ensures
        r is Some <==> member_states_known(rows@),
        r matches Some(v) ==> v@.len() == rows@.len() && forall|i: int|
            0 <= i < rows@.len() ==> shows_member(#[trigger] v@[i], rows@[i]),
{
    let mut out: Vec<WorkspaceMemberView> = Vec::new();
    let mut i: usize = 0;
    while i < rows.len()
        invariant
            i <= rows@.len(),
            out@.len() == i,
            forall|j: int| 0 <= j < i ==> shows_member(#[trigger] out@[j], rows@[j]),
            forall|j: int| 0 <= j < i ==> (#[trigger] WorkspaceMembershipState::from_wire_text(rows@[j].state@)) is Some,
        decreases rows.len() - i,
    {
        let r = &rows[i];
        let state = match WorkspaceMembershipState::from_wire(r.state.as_str()) {
            Some(s) => s,
            None => return None,
        };
        out.push(
            WorkspaceMemberView {
                principal_id: uuid_text(r.principal_id),
                display_name: clone_text(&r.display_name),
                pubkeys: clone_texts(&r.pubkeys),
                state,
            },
        );
        i = i + 1;
    }
    Some(out)
}

/// An audit row of the caller's own actions; the time is already rendered
/// as RFC 3339.
#[derive(Debug, Clone, PartialEq, Eq)]
pub struct AuditRow {
    pub occurred_at: String,
    pub event_type: String,
    pub action_key: String,
    pub decision: String,
    pub result_code: String,
    pub workspace_id: Option<u128>,
}

/// Whether an entry shows an audit row; a tenant-level action has no
/// workspace and the field is left out.
pub open spec fn shows_audit(e: OwnAuditEntry, row: AuditRow) -> bool {
    &&& e.occurred_at@ == row.occurred_at@
    &&& AuditEventType::from_wire_text(row.event_type@) == Some(e.event_type)
    &&& e.action_key@ == row.action_key@
    &&& e.decision@ == row.decision@
    &&& e.result_code@ == row.result_code@
    &&& (match row.workspace_id {
        Some(w) => e.workspace_id matches Some(t) && t@ == hyphenated(w),
        None => e.workspace_id is None,
    })
}

/// Whether every audit row's event type is a contract value.
pub open spec fn event_types_known(rows: Seq<AuditRow>) -> bool {
    forall|i: int| 0 <= i < rows.len() ==> (#[trigger] AuditEventType::from_wire_text(rows[i].event_type@)) is Some
}

/// The caller's own audit entries; `None` when an event type is outside the
/// contract.
pub fn own_audit_entries(rows: &[AuditRow]) -> (r: Option<Vec<OwnAuditEntry>>)
    ensures
        r is Some <==> event_types_known(rows@),
        r matches Some(v) ==> v@.len() == rows@.len() && forall|i: int|
            0 <= i < rows@.len() ==> shows_audit(#[trigger] v@[i], rows@[i]),
{
    let mut out: Vec<OwnAuditEntry> = Vec::new();
    let mut i: usize = 0;
    while i < rows.len()
        invariant
            i <= rows@.len(),
            out@.len() == i,
            forall|j: int| 0 <= j < i ==> shows_audit(#[trigger] out@[j], rows@[j]),
            forall|j: int| 0 <= j < i ==> (#[trigger] AuditEventType::from_wire_text(rows@[j].event_type@)) is Some,
        decreases rows.len() - i,
    {
        let r = &rows[i];
        let event_type = match AuditEventType::from_wire(r.event_type.as_str()) {
            Some(t) => t,
            None => return None,
        };
        let workspace_id = match r.workspace_id {
            Some(w) => Some(uuid_text(w)),
            None => None,
        };
        out.push(
            OwnAuditEntry {
                occurred_at: clone_text(&r.occurred_at),
                event_type,
                action_key: clone_text(&r.action_key),
                decision: clone_text(&r.decision),
                result_code: clone_text(&r.result_code),
                workspace_id,
            },
        );
        i = i + 1;
    }
    Some(out)
}

/// The placeholder a relay URL template names the community host with.
pub open spec fn host_placeholder() -> Seq<char> {
    "{host}"@
}

/// `str::replace` of the host placeholder: matches taken left to right,
/// without overlap.
pub open spec fn fill_host(s: Seq<char>, host: Seq<char>) -> Seq<char>
    decreases s.len(),
{
    if s.len() == 0 {
        s
    } else if s.len() >= 6 && s.subrange(0, 6) == host_placeholder() {
        host + fill_host(s.subrange(6, s.len() as int), host)
    } else {
        seq![s[0]] + fill_host(s.drop_first(), host)
    }
}

fn placeholder_at(s: &[char], i: usize) -> (r: bool)
    requires
        i <= s@.len(),
    ensures
        r == (s@.len() - i >= 6 && s@.subrange(i as int, i + 6) == host_placeholder()),
{
    proof {
        reveal_strlit("{host}");
    }
    if s.len() - i < 6 {
        return false;
    }
    let r = s[i] == '{' && s[i + 1] == 'h' && s[i + 2] == 'o' && s[i + 3] == 's' && s[i + 4] == 't' && s[i + 5]
        == '}';
    assert(r ==> s@.subrange(i as int, i + 6) =~= host_placeholder());
    assert(s@.subrange(i as int, i + 6) == host_placeholder() ==> {
        &&& s@.subrange(i as int, i + 6)[0] == '{'
        &&& s@.subrange(i as int, i + 6)[1] == 'h'
        &&& s@.subrange(i as int, i + 6)[2] == 'o'
        &&& s@.subrange(i as int, i + 6)[3] == 's'
        &&& s@.subrange(i as int, i + 6)[4] == 't'
        &&& s@.subrange(i as int, i + 6)[5] == '}'
    });
    r
}

/// The relay address a native client connects to: the deployment's
/// template with every `{host}` replaced by the community host.
pub fn relay_url(template: &str, host: &str) -> (r: String)
    ensures
        r@ == fill_host(template@, host@),
{
    let s = chars_of(template);
    let h = chars_of(host);
    let mut out: Vec<char> = Vec::new();
    let mut i: usize = 0;
    assert(s@.subrange(0, s@.len() as int) =~= s@);
    assert(out@ + fill_host(s@, host@) =~= fill_host(s@, host@));
    while i < s.len()
        invariant
            i <= s@.len(),
            s@ == template@,
            h@ == host@,
            out@ + fill_host(s@.subrange(i as int, s@.len() as int), host@) == fill_host(template@, host@),
        decreases s.len() - i,
    {
        let ghost rest = s@.subrange(i as int, s@.len() as int);
        if placeholder_at(s.as_slice(), i) {
            proof {
                assert(rest.subrange(0, 6) =~= s@.subrange(i as int, i + 6));
                assert(rest.subrange(6, rest.len() as int) =~= s@.subrange(i + 6, s@.len() as int));
            }
            let mut k: usize = 0;
            let ghost before = out@;
            while k < h.len()
                invariant
                    k <= h@.len(),
                    out@ == before + h@.subrange(0, k as int),
                decreases h.len() - k,
            {
                out.push(h[k]);
                k = k + 1;
                assert(out@ =~= before + h@.subrange(0, k as int));
            }
            proof {
                assert(h@.subrange(0, h@.len() as int) =~= h@);
                assert(before + host@ + fill_host(s@.subrange(i + 6, s@.len() as int), host@) =~= before + (host@
                    + fill_host(s@.subrange(i + 6, s@.len() as int), host@)));
            }
            i = i + 6;
        } else {
            proof {
                assert(rest.drop_first() =~= s@.subrange(i + 1, s@.len() as int));
                assert(rest[0] == s@[i as int]);
                if rest.len() >= 6 {
                    assert(rest.subrange(0, 6) =~= s@.subrange(i as int, i + 6));
                }
                assert(out@.push(s@[i as int]) + fill_host(s@.subrange(i + 1, s@.len() as int), host@) =~= out@ + (
                seq![s@[i as int]] + fill_host(s@.subrange(i + 1, s@.len() as int), host@)));
            }
            out.push(s[i]);
            i = i + 1;
        }
    }
    proof {
        assert(s@.subrange(i as int, s@.len() as int) =~= Seq::<char>::empty());
        assert(out@ + Seq::<char>::empty() =~= out@);
    }
    string_from_chars(out.as_slice())
}

/// The connection facts of the caller's community: none until the tenant's
/// binding to the relay is active, so that no client is given an address
/// that fails or leads to another community.
pub fn native_community(template: &str, active_host: Option<String>) -> (r: Option<NativeCommunityFacts>)
    ensures
        (match active_host {
            Some(h) => r matches Some(f) && f.community_host@ == h@ && f.relay_url@ == fill_host(template@, h@),
            None => r is None,
        }),
{
    match active_host {
        Some(h) => {
            let relay = relay_url(template, h.as_str());
            Some(NativeCommunityFacts { relay_url: relay, community_host: h })
        },
        None => None,
    }
}

/// The identity the service resolved for a session request, as text.
#[derive(Debug, Clone, PartialEq, Eq)]
pub struct ResolvedIdentity {
    pub human_identity_id: String,
    pub tenant_membership_id: String,
    pub tenant_id: String,
    pub tenant_principal_id: String,
}

/// The two ids a session is opened for; `None` when either is no UUID, a
/// server fault.
pub fn session_ids(identity: &ResolvedIdentity) -> (r: Option<(u128, u128)>)
    ensures
        r == (match (uuid_parse_result(identity.human_identity_id@), uuid_parse_result(identity.tenant_membership_id@)) {
            (Some(h), Some(m)) => Some((h, m)),
            _ => None,
        }),
{
    match (parse_uuid(identity.human_identity_id.as_str()), parse_uuid(identity.tenant_membership_id.as_str())) {
        (Some(h), Some(m)) => Some((h, m)),
        _ => None,
    }
}

/// The caller's session view: the resolved identity, its display name, the
/// session and the workspace chosen in it, if any (left out otherwise).
pub fn session_view(identity: ResolvedIdentity, display_name: String, session: u128, current_workspace: Option<u128>) -> (r:
    PlatformSessionView)
    ensures
        r.human_identity_id@ == identity.human_identity_id@,
        r.tenant_membership_id@ == identity.tenant_membership_id@,
        r.tenant_id@ == identity.tenant_id@,
        r.tenant_principal_id@ == identity.tenant_principal_id@,
        r.display_name@ == display_name@,
        r.platform_session_id@ == hyphenated(session),
        (match current_workspace {
            Some(w) => r.current_workspace_id matches Some(t) && t@ == hyphenated(w),
            None => r.current_workspace_id is None,
        }),
{
    let current_workspace_id = match current_workspace {
        Some(w) => Some(uuid_text(w)),
        None => None,
    };
    PlatformSessionView {
        human_identity_id: identity.human_identity_id,
        display_name,
        tenant_id: identity.tenant_id,
        tenant_membership_id: identity.tenant_membership_id,
        tenant_principal_id: identity.tenant_principal_id,
        platform_session_id: uuid_text(session),
        current_workspace_id,
    }
}

} // verus!
