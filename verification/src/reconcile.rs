//! Decisions of the background reconciliations: what a pass does with each
//! thing it finds. Reading, writing and the timer stay with the caller.
//!
//! - Publishing: a message dispatched without a recorded outcome is settled
//!   by asking the relay for its event id. Found means delivered; not found
//!   after the relay's clock skew window means it can never be accepted; not
//!   found within the window means wait. Nothing is sent again.
//! - Roles: a role relationship stays only on a HUMAN member of the same
//!   tenant whose membership is ACTIVE or REVOKING; anything else is removed.
//!   The pass only tightens.
//! - Governance: every pass reports each open gate/dispatch combination,
//!   zero included, so that an alert never rests on a stale value.

use vstd::prelude::*;

use crate::digest::push_chars;
use crate::ids::{parse_uuid, uuid_parse_result, uuid_v5_url, uuid_v5_url_result};
use crate::text::{chars_of, string_from_chars, text_eq, utf8_of};

verus! {

/// What the relay's answer settles a dispatched message to.
#[derive(Debug, Clone, Copy, PartialEq, Eq, Structural)]
pub enum PublishResult {
    Accepted,
    NotDelivered,
}

/// The step for one unsettled publication.
#[derive(Debug, Clone, Copy, PartialEq, Eq, Structural)]
pub enum Settlement {
    /// The dispatch record carries no event id: nothing can be asked; count it.
    EvidenceMissing,
    /// The tenant's control identity could not be read.
    ControlUnreadable,
    /// The relay could not be asked.
    QueryFailed,
    /// Not found, but still inside the window: wait.
    Pending,
    /// Record this result.
    Record(PublishResult),
}

/// Settles one dispatched message from what was observed, in the order the
/// pass observes it: the event id, the control identity, then the relay's
/// answer (`Some(found)`, or `None` when the query failed).
pub fn publish_settlement(has_event_id: bool, control_readable: bool, found: Option<bool>, window_passed: bool) -> (r:
    Settlement)
    ensures
        r == (if !has_event_id {
            Settlement::EvidenceMissing
        } else if !control_readable {
            Settlement::ControlUnreadable
        } else {
            match found {
                None => Settlement::QueryFailed,
                Some(true) => Settlement::Record(PublishResult::Accepted),
                Some(false) => if window_passed {
                    Settlement::Record(PublishResult::NotDelivered)
                } else {
                    Settlement::Pending
                },
            }
        }),
{
    if !has_event_id {
        Settlement::EvidenceMissing
    } else if !control_readable {
        Settlement::ControlUnreadable
    } else {
        match found {
            None => Settlement::QueryFailed,
            Some(true) => Settlement::Record(PublishResult::Accepted),
            Some(false) => if window_passed {
                Settlement::Record(PublishResult::NotDelivered)
            } else {
                Settlement::Pending
            },
        }
    }
}

/// The result code a settlement records.
pub open spec fn result_code(r: PublishResult) -> Seq<char> {
    match r {
        PublishResult::Accepted => "ACCEPTED"@,
        PublishResult::NotDelivered => "NOT_DELIVERED"@,
    }
}

/// The result code a settlement records.
pub fn publish_result_code(r: PublishResult) -> (s: &'static str)
    ensures
        s@ == result_code(r),
{
    match r {
        PublishResult::Accepted => "ACCEPTED",
        PublishResult::NotDelivered => "NOT_DELIVERED",
    }
}

/// The label a settlement is counted under; `written` says whether the
/// recorded result reached the audit log.
pub open spec fn settlement_label_of(s: Settlement, written: bool) -> Seq<char> {
    match s {
        Settlement::EvidenceMissing => "EVIDENCE_MISSING"@,
        Settlement::ControlUnreadable => "CONTROL_UNREADABLE"@,
        Settlement::QueryFailed => "QUERY_FAILED"@,
        Settlement::Pending => "PENDING"@,
        Settlement::Record(r) => if written {
            result_code(r)
        } else {
            "WRITE_FAILED"@
        },
    }
}

/// The label a settlement is counted under (see `settlement_label_of`).
pub fn settlement_label(s: Settlement, written: bool) -> (r: &'static str)
    ensures
        r@ == settlement_label_of(s, written),
{
    match s {
        Settlement::EvidenceMissing => "EVIDENCE_MISSING",
        Settlement::ControlUnreadable => "CONTROL_UNREADABLE",
        Settlement::QueryFailed => "QUERY_FAILED",
        Settlement::Pending => "PENDING",
        Settlement::Record(r) => if written {
            publish_result_code(r)
        } else {
            "WRITE_FAILED"
        },
    }
}

fn concat3(a: &str, b: &str, c: &str) -> (r: String)
    ensures
        r@ == a@ + b@ + c@,
{
    let mut v: Vec<char> = Vec::new();
    let x = chars_of(a);
    push_chars(&mut v, x.as_slice());
    let y = chars_of(b);
    push_chars(&mut v, y.as_slice());
    let z = chars_of(c);
    push_chars(&mut v, z.as_slice());
    string_from_chars(v.as_slice())
}

/// The event key of a settlement record: one per event id, so a repeated
/// pass cannot record the same message twice.
pub fn reconciled_event_key(event_id: &str) -> (r: String)
    ensures
        r@ == "message.publish:"@ + event_id@ + ":reconciled"@,
{
    concat3("message.publish:", event_id, ":reconciled")
}

/// What the service knows of a role relationship's subject principal.
#[derive(Debug, Clone, PartialEq, Eq)]
pub struct RelationshipSubject {
    pub tenant_id: u128,
    /// The principal's kind (`HUMAN`, ...).
    pub kind: String,
    /// The state of its tenant membership, if it has one.
    pub membership: Option<String>,
}

/// Whether a role relationship may stay: its subject is a HUMAN of the
/// object's tenant whose membership is ACTIVE or still REVOKING.
pub open spec fn role_kept(subject: Option<RelationshipSubject>, object_tenant: Option<u128>) -> bool {
    match (subject, object_tenant) {
        (Some(s), Some(t)) => s.tenant_id == t && s.kind@ == "HUMAN"@ && (match s.membership {
            Some(m) => m@ == "ACTIVE"@ || m@ == "REVOKING"@,
            None => false,
        }),
        _ => false,
    }
}

/// Decides whether a role relationship stays (see `role_kept`).
pub fn role_relationship_kept(subject: &Option<RelationshipSubject>, object_tenant: Option<u128>) -> (r: bool)
    ensures
        r == role_kept(*subject, object_tenant),
{
    match (subject, object_tenant) {
        (Some(s), Some(t)) => s.tenant_id == t && text_eq(s.kind.as_str(), "HUMAN") && match &s.membership {
            Some(m) => text_eq(m.as_str(), "ACTIVE") || text_eq(m.as_str(), "REVOKING"),
            None => false,
        },
        _ => false,
    }
}

/// A relationship kept on a principal that is not an active or revoking
/// member of the object's tenant is never kept: the pass only removes.
pub proof fn lemma_roles_follow_membership(s: RelationshipSubject, object_tenant: u128)
    requires
        role_kept(Some(s), Some(object_tenant)),
    ensures
        s.tenant_id == object_tenant,
        s.kind@ == "HUMAN"@,
        s.membership matches Some(m) && (m@ == "ACTIVE"@ || m@ == "REVOKING"@),
{
}

/// How the tenant of a relationship's object is found: a tenant object is
/// its own tenant; any other object is a workspace, whose tenant must be
/// looked up. An id that is no UUID has no tenant.
#[derive(Debug, Clone, Copy, PartialEq, Eq, Structural)]
pub enum ObjectTenant {
    Known(Option<u128>),
    LookUpWorkspace(u128),
}

/// Where the tenant of a relationship's object comes from (see
/// `ObjectTenant`).
pub fn object_tenant(object_type: &str, object_id: &str) -> (r: ObjectTenant)
    ensures
        object_type@ == "tenant"@ ==> r == ObjectTenant::Known(uuid_parse_result(object_id@)),
        object_type@ != "tenant"@ ==> r == (match uuid_parse_result(object_id@) {
            Some(w) => ObjectTenant::LookUpWorkspace(w),
            None => ObjectTenant::Known(None),
        }),
{
    let id = parse_uuid(object_id);
    if text_eq(object_type, "tenant") {
        ObjectTenant::Known(id)
    } else {
        match id {
            Some(w) => ObjectTenant::LookUpWorkspace(w),
            None => ObjectTenant::Known(None),
        }
    }
}

/// The tenant a removal is audited under: the subject's, else the object's;
/// with neither there is no tenant to record it under and only the log keeps
/// it.
pub fn removal_tenant(subject: &Option<RelationshipSubject>, object_tenant: Option<u128>) -> (r: Option<u128>)
    ensures
        r == (match *subject {
            Some(s) => Some(s.tenant_id),
            None => object_tenant,
        }),
{
    match subject {
        Some(s) => Some(s.tenant_id),
        None => object_tenant,
    }
}

/// The text of a relationship: `type:id#relation@principal:subject`.
pub open spec fn relationship_text_of(
    object_type: Seq<char>,
    object_id: Seq<char>,
    relation: Seq<char>,
    subject: Seq<char>,
) -> Seq<char> {
    object_type + ":"@ + object_id + "#"@ + relation + "@principal:"@ + subject
}

/// The text of a relationship (see `relationship_text_of`).
pub fn relationship_text(object_type: &str, object_id: &str, relation: &str, subject: &str) -> (r: String)
    ensures
        r@ == relationship_text_of(object_type@, object_id@, relation@, subject@),
{
    let mut v: Vec<char> = Vec::new();
    let a = chars_of(object_type);
    push_chars(&mut v, a.as_slice());
    v.push(':');
    let b = chars_of(object_id);
    push_chars(&mut v, b.as_slice());
    v.push('#');
    let c = chars_of(relation);
    push_chars(&mut v, c.as_slice());
    let d = chars_of("@principal:");
    push_chars(&mut v, d.as_slice());
    let e = chars_of(subject);
    push_chars(&mut v, e.as_slice());
    let r = string_from_chars(v.as_slice());
    proof {
        reveal_strlit(":");
        reveal_strlit("#");
    }
    assert(r@ =~= relationship_text_of(object_type@, object_id@, relation@, subject@));
    r
}

/// The name a removal's operation id is derived from.
pub open spec fn removal_name(relationship: Seq<char>, token: Seq<char>) -> Seq<char> {
    "urn:kailo:role-reconcile:"@ + relationship + ":"@ + token
}

/// The operation id of a removal: a name-based UUID of the relationship and
/// the write token that removed it, so the same removal always has the same
/// id.
pub fn removal_operation(relationship: &str, token: &str) -> (r: u128)
    ensures
        r == uuid_v5_url_result(utf8_of(removal_name(relationship@, token@))),
{
    let mut v: Vec<char> = Vec::new();
    let a = chars_of("urn:kailo:role-reconcile:");
    push_chars(&mut v, a.as_slice());
    let b = chars_of(relationship);
    push_chars(&mut v, b.as_slice());
    v.push(':');
    let c = chars_of(token);
    push_chars(&mut v, c.as_slice());
    let name = string_from_chars(v.as_slice());
    proof {
        reveal_strlit(":");
    }
    assert(name@ =~= removal_name(relationship@, token@));
    uuid_v5_url(name.as_str().as_bytes())
}

/// One group of open action executions as counted by the store.
#[derive(Debug, Clone, PartialEq, Eq)]
pub struct OpenCount {
    pub gate: String,
    pub dispatch: String,
    pub count: i64,
    pub oldest_age_seconds: i64,
}

/// The open gate/dispatch combinations that every pass reports.
pub open spec fn open_state(k: int) -> (Seq<char>, Seq<char>) {
    if k == 0 {
        ("EVALUATING"@, "NOT_DISPATCHED"@)
    } else if k == 1 {
        ("WAITING"@, "NOT_DISPATCHED"@)
    } else if k == 2 {
        ("ALLOWED"@, "NOT_DISPATCHED"@)
    } else {
        ("ALLOWED"@, "UNKNOWN"@)
    }
}

/// The count and age of the first group with this combination, or zeros.
pub open spec fn first_count(rows: Seq<OpenCount>, gate: Seq<char>, dispatch: Seq<char>) -> (i64, i64)
    decreases rows.len(),
{
    if rows.len() == 0 {
        (0, 0)
    } else if rows[0].gate@ == gate && rows[0].dispatch@ == dispatch {
        (rows[0].count, rows[0].oldest_age_seconds)
    } else {
        first_count(rows.drop_first(), gate, dispatch)
    }
}

/// A count as a gauge reads it: never below zero.
pub open spec fn gauge(n: i64) -> u64 {
    if n < 0 {
        0
    } else {
        n as u64
    }
}

/// One reported line: the label `gate/dispatch`, the count and the age.
pub open spec fn report_line(rows: Seq<OpenCount>, k: int) -> (Seq<char>, u64, u64) {
    let (g, d) = open_state(k);
    let (n, age) = first_count(rows, g, d);
    (g + "/"@ + d, gauge(n), gauge(age))
}

/// Whether a reported line carries these values.
pub open spec fn reports(x: (String, u64, u64), l: (Seq<char>, u64, u64)) -> bool {
    x.0@ == l.0 && x.1 == l.1 && x.2 == l.2
}

fn find_count(rows: &[OpenCount], gate: &str, dispatch: &str) -> (r: (i64, i64))
    ensures
        r == first_count(rows@, gate@, dispatch@),
{
    let mut i: usize = 0;
    assert(rows@.subrange(0, rows@.len() as int) =~= rows@);
    while i < rows.len()
        invariant
            i <= rows@.len(),
            first_count(rows@, gate@, dispatch@) == first_count(rows@.subrange(i as int, rows@.len() as int), gate@, dispatch@),
        decreases rows.len() - i,
    {
        let ghost rest = rows@.subrange(i as int, rows@.len() as int);
        assert(rest[0] == rows@[i as int]);
        assert(rest.drop_first() =~= rows@.subrange(i + 1, rows@.len() as int));
        if text_eq(rows[i].gate.as_str(), gate) && text_eq(rows[i].dispatch.as_str(), dispatch) {
            return (rows[i].count, rows[i].oldest_age_seconds);
        }
        i = i + 1;
    }
    assert(rows@.subrange(i as int, rows@.len() as int).len() == 0);
    (0, 0)
}

fn gauge_of(n: i64) -> (r: u64)
    ensures
        r == gauge(n),
{
    if n < 0 {
        0
    } else {
        n as u64
    }
}

fn line(rows: &[OpenCount], gate: &str, dispatch: &str) -> (r: (String, u64, u64))
    ensures
        r.0@ == gate@ + "/"@ + dispatch@,
        (r.1, r.2) == (gauge(first_count(rows@, gate@, dispatch@).0), gauge(
            first_count(rows@, gate@, dispatch@).1,
        )),
{
    let (n, age) = find_count(rows, gate, dispatch);
    (concat3(gate, "/", dispatch), gauge_of(n), gauge_of(age))
}

/// The report of one pass: every open combination in a fixed order, with
/// zeros where the store counted none.
pub fn open_state_report(rows: &[OpenCount]) -> (r: Vec<(String, u64, u64)>)
    ensures
        r@.len() == 4,
        forall|k: int| 0 <= k < 4 ==> reports(#[trigger] r@[k], report_line(rows@, k)),
{
    let mut v: Vec<(String, u64, u64)> = Vec::new();
    v.push(line(rows, "EVALUATING", "NOT_DISPATCHED"));
    v.push(line(rows, "WAITING", "NOT_DISPATCHED"));
    v.push(line(rows, "ALLOWED", "NOT_DISPATCHED"));
    v.push(line(rows, "ALLOWED", "UNKNOWN"));
    v
}

} // verus!
