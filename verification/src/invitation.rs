//! Tenant member invitations: issuing, redeeming and listing.
//!
//! Only the SHA-256 digest of a one-time credential is stored. An invitation is
//! redeemable while it is ISSUED and not expired; every other state has a fixed
//! refusal, and no refusal consumes the invitation. A repeated redemption by
//! the same human answers the original result.

use vstd::prelude::*;

use crate::contracts::{ActionGateState, AuditEventType, ReasonCode};
use crate::digest::push_chars;
use crate::governance::{Refusal, HTTP_ACCEPTED, HTTP_OK};
use crate::text::{chars_of, string_from_chars, text_eq, trim_chars, trimmed};

verus! {

/// Status of an invitation as the management list shows it: an ISSUED
/// invitation past its expiry shows as EXPIRED.
#[derive(Debug, Clone, Copy, PartialEq, Eq, Structural)]
pub enum TenantInvitationStatus {
    Issued,
    Expired,
    Redeemed,
    Revoked,
}

impl TenantInvitationStatus {
    /// The wire value of this variant.
    pub open spec fn wire_text(self) -> Seq<char> {
        match self {
            TenantInvitationStatus::Issued => "ISSUED"@,
            TenantInvitationStatus::Expired => "EXPIRED"@,
            TenantInvitationStatus::Redeemed => "REDEEMED"@,
            TenantInvitationStatus::Revoked => "REVOKED"@,
        }
    }

    /// The wire value of this variant.
    pub fn wire(&self) -> (r: &'static str)
        ensures
            r@ == self.wire_text(),
    {
        match self {
            TenantInvitationStatus::Issued => "ISSUED",
            TenantInvitationStatus::Expired => "EXPIRED",
            TenantInvitationStatus::Redeemed => "REDEEMED",
            TenantInvitationStatus::Revoked => "REVOKED",
        }
    }
}

/// The states an invitation row can hold.
pub open spec fn known_invitation_state(state: Seq<char>) -> bool {
    state == "ISSUED"@ || state == "REDEEMED"@ || state == "REVOKED"@
}

/// Why an invitation in a known state cannot be redeemed or revoked; `None`
/// when it can (ISSUED and not expired).
pub open spec fn invitation_refusal(state: Seq<char>, live: bool) -> Option<ReasonCode> {
    if state == "ISSUED"@ {
        if live {
            None
        } else {
            Some(ReasonCode::InvitationExpired)
        }
    } else if state == "REDEEMED"@ {
        Some(ReasonCode::InvitationAlreadyRedeemed)
    } else {
        Some(ReasonCode::InvitationRevoked)
    }
}

/// The message of the refusal for a state outside the machine.
pub open spec fn unknown_state_message(state: Seq<char>) -> Seq<char> {
    "邀请状态 "@ + state + " 不在状态机内"@
}

fn join3(a: &str, b: &str, c: &str) -> (r: String)
    ensures
        r@ == a@ + b@ + c@,
{
    let mut v: Vec<char> = Vec::new();
    let x = chars_of(a);
    push_chars(&mut v, x.as_slice());
    let y = chars_of(b);
    push_chars(&mut v, y.as_slice());
    let z = chars_of(c);
    push_chars(&mut v, z.as_slice());
    assert(v@ =~= a@ + b@ + c@);
    string_from_chars(v.as_slice())
}

/// Whether an invitation may be redeemed or revoked: only when ISSUED and not
/// expired. Each other state has its own conflict; a state outside the machine
/// means the store and the code disagree, and the answer is `Unavailable`.
pub fn issued_or_refusal(state: &str, live: bool) -> (r: Result<(), Refusal>)
    ensures
        known_invitation_state(state@) ==> r == (match invitation_refusal(state@, live) {
            None => Ok::<(), Refusal>(()),
            Some(c) => Err(Refusal::Conflict(c)),
        }),
        !known_invitation_state(state@) ==> (r matches Err(Refusal::Unavailable(m)) && m@ == unknown_state_message(
            state@,
        )),
{
    if text_eq(state, "ISSUED") {
        if live {
            Ok(())
        } else {
            Err(Refusal::Conflict(ReasonCode::InvitationExpired))
        }
    } else if text_eq(state, "REDEEMED") {
        Err(Refusal::Conflict(ReasonCode::InvitationAlreadyRedeemed))
    } else if text_eq(state, "REVOKED") {
        Err(Refusal::Conflict(ReasonCode::InvitationRevoked))
    } else {
        Err(Refusal::Unavailable(join3("邀请状态 ", state, " 不在状态机内")))
    }
}

/// The link handed to the invitee: the configured base, `#`, the credential.
/// The credential sits in the fragment, which browsers do not send to servers.
pub fn invitation_link(link_base: &str, credential: &str) -> (r: String)
    ensures
        r@ == link_base@ + "#"@ + credential@,
{
    join3(link_base, "#", credential)
}

/// The invitation that a presented credential matched, with its tenant's state.
#[derive(Debug, Clone, PartialEq, Eq)]
pub struct MatchedInvitation {
    pub id: u128,
    pub tenant_id: u128,
    pub inviter_principal_id: u128,
    pub state: String,
    /// Whether the expiry lies in the future at the time of reading.
    pub live: bool,
    pub redeemed_human_identity_id: Option<u128>,
    pub admit_action_execution_id: Option<u128>,
    pub tenant_state: String,
}

/// A tenant membership the redeeming human already holds.
#[derive(Debug, Clone, PartialEq, Eq)]
pub struct HeldMembership {
    pub tenant_id: u128,
    pub id: u128,
    pub principal_id: u128,
    pub state: String,
    pub version: i32,
}

/// What a redemption goes on to do.
#[derive(Debug, Clone, Copy, PartialEq, Eq, Structural)]
pub enum RedeemPlan {
    /// The same human redeemed this invitation before: answer the original
    /// result.
    Replay { invitation: u128, admission: u128 },
    /// Restore the human's REVOKED membership of this tenant under a new
    /// version.
    Restore { membership: u128, principal: u128, version: i32 },
    /// Create a new membership with a new HUMAN principal.
    Create,
}

/// Scans the memberships a human holds, in order: a REVOKED one of the
/// invitation's tenant is reused (the last such one); any other of that tenant
/// is a conflict; a non-REVOKED one of another tenant blocks, since a person
/// cannot yet choose between tenants at sign-in.
pub open spec fn scan_memberships(tenant: u128, rows: Seq<HeldMembership>, found: Option<(u128, u128, i32)>) -> Result<
    Option<(u128, u128, i32)>,
    Refusal,
>
    decreases rows.len(),
{
    if rows.len() == 0 {
        Ok(found)
    } else {
        let r = rows[0];
        let revoked = r.state@ == "REVOKED"@;
        if r.tenant_id == tenant {
            if revoked {
                scan_memberships(tenant, rows.drop_first(), Some((r.id, r.principal_id, r.version)))
            } else {
                Err(Refusal::Conflict(ReasonCode::InviteeAlreadyMember))
            }
        } else if revoked {
            scan_memberships(tenant, rows.drop_first(), found)
        } else {
            Err(Refusal::Blocked(ReasonCode::TenantSelectionNotAvailable))
        }
    }
}

/// The decision of a redemption, given the invitation the credential matched,
/// what is known of the presenting identity (its human and whether that human
/// is active) and the memberships that human holds. `Err(None)` stands for an
/// invitation state outside the machine.
pub open spec fn redeem_plan_of(
    matched: Option<MatchedInvitation>,
    known: Option<(u128, bool)>,
    rows: Seq<HeldMembership>,
) -> Result<RedeemPlan, Option<Refusal>> {
    match matched {
        None => Err(Some(Refusal::Precondition(ReasonCode::InvitationNotFound))),
        Some(m) => if known matches Some((_, false)) {
            Err(Some(Refusal::Denied(ReasonCode::IdentityUnknown)))
        } else if m.state@ == "REDEEMED"@ {
            if known matches Some((h, _)) && m.redeemed_human_identity_id == Some(h)
                && m.admit_action_execution_id is Some {
                Ok(RedeemPlan::Replay { invitation: m.id, admission: m.admit_action_execution_id->0 })
            } else {
                Err(Some(Refusal::Conflict(ReasonCode::InvitationAlreadyRedeemed)))
            }
        } else if !known_invitation_state(m.state@) {
            Err(None)
        } else if invitation_refusal(m.state@, m.live) is Some {
            Err(Some(Refusal::Conflict(invitation_refusal(m.state@, m.live)->0)))
        } else if m.tenant_state@ != "ACTIVE"@ {
            Err(Some(Refusal::Conflict(ReasonCode::TargetStateConflict)))
        } else if known is None {
            Ok(RedeemPlan::Create)
        } else {
            match scan_memberships(m.tenant_id, rows, None) {
                Err(e) => Err(Some(e)),
                Ok(None) => Ok(RedeemPlan::Create),
                Ok(Some((id, principal, version))) => Ok(
                    RedeemPlan::Restore { membership: id, principal, version },
                ),
            }
        },
    }
}

/// The decision of a redemption (see `redeem_plan_of`). The memberships are
/// only looked at when the identity is known and everything before passed.
#[verifier::loop_isolation(false)]
pub fn redeem_plan(matched: &Option<MatchedInvitation>, known: Option<(u128, bool)>, rows: &[HeldMembership]) -> (r:
    Result<RedeemPlan, Refusal>)
    ensures
        (match redeem_plan_of(*matched, known, rows@) {
            Ok(p) => r == Ok::<RedeemPlan, Refusal>(p),
            Err(Some(e)) => r == Err::<RedeemPlan, Refusal>(e),
            Err(None) => r matches Err(Refusal::Unavailable(_)),
        }),
{
    let m = match matched {
        None => {
            return Err(Refusal::Precondition(ReasonCode::InvitationNotFound));
        },
        Some(m) => m,
    };
    if let Some((_, false)) = known {
        return Err(Refusal::Denied(ReasonCode::IdentityUnknown));
    }
    if text_eq(m.state.as_str(), "REDEEMED") {
        return match (known, m.redeemed_human_identity_id, m.admit_action_execution_id) {
            (Some((h, _)), Some(x), Some(admission)) => if h == x {
                Ok(RedeemPlan::Replay { invitation: m.id, admission })
            } else {
                Err(Refusal::Conflict(ReasonCode::InvitationAlreadyRedeemed))
            },
            _ => Err(Refusal::Conflict(ReasonCode::InvitationAlreadyRedeemed)),
        };
    }
    if let Err(e) = issued_or_refusal(m.state.as_str(), m.live) {
        return Err(e);
    }
    if !text_eq(m.tenant_state.as_str(), "ACTIVE") {
        return Err(Refusal::Conflict(ReasonCode::TargetStateConflict));
    }
    if known.is_none() {
        return Ok(RedeemPlan::Create);
    }
    let mut found: Option<(u128, u128, i32)> = None;
    let mut i: usize = 0;
    proof {
        assert(rows@.subrange(0, rows@.len() as int) =~= rows@);
    }
    while i < rows.len()
        invariant
            i <= rows@.len(),
            scan_memberships(m.tenant_id, rows@, None) == scan_memberships(
                m.tenant_id,
                rows@.subrange(i as int, rows@.len() as int),
                found,
            ),
        decreases rows.len() - i,
    {
        let row = &rows[i];
        let ghost rest = rows@.subrange(i as int, rows@.len() as int);
        proof {
            assert(rest[0] == rows@[i as int]);
            assert(rest.drop_first() =~= rows@.subrange(i + 1, rows@.len() as int));
        }
        let revoked = text_eq(row.state.as_str(), "REVOKED");
        if row.tenant_id == m.tenant_id {
            if revoked {
                found = Some((row.id, row.principal_id, row.version));
            } else {
                return Err(Refusal::Conflict(ReasonCode::InviteeAlreadyMember));
            }
        } else if !revoked {
            return Err(Refusal::Blocked(ReasonCode::TenantSelectionNotAvailable));
        }
        i = i + 1;
    }
    proof {
        assert(rows@.subrange(rows@.len() as int, rows@.len() as int) =~= Seq::<HeldMembership>::empty());
    }
    match found {
        None => Ok(RedeemPlan::Create),
        Some((id, principal, version)) => Ok(RedeemPlan::Restore { membership: id, principal, version }),
    }
}

/// Checks a redemption request before any lookup: both identity headers must
/// be present and non-empty, the body must have parsed, the credential and the
/// trimmed display name must be non-empty, and the issuer must be the
/// deployment's identity provider. Gives the trimmed display name.
pub fn redemption_request(
    issuer: Option<&str>,
    subject: Option<&str>,
    body: Option<(&str, &str)>,
    deployment_issuer: &str,
) -> (r: Result<String, Refusal>)
    ensures
        (issuer is None || subject is None || issuer->0@.len() == 0 || subject->0@.len() == 0) ==> r
            == Err::<String, Refusal>(Refusal::Denied(ReasonCode::IdentityHeaderMissing)),
        (issuer matches Some(i) && subject matches Some(s) && i@.len() > 0 && s@.len() > 0) ==> (match body {
            None => r == Err::<String, Refusal>(Refusal::Precondition(ReasonCode::InvalidParameters)),
            Some((credential, name)) => if credential@.len() == 0 || trimmed(name@).len() == 0 {
                r == Err::<String, Refusal>(Refusal::Precondition(ReasonCode::InvalidParameters))
            } else if issuer->0@ != deployment_issuer@ {
                r == Err::<String, Refusal>(Refusal::Denied(ReasonCode::IdentityUnknown))
            } else {
                r matches Ok(n) && n@ == trimmed(name@)
            },
        }),
{
    let (i, s) = match (issuer, subject) {
        (Some(i), Some(s)) => (i, s),
        _ => {
            return Err(Refusal::Denied(ReasonCode::IdentityHeaderMissing));
        },
    };
    if i.is_empty() || s.is_empty() {
        return Err(Refusal::Denied(ReasonCode::IdentityHeaderMissing));
    }
    let (credential, name) = match body {
        None => {
            return Err(Refusal::Precondition(ReasonCode::InvalidParameters));
        },
        Some(b) => b,
    };
    let n = chars_of(name);
    let t = trim_chars(n.as_slice());
    if credential.is_empty() || t.len() == 0 {
        return Err(Refusal::Precondition(ReasonCode::InvalidParameters));
    }
    if !text_eq(i, deployment_issuer) {
        return Err(Refusal::Denied(ReasonCode::IdentityUnknown));
    }
    Ok(string_from_chars(t.as_slice()))
}

/// The status of a redemption's answer: 202 while the admission is still
/// being decided (the outcome is not known), 200 otherwise.
pub fn redemption_status(gate: ActionGateState) -> (r: u16)
    ensures
        r == (if gate == ActionGateState::Evaluating {
            HTTP_ACCEPTED
        } else {
            HTTP_OK
        }),
{
    if gate == ActionGateState::Evaluating {
        HTTP_ACCEPTED
    } else {
        HTTP_OK
    }
}

/// The audit event type of a refused redemption: a DECISION of the matched
/// invitation's tenant, or, when no invitation matched and the tenant is not
/// known, an AUTHENTICATION event at the sign-in boundary.
pub fn refused_redemption_event(matched: bool) -> (r: AuditEventType)
    ensures
        r == (if matched {
            AuditEventType::Decision
        } else {
            AuditEventType::Authentication
        }),
{
    if matched {
        AuditEventType::Decision
    } else {
        AuditEventType::Authentication
    }
}

/// The listed status of an invitation row; `None` for a state outside the
/// machine.
pub fn invitation_status(state: &str, live: bool) -> (r: Option<TenantInvitationStatus>)
    ensures
        r == (if state@ == "ISSUED"@ {
            Some(if live {
                TenantInvitationStatus::Issued
            } else {
                TenantInvitationStatus::Expired
            })
        } else if state@ == "REDEEMED"@ {
            Some(TenantInvitationStatus::Redeemed)
        } else if state@ == "REVOKED"@ {
            Some(TenantInvitationStatus::Revoked)
        } else {
            None
        }),
{
    if text_eq(state, "ISSUED") {
        Some(
            if live {
                TenantInvitationStatus::Issued
            } else {
                TenantInvitationStatus::Expired
            },
        )
    } else if text_eq(state, "REDEEMED") {
        Some(TenantInvitationStatus::Redeemed)
    } else if text_eq(state, "REVOKED") {
        Some(TenantInvitationStatus::Revoked)
    } else {
        None
    }
}

/// Revoking an invitation updates it only while it is ISSUED, unexpired and
/// at the version read; when no row changed, time ran out in between.
pub fn revoke_result(rows_affected: u64) -> (r: Result<(), Refusal>)
    ensures
        r == (if rows_affected == 0 {
            Err::<(), Refusal>(Refusal::Conflict(ReasonCode::InvitationExpired))
        } else {
            Ok(())
        }),
{
    if rows_affected == 0 {
        Err(Refusal::Conflict(ReasonCode::InvitationExpired))
    } else {
        Ok(())
    }
}

/// A redemption is written only while the invitation is still ISSUED and
/// unexpired; under the row lock only time can change in between.
pub fn redeem_write_result(rows_affected: u64) -> (r: Result<(), Refusal>)
    ensures
        r == (if rows_affected == 1 {
            Ok::<(), Refusal>(())
        } else {
            Err(Refusal::Conflict(ReasonCode::InvitationExpired))
        }),
{
    if rows_affected == 1 {
        Ok(())
    } else {
        Err(Refusal::Conflict(ReasonCode::InvitationExpired))
    }
}

/// How storing the redeemer's membership ended, as the store reports it.
#[derive(Debug, Clone, PartialEq, Eq)]
pub enum MembershipWrite {
    /// Written; this is its version.
    Written(i32),
    /// Nothing matched: the REVOKED membership to restore changed meanwhile.
    Raced,
    /// A new membership hit the store's uniqueness: the person already holds
    /// one of this tenant.
    Duplicate,
    /// The store failed.
    Failed(String),
}

/// The membership a redemption admits after its plan: the human (an
/// existing one, or the one registering the external identity gave, `None`
/// when that identity is deactivated), then the membership write, then the
/// presence of the admission's definition. The first that fails decides.
pub fn redemption_membership(
    human: Option<u128>,
    write: &MembershipWrite,
    admit_defined: bool,
) -> (r: Result<(u128, i32), Refusal>)
    ensures
        human is None ==> r == Err::<(u128, i32), Refusal>(Refusal::Denied(ReasonCode::IdentityUnknown)),
        human is Some ==> (match *write {
            MembershipWrite::Written(v) => if admit_defined {
                r == Ok::<(u128, i32), Refusal>((human.unwrap(), v))
            } else {
                r == Err::<(u128, i32), Refusal>(Refusal::Blocked(ReasonCode::CapabilityBlocked))
            },
            MembershipWrite::Raced => r == Err::<(u128, i32), Refusal>(Refusal::Conflict(ReasonCode::TargetStateConflict)),
            MembershipWrite::Duplicate => r == Err::<(u128, i32), Refusal>(
                Refusal::Conflict(ReasonCode::InviteeAlreadyMember),
            ),
            MembershipWrite::Failed(m) => r == Err::<(u128, i32), Refusal>(Refusal::Unavailable(m)),
        }),
{
    let h = match human {
        Some(h) => h,
        None => {
            return Err(Refusal::Denied(ReasonCode::IdentityUnknown));
        },
    };
    let v = match write {
        MembershipWrite::Written(v) => *v,
        MembershipWrite::Raced => {
            return Err(Refusal::Conflict(ReasonCode::TargetStateConflict));
        },
        MembershipWrite::Duplicate => {
            return Err(Refusal::Conflict(ReasonCode::InviteeAlreadyMember));
        },
        MembershipWrite::Failed(m) => {
            return Err(Refusal::Unavailable(m.clone()));
        },
    };
    if !admit_defined {
        return Err(Refusal::Blocked(ReasonCode::CapabilityBlocked));
    }
    Ok((h, v))
}

/// A repeated redemption by the same human answers the original result, and no
/// other human can redeem an invitation that was redeemed.
pub proof fn lemma_redeem_is_idempotent(m: MatchedInvitation, human: u128, rows: Seq<HeldMembership>)
    requires
        m.state@ == "REDEEMED"@,
        m.redeemed_human_identity_id == Some(human),
        m.admit_action_execution_id is Some,
    ensures
        redeem_plan_of(Some(m), Some((human, true)), rows) == Ok::<RedeemPlan, Option<Refusal>>(
            RedeemPlan::Replay { invitation: m.id, admission: m.admit_action_execution_id->0 },
        ),
        forall|other: u128, active: bool|
            other != human ==> #[trigger] redeem_plan_of(Some(m), Some((other, active)), rows) is Err,
{
}

/// A redemption never proceeds on an invitation that is not ISSUED and
/// unexpired, unless it is the replay of the same human's earlier redemption.
pub proof fn lemma_redeem_needs_live_invitation(m: MatchedInvitation, known: Option<(u128, bool)>, rows: Seq<HeldMembership>)
    requires
        redeem_plan_of(Some(m), known, rows) is Ok,
        !(redeem_plan_of(Some(m), known, rows) matches Ok(RedeemPlan::Replay { .. })),
    ensures
        m.state@ == "ISSUED"@,
        m.live,
        m.tenant_state@ == "ACTIVE"@,
{
}

} // verus!

verus! {

/// Whether a held membership is still in force (any state but REVOKED).
pub open spec fn in_force(row: HeldMembership) -> bool {
    row.state@ != "REVOKED"@
}

/// The first membership in force decides a scan, whatever follows it: one of
/// the invitation's tenant makes the invitee a member already, one of another
/// tenant blocks the redemption (the person could not choose between tenants
/// at sign-in). Revoked memberships before it change nothing.
pub proof fn lemma_first_in_force_decides(
    tenant: u128,
    rows: Seq<HeldMembership>,
    found: Option<(u128, u128, i32)>,
    k: int,
)
    requires
        0 <= k < rows.len(),
        in_force(rows[k]),
        forall|j: int| 0 <= j < k ==> !in_force(#[trigger] rows[j]),
    ensures
        scan_memberships(tenant, rows, found) == (if rows[k].tenant_id == tenant {
            Err::<Option<(u128, u128, i32)>, Refusal>(Refusal::Conflict(ReasonCode::InviteeAlreadyMember))
        } else {
            Err::<Option<(u128, u128, i32)>, Refusal>(Refusal::Blocked(ReasonCode::TenantSelectionNotAvailable))
        }),
    decreases k,
{
    if k > 0 {
        assert(!in_force(rows[0]));
        let r = rows[0];
        let next = if r.tenant_id == tenant {
            Some((r.id, r.principal_id, r.version))
        } else {
            found
        };
        let rest = rows.drop_first();
        assert forall|j: int| 0 <= j < k - 1 implies !in_force(#[trigger] rest[j]) by {
            assert(rest[j] == rows[j + 1]);
        }
        lemma_first_in_force_decides(tenant, rest, next, k - 1);
    }
}

/// When every membership is revoked, a scan succeeds: with the last revoked
/// membership of the invitation's tenant, to be restored, or, when there is
/// none, with what it started from.
pub proof fn lemma_all_revoked_restores_the_last(tenant: u128, rows: Seq<HeldMembership>, found: Option<(u128, u128, i32)>)
    requires
        forall|j: int| 0 <= j < rows.len() ==> !in_force(#[trigger] rows[j]),
    ensures
        (forall|j: int| 0 <= j < rows.len() ==> (#[trigger] rows[j]).tenant_id != tenant) ==> scan_memberships(
            tenant,
            rows,
            found,
        ) == Ok::<Option<(u128, u128, i32)>, Refusal>(found),
        forall|i: int|
            0 <= i < rows.len() && (#[trigger] rows[i]).tenant_id == tenant && (forall|j: int|
                i < j < rows.len() ==> (#[trigger] rows[j]).tenant_id != tenant) ==> scan_memberships(tenant, rows, found)
                == Ok::<Option<(u128, u128, i32)>, Refusal>(Some((rows[i].id, rows[i].principal_id, rows[i].version))),
    decreases rows.len(),
{
    if rows.len() > 0 {
        let r = rows[0];
        assert(!in_force(r));
        let rest = rows.drop_first();
        assert forall|j: int| 0 <= j < rest.len() implies !in_force(#[trigger] rest[j]) by {
            assert(rest[j] == rows[j + 1]);
        }
        let next = if r.tenant_id == tenant {
            Some((r.id, r.principal_id, r.version))
        } else {
            found
        };
        lemma_all_revoked_restores_the_last(tenant, rest, next);
        assert forall|i: int|
            0 <= i < rows.len() && (#[trigger] rows[i]).tenant_id == tenant && (forall|j: int|
                i < j < rows.len() ==> (#[trigger] rows[j]).tenant_id != tenant) implies scan_memberships(
                tenant,
                rows,
                found,
            ) == Ok::<Option<(u128, u128, i32)>, Refusal>(Some((rows[i].id, rows[i].principal_id, rows[i].version))) by {
            if i == 0 {
                assert forall|j: int| 0 <= j < rest.len() implies (#[trigger] rest[j]).tenant_id != tenant by {
                    assert(rest[j] == rows[j + 1]);
                }
            } else {
                assert(rest[i - 1] == rows[i]);
                assert forall|j: int| i - 1 < j < rest.len() implies (#[trigger] rest[j]).tenant_id != tenant by {
                    assert(rest[j] == rows[j + 1]);
                }
            }
        }
        if forall|j: int| 0 <= j < rows.len() ==> (#[trigger] rows[j]).tenant_id != tenant {
            assert(r.tenant_id != tenant);
            assert forall|j: int| 0 <= j < rest.len() implies (#[trigger] rest[j]).tenant_id != tenant by {
                assert(rest[j] == rows[j + 1]);
            }
        }
    }
}

/// A membership in force in another tenant blocks the redemption of a live
/// invitation by a known, active human, in whatever order the memberships
/// come, as long as none of the invitation's own tenant is in force.
pub proof fn lemma_membership_elsewhere_blocks(
    m: MatchedInvitation,
    human: u128,
    rows: Seq<HeldMembership>,
    other: int,
)
    requires
        m.state@ == "ISSUED"@,
        m.live,
        m.tenant_state@ == "ACTIVE"@,
        0 <= other < rows.len(),
        rows[other].tenant_id != m.tenant_id,
        in_force(rows[other]),
        forall|j: int| 0 <= j < rows.len() && (#[trigger] rows[j]).tenant_id == m.tenant_id ==> !in_force(rows[j]),
    ensures
        redeem_plan_of(Some(m), Some((human, true)), rows) == Err::<RedeemPlan, Option<Refusal>>(
            Some(Refusal::Blocked(ReasonCode::TenantSelectionNotAvailable)),
        ),
{
    lemma_issued_is_not_redeemed();
    let k = first_in_force(rows, other);
    lemma_first_in_force_decides(m.tenant_id, rows, None, k);
}

/// A membership in force in the invitation's own tenant refuses the
/// redemption as already a member, in whatever order the memberships come, as
/// long as none of another tenant is in force.
pub proof fn lemma_membership_here_conflicts(
    m: MatchedInvitation,
    human: u128,
    rows: Seq<HeldMembership>,
    own: int,
)
    requires
        m.state@ == "ISSUED"@,
        m.live,
        m.tenant_state@ == "ACTIVE"@,
        0 <= own < rows.len(),
        rows[own].tenant_id == m.tenant_id,
        in_force(rows[own]),
        forall|j: int| 0 <= j < rows.len() && (#[trigger] rows[j]).tenant_id != m.tenant_id ==> !in_force(rows[j]),
    ensures
        redeem_plan_of(Some(m), Some((human, true)), rows) == Err::<RedeemPlan, Option<Refusal>>(
            Some(Refusal::Conflict(ReasonCode::InviteeAlreadyMember)),
        ),
{
    lemma_issued_is_not_redeemed();
    let k = first_in_force(rows, own);
    lemma_first_in_force_decides(m.tenant_id, rows, None, k);
}

/// A known, active human whose memberships are all revoked redeems a live
/// invitation by restoring the last revoked membership of its tenant, or by
/// creating one when there is none.
pub proof fn lemma_revoked_memberships_restore(m: MatchedInvitation, human: u128, rows: Seq<HeldMembership>)
    requires
        m.state@ == "ISSUED"@,
        m.live,
        m.tenant_state@ == "ACTIVE"@,
        forall|j: int| 0 <= j < rows.len() ==> !in_force(#[trigger] rows[j]),
    ensures
        (forall|j: int| 0 <= j < rows.len() ==> (#[trigger] rows[j]).tenant_id != m.tenant_id) ==> redeem_plan_of(
            Some(m),
            Some((human, true)),
            rows,
        ) == Ok::<RedeemPlan, Option<Refusal>>(RedeemPlan::Create),
        forall|i: int|
            0 <= i < rows.len() && (#[trigger] rows[i]).tenant_id == m.tenant_id && (forall|j: int|
                i < j < rows.len() ==> (#[trigger] rows[j]).tenant_id != m.tenant_id) ==> redeem_plan_of(
                Some(m),
                Some((human, true)),
                rows,
            ) == Ok::<RedeemPlan, Option<Refusal>>(
                RedeemPlan::Restore { membership: rows[i].id, principal: rows[i].principal_id, version: rows[i].version },
            ),
{
    lemma_issued_is_not_redeemed();
    lemma_all_revoked_restores_the_last(m.tenant_id, rows, None);
}

/// The refusals before any membership is looked at: no matching invitation is
/// a precondition failure; a known but inactive identity is unknown; an
/// expired invitation, a revoked one, and one another human redeemed are
/// conflicts; a tenant that is not ACTIVE is a state conflict; and an
/// identity seen for the first time on a live invitation of an active tenant
/// gets a new membership.
pub proof fn lemma_redeem_refusals_before_memberships(
    m: MatchedInvitation,
    known: Option<(u128, bool)>,
    rows: Seq<HeldMembership>,
)
    ensures
        redeem_plan_of(None, known, rows) == Err::<RedeemPlan, Option<Refusal>>(
            Some(Refusal::Precondition(ReasonCode::InvitationNotFound)),
        ),
        (known matches Some((_, active)) && !active) ==> redeem_plan_of(Some(m), known, rows) == Err::<
            RedeemPlan,
            Option<Refusal>,
        >(Some(Refusal::Denied(ReasonCode::IdentityUnknown))),
        !(known matches Some((_, false))) && m.state@ == "ISSUED"@ && !m.live ==> redeem_plan_of(Some(m), known, rows)
            == Err::<RedeemPlan, Option<Refusal>>(Some(Refusal::Conflict(ReasonCode::InvitationExpired))),
        !(known matches Some((_, false))) && m.state@ == "REVOKED"@ ==> redeem_plan_of(Some(m), known, rows) == Err::<
            RedeemPlan,
            Option<Refusal>,
        >(Some(Refusal::Conflict(ReasonCode::InvitationRevoked))),
        !(known matches Some((_, false))) && m.state@ == "REDEEMED"@ && !(known matches Some((h, _))
            && m.redeemed_human_identity_id == Some(h)) ==> redeem_plan_of(Some(m), known, rows) == Err::<
            RedeemPlan,
            Option<Refusal>,
        >(Some(Refusal::Conflict(ReasonCode::InvitationAlreadyRedeemed))),
        !(known matches Some((_, false))) && m.state@ == "ISSUED"@ && m.live && m.tenant_state@ != "ACTIVE"@
            ==> redeem_plan_of(Some(m), known, rows) == Err::<RedeemPlan, Option<Refusal>>(
            Some(Refusal::Conflict(ReasonCode::TargetStateConflict)),
        ),
        known is None && m.state@ == "ISSUED"@ && m.live && m.tenant_state@ == "ACTIVE"@ ==> redeem_plan_of(
            Some(m),
            known,
            rows,
        ) == Ok::<RedeemPlan, Option<Refusal>>(RedeemPlan::Create),
{
    lemma_issued_is_not_redeemed();
    reveal_strlit("ISSUED");
    reveal_strlit("REDEEMED");
    reveal_strlit("REVOKED");
    assert("REVOKED"@[2] != "REDEEMED"@[2]);
    assert("REVOKED"@[0] != "ISSUED"@[0]);
}

proof fn lemma_issued_is_not_redeemed()
    ensures
        "ISSUED"@ != "REDEEMED"@,
        known_invitation_state("ISSUED"@),
        invitation_refusal("ISSUED"@, true) is None,
{
    reveal_strlit("ISSUED");
    reveal_strlit("REDEEMED");
    assert("ISSUED"@[0] != "REDEEMED"@[0]);
}

/// The first membership in force, given one at `at`.
proof fn first_in_force(rows: Seq<HeldMembership>, at: int) -> (k: int)
    requires
        0 <= at < rows.len(),
        in_force(rows[at]),
    ensures
        0 <= k <= at,
        in_force(rows[k]),
        forall|j: int| 0 <= j < k ==> !in_force(#[trigger] rows[j]),
    decreases at,
{
    if exists|j: int| 0 <= j < at && in_force(#[trigger] rows[j]) {
        let j = choose|j: int| 0 <= j < at && in_force(#[trigger] rows[j]);
        first_in_force(rows, j)
    } else {
        at
    }
}

} // verus!
