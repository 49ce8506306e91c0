//! Revoking and rebuilding a person's web identity, whose key the service
//! holds.
//!
//! A rotation is a revocation followed by a rebuild, two governed actions
//! each with its own workflow. A person has at most one unrevoked web
//! identity, so the old one must be gone before a new one exists; in between
//! the person cannot speak on the web, which only tightens access.

use vstd::prelude::*;

use crate::governance::{HTTP_CONFLICT, HTTP_FORBIDDEN};
use crate::text::text_eq;
use crate::workflow::{parse_keyed_workflow_id, parse_keyed_workflow_id_result};

verus! {

/// The workflow kind that projects an identity key.
pub open spec fn key_kind() -> Seq<char> {
    "BUZZ_IDENTITY_PROJECTION"@
}

/// Whether this path revokes the identity: only a person's web identity
/// (HUMAN, held by the service). A device key is revoked by its owner; the
/// control identity cannot be rotated here.
pub fn revocable_here(kind: &str, custody: &str) -> (r: bool)
    ensures
        r == (kind@ == "HUMAN"@ && custody@ == "SERVER"@),
{
    text_eq(kind, "HUMAN") && text_eq(custody, "SERVER")
}

/// Whether an identity in `state` can still be revoked: ACTIVE or
/// RECONCILING. Moving it to REVOKING stops new signatures at once.
pub fn revocable_state(state: &str) -> (r: bool)
    ensures
        r == (state@ == "ACTIVE"@ || state@ == "RECONCILING"@),
{
    text_eq(state, "ACTIVE") || text_eq(state, "RECONCILING")
}

/// What a key action does about the workflow its admission already drives.
#[derive(Debug, Clone, PartialEq, Eq)]
pub enum KeyResume {
    /// The admission drives no workflow yet.
    Fresh,
    /// It drives this kind's workflow of this tenant: converge on the frozen
    /// key and version.
    Start { pubkey: String, version: i32 },
    /// It drives a workflow of another kind or tenant, or an ID that does not
    /// parse.
    Conflict,
}

/// Classifies the workflow an admission already drives.
pub fn key_resume(existing: Option<&str>, tenant: u128) -> (r: KeyResume)
    ensures
        (match existing {
            None => r == KeyResume::Fresh,
            Some(e) => match parse_keyed_workflow_id_result(e@, key_kind(), tenant) {
                Some((p, v)) => r matches KeyResume::Start { pubkey, version } && pubkey@ == p && version == v,
                None => r == KeyResume::Conflict,
            },
        }),
{
    match existing {
        None => KeyResume::Fresh,
        Some(e) => match parse_keyed_workflow_id(e, "BUZZ_IDENTITY_PROJECTION", tenant) {
            Some((pubkey, version)) => KeyResume::Start { pubkey, version },
            None => KeyResume::Conflict,
        },
    }
}

/// Whether a web identity may be rebuilt: the person must still be an ACTIVE
/// member of a tenant (409 otherwise), and have no unrevoked web identity
/// left (409: revoke first).
pub fn rebuild_gate(member_tenant: Option<u128>, unrevoked_state: Option<&str>) -> (r: Result<u128, u16>)
    ensures
        r == (match member_tenant {
            None => Err::<u128, u16>(HTTP_CONFLICT),
            Some(t) => if unrevoked_state is Some {
                Err(HTTP_CONFLICT)
            } else {
                Ok(t)
            },
        }),
{
    match member_tenant {
        None => Err(HTTP_CONFLICT),
        Some(t) => if unrevoked_state.is_some() {
            Err(HTTP_CONFLICT)
        } else {
            Ok(t)
        },
    }
}

/// A key action runs only under an allowed admission targeting the person
/// (403 otherwise).
pub fn key_admission(allowed: bool) -> (r: Result<(), u16>)
    ensures
        r == (if allowed {
            Ok::<(), u16>(())
        } else {
            Err(HTTP_FORBIDDEN)
        }),
{
    if allowed {
        Ok(())
    } else {
        Err(HTTP_FORBIDDEN)
    }
}

/// The result code a key action records: REVOKING for a revocation,
/// RECONCILING for a rebuild.
pub fn key_action_result(revoking: bool) -> (r: &'static str)
    ensures
        r@ == (if revoking {
            "REVOKING"@
        } else {
            "RECONCILING"@
        }),
{
    if revoking {
        "REVOKING"
    } else {
        "RECONCILING"
    }
}

} // verus!
