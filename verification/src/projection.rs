//! Projecting a membership onto a Buzz roster.
//!
//! Every key of the person is projected: a person using the web and native
//! devices at once keeps speaking through any key a revocation missed. Adding
//! only uses keys still in use (ACTIVE or registering), never one being
//! revoked; revoking covers every key not yet revoked. Only after the roster
//! reads back as wanted does a key's state advance.

use vstd::prelude::*;

use crate::buzz::Presence;
use crate::digest::push_chars;
use crate::governance::{HTTP_FORBIDDEN, HTTP_UNAVAILABLE};
use crate::ids::{hyphenated, uuid_text};
use crate::lifecycle::MembershipScope;
use crate::roles::texts;
use crate::text::{chars_of, string_from_chars, text_eq};

verus! {

/// The status of a missing fact.
pub const HTTP_NOT_FOUND: u16 = 404;

/// The goal of a projection.
#[derive(Debug, Clone, Copy, PartialEq, Eq, Structural)]
pub enum TargetPresence {
    Present,
    Absent,
}

/// The roster goal of a projection goal.
pub fn presence_of(p: TargetPresence) -> (r: Presence)
    ensures
        r == (match p {
            TargetPresence::Present => Presence::Present,
            TargetPresence::Absent => Presence::Absent,
        }),
{
    match p {
        TargetPresence::Present => Presence::Present,
        TargetPresence::Absent => Presence::Absent,
    }
}

/// The answer of a projection: whether the roster converged, and every key it
/// covered.
#[derive(Debug, Clone, PartialEq, Eq)]
pub struct BuzzProjectionResponse {
    pub converged: bool,
    pub target_pubkeys: Vec<String>,
}

/// Why a projection cannot be done. Both are final; a caller must not retry.
#[derive(Debug, Clone, Copy, PartialEq, Eq, Structural)]
pub enum ProjectionRefusal {
    /// The fact is missing or its version changed.
    NotFound,
    /// A precondition does not hold (binding not active, key not held here).
    Denied,
}

/// The status of a refusal: a missing fact is 404, a failed precondition 403.
pub fn refusal_status(r: ProjectionRefusal) -> (s: u16)
    ensures
        s == (match r {
            ProjectionRefusal::NotFound => HTTP_NOT_FOUND,
            ProjectionRefusal::Denied => HTTP_FORBIDDEN,
        }),
{
    match r {
        ProjectionRefusal::NotFound => HTTP_NOT_FOUND,
        ProjectionRefusal::Denied => HTTP_FORBIDDEN,
    }
}

/// The keys to project: the stored keys of the person for the goal, and, when
/// adding, the web key the service holds for them if it is not among them. No
/// key at all is a missing fact.
pub open spec fn targets_of(stored: Seq<Seq<char>>, server: Option<Seq<char>>) -> Option<Seq<Seq<char>>> {
    let all = match server {
        Some(s) => if stored.contains(s) {
            stored
        } else {
            stored.push(s)
        },
        None => stored,
    };
    if all.len() == 0 {
        None
    } else {
        Some(all)
    }
}

fn contains_text(v: &Vec<String>, k: &str) -> (r: bool)
    ensures
        r == texts(v@).contains(k@),
{
    let ghost t = texts(v@);
    let mut i: usize = 0;
    while i < v.len()
        invariant
            i <= v@.len(),
            t == texts(v@),
            forall|j: int| 0 <= j < i ==> t[j] != k@,
        decreases v.len() - i,
    {
        if text_eq(v[i].as_str(), k) {
            assert(t[i as int] == k@);
            return true;
        }
        i = i + 1;
    }
    false
}

/// Gathers the keys to project (see `targets_of`). `server` is the web key,
/// given only when adding: a revoked identity is never recreated.
pub fn projection_targets(stored: Vec<String>, server: Option<String>) -> (r: Result<Vec<String>, ProjectionRefusal>)
    ensures
        (match targets_of(
            texts(stored@),
            match server {
                Some(s) => Some(s@),
                None => None,
            },
        ) {
            None => r == Err::<Vec<String>, ProjectionRefusal>(ProjectionRefusal::NotFound),
            Some(t) => r matches Ok(v) && texts(v@) == t,
        }),
{
    let mut all = stored;
    let ghost before = texts(all@);
    if let Some(s) = server {
        if !contains_text(&all, s.as_str()) {
            let ghost sv = s@;
            all.push(s);
            proof {
                assert(texts(all@) =~= before.push(sv));
            }
        }
    }
    if all.len() == 0 {
        Err(ProjectionRefusal::NotFound)
    } else {
        Ok(all)
    }
}

/// The stored reference of the control identity's key. Its three parts exist
/// together or not at all; a missing part denies.
pub fn control_secret(locator: Option<String>, version: Option<i32>, audience: Option<String>) -> (r: Result<
    (String, u32, String),
    ProjectionRefusal,
>)
    ensures
        (match (locator, version, audience) {
            (Some(l), Some(v), Some(a)) => r == Ok::<(String, u32, String), ProjectionRefusal>((l, v as u32, a)),
            _ => r == Err::<(String, u32, String), ProjectionRefusal>(ProjectionRefusal::Denied),
        }),
{
    match (locator, version, audience) {
        (Some(l), Some(v), Some(a)) => Ok((l, v as u32, a)),
        _ => Err(ProjectionRefusal::Denied),
    }
}

/// What a converged projection does to the keys' states.
#[derive(Debug, Clone, Copy, PartialEq, Eq, Structural)]
pub enum BindingTransition {
    /// Adding: the web key, registering, becomes ACTIVE (device keys are
    /// advanced by their own projection, which covers all their channels).
    ActivateServerKeys,
    /// Leaving the tenant: every key of the person is revoked.
    RevokeAll,
    /// Leaving one workspace: only the channel roster changes.
    Unchanged,
}

/// The state change after convergence.
pub fn binding_transition(presence: TargetPresence, scope: MembershipScope) -> (r: BindingTransition)
    ensures
        r == (match (presence, scope) {
            (TargetPresence::Present, _) => BindingTransition::ActivateServerKeys,
            (TargetPresence::Absent, MembershipScope::Tenant) => BindingTransition::RevokeAll,
            (TargetPresence::Absent, MembershipScope::Workspace) => BindingTransition::Unchanged,
        }),
{
    match (presence, scope) {
        (TargetPresence::Present, _) => BindingTransition::ActivateServerKeys,
        (TargetPresence::Absent, MembershipScope::Tenant) => BindingTransition::RevokeAll,
        (TargetPresence::Absent, MembershipScope::Workspace) => BindingTransition::Unchanged,
    }
}

/// How a failure of the secret store is read.
#[derive(Debug, Clone, Copy, PartialEq, Eq, Structural)]
pub enum SecretFailure {
    /// The locator is malformed.
    LocatorMalformed,
    /// The secret's audience is not this service.
    AudienceMismatch,
    /// The pinned version cannot be read.
    VersionUnavailable,
    /// Anything else: the store is not reachable.
    Other,
}

/// Whether a failure to read the control key is final (denied) rather than a
/// dependency being unavailable (retried).
pub fn control_read_is_final(f: SecretFailure) -> (r: bool)
    ensures
        r == (f == SecretFailure::AudienceMismatch || f == SecretFailure::VersionUnavailable),
{
    f == SecretFailure::AudienceMismatch || f == SecretFailure::VersionUnavailable
}

/// Whether a failure to store a new web key is final: a malformed locator or
/// a wrong audience is configuration, and retrying changes nothing.
pub fn key_write_is_final(f: SecretFailure) -> (r: bool)
    ensures
        r == (f == SecretFailure::LocatorMalformed || f == SecretFailure::AudienceMismatch),
{
    f == SecretFailure::LocatorMalformed || f == SecretFailure::AudienceMismatch
}

/// The secret locator of a person's web key:
/// `<mount>/buzz-human/<tenant>/<principal>`.
pub fn human_key_locator(mount: &str, tenant: u128, principal: u128) -> (r: String)
    ensures
        r@ == mount@ + "/buzz-human/"@ + hyphenated(tenant) + "/"@ + hyphenated(principal),
{
    let mut v: Vec<char> = Vec::new();
    let a = chars_of(mount);
    push_chars(&mut v, a.as_slice());
    let b = chars_of("/buzz-human/");
    push_chars(&mut v, b.as_slice());
    let t = uuid_text(tenant);
    let c = chars_of(t.as_str());
    push_chars(&mut v, c.as_slice());
    let d = chars_of("/");
    push_chars(&mut v, d.as_slice());
    let p = uuid_text(principal);
    let e = chars_of(p.as_str());
    push_chars(&mut v, e.as_slice());
    assert(v@ =~= mount@ + "/buzz-human/"@ + hyphenated(tenant) + "/"@ + hyphenated(principal));
    string_from_chars(v.as_slice())
}

/// A projection that was not confirmed by the roster is an unknown outcome
/// (503, retried), never a refusal.
pub fn unconverged_status() -> (r: u16)
    ensures
        r == HTTP_UNAVAILABLE,
{
    HTTP_UNAVAILABLE
}

/// A request to project one identity key, at the binding version the
/// workflow froze.
#[derive(Debug, Clone, PartialEq, Eq)]
pub struct IdentityProjectionRequest {
    pub pubkey: String,
    pub binding_version: i32,
}

/// The answer of an identity projection: the key and its verified state.
#[derive(Debug, Clone, PartialEq, Eq)]
pub struct IdentityProjectionResponse {
    pub converged: bool,
    pub pubkey: String,
    pub state: String,
}

/// The direction of an identity projection, decided by the binding's state
/// and never by the caller: a registering key goes in, a revoking key goes
/// out; any other state has no direction (409).
pub fn identity_direction(state: &str) -> (r: Result<Presence, u16>)
    ensures
        r == (if state@ == "RECONCILING"@ {
            Ok::<Presence, u16>(Presence::Present)
        } else if state@ == "REVOKING"@ {
            Ok::<Presence, u16>(Presence::Absent)
        } else {
            Err(crate::governance::HTTP_CONFLICT)
        }),
{
    if text_eq(state, "RECONCILING") {
        Ok(Presence::Present)
    } else if text_eq(state, "REVOKING") {
        Ok(Presence::Absent)
    } else {
        Err(crate::governance::HTTP_CONFLICT)
    }
}

/// What follows the attempt to make a key ACTIVE. The update only takes while
/// the key is registering and its owner is still an ACTIVE member. When it
/// did not take, a key already made ACTIVE by a concurrent member projection
/// still counts; otherwise a revocation began at the last moment, and the key
/// is withdrawn again.
pub fn after_activation(rows_affected: u64, state_now: Option<&str>) -> (r: bool)
    ensures
        r == (rows_affected > 0 || (state_now matches Some(s) && s@ == "ACTIVE"@)),
{
    if rows_affected > 0 {
        return true;
    }
    match state_now {
        Some(s) => text_eq(s, "ACTIVE"),
        None => false,
    }
}

/// When adding, the web key is always among the projected keys, and no key
/// stored for the person is ever dropped.
pub proof fn lemma_targets_cover_every_key(stored: Seq<Seq<char>>, server: Seq<char>)
    ensures
        targets_of(stored, Some(server)) matches Some(t) && t.contains(server) && forall|k: Seq<char>|
            stored.contains(k) ==> #[trigger] t.contains(k),
{
    let t = if stored.contains(server) {
        stored
    } else {
        stored.push(server)
    };
    assert forall|k: Seq<char>| stored.contains(k) implies #[trigger] t.contains(k) by {
        if !stored.contains(server) {
            let j = choose|j: int| 0 <= j < stored.len() && stored[j] == k;
            assert(t[j] == k);
        }
    }
    if !stored.contains(server) {
        assert(t[t.len() - 1] == server);
    }
}

} // verus!
