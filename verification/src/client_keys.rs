//! Registering, listing and revoking native device keys.
//!
//! The service never holds a device's private key; it registers the public key
//! and projects it into the roster. Registration is open to the native surface
//! only and needs a proof of possession: an HTTP-auth event signed by the key,
//! valid for this one action, bound to the caller's session, and fresh.

use vstd::prelude::*;

use crate::contracts::{ErrorClass, ReasonCode};
use crate::digest::{hex_encode, hex_text, sha256, sha256_result};
use crate::governance::{HTTP_CONFLICT, HTTP_FORBIDDEN, HTTP_OK};
use crate::ids::{hyphenated, uuid_text};
use crate::roles::texts;
use crate::text::{text_eq, utf8_of};
use crate::workflow::{workflow_id, workflow_id_text};

verus! {

/// The path of the registration endpoint; a proof must name it.
pub open spec fn register_path() -> Seq<char> {
    "/api/v1/identity/client-keys"@
}

/// The kind of an HTTP-auth event.
pub const NIP98_KIND: u16 = 27235;

/// The status of a request over the device limit.
pub const HTTP_TOO_MANY_REQUESTS: u16 = 429;

/// The status of an unknown key.
pub const HTTP_NOT_FOUND: u16 = 404;

/// The workflow kind that projects a device key.
pub open spec fn projection_kind() -> Seq<char> {
    "BUZZ_IDENTITY_PROJECTION"@
}

/// The state of a device key after a register or revoke call.
#[derive(Debug, Clone, PartialEq, Eq)]
pub struct KeyStatus {
    pub pubkey: String,
    pub state: String,
    /// The workflow driving that state; absent when nothing needed driving.
    pub workflow_id: Option<String>,
}

/// A refused device-key request: status, class and reason.
#[derive(Debug, Clone, Copy, PartialEq, Eq, Structural)]
pub struct KeyRefusal {
    pub status: u16,
    pub class: ErrorClass,
    pub reason: ReasonCode,
}

/// The fields of an HTTP-auth event that the proof check reads: public key
/// (hex), kind, creation time and tags.
#[derive(Debug, Clone, PartialEq, Eq)]
pub struct ProofEvent {
    pub pubkey: String,
    pub kind: u16,
    pub created_at: u64,
    pub tags: Vec<Vec<String>>,
}

/// What `nostr::event::Event::from_json` gives for a text, by the fields read here:
/// public key hex, kind, creation time and tags.
pub uninterp spec fn event_fields_of(json: Seq<char>) -> Option<(Seq<char>, u16, u64, Seq<Seq<Seq<char>>>)>;

/// Whether the event that a text parses to passes `nostr::Event::verify`
/// (its ID and Schnorr signature).
pub uninterp spec fn event_verifies_of(json: Seq<char>) -> bool;

/// What `url::Url::parse` gives for a text: its path and query.
pub uninterp spec fn url_path_query_of(u: Seq<char>) -> Option<(Seq<char>, Option<Seq<char>>)>;

/// The view of a list of tags.
pub open spec fn tag_texts(tags: Seq<Vec<String>>) -> Seq<Seq<Seq<char>>> {
    tags.map_values(|t: Vec<String>| texts(t@))
}

/// Parses an event (`nostr::event::Event::from_json`) and reads the fields the proof
/// check uses.
#[verifier::external_body]
fn read_event(json: &str) -> (r: Option<ProofEvent>)
    ensures
        (match event_fields_of(json@) {
            None => r is None,
            Some((p, k, c, t)) => r matches Some(e) && e.pubkey@ == p && e.kind == k && e.created_at == c
                && tag_texts(e.tags@) == t,
        }),
{
    match nostr::event::Event::from_json(json) {
        Ok(e) => Some(
            ProofEvent {
                pubkey: e.pubkey.to_hex(),
                kind: e.kind.as_u16(),
                created_at: e.created_at.as_secs(),
                tags: e.tags.iter().map(|t| t.as_slice().to_vec()).collect(),
            },
        ),
        Err(_) => None,
    }
}

/// Whether the event a text parses to verifies (`nostr::Event::verify`): its
/// ID matches its content and its signature matches its public key. A text
/// that does not parse does not verify.
#[verifier::external_body]
fn event_verifies(json: &str) -> (r: bool)
    ensures
        r == event_verifies_of(json@),
{
    match nostr::event::Event::from_json(json) {
        Ok(e) => e.verify().is_ok(),
        Err(_) => false,
    }
}

/// The path and query of a URL (`url::Url::parse`); when it does not parse,
/// the parser's error text, of which nothing is stated.
#[verifier::external_body]
pub(crate) fn url_path_query(u: &str) -> (r: Result<(String, Option<String>), String>)
    ensures
        (match url_path_query_of(u@) {
            None => r is Err,
            Some((p, q)) => r matches Ok((rp, rq)) && rp@ == p && (match q {
                None => rq is None,
                Some(qq) => rq matches Some(x) && x@ == qq,
            }),
        }),
{
    match url::Url::parse(u) {
        Ok(x) => Ok((x.path().to_owned(), x.query().map(|q| q.to_owned()))),
        Err(e) => Err(e.to_string()),
    }
}

/// What `url::Url::join` gives for a path against a base URL that parses:
/// the joined URL's text, or `None` when the result does not parse.
pub uninterp spec fn url_join_of(base: Seq<char>, path: Seq<char>) -> Option<Seq<char>>;

/// Joins a path to a base URL (`url::Url::parse` of the base, which parses,
/// then `Url::join`); the parser's error text when the join fails, of which
/// nothing is stated.
#[verifier::external_body]
pub(crate) fn url_join(base: &str, path: &str) -> (r: Result<String, String>)
    requires
        url_path_query_of(base@) is Some,
    ensures
        (match url_join_of(base@, path@) {
            Some(u) => r matches Ok(x) && x@ == u,
            None => r is Err,
        }),
{
    match url::Url::parse(base).and_then(|b| b.join(path)) {
        Ok(u) => Ok(u.to_string()),
        Err(e) => Err(e.to_string()),
    }
}

/// The value of the first tag named `name`: the first tag whose first element
/// is `name` decides, giving its second element if it has one.
pub open spec fn tag_value(tags: Seq<Seq<Seq<char>>>, name: Seq<char>) -> Option<Seq<char>>
    decreases tags.len(),
{
    if tags.len() == 0 {
        None
    } else if tags[0].len() > 0 && tags[0][0] == name {
        if tags[0].len() > 1 {
            Some(tags[0][1])
        } else {
            None
        }
    } else {
        tag_value(tags.drop_first(), name)
    }
}

fn clone_text(s: &String) -> (r: String)
    ensures
        r@ == s@,
{
    s.as_str().to_owned()
}

/// Looks up a tag's value (see `tag_value`).
pub fn find_tag(tags: &Vec<Vec<String>>, name: &str) -> (r: Option<String>)
    ensures
        (match tag_value(tag_texts(tags@), name@) {
            None => r is None,
            Some(v) => r matches Some(x) && x@ == v,
        }),
{
    let ghost all = tag_texts(tags@);
    let mut i: usize = 0;
    proof {
        assert(all.subrange(0, all.len() as int) =~= all);
    }
    while i < tags.len()
        invariant
            i <= tags@.len(),
            all == tag_texts(tags@),
            tag_value(all, name@) == tag_value(all.subrange(i as int, all.len() as int), name@),
        decreases tags.len() - i,
    {
        let t = &tags[i];
        let ghost rest = all.subrange(i as int, all.len() as int);
        proof {
            assert(rest[0] == texts(t@));
            assert(rest.drop_first() =~= all.subrange(i + 1, all.len() as int));
        }
        if t.len() > 0 && text_eq(t[0].as_str(), name) {
            if t.len() > 1 {
                return Some(clone_text(&t[1]));
            } else {
                return None;
            }
        }
        i = i + 1;
    }
    None
}

/// The distance between two instants in seconds (`i64::abs_diff`), with the
/// creation time read as `i64`.
pub open spec fn skew(now: i64, created_at: u64) -> int {
    let c = created_at as i64;
    if now >= c {
        now - c
    } else {
        c - now
    }
}

/// Whether a proof of possession holds: the event verifies and is an HTTP-auth
/// event; it was made within the window of the current time; its `u` tag is a
/// URL whose path is the registration endpoint, without a query; its `method`
/// tag is POST; and its `session` tag names the caller's session.
pub open spec fn proof_holds(json: Seq<char>, now: i64, window: u64, session: u128) -> bool {
    match event_fields_of(json) {
        None => false,
        Some((_, kind, created_at, tags)) => {
            &&& event_verifies_of(json)
            &&& kind == NIP98_KIND
            &&& skew(now, created_at) <= window
            &&& (match tag_value(tags, "u"@) {
                Some(u) => url_path_query_of(u) matches Some((p, q)) && p == register_path() && q is None,
                None => false,
            })
            &&& tag_value(tags, "method"@) == Some("POST"@)
            &&& tag_value(tags, "session"@) == Some(hyphenated(session))
        },
    }
}

/// Checks a proof of possession (see `proof_holds`); `now` is the store's
/// clock, since replicas' clocks need not agree.
pub fn proof_is_valid(proof_json: &str, now: i64, window: u64, session: u128) -> (r: bool)
    ensures
        r == proof_holds(proof_json@, now, window, session),
{
    let e = match read_event(proof_json) {
        None => {
            return false;
        },
        Some(e) => e,
    };
    if !event_verifies(proof_json) || e.kind != NIP98_KIND {
        return false;
    }
    let c = e.created_at as i64;
    let d: i128 = if now >= c {
        now as i128 - c as i128
    } else {
        c as i128 - now as i128
    };
    if d > window as i128 {
        return false;
    }
    let path_ok = match find_tag(&e.tags, "u") {
        Some(u) => match url_path_query(u.as_str()) {
            Ok((p, q)) => text_eq(p.as_str(), "/api/v1/identity/client-keys") && q.is_none(),
            Err(_) => false,
        },
        None => false,
    };
    let method_ok = match find_tag(&e.tags, "method") {
        Some(m) => text_eq(m.as_str(), "POST"),
        None => false,
    };
    let session_text = uuid_text(session);
    let session_ok = match find_tag(&e.tags, "session") {
        Some(s) => text_eq(s.as_str(), session_text.as_str()),
        None => false,
    };
    path_ok && method_ok && session_ok
}

/// The registered public key of a proof: its public key's hex.
pub fn proof_pubkey(proof_json: &str) -> (r: Option<String>)
    ensures
        (match event_fields_of(proof_json@) {
            None => r is None,
            Some((p, _, _, _)) => r matches Some(x) && x@ == p,
        }),
{
    match read_event(proof_json) {
        Some(e) => Some(e.pubkey),
        None => None,
    }
}

/// What a registration is refused for before anything is stored: a request
/// off the native surface, a body that did not parse, or a proof that does not
/// hold.
pub fn registration_gate(native_surface: bool, body_parsed: bool, proof_valid: bool) -> (r: Result<(), KeyRefusal>)
    ensures
        !native_surface ==> r == Err::<(), KeyRefusal>(
            KeyRefusal { status: HTTP_FORBIDDEN, class: ErrorClass::Denied, reason: ReasonCode::NativeSurfaceRequired },
        ),
        native_surface && !(body_parsed && proof_valid) ==> r == Err::<(), KeyRefusal>(
            KeyRefusal { status: HTTP_FORBIDDEN, class: ErrorClass::Denied, reason: ReasonCode::ClientKeyProofInvalid },
        ),
        native_surface && body_parsed && proof_valid ==> r is Ok,
{
    if !native_surface {
        return Err(
            KeyRefusal { status: HTTP_FORBIDDEN, class: ErrorClass::Denied, reason: ReasonCode::NativeSurfaceRequired },
        );
    }
    if !body_parsed || !proof_valid {
        return Err(
            KeyRefusal { status: HTTP_FORBIDDEN, class: ErrorClass::Denied, reason: ReasonCode::ClientKeyProofInvalid },
        );
    }
    Ok(())
}

/// Whether a request came from the native surface: the gateway sets the
/// surface header there and strips it on the browser listener.
pub fn native_surface(header: Option<&str>) -> (r: bool)
    ensures
        r == (header matches Some(h) && h@ == "native"@),
{
    match header {
        Some(h) => text_eq(h, "native"),
        None => false,
    }
}

/// What a registration does about a key that is already bound.
#[derive(Debug, Clone, Copy, PartialEq, Eq, Structural)]
pub enum BoundKey {
    /// The caller's own key, still reconciling: drive the same workflow again
    /// (a retry after an unknown start lands here).
    Resume,
    /// The caller's own key, active: answer its state.
    Active,
    /// Someone else's key, or a revoked one: a revoked identity does not come
    /// back.
    Conflict,
}

/// Classifies an already-bound key.
pub fn bound_key(mine: bool, state: &str) -> (r: BoundKey)
    ensures
        r == bound_key_of(mine, state@),
{
    if mine && text_eq(state, "RECONCILING") {
        BoundKey::Resume
    } else if mine && text_eq(state, "ACTIVE") {
        BoundKey::Active
    } else {
        BoundKey::Conflict
    }
}

/// What a stored binding of the proven key means (see `BoundKey`).
pub open spec fn bound_key_of(mine: bool, state: Seq<char>) -> BoundKey {
    if mine && state == "RECONCILING"@ {
        BoundKey::Resume
    } else if mine && state == "ACTIVE"@ {
        BoundKey::Active
    } else {
        BoundKey::Conflict
    }
}

/// The refusal of a key bound to someone else or revoked.
pub open spec fn already_bound() -> KeyRefusal {
    KeyRefusal { status: HTTP_CONFLICT, class: ErrorClass::Conflict, reason: ReasonCode::ClientKeyAlreadyBound }
}

/// Whether one more key fits: the caller's unrevoked device keys must stay
/// under the per-principal limit.
pub fn within_key_limit(count: i64, limit: i64) -> (r: Result<(), KeyRefusal>)
    ensures
        count >= limit ==> r == Err::<(), KeyRefusal>(
            KeyRefusal {
                status: HTTP_TOO_MANY_REQUESTS,
                class: ErrorClass::Limit,
                reason: ReasonCode::ClientKeyLimitReached,
            },
        ),
        count < limit ==> r is Ok,
{
    if count >= limit {
        Err(
            KeyRefusal {
                status: HTTP_TOO_MANY_REQUESTS,
                class: ErrorClass::Limit,
                reason: ReasonCode::ClientKeyLimitReached,
            },
        )
    } else {
        Ok(())
    }
}

/// What a revocation does with the caller's key in its state.
#[derive(Debug, Clone, Copy, PartialEq, Eq, Structural)]
pub enum RevokeStep {
    /// Not the caller's key, or no such key: the same answer either way, so
    /// nothing is revealed of who owns a key.
    NotFound,
    /// Already revoked: answer its state.
    Revoked,
    /// Being revoked: drive the same workflow again.
    Resume,
    /// Close the door first (REVOKING), then converge.
    Revoke,
}

/// The revocation's step for the caller's key.
pub fn revoke_step(state: Option<&str>) -> (r: RevokeStep)
    ensures
        r == (match state {
            None => RevokeStep::NotFound,
            Some(s) => if s@ == "REVOKED"@ {
                RevokeStep::Revoked
            } else if s@ == "REVOKING"@ {
                RevokeStep::Resume
            } else {
                RevokeStep::Revoke
            },
        }),
{
    match state {
        None => RevokeStep::NotFound,
        Some(s) => if text_eq(s, "REVOKED") {
            RevokeStep::Revoked
        } else if text_eq(s, "REVOKING") {
            RevokeStep::Resume
        } else {
            RevokeStep::Revoke
        },
    }
}

/// The refusal for a key the caller does not hold.
pub open spec fn key_not_found() -> KeyRefusal {
    KeyRefusal { status: HTTP_NOT_FOUND, class: ErrorClass::Denied, reason: ReasonCode::ClientKeyNotFound }
}

/// The state a resumed workflow reports: REVOKING for a revocation,
/// RECONCILING otherwise.
pub fn resumed_state(action_key: &str) -> (r: &'static str)
    ensures
        r@ == (if action_key@.len() >= 6 && action_key@.subrange(action_key@.len() - 6, action_key@.len() as int)
            == "revoke"@ {
            "REVOKING"@
        } else {
            "RECONCILING"@
        }),
{
    let c = crate::text::chars_of(action_key);
    let n = c.len();
    proof {
        reveal_strlit("revoke");
        assert("revoke"@.len() == 6);
    }
    if n >= 6 && c[n - 6] == 'r' && c[n - 5] == 'e' && c[n - 4] == 'v' && c[n - 3] == 'o' && c[n - 2] == 'k' && c[n
        - 1] == 'e' {
        proof {
            assert(action_key@.subrange(n - 6, n as int) =~= "revoke"@);
        }
        "REVOKING"
    } else {
        proof {
            if n >= 6 {
                let t = action_key@.subrange(n - 6, n as int);
                if t == "revoke"@ {
                    assert(t[0] == 'r' && t[1] == 'e' && t[2] == 'v' && t[3] == 'o' && t[4] == 'k' && t[5] == 'e');
                }
            }
        }
        "RECONCILING"
    }
}

/// The parameter hash of a key action: hex of SHA-256 of the public key.
pub fn pubkey_parameter_hash(pubkey: &str) -> (r: String)
    ensures
        r@ == hex_text(sha256_result(utf8_of(pubkey@))),
{
    let d = sha256(pubkey.as_bytes());
    hex_encode(d.as_slice())
}

/// The fixed workflow ID that projects a key at a binding version.
pub fn key_workflow_id(tenant: u128, pubkey: &str, version: i32) -> (r: String)
    ensures
        r@ == workflow_id_text(projection_kind(), tenant, pubkey@, version as int),
{
    workflow_id("BUZZ_IDENTITY_PROJECTION", tenant, pubkey, version)
}

/// The status of an answer that started or resumed a workflow is 202; an
/// answer with nothing to drive is 200.
pub fn key_status_code(workflow_started: bool) -> (r: u16)
    ensures
        r == (if workflow_started {
            202u16
        } else {
            HTTP_OK
        }),
{
    if workflow_started {
        202
    } else {
        HTTP_OK
    }
}

/// A proof made for another session, another endpoint or another method never
/// holds; neither does one outside the time window.
pub proof fn lemma_proof_is_bound(json: Seq<char>, now: i64, window: u64, session: u128)
    requires
        proof_holds(json, now, window, session),
    ensures
        event_fields_of(json) matches Some((_, _, c, tags)) && tag_value(tags, "session"@) == Some(hyphenated(session))
            && tag_value(tags, "method"@) == Some("POST"@) && skew(now, c) <= window,
        event_verifies_of(json),
{
}

/// A binding already stored for the proven key: whether it is the caller's
/// (same principal and tenant), its state and its version.
#[derive(Debug, Clone, PartialEq, Eq)]
pub struct ExistingBinding {
    pub mine: bool,
    pub state: String,
    pub version: i32,
}

/// What a registration whose proof holds does next.
#[derive(Debug, Clone, PartialEq, Eq)]
pub enum RegistrationStep {
    /// Drive the key's workflow again at this binding version.
    Resume(i32),
    /// The key is the caller's and active: answer its state.
    AlreadyActive,
    /// Store a RECONCILING binding and start its workflow.
    Bind,
    /// Refused.
    Refused(KeyRefusal),
}

/// The registration decision after a valid proof, in the order the checks
/// run: a key already bound decides alone (resume, answer, or conflict);
/// only an unbound key is held to the per-person limit of live client keys
/// (`count` of them, at most `limit`).
pub fn registration_step(existing: &Option<ExistingBinding>, count: i64, limit: i64) -> (r: RegistrationStep)
    ensures
        (match *existing {
            Some(b) => r == (match bound_key_of(b.mine, b.state@) {
                BoundKey::Resume => RegistrationStep::Resume(b.version),
                BoundKey::Active => RegistrationStep::AlreadyActive,
                BoundKey::Conflict => RegistrationStep::Refused(already_bound()),
            }),
            None => if count >= limit {
                r == RegistrationStep::Refused(
                    KeyRefusal {
                        status: HTTP_TOO_MANY_REQUESTS,
                        class: ErrorClass::Limit,
                        reason: ReasonCode::ClientKeyLimitReached,
                    },
                )
            } else {
                r == RegistrationStep::Bind
            },
        }),
{
    match existing {
        Some(b) => match bound_key(b.mine, b.state.as_str()) {
            BoundKey::Resume => RegistrationStep::Resume(b.version),
            BoundKey::Active => RegistrationStep::AlreadyActive,
            BoundKey::Conflict => RegistrationStep::Refused(
                KeyRefusal { status: HTTP_CONFLICT, class: ErrorClass::Conflict, reason: ReasonCode::ClientKeyAlreadyBound },
            ),
        },
        None => match within_key_limit(count, limit) {
            Ok(()) => RegistrationStep::Bind,
            Err(e) => RegistrationStep::Refused(e),
        },
    }
}

} // verus!
