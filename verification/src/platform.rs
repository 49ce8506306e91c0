//! Platform bootstrap: the catalog tenant and the relay operator identity.
//!
//! The delivered operator key decides which operator identity the deployment
//! uses. An active identity that serves another audience or origin stops the
//! service; the same key is re-verified; another key is a rotation; with none
//! active the key is registered. After a concurrent registration only the row
//! that actually became ACTIVE counts.

use vstd::prelude::*;

use crate::digest::push_chars;
use crate::governance::Refusal;
use crate::ids::{hyphenated, new_uuid, uuid_text};
use crate::text::{chars_of, string_from_chars, text_eq};

verus! {

/// The deployment facts the bootstrap needs; none has a default.
#[derive(Debug, Clone, PartialEq, Eq)]
pub struct BootstrapConfig {
    pub catalog_tenant_slug: String,
    /// The operator's private key as delivered.
    pub operator_key: String,
    /// The audience of the operator API: which deployment the key serves.
    pub operator_audience: String,
    /// The origin the signatures target, equal character for character to the
    /// relay's own setting.
    pub operator_api_origin: String,
    /// The secret locator prefix `<namespace>/<mount>`.
    pub secret_mount: String,
    /// The service identity allowed to read the secret.
    pub secret_audience: String,
}

fn append_text(v: &mut Vec<char>, s: &str)
    ensures
        final(v)@ == old(v)@ + s@,
{
    let c = chars_of(s);
    push_chars(v, c.as_slice());
}

impl BootstrapConfig {
    /// The settings from their configured values; the secret mount joins the
    /// namespace and the mount with `/`.
    pub fn from_values(
        catalog_tenant_slug: String,
        operator_key: String,
        operator_audience: String,
        operator_api_origin: String,
        namespace: &str,
        mount: &str,
        secret_audience: String,
    ) -> (r: BootstrapConfig)
        ensures
            r.catalog_tenant_slug == catalog_tenant_slug,
            r.operator_key == operator_key,
            r.operator_audience == operator_audience,
            r.operator_api_origin == operator_api_origin,
            r.secret_mount@ == namespace@ + "/"@ + mount@,
            r.secret_audience == secret_audience,
    {
        let mut v: Vec<char> = Vec::new();
        append_text(&mut v, namespace);
        append_text(&mut v, "/");
        append_text(&mut v, mount);
        assert(v@ =~= namespace@ + "/"@ + mount@);
        let secret_mount = string_from_chars(v.as_slice());
        BootstrapConfig {
            catalog_tenant_slug,
            operator_key,
            operator_audience,
            operator_api_origin,
            secret_mount,
            secret_audience,
        }
    }
}

/// The secret locator of an operator key:
/// `<mount>/relay-operator/<audience>/<pubkey>/<nonce>`.
pub open spec fn operator_locator_text(mount: Seq<char>, audience: Seq<char>, pubkey: Seq<char>, nonce: u128) -> Seq<
    char,
> {
    mount + "/relay-operator/"@ + audience + "/"@ + pubkey + "/"@ + hyphenated(nonce)
}

/// A fresh secret locator for an operator key; every write gets its own path.
/// `Unavailable` when no random nonce can be drawn.
pub fn operator_locator(cfg: &BootstrapConfig, pubkey: &str) -> (r: Result<String, Refusal>)
    ensures
        r matches Ok(l) ==> exists|n: u128| l@ == operator_locator_text(cfg.secret_mount@, cfg.operator_audience@, pubkey@, n),
        r matches Err(e) ==> e is Unavailable,
{
    let n = new_uuid()?;
    let nonce = uuid_text(n);
    let mut v: Vec<char> = Vec::new();
    append_text(&mut v, cfg.secret_mount.as_str());
    append_text(&mut v, "/relay-operator/");
    append_text(&mut v, cfg.operator_audience.as_str());
    append_text(&mut v, "/");
    append_text(&mut v, pubkey);
    append_text(&mut v, "/");
    append_text(&mut v, nonce.as_str());
    assert(v@ =~= operator_locator_text(cfg.secret_mount@, cfg.operator_audience@, pubkey@, n));
    let r = string_from_chars(v.as_slice());
    Ok(r)
}

/// The active operator identity as stored.
#[derive(Debug, Clone, PartialEq, Eq)]
pub struct ActiveOperator {
    pub pubkey: String,
    pub audience: String,
    pub api_origin: String,
}

/// What the bootstrap does about the delivered operator key.
#[derive(Debug, Clone, Copy, PartialEq, Eq, Structural)]
pub enum OperatorStep {
    /// The active identity serves another audience or origin: stop.
    Mismatch,
    /// The delivered key is the active one: verify its secret and the relay's
    /// admission again.
    Reverify,
    /// Another key was delivered: rotate to it.
    Rotate,
    /// No identity is active: verify with the relay, then register.
    Register,
}

/// The step for the delivered key given the active identity.
pub open spec fn operator_step_of(
    active: Option<(Seq<char>, Seq<char>, Seq<char>)>,
    delivered: Seq<char>,
    audience: Seq<char>,
    origin: Seq<char>,
) -> OperatorStep {
    match active {
        None => OperatorStep::Register,
        Some((pubkey, a, o)) => if a != audience || o != origin {
            OperatorStep::Mismatch
        } else if pubkey == delivered {
            OperatorStep::Reverify
        } else {
            OperatorStep::Rotate
        },
    }
}

/// The view of an active operator.
pub open spec fn active_view(active: Option<ActiveOperator>) -> Option<(Seq<char>, Seq<char>, Seq<char>)> {
    match active {
        Some(a) => Some((a.pubkey@, a.audience@, a.api_origin@)),
        None => None,
    }
}

/// Decides the step for the delivered key (see `operator_step_of`).
pub fn operator_step(active: &Option<ActiveOperator>, delivered: &str, cfg: &BootstrapConfig) -> (r: OperatorStep)
    ensures
        r == operator_step_of(active_view(*active), delivered@, cfg.operator_audience@, cfg.operator_api_origin@),
{
    match active {
        None => OperatorStep::Register,
        Some(a) => if !text_eq(a.audience.as_str(), cfg.operator_audience.as_str()) || !text_eq(
            a.api_origin.as_str(),
            cfg.operator_api_origin.as_str(),
        ) {
            OperatorStep::Mismatch
        } else if text_eq(a.pubkey.as_str(), delivered) {
            OperatorStep::Reverify
        } else {
            OperatorStep::Rotate
        },
    }
}

/// Why a registration did not take effect.
#[derive(Debug, Clone, Copy, PartialEq, Eq, Structural)]
pub enum RegistrationFailure {
    /// No identity became ACTIVE.
    NotActive,
    /// A concurrent registration made another key ACTIVE.
    OtherKey,
    /// The ACTIVE identity serves another audience or origin.
    Mismatch,
}

/// After registering, only the identity that actually became ACTIVE counts:
/// it must be the delivered key, for this deployment's audience and origin.
pub fn registration_took_effect(active: &Option<ActiveOperator>, delivered: &str, cfg: &BootstrapConfig) -> (r:
    Result<(), RegistrationFailure>)
    ensures
        r == (match active_view(*active) {
            None => Err(RegistrationFailure::NotActive),
            Some((pubkey, a, o)) => if pubkey != delivered@ {
                Err(RegistrationFailure::OtherKey)
            } else if a != cfg.operator_audience@ || o != cfg.operator_api_origin@ {
                Err(RegistrationFailure::Mismatch)
            } else {
                Ok(())
            },
        }),
{
    match active {
        None => Err(RegistrationFailure::NotActive),
        Some(a) => if !text_eq(a.pubkey.as_str(), delivered) {
            Err(RegistrationFailure::OtherKey)
        } else if !text_eq(a.audience.as_str(), cfg.operator_audience.as_str()) || !text_eq(
            a.api_origin.as_str(),
            cfg.operator_api_origin.as_str(),
        ) {
            Err(RegistrationFailure::Mismatch)
        } else {
            Ok(())
        },
    }
}

/// The stored secret version of an operator key as the secret store counts
/// it (a cast of the stored integer); absent reads as zero.
pub fn secret_version(stored: Option<i32>) -> (r: u32)
    ensures
        r == (match stored {
            Some(v) => v as u32,
            None => 0u32,
        }),
{
    match stored {
        Some(v) => v as u32,
        None => 0,
    }
}

/// The service is never served by an operator identity of another audience
/// or origin: the only steps that keep an active identity need both to match.
pub proof fn lemma_operator_matches_deployment(
    active: Option<(Seq<char>, Seq<char>, Seq<char>)>,
    delivered: Seq<char>,
    audience: Seq<char>,
    origin: Seq<char>,
)
    ensures
        (operator_step_of(active, delivered, audience, origin) == OperatorStep::Reverify || operator_step_of(
            active,
            delivered,
            audience,
            origin,
        ) == OperatorStep::Rotate) ==> (active matches Some((_, a, o)) && a == audience && o == origin),
{
}

} // verus!
