//! The keys the service signs Buzz events with.
//!
//! Two kinds of identity sign on the service's side: the deployment's relay
//! operator, which may only serve the deployment it was issued for, and a
//! principal's protocol identity, which the service can use only when it holds
//! the key itself. Both refusals come before the key is even parsed.
//!
//! What the identities sign is built here: HTTP-auth headers over a request's
//! method, exact URL and body hash; channel, message and roster admin events;
//! and Blossom authorizations for media. The signing itself, which draws on
//! the clock and fresh randomness, is `nostr`'s; what every signed result
//! satisfies is stated over the event read back from its JSON.

use vstd::prelude::*;

use crate::bootstrap::concat;
use crate::buzz::{
    admin_event, admin_event_of, blossom_tags, blossom_tags_of, media_path_allowed, media_path_ok, nip98_tags, Custody,
    Presence, Scope, BLOSSOM_AUTH_TTL_SECS, KIND_BLOSSOM_AUTH,
};
use crate::client_keys::{
    event_fields_of, event_verifies_of, tag_texts, url_join, url_join_of, url_path_query, url_path_query_of, NIP98_KIND,
};
use crate::digest::{hex_encode, hex_text, push_chars, sha256, sha256_result};
use crate::governance::Refusal;
use crate::ids::{hyphenated, new_uuid, uuid_text};
use crate::roles::texts;
use crate::text::{chars_of, debug_text, debug_text_of, string_from_chars, text_eq, utf8_of};

verus! {

/// Whether `nostr::key::Keys::parse` accepts a text as a secret key (hex or bech32).
pub uninterp spec fn secret_key_parses(s: Seq<char>) -> bool;

/// The public key that a secret key text gives (`Keys::parse`, then
/// `public_key` and `PublicKey::to_hex`).
pub uninterp spec fn public_key_hex_of(secret: Seq<char>) -> Seq<char>;

/// The standard base64 text of some bytes, with padding
/// (`base64::engine::general_purpose::STANDARD`).
pub uninterp spec fn base64_standard_of(bytes: Seq<u8>) -> Seq<char>;

/// The URL-safe base64 text of some bytes, without padding
/// (`base64::engine::general_purpose::URL_SAFE_NO_PAD`).
pub uninterp spec fn base64_url_nopad_of(bytes: Seq<u8>) -> Seq<char>;

/// Whether `nostr::key::Keys::parse` accepts a secret key text.
#[verifier::external_body]
fn secret_parses(secret: &str) -> (r: bool)
    ensures
        r == secret_key_parses(secret@),
{
    nostr::key::Keys::parse(secret).is_ok()
}

/// Whether a text is the lowercase hex of some 32 bytes.
pub open spec fn is_hex_of_32_bytes(s: Seq<char>) -> bool {
    exists|b: Seq<u8>| b.len() == 32 && s == hex_text(b)
}

/// The public key of a secret key (`Keys::parse`, `Keys::public_key`,
/// `PublicKey::to_hex`): the 32 bytes of the x-only public key in lowercase
/// hex, a function of the secret alone.
#[verifier::external_body]
fn public_key_hex(secret: &str) -> (r: String)
    requires
        secret_key_parses(secret@),
    ensures
        r@ == public_key_hex_of(secret@),
        is_hex_of_32_bytes(r@),
{
    nostr::key::Keys::parse(secret).map(|k| k.public_key().to_hex()).unwrap_or_default()
}

/// Standard base64 of a text's UTF-8 bytes (`Engine::encode` with `STANDARD`).
#[verifier::external_body]
fn base64_standard(text: &str) -> (r: String)
    ensures
        r@ == base64_standard_of(utf8_of(text@)),
{
    base64::Engine::encode(&base64::engine::general_purpose::STANDARD, text)
}

/// URL-safe base64 without padding of a text's UTF-8 bytes (`Engine::encode`
/// with `URL_SAFE_NO_PAD`).
#[verifier::external_body]
fn base64_url_nopad(text: &str) -> (r: String)
    ensures
        r@ == base64_url_nopad_of(utf8_of(text@)),
{
    base64::Engine::encode(&base64::engine::general_purpose::URL_SAFE_NO_PAD, text)
}

/// Whether some tag of a list has no element at all.
pub open spec fn has_empty_tag(tags: Seq<Seq<Seq<char>>>) -> bool {
    exists|i: int| 0 <= i < tags.len() && #[trigger] tags[i].len() == 0
}

/// Whether a text is the JSON of an event signed with a secret key: it
/// verifies (ID and signature), and it carries the key's public key, the
/// kind and the tags given. Its creation time and signature are whatever the
/// signer chose.
pub open spec fn signed_event(json: Seq<char>, secret: Seq<char>, kind: u16, tags: Seq<Seq<Seq<char>>>) -> bool {
    &&& event_verifies_of(json)
    &&& event_fields_of(json) matches Some((p, k, _c, t))
    &&& p == public_key_hex_of(secret)
    &&& k == kind
    &&& t == tags
}

/// Why the signing call failed: a tag it refused, the signer, or the JSON
/// writer, each with its error text.
enum SignFailure {
    Tag(String),
    Sign(String),
    Serialize(String),
}

/// Builds, signs and writes out an event (`Tag::parse` for each tag,
/// `EventBuilder::new(Kind::from(kind), content).tags(..)`,
/// `FinalizeEvent::finalize` with the parsed keys, `serde_json::to_string`).
/// `Tag::parse` refuses exactly an empty tag. A signed event has passed the
/// signer's own check of its ID and signature. Its creation time is the clock's
/// and the signature uses fresh randomness, so neither is stated, nor is the
/// content, which the fields read back do not include.
#[verifier::external_body]
fn sign_event(secret: &str, kind: u16, content: &str, tags: &Vec<Vec<String>>) -> (r: Result<String, SignFailure>)
    requires
        secret_key_parses(secret@),
    ensures
        has_empty_tag(tag_texts(tags@)) <==> (r matches Err(SignFailure::Tag(_))),
        r matches Ok(j) ==> signed_event(j@, secret@, kind, tag_texts(tags@)),
{
    let keys = nostr::key::Keys::parse(secret).map_err(|e| SignFailure::Sign(e.to_string()))?;
    let parsed = tags.iter().map(|t| nostr::event::Tag::parse(t.clone())).collect::<Result<Vec<_>, _>>().map_err(
        |e| SignFailure::Tag(e.to_string()),
    )?;
    let builder = nostr::event::EventBuilder::new(nostr::event::Kind::from(kind), content).tags(parsed);
    let event = nostr::event::FinalizeEvent::finalize(builder, &keys).map_err(|e| SignFailure::Sign(e.to_string()))?;
    serde_json::to_string(&event).map_err(|e| SignFailure::Serialize(e.to_string()))
}

/// Why a signing identity could not be set up or a signed request failed.
#[derive(Debug)]
pub enum OperatorError {
    /// The operator identity was issued for another deployment.
    AudienceMismatch,
    /// The key is held by the client; the service cannot sign with it.
    CustodyNotServer,
    /// The secret is no valid 32-byte key.
    InvalidKey,
    /// The address does not parse as a URL; the parser's reason.
    InvalidOrigin(String),
    /// Building or signing the event failed.
    Sign(String),
    /// The request did not reach the relay.
    Transport(String),
    /// The relay refused; the body is cut to its first 200 characters.
    Rejected { status: u16, body: String },
    /// The projection was sent but the roster read back still differs: the
    /// outcome is unknown and the caller must retry, never count it as done.
    NotConverged(String),
}

/// Whether an error is a signing failure whose text starts with `prefix`.
pub open spec fn sign_error_with(e: OperatorError, prefix: Seq<char>) -> bool {
    e matches OperatorError::Sign(m) && prefix.is_prefix_of(m@)
}

/// The tags of an HTTP-auth event: the signed URL, the method, the nonce and
/// the payload's hash.
pub open spec fn http_auth_tags(url: Seq<char>, method: Seq<char>, nonce: Seq<char>, payload: Seq<char>) -> Seq<
    Seq<Seq<char>>,
> {
    seq![seq!["u"@, url], seq!["method"@, method], seq!["nonce"@, nonce], seq!["payload"@, payload]]
}

/// Whether `h` is an HTTP-auth header for a request: `Nostr ` and the
/// standard base64 of an event of the HTTP-auth kind signed with `secret`,
/// whose tags name the URL, the method, the nonce's hyphenated text and the
/// hex SHA-256 of the body.
pub open spec fn http_auth_header(h: Seq<char>, secret: Seq<char>, method: Seq<char>, url: Seq<char>, nonce: u128, body: Seq<u8>) -> bool {
    exists|j: Seq<char>|
        #[trigger] signed_event(j, secret, NIP98_KIND, http_auth_tags(url, method, hyphenated(nonce), hex_text(sha256_result(body))))
            && h == "Nostr "@ + base64_standard_of(utf8_of(j))
}

/// Whether `h` is a Blossom authorization: `Nostr ` and the URL-safe base64
/// (no padding) of a Blossom event signed with `secret`, with the tags given.
pub open spec fn blossom_header(h: Seq<char>, secret: Seq<char>, tags: Seq<Seq<Seq<char>>>) -> bool {
    exists|j: Seq<char>| #[trigger] signed_event(j, secret, KIND_BLOSSOM_AUTH, tags) && h == "Nostr "@ + base64_url_nopad_of(utf8_of(j))
}

/// The error text of a failed signing step: `prefix` and the signer's reason.
fn prefixed(prefix: &str, reason: &String) -> (r: OperatorError)
    ensures
        r matches OperatorError::Sign(m) && m@ == prefix@ + reason@,
{
    OperatorError::Sign(concat(prefix, reason.as_str()))
}

/// Signs an event and maps a failure to a signing error: a refused tag, the
/// signer and the JSON writer each under their own prefix.
fn sign_with(
    secret: &str,
    kind: u16,
    content: &str,
    tags: &Vec<Vec<String>>,
    tag_prefix: &str,
    sign_prefix: &str,
    write_prefix: &str,
) -> (r: Result<String, OperatorError>)
    requires
        secret_key_parses(secret@),
    ensures
        has_empty_tag(tag_texts(tags@)) ==> (r matches Err(e) && sign_error_with(e, tag_prefix@)),
        r matches Ok(j) ==> !has_empty_tag(tag_texts(tags@)) && signed_event(j@, secret@, kind, tag_texts(tags@)),
        r matches Err(e) ==> sign_error_with(e, tag_prefix@) || sign_error_with(e, sign_prefix@) || sign_error_with(
            e,
            write_prefix@,
        ),
        !has_empty_tag(tag_texts(tags@)) ==> (r matches Err(e) ==> sign_error_with(e, sign_prefix@) || sign_error_with(
            e,
            write_prefix@,
        )),
{
    match sign_event(secret, kind, content, tags) {
        Ok(j) => Ok(j),
        Err(SignFailure::Tag(m)) => Err(prefixed(tag_prefix, &m)),
        Err(SignFailure::Sign(m)) => Err(prefixed(sign_prefix, &m)),
        Err(SignFailure::Serialize(m)) => Err(prefixed(write_prefix, &m)),
    }
}

/// The HTTP-auth header for a request with a given nonce (see
/// `http_auth_header`).
fn http_auth_for(secret: &str, method: &str, url: &str, nonce: u128, body: &[u8]) -> (r: Result<String, OperatorError>)
    requires
        secret_key_parses(secret@),
    ensures
        r matches Ok(h) ==> http_auth_header(h@, secret@, method@, url@, nonce, body@),
        r matches Err(e) ==> sign_error_with(e, "NIP-98 sign: "@) || sign_error_with(e, "NIP-98 serialize: "@),
{
    let n = uuid_text(nonce);
    let digest = sha256(body);
    let payload = hex_encode(digest.as_slice());
    let tags = nip98_tags(url, method, n.as_str(), payload.as_str());
    proof {
        assert(tag_texts(tags@) == http_auth_tags(url@, method@, hyphenated(nonce), hex_text(sha256_result(body@))));
        reveal_strlit("NIP-98 tag: ");
        reveal_strlit("NIP-98 sign: ");
        reveal_strlit("NIP-98 serialize: ");
        let t = tag_texts(tags@);
        assert(t[0].len() == 2 && t[1].len() == 2 && t[2].len() == 2 && t[3].len() == 2);
        assert(!has_empty_tag(t));
    }
    let json = match sign_with(secret, NIP98_KIND, "", &tags, "NIP-98 tag: ", "NIP-98 sign: ", "NIP-98 serialize: ") {
        Ok(j) => j,
        Err(e) => {
            return Err(e);
        },
    };
    let encoded = base64_standard(json.as_str());
    Ok(concat("Nostr ", encoded.as_str()))
}

/// The HTTP-auth header with a fresh random nonce. When the random source
/// fails, a signing error carries its message.
fn http_auth_fresh(secret: &str, method: &str, url: &str, body: &[u8]) -> (r: Result<String, OperatorError>)
    requires
        secret_key_parses(secret@),
    ensures
        r matches Ok(h) ==> exists|n: u128| http_auth_header(h@, secret@, method@, url@, n, body@),
        r matches Err(e) ==> e is Sign,
{
    let nonce = match new_uuid() {
        Ok(n) => n,
        Err(Refusal::Unavailable(m)) => return Err(OperatorError::Sign(m)),
        Err(_) => return Err(OperatorError::Sign(String::new())),
    };
    http_auth_for(secret, method, url, nonce, body)
}

/// The deployment's relay operator identity.
pub struct OperatorIdentity {
    secret: String,
    api_origin: String,
}

impl OperatorIdentity {
    /// The secret key text the identity signs with.
    pub closed spec fn secret_text(&self) -> Seq<char> {
        self.secret@
    }

    /// The operator API origin.
    pub closed spec fn origin_text(&self) -> Seq<char> {
        self.api_origin@
    }

    #[verifier::type_invariant]
    spec fn inv(&self) -> bool {
        secret_key_parses(self.secret@) && url_path_query_of(self.api_origin@) is Some
    }

    /// Sets up the operator identity. The audience recorded with the key must
    /// be the one this deployment expects; that is checked before the key is
    /// touched.
    pub fn new(secret_hex: &str, api_origin: &str, expected_audience: &str, actual_audience: &str) -> (r:
        Result<Self, OperatorError>)
        ensures
            expected_audience@ != actual_audience@ ==> (r matches Err(OperatorError::AudienceMismatch)),
            expected_audience@ == actual_audience@ && !secret_key_parses(secret_hex@) ==> (r matches Err(
                OperatorError::InvalidKey,
            )),
            expected_audience@ == actual_audience@ && secret_key_parses(secret_hex@) && url_path_query_of(
                api_origin@,
            ) is None ==> (r matches Err(OperatorError::InvalidOrigin(_))),
            expected_audience@ == actual_audience@ && secret_key_parses(secret_hex@) && url_path_query_of(
                api_origin@,
            ) is Some ==> (r matches Ok(o) && o.origin_text() == api_origin@ && o.secret_text() == secret_hex@),
    {
        if !text_eq(expected_audience, actual_audience) {
            return Err(OperatorError::AudienceMismatch);
        }
        if !secret_parses(secret_hex) {
            return Err(OperatorError::InvalidKey);
        }
        if let Err(e) = url_path_query(api_origin) {
            return Err(OperatorError::InvalidOrigin(e));
        }
        Ok(OperatorIdentity { secret: secret_hex.to_owned(), api_origin: api_origin.to_owned() })
    }

    /// The operator API origin.
    pub fn api_origin(&self) -> (r: &str)
        ensures
            r@ == self.origin_text(),
    {
        self.api_origin.as_str()
    }

    /// The operator's public key: 64 lowercase hex digits.
    pub fn pubkey_hex(&self) -> (r: String)
        ensures
            r@ == public_key_hex_of(self.secret_text()),
            is_hex_of_32_bytes(r@),
    {
        proof {
            use_type_invariant(self);
        }
        public_key_hex(self.secret.as_str())
    }

    /// The `Authorization: Nostr ..` header for a request with a given nonce:
    /// an HTTP-auth event over the method, the exact URL requested and the
    /// body's hash.
    pub fn nip98_header_with_nonce(&self, method: &str, url: &str, nonce: u128, body: &[u8]) -> (r: Result<
        String,
        OperatorError,
    >)
        ensures
            r matches Ok(h) ==> http_auth_header(h@, self.secret_text(), method@, url@, nonce, body@),
            r matches Err(e) ==> sign_error_with(e, "NIP-98 sign: "@) || sign_error_with(e, "NIP-98 serialize: "@),
    {
        proof {
            use_type_invariant(self);
        }
        http_auth_for(self.secret.as_str(), method, url, nonce, body)
    }

    /// The `Authorization: Nostr ..` header with a fresh random nonce.
    pub fn nip98_header(&self, method: &str, url: &str, body: &[u8]) -> (r: Result<String, OperatorError>)
        ensures
            r matches Ok(h) ==> exists|n: u128| http_auth_header(h@, self.secret_text(), method@, url@, n, body@),
            r matches Err(e) ==> e is Sign,
    {
        proof {
            use_type_invariant(self);
        }
        let r = http_auth_fresh(self.secret.as_str(), method, url, body);
        proof {
            if r is Ok {
                let h = r->Ok_0;
                let n = choose|n: u128| http_auth_header(h@, self.secret@, method@, url@, n, body@);
                assert(http_auth_header(h@, self.secret_text(), method@, url@, n, body@));
            }
        }
        r
    }
}

/// Appends a text.
fn append(v: &mut Vec<char>, s: &str)
    ensures
        final(v)@ == old(v)@ + s@,
{
    let c = chars_of(s);
    push_chars(v, c.as_slice());
}

/// Appends `name: ` and the text as `{:?}` writes it.
fn append_field(v: &mut Vec<char>, name: &str, value: &str)
    ensures
        final(v)@ == old(v)@ + name@ + ": "@ + debug_text_of(value@),
{
    append(v, name);
    append(v, ": ");
    let d = debug_text(value);
    append(v, d.as_str());
}

impl OperatorIdentity {
    /// How the identity is shown in logs and messages: its public key and its
    /// origin, never the secret key.
    pub fn describe(&self) -> (r: String)
        ensures
            r@ == "OperatorIdentity { pubkey: "@ + debug_text_of(public_key_hex_of(self.secret_text())) + ", api_origin: "@
                + debug_text_of(self.origin_text()) + ", .. }"@,
    {
        let mut v: Vec<char> = Vec::new();
        append(&mut v, "OperatorIdentity { ");
        let pk = self.pubkey_hex();
        append_field(&mut v, "pubkey", pk.as_str());
        append(&mut v, ", ");
        append_field(&mut v, "api_origin", self.api_origin.as_str());
        append(&mut v, ", .. }");
        proof {
            reveal_strlit("OperatorIdentity { ");
            reveal_strlit("OperatorIdentity { pubkey: ");
            reveal_strlit("pubkey");
            reveal_strlit(": ");
            reveal_strlit(", ");
            reveal_strlit(", api_origin: ");
            reveal_strlit("api_origin");
            assert(v@ =~= "OperatorIdentity { pubkey: "@ + debug_text_of(pk@) + ", api_origin: "@ + debug_text_of(
                self.origin_text(),
            ) + ", .. }"@);
        }
        string_from_chars(v.as_slice())
    }
}

impl IdentityClient {
    /// How the identity is shown in logs and messages: its public key, its
    /// transport and its community host, never the secret key.
    pub fn describe(&self) -> (r: String)
        ensures
            r@ == "IdentityClient { pubkey: "@ + debug_text_of(public_key_hex_of(self.secret_text())) + ", transport: "@
                + debug_text_of(self.transport_text()) + ", community_host: "@ + debug_text_of(self.host_text())
                + ", .. }"@,
    {
        let mut v: Vec<char> = Vec::new();
        append(&mut v, "IdentityClient { ");
        let pk = self.pubkey_hex();
        append_field(&mut v, "pubkey", pk.as_str());
        append(&mut v, ", ");
        append_field(&mut v, "transport", self.transport.as_str());
        append(&mut v, ", ");
        append_field(&mut v, "community_host", self.community_host.as_str());
        append(&mut v, ", .. }");
        proof {
            reveal_strlit("IdentityClient { ");
            reveal_strlit("IdentityClient { pubkey: ");
            reveal_strlit("pubkey");
            reveal_strlit(": ");
            reveal_strlit(", ");
            reveal_strlit(", transport: ");
            reveal_strlit("transport");
            reveal_strlit(", community_host: ");
            reveal_strlit("community_host");
            assert(v@ =~= "IdentityClient { pubkey: "@ + debug_text_of(pk@) + ", transport: "@ + debug_text_of(
                self.transport_text(),
            ) + ", community_host: "@ + debug_text_of(self.host_text()) + ", .. }"@);
        }
        string_from_chars(v.as_slice())
    }
}

/// The operator API path that provisions a community.
pub open spec fn provision_path() -> Seq<char> {
    "/operator/communities"@
}

impl OperatorIdentity {
    /// The request that provisions a community with the JSON `payload`: the
    /// provisioning address under the operator origin, and the HTTP-auth
    /// header that signs exactly that address, `POST` and the payload.
    pub fn provision_request(&self, payload: &[u8]) -> (r: Result<(String, String), OperatorError>)
        ensures
            url_join_of(self.origin_text(), provision_path()) is None ==> (r matches Err(
                OperatorError::InvalidOrigin(_),
            )),
            r matches Ok((u, h)) ==> url_join_of(self.origin_text(), provision_path()) == Some(u@) && exists|n: u128|
                http_auth_header(h@, self.secret_text(), "POST"@, u@, n, payload@),
            r matches Err(e) ==> (e is InvalidOrigin || e is Sign),
    {
        proof {
            use_type_invariant(self);
            reveal_strlit("/operator/communities");
        }
        let url = match url_join(self.api_origin.as_str(), "/operator/communities") {
            Ok(u) => u,
            Err(e) => {
                return Err(OperatorError::InvalidOrigin(e));
            },
        };
        let header = self.nip98_header("POST", url.as_str(), payload)?;
        proof {
            reveal_strlit("POST");
            let n = choose|n: u128| http_auth_header(header@, self.secret_text(), "POST"@, url@, n, payload@);
            assert(exists|m: u128| http_auth_header(header@, self.secret_text(), "POST"@, url@, m, payload@));
        }
        let r = (url, header);
        assert(r.0@ == url@ && r.1@ == header@);
        Ok(r)
    }
}

/// A principal's Buzz protocol identity as the service uses it.
pub struct IdentityClient {
    secret: String,
    transport: String,
    community_host: String,
}

impl IdentityClient {
    /// The secret key text the identity signs with.
    pub closed spec fn secret_text(&self) -> Seq<char> {
        self.secret@
    }

    /// The relay's network address; it is used only to connect.
    pub closed spec fn transport_text(&self) -> Seq<char> {
        self.transport@
    }

    /// The tenant's community host: the Host header and the authority that
    /// signatures name.
    pub closed spec fn host_text(&self) -> Seq<char> {
        self.community_host@
    }

    #[verifier::type_invariant]
    spec fn inv(&self) -> bool {
        secret_key_parses(self.secret@) && url_path_query_of(self.transport@) is Some
    }

    /// Sets up a protocol identity for signing. A client-held identity is
    /// refused before anything else: the service has no such key, and trying
    /// to sign for it means the wrong path was taken.
    pub fn new(custody: Custody, secret_hex: &str, transport_url: &str, community_host: &str) -> (r:
        Result<Self, OperatorError>)
        ensures
            custody != Custody::Server ==> (r matches Err(OperatorError::CustodyNotServer)),
            custody == Custody::Server && !secret_key_parses(secret_hex@) ==> (r matches Err(
                OperatorError::InvalidKey,
            )),
            custody == Custody::Server && secret_key_parses(secret_hex@) && url_path_query_of(
                transport_url@,
            ) is None ==> (r matches Err(OperatorError::InvalidOrigin(_))),
            custody == Custody::Server && secret_key_parses(secret_hex@) && url_path_query_of(
                transport_url@,
            ) is Some ==> (r matches Ok(c) && c.transport_text() == transport_url@ && c.host_text()
                == community_host@ && c.secret_text() == secret_hex@),
    {
        if custody != Custody::Server {
            return Err(OperatorError::CustodyNotServer);
        }
        if !secret_parses(secret_hex) {
            return Err(OperatorError::InvalidKey);
        }
        if let Err(e) = url_path_query(transport_url) {
            return Err(OperatorError::InvalidOrigin(e));
        }
        Ok(
            IdentityClient {
                secret: secret_hex.to_owned(),
                transport: transport_url.to_owned(),
                community_host: community_host.to_owned(),
            },
        )
    }

    /// The relay's network address.
    pub fn transport(&self) -> (r: &str)
        ensures
            r@ == self.transport_text(),
    {
        self.transport.as_str()
    }

    /// The tenant's community host.
    pub fn community_host(&self) -> (r: &str)
        ensures
            r@ == self.host_text(),
    {
        self.community_host.as_str()
    }

    /// The identity's public key: 64 lowercase hex digits.
    pub fn pubkey_hex(&self) -> (r: String)
        ensures
            r@ == public_key_hex_of(self.secret_text()),
            is_hex_of_32_bytes(r@),
    {
        proof {
            use_type_invariant(self);
        }
        public_key_hex(self.secret.as_str())
    }

    /// The `Authorization: Nostr ..` header for a request to the relay with
    /// a given nonce; the same shape as the operator's.
    pub fn nip98_header_with_nonce(&self, method: &str, url: &str, nonce: u128, body: &[u8]) -> (r: Result<
        String,
        OperatorError,
    >)
        ensures
            r matches Ok(h) ==> http_auth_header(h@, self.secret_text(), method@, url@, nonce, body@),
            r matches Err(e) ==> sign_error_with(e, "NIP-98 sign: "@) || sign_error_with(e, "NIP-98 serialize: "@),
    {
        proof {
            use_type_invariant(self);
        }
        http_auth_for(self.secret.as_str(), method, url, nonce, body)
    }

    /// The `Authorization: Nostr ..` header with a fresh random nonce.
    pub fn nip98_header(&self, method: &str, url: &str, body: &[u8]) -> (r: Result<String, OperatorError>)
        ensures
            r matches Ok(h) ==> exists|n: u128| http_auth_header(h@, self.secret_text(), method@, url@, n, body@),
            r matches Err(e) ==> e is Sign,
    {
        proof {
            use_type_invariant(self);
        }
        let r = http_auth_fresh(self.secret.as_str(), method, url, body);
        proof {
            if r is Ok {
                let h = r->Ok_0;
                let n = choose|n: u128| http_auth_header(h@, self.secret@, method@, url@, n, body@);
                assert(http_auth_header(h@, self.secret_text(), method@, url@, n, body@));
            }
        }
        r
    }

    /// The signed event that creates a channel named `name` (kind 9007, one
    /// `name` tag), as the JSON sent to the relay.
    pub fn channel_creation_event(&self, name: &str) -> (r: Result<String, OperatorError>)
        ensures
            r matches Ok(j) ==> signed_event(j@, self.secret_text(), 9007, seq![seq!["name"@, name@]]),
            r matches Err(e) ==> e is Sign,
    {
        proof {
            use_type_invariant(self);
        }
        let mut tags: Vec<Vec<String>> = Vec::new();
        tags.push(two("name", name));
        proof {
            assert(tag_texts(tags@) =~= seq![seq!["name"@, name@]]);
        }
        sign_with(self.secret.as_str(), 9007, "", &tags, "tag: ", "sign: ", "")
    }

    /// The signed channel message (kind 9): the channel (`h`) first, then the
    /// media tags as given. An empty media tag is refused as a tag error.
    pub fn channel_message_event(&self, channel_id: &str, content: &str, media_tags: &[Vec<String>]) -> (r:
        Result<String, OperatorError>)
        ensures
            has_empty_tag(tag_texts(media_tags@)) ==> (r matches Err(e) && sign_error_with(e, "tag: "@)),
            r matches Ok(j) ==> signed_event(
                j@,
                self.secret_text(),
                9,
                seq![seq!["h"@, channel_id@]] + tag_texts(media_tags@),
            ),
            r matches Err(e) ==> e is Sign,
    {
        proof {
            use_type_invariant(self);
        }
        let mut tags: Vec<Vec<String>> = Vec::new();
        tags.push(two("h", channel_id));
        let mut i: usize = 0;
        while i < media_tags.len()
            invariant
                i <= media_tags@.len(),
                tag_texts(tags@) =~= seq![seq!["h"@, channel_id@]] + tag_texts(media_tags@.subrange(0, i as int)),
            decreases media_tags.len() - i,
        {
            let ghost before = tags@;
            let x = clone_tag(&media_tags[i]);
            tags.push(x);
            proof {
                let ms = media_tags@.subrange(0, i as int);
                assert(tags@ == before.push(x));
                assert(tag_texts(tags@) =~= tag_texts(before).push(texts(x@)));
                assert(media_tags@.subrange(0, i + 1) =~= ms.push(media_tags@[i as int]));
                assert(tag_texts(media_tags@.subrange(0, i + 1)) =~= tag_texts(ms).push(texts(media_tags@[i as int]@)));
            }
            i = i + 1;
        }
        proof {
            assert(media_tags@.subrange(0, media_tags@.len() as int) =~= media_tags@);
            let all = tag_texts(tags@);
            let media = tag_texts(media_tags@);
            if has_empty_tag(media) {
                let k = choose|k: int| 0 <= k < media.len() && #[trigger] media[k].len() == 0;
                assert(all[k + 1].len() == 0);
            }
        }
        sign_with(self.secret.as_str(), 9, content, &tags, "tag: ", "sign: ", "")
    }

    /// The signed roster admin event that moves `target` toward `want` in
    /// `scope` (see `admin_event_of`), as the JSON sent to the relay.
    pub fn admin_event_signed(&self, scope: Scope<'_>, want: Presence, target: &str) -> (r: Result<String, OperatorError>)
        ensures
            r matches Ok(j) ==> signed_event(
                j@,
                self.secret_text(),
                admin_event_of(scope, want, target@).0,
                admin_event_of(scope, want, target@).1,
            ),
            r matches Err(e) ==> e is Sign,
    {
        proof {
            use_type_invariant(self);
        }
        let (kind, tags) = admin_event(scope, want, target);
        sign_with(self.secret.as_str(), kind, "", &tags, "tag: ", "sign: ", "")
    }

    /// The Blossom authorization header (kind 24242) for an action on the
    /// community's server, valid for the fixed window after `now`: URL-safe
    /// base64 without padding, the form the media protocol prescribes.
    pub fn blossom_auth(&self, action: &str, content: &str, sha256: Option<&str>, now: u64) -> (r: Result<
        String,
        OperatorError,
    >)
        requires
            now + BLOSSOM_AUTH_TTL_SECS <= u64::MAX,
        ensures
            r matches Ok(h) ==> blossom_header(
                h@,
                self.secret_text(),
                blossom_tags_of(
                    action@,
                    match sha256 {
                        Some(x) => Some(x@),
                        None => None,
                    },
                    now,
                    self.host_text(),
                ),
            ),
            r matches Err(e) ==> e is Sign,
    {
        proof {
            use_type_invariant(self);
        }
        let tags = blossom_tags(action, sha256, now, self.community_host.as_str());
        let json = sign_with(self.secret.as_str(), KIND_BLOSSOM_AUTH, content, &tags, "tag: ", "Blossom 签名失败: ", "")?;
        let encoded = base64_url_nopad(json.as_str());
        Ok(concat("Nostr ", encoded.as_str()))
    }
}

impl IdentityClient {
    /// The address a request to the relay's HTTP bridge goes to, and its
    /// `Authorization` header. The header signs `http://`, the community host
    /// and the path, which the relay rebuilds from the Host header; the
    /// request itself goes to the transport address joined with the path.
    pub fn bridge_request(&self, path: &str, payload: &[u8]) -> (r: Result<(String, String), OperatorError>)
        ensures
            url_join_of(self.transport_text(), path@) is None ==> (r matches Err(OperatorError::InvalidOrigin(_))),
            r matches Ok((u, h)) ==> url_join_of(self.transport_text(), path@) == Some(u@) && exists|n: u128|
                http_auth_header(h@, self.secret_text(), "POST"@, "http://"@ + self.host_text() + path@, n, payload@),
            r matches Err(e) ==> (e is InvalidOrigin || e is Sign),
    {
        proof {
            use_type_invariant(self);
        }
        let a = concat("http://", self.community_host.as_str());
        let signed_url = concat(a.as_str(), path);
        let url = match url_join(self.transport.as_str(), path) {
            Ok(u) => u,
            Err(e) => {
                return Err(OperatorError::InvalidOrigin(e));
            },
        };
        let header = self.nip98_header("POST", signed_url.as_str(), payload)?;
        proof {
            reveal_strlit("POST");
            assert(signed_url@ == "http://"@ + self.host_text() + path@);
            let n = choose|n: u128| http_auth_header(header@, self.secret_text(), "POST"@, signed_url@, n, payload@);
            assert(http_auth_header(header@, self.secret_text(), "POST"@, "http://"@ + self.host_text() + path@, n, payload@));
            assert(exists|m: u128|
                http_auth_header(header@, self.secret_text(), "POST"@, "http://"@ + self.host_text() + path@, m, payload@));
        }
        let r = (url, header);
        assert(r.1@ == header@);
        Ok(r)
    }

    /// A media upload: the upload address, the Blossom authorization for it,
    /// and the hex SHA-256 of the bytes, which the authorization's `x` tag
    /// and the request's hash header both carry, computed once.
    pub fn upload_request(&self, bytes: &[u8], now: u64) -> (r: Result<(String, String, String), OperatorError>)
        requires
            now + BLOSSOM_AUTH_TTL_SECS <= u64::MAX,
        ensures
            r matches Ok((u, h, x)) ==> x@ == hex_text(sha256_result(bytes@)) && url_join_of(
                self.transport_text(),
                "/upload"@,
            ) == Some(u@) && blossom_header(
                h@,
                self.secret_text(),
                blossom_tags_of("upload"@, Some(x@), now, self.host_text()),
            ),
            url_join_of(self.transport_text(), "/upload"@) is None ==> r is Err,
            r matches Err(e) ==> (e is InvalidOrigin || e is Sign),
    {
        proof {
            use_type_invariant(self);
        }
        let digest = sha256(bytes);
        let x = hex_encode(digest.as_slice());
        let auth = self.blossom_auth("upload", "Upload file", Some(x.as_str()), now)?;
        let url = match url_join(self.transport.as_str(), "/upload") {
            Ok(u) => u,
            Err(e) => {
                return Err(OperatorError::InvalidOrigin(e));
            },
        };
        Ok((url, auth, x))
    }

    /// A media fetch: the address and the Blossom authorization. A path
    /// outside the media namespace is refused before anything is signed.
    pub fn fetch_request(&self, path: &str, now: u64) -> (r: Result<(String, String), OperatorError>)
        requires
            now + BLOSSOM_AUTH_TTL_SECS <= u64::MAX,
        ensures
            !media_path_ok(path@) ==> (r matches Err(OperatorError::Sign(m)) && m@ == "媒体路径不在允许范围内: "@
                + path@),
            r matches Ok((u, h)) ==> media_path_ok(path@) && url_join_of(self.transport_text(), path@) == Some(u@)
                && blossom_header(h@, self.secret_text(), blossom_tags_of("get"@, None, now, self.host_text())),
            media_path_ok(path@) && url_join_of(self.transport_text(), path@) is None ==> r is Err,
            r matches Err(e) ==> (e is InvalidOrigin || e is Sign),
    {
        proof {
            use_type_invariant(self);
        }
        if !media_path_allowed(path) {
            return Err(OperatorError::Sign(concat("媒体路径不在允许范围内: ", path)));
        }
        let auth = self.blossom_auth("get", "Get media", None, now)?;
        let url = match url_join(self.transport.as_str(), path) {
            Ok(u) => u,
            Err(e) => {
                return Err(OperatorError::InvalidOrigin(e));
            },
        };
        Ok((url, auth))
    }
}

/// A two-element tag.
fn two(a: &str, b: &str) -> (r: Vec<String>)
    ensures
        texts(r@) == seq![a@, b@],
{
    let mut v: Vec<String> = Vec::new();
    v.push(a.to_owned());
    v.push(b.to_owned());
    assert(texts(v@) =~= seq![a@, b@]);
    v
}

/// A copy of a tag.
fn clone_tag(t: &Vec<String>) -> (r: Vec<String>)
    ensures
        texts(r@) == texts(t@),
{
    let mut v: Vec<String> = Vec::new();
    let mut i: usize = 0;
    while i < t.len()
        invariant
            i <= t@.len(),
            texts(v@) =~= texts(t@.subrange(0, i as int)),
        decreases t.len() - i,
    {
        let ghost before = v@;
        let x = t[i].as_str().to_owned();
        v.push(x);
        proof {
            assert(v@ == before.push(x));
            assert(texts(v@) =~= texts(before).push(x@));
            assert(t@.subrange(0, i + 1) =~= t@.subrange(0, i as int).push(t@[i as int]));
            assert(texts(t@.subrange(0, i + 1)) =~= texts(t@.subrange(0, i as int)).push(t@[i as int]@));
        }
        i = i + 1;
    }
    proof {
        assert(t@.subrange(0, t@.len() as int) =~= t@);
    }
    v
}

/// The longest relay body a refusal keeps.
pub const REJECTED_BODY_CHARS: usize = 200;

/// The refusal for a relay answer outside 2xx: the status and at most the
/// first 200 characters of the body.
pub fn rejection(status: u16, text: &str) -> (r: OperatorError)
    ensures
        r matches OperatorError::Rejected { status: s, body } && s == status && body@ == (if text@.len()
            <= 200 {
            text@
        } else {
            text@.subrange(0, 200)
        }),
{
    let c = chars_of(text);
    if c.len() <= REJECTED_BODY_CHARS {
        return OperatorError::Rejected { status, body: string_from_chars(c.as_slice()) };
    }
    let mut head: Vec<char> = Vec::new();
    let mut i: usize = 0;
    while i < REJECTED_BODY_CHARS
        invariant
            i <= 200,
            c@.len() > 200,
            head@ == c@.subrange(0, i as int),
        decreases 200 - i,
    {
        head.push(c[i]);
        i = i + 1;
        assert(head@ =~= c@.subrange(0, i as int));
    }
    OperatorError::Rejected { status, body: string_from_chars(head.as_slice()) }
}

} // verus!
