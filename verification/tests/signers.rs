use base64::Engine;
use kailo_core::buzz::{Custody, Presence, Scope, KIND_CHANNEL_ADD_USER, KIND_RELAY_ADMIN_REMOVE};
use kailo_core::signers::{rejection, IdentityClient, OperatorError, OperatorIdentity};

/// A valid secret key in hex.
const SECRET: &str = "6b911fd37cdf5c81d4c0adb1ab7fa822ed253ab0ad9aa18d77257c88b29b718e";
/// The public key of `SECRET`.
const PUBKEY: &str = "385c3a6ec0b9d57a4330dbd6284989be5bd00e41c535f9ca39b6ae7c521b81cd";
const AUDIENCE: &str = "kailo-local";

fn client(secret: &str, transport: &str, host: &str) -> IdentityClient {
    match IdentityClient::new(Custody::Server, secret, transport, host) {
        Ok(c) => c,
        Err(e) => panic!("client refused: {e:?}"),
    }
}

fn client_error(custody: Custody, secret: &str, transport: &str, host: &str) -> OperatorError {
    match IdentityClient::new(custody, secret, transport, host) {
        Ok(_) => panic!("client set up"),
        Err(e) => e,
    }
}

fn operator(secret: &str, origin: &str, expected: &str, actual: &str) -> Result<OperatorIdentity, OperatorError> {
    OperatorIdentity::new(secret, origin, expected, actual)
}

fn operator_error(secret: &str, origin: &str, expected: &str, actual: &str) -> OperatorError {
    match operator(secret, origin, expected, actual) {
        Ok(_) => panic!("operator set up"),
        Err(e) => e,
    }
}

/// Reads an event back from its JSON and checks its ID and signature.
fn read_back(json: &str) -> nostr::event::Event {
    let e = nostr::event::Event::from_json(json).expect("event JSON");
    e.verify().expect("event verifies");
    e
}

fn tags_of(e: &nostr::event::Event) -> Vec<Vec<String>> {
    e.tags.iter().map(|t| t.as_slice().to_vec()).collect()
}

fn pair(a: &str, b: &str) -> Vec<String> {
    vec![a.to_owned(), b.to_owned()]
}

fn header_event(header: &str, url_safe: bool) -> nostr::event::Event {
    let encoded = header.strip_prefix("Nostr ").expect("scheme");
    let raw = if url_safe {
        base64::engine::general_purpose::URL_SAFE_NO_PAD.decode(encoded).expect("base64url")
    } else {
        base64::engine::general_purpose::STANDARD.decode(encoded).expect("base64")
    };
    read_back(&String::from_utf8(raw).expect("utf-8"))
}

#[test]
fn client_custody_identity_is_never_signed_by_core() {
    let err = client_error(Custody::Client, SECRET, "http://unused.invalid", "unused.kailo.local");
    assert!(matches!(err, OperatorError::CustodyNotServer), "got {err:?}");
}

#[test]
fn client_custody_is_refused_even_with_an_unusable_key() {
    let err = client_error(Custody::Client, "not a key", "not a url", "h");
    assert!(matches!(err, OperatorError::CustodyNotServer), "got {err:?}");
}

#[test]
fn server_custody_with_a_valid_key_sets_up_the_client() {
    let c = client(SECRET, "http://relay.internal:3000", "t1.kailo.local");
    assert_eq!(c.transport(), "http://relay.internal:3000");
    assert_eq!(c.community_host(), "t1.kailo.local");
}

#[test]
fn server_custody_with_a_bad_key_is_refused() {
    let err = client_error(Custody::Server, "6b911fd3", "http://relay.internal", "h");
    assert!(matches!(err, OperatorError::InvalidKey), "got {err:?}");
}

#[test]
fn server_custody_with_a_bad_transport_is_refused() {
    let err = client_error(Custody::Server, SECRET, "relay without scheme", "h");
    match err {
        OperatorError::InvalidOrigin(reason) => assert!(!reason.is_empty()),
        other => panic!("got {other:?}"),
    }
}

#[test]
fn operator_audience_mismatch_is_refused_before_the_key() {
    let err = operator_error("not a key", "http://relay.internal", AUDIENCE, "other-deployment");
    assert!(matches!(err, OperatorError::AudienceMismatch), "got {err:?}");
}

#[test]
fn operator_with_matching_audience_is_set_up() {
    let o = operator(SECRET, "http://relay.internal:3000", AUDIENCE, AUDIENCE).expect("operator");
    assert_eq!(o.api_origin(), "http://relay.internal:3000");
    let err = operator_error("zz", "http://relay.internal:3000", AUDIENCE, AUDIENCE);
    assert!(matches!(err, OperatorError::InvalidKey), "got {err:?}");
    let err = operator_error(SECRET, "::", AUDIENCE, AUDIENCE);
    assert!(matches!(err, OperatorError::InvalidOrigin(_)), "got {err:?}");
}

#[test]
fn a_refusal_keeps_at_most_two_hundred_characters() {
    let long: String = "é".repeat(250);
    match rejection(409, &long) {
        OperatorError::Rejected { status, body } => {
            assert_eq!(status, 409);
            assert_eq!(body.chars().count(), 200);
            assert_eq!(body, "é".repeat(200));
        }
        other => panic!("got {other:?}"),
    }
    match rejection(500, "boom") {
        OperatorError::Rejected { status, body } => {
            assert_eq!(status, 500);
            assert_eq!(body, "boom");
        }
        other => panic!("got {other:?}"),
    }
}

#[test]
fn public_keys_are_shown_as_lowercase_hex() {
    let c = client(SECRET, "http://relay.internal:3000", "t1.kailo.local");
    let o = operator(SECRET, "http://relay.internal:3000", AUDIENCE, AUDIENCE).expect("operator");
    assert_eq!(c.pubkey_hex(), PUBKEY);
    assert_eq!(c.pubkey_hex().len(), 64);
    assert!(c.pubkey_hex().chars().all(|ch| ch.is_ascii_hexdigit() && !ch.is_ascii_uppercase()));
    assert_eq!(c.pubkey_hex(), o.pubkey_hex());
    assert_ne!(c.pubkey_hex(), SECRET);
}

#[test]
fn http_auth_header_signs_the_request_it_names() {
    let o = operator(SECRET, "http://relay.internal:3000", AUDIENCE, AUDIENCE).expect("operator");
    let h = o.nip98_header_with_nonce("POST", "http://relay.internal:3000/provision", 1, b"abc").expect("header");
    assert!(h.starts_with("Nostr "));
    let e = header_event(&h, false);
    assert_eq!(e.kind.as_u16(), 27235);
    assert_eq!(e.pubkey.to_hex(), PUBKEY);
    assert_eq!(e.content, "");
    assert_eq!(
        tags_of(&e),
        vec![
            pair("u", "http://relay.internal:3000/provision"),
            pair("method", "POST"),
            pair("nonce", "00000000-0000-0000-0000-000000000001"),
            pair("payload", "ba7816bf8f01cfea414140de5dae2223b00361a396177a9cb410ff61f20015ad"),
        ]
    );
}

#[test]
fn http_auth_header_with_a_fresh_nonce() {
    let c = client(SECRET, "http://relay.internal:3000", "t1.kailo.local");
    let h = c.nip98_header("POST", "http://t1.kailo.local/events", b"").expect("header");
    let e = header_event(&h, false);
    let tags = tags_of(&e);
    assert_eq!(tags[0], pair("u", "http://t1.kailo.local/events"));
    assert_eq!(tags[1], pair("method", "POST"));
    assert_eq!(tags[2][0], "nonce");
    assert_eq!(uuid::Uuid::parse_str(&tags[2][1]).expect("nonce is a UUID").get_version_num(), 4);
    assert_eq!(tags[3], pair("payload", "e3b0c44298fc1c149afbf4c8996fb92427ae41e4649b934ca495991b7852b855"));
    let again = c.nip98_header("POST", "http://t1.kailo.local/events", b"").expect("header");
    assert_ne!(tags_of(&header_event(&again, false))[2], tags[2]);
}

#[test]
fn channel_creation_event_names_the_channel() {
    let c = client(SECRET, "http://relay.internal:3000", "t1.kailo.local");
    let e = read_back(&c.channel_creation_event("general").expect("event"));
    assert_eq!(e.kind.as_u16(), 9007);
    assert_eq!(e.pubkey.to_hex(), PUBKEY);
    assert_eq!(tags_of(&e), vec![pair("name", "general")]);
}

#[test]
fn channel_message_puts_the_channel_before_media() {
    let c = client(SECRET, "http://relay.internal:3000", "t1.kailo.local");
    let media = vec![vec!["imeta".to_owned(), "url http://x/a.png".to_owned(), "m image/png".to_owned()]];
    let e = read_back(&c.channel_message_event("chan-1", "hello from core", &media).expect("event"));
    assert_eq!(e.kind.as_u16(), 9);
    assert_eq!(e.content, "hello from core");
    assert_eq!(tags_of(&e), vec![pair("h", "chan-1"), media[0].clone()]);
}

#[test]
fn an_empty_media_tag_is_refused() {
    let c = client(SECRET, "http://relay.internal:3000", "t1.kailo.local");
    match c.channel_message_event("chan-1", "x", &[vec![]]) {
        Err(OperatorError::Sign(m)) => assert!(m.starts_with("tag: "), "got {m}"),
        Err(other) => panic!("got {other:?}"),
        Ok(_) => panic!("an empty tag was signed"),
    }
}

#[test]
fn admin_events_name_the_scope_and_the_key() {
    let c = client(SECRET, "http://relay.internal:3000", "t1.kailo.local");
    let target = "ab".repeat(32);
    let e = read_back(&c.admin_event_signed(Scope::Channel("chan-1"), Presence::Present, &target).expect("event"));
    assert_eq!(e.kind.as_u16(), KIND_CHANNEL_ADD_USER);
    assert_eq!(tags_of(&e), vec![pair("h", "chan-1"), pair("p", &target)]);
    let e = read_back(&c.admin_event_signed(Scope::Relay, Presence::Absent, &target).expect("event"));
    assert_eq!(e.kind.as_u16(), KIND_RELAY_ADMIN_REMOVE);
    assert_eq!(tags_of(&e), vec![pair("p", &target)]);
}

#[test]
fn blossom_authorization_is_url_safe_and_expires() {
    let c = client(SECRET, "http://relay.internal:3000", "t1.kailo.local");
    let h = c.blossom_auth("upload", "Upload file", Some("aa"), 1_700_000_000).expect("header");
    let encoded = h.strip_prefix("Nostr ").expect("scheme");
    assert!(!encoded.contains('=') && !encoded.contains('+') && !encoded.contains('/'));
    let e = header_event(&h, true);
    assert_eq!(e.kind.as_u16(), 24242);
    assert_eq!(e.content, "Upload file");
    assert_eq!(
        tags_of(&e),
        vec![pair("t", "upload"), pair("x", "aa"), pair("expiration", "1700000600"), pair("server", "t1.kailo.local")]
    );
    let h = c.blossom_auth("get", "Get media", None, 5).expect("header");
    assert_eq!(
        tags_of(&header_event(&h, true)),
        vec![pair("t", "get"), pair("expiration", "605"), pair("server", "t1.kailo.local")]
    );
}

#[test]
fn bridge_requests_sign_the_community_url() {
    let c = client(SECRET, "http://relay.internal:3000", "t1.kailo.local");
    let (url, h) = c.bridge_request("/events", b"{}").expect("request");
    assert_eq!(url, "http://relay.internal:3000/events");
    let tags = tags_of(&header_event(&h, false));
    assert_eq!(tags[0], pair("u", "http://t1.kailo.local/events"));
    assert_eq!(tags[1], pair("method", "POST"));
    assert_eq!(tags[3], pair("payload", "44136fa355b3678a1146ad16f7e8649e94fb4fc21fe77e8310c060f61caaff8a"));
}

#[test]
fn media_requests_carry_a_blossom_authorization() {
    let c = client(SECRET, "http://relay.internal:3000/", "t1.kailo.local");
    let (url, h, x) = c.upload_request(b"abc", 100).expect("upload");
    assert_eq!(url, "http://relay.internal:3000/upload");
    assert_eq!(x, "ba7816bf8f01cfea414140de5dae2223b00361a396177a9cb410ff61f20015ad");
    let e = header_event(&h, true);
    assert_eq!(e.content, "Upload file");
    assert_eq!(
        tags_of(&e),
        vec![pair("t", "upload"), pair("x", &x), pair("expiration", "700"), pair("server", "t1.kailo.local")]
    );
    let (url, h) = c.fetch_request("/media/ab.png", 100).expect("fetch");
    assert_eq!(url, "http://relay.internal:3000/media/ab.png");
    assert_eq!(header_event(&h, true).content, "Get media");
    match c.fetch_request("/media/../admin", 100) {
        Err(OperatorError::Sign(m)) => assert_eq!(m, "媒体路径不在允许范围内: /media/../admin"),
        Err(other) => panic!("got {other:?}"),
        Ok(_) => panic!("a path outside the media namespace was signed"),
    }
}

#[test]
fn provisioning_signs_the_address_it_posts_to() {
    let o = operator(SECRET, "http://relay.internal:3000/base/", AUDIENCE, AUDIENCE).expect("operator");
    let body = br#"{"create_only":true,"host":"t1.kailo.local","initial_owner_pubkey":"ab"}"#;
    let (url, h) = o.provision_request(body).expect("request");
    assert_eq!(url, "http://relay.internal:3000/operator/communities");
    let e = header_event(&h, false);
    assert_eq!(e.pubkey.to_hex(), PUBKEY);
    let tags = tags_of(&e);
    assert_eq!(tags[0], pair("u", &url));
    assert_eq!(tags[1], pair("method", "POST"));
}

#[test]
fn identities_are_shown_without_their_secret() {
    let c = client(SECRET, "http://relay.internal:3000", "t1.kailo.local");
    let shown = c.describe();
    assert_eq!(
        shown,
        format!("IdentityClient {{ pubkey: \"{PUBKEY}\", transport: \"http://relay.internal:3000\", community_host: \"t1.kailo.local\", .. }}")
    );
    assert!(!shown.contains(SECRET));
    let o = operator(SECRET, "http://relay.internal:3000", AUDIENCE, AUDIENCE).expect("operator");
    assert_eq!(o.describe(), format!("OperatorIdentity {{ pubkey: \"{PUBKEY}\", api_origin: \"http://relay.internal:3000\", .. }}"));
}
