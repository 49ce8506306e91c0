use kailo_core::buzz::{
    accepted_event_id, admin_event, blossom_tags, can_sign, media_path_allowed, nip98_tags, roster_entries,
    roster_query, roster_satisfied, to_ascii_lowercase, Custody, Presence, RosterEntry, Scope,
};
use kailo_core::client_keys::{
    bound_key, find_tag, key_status_code, key_workflow_id, native_surface, proof_is_valid, proof_pubkey,
    pubkey_parameter_hash, registration_gate, resumed_state, revoke_step, within_key_limit, BoundKey, KeyRefusal,
    RevokeStep,
};
use kailo_core::contracts::{ErrorClass, ReasonCode};
use kailo_core::lifecycle::MembershipScope;
use kailo_core::projection::{
    after_activation, binding_transition, control_secret, human_key_locator, identity_direction, key_write_is_final,
    control_read_is_final, presence_of, projection_targets, refusal_status, BindingTransition, ProjectionRefusal,
    SecretFailure, TargetPresence,
};
use kailo_core::server_keys::{key_resume, rebuild_gate, revocable_here, revocable_state, KeyResume};

const GOOD: &str = r#"{"id":"915d86803b2f886e5e6f8fc080680f18c88d11fbc0169596fd3a756e40b9247f","pubkey":"bb50e2d89a4ed70663d080659fe0ad4b9bc3e06c17a227433966cb59ceee020d","created_at":1700000000,"kind":27235,"tags":[["u","https://core.example/api/v1/identity/client-keys"],["method","POST"],["session","00000000-0000-0000-0000-00000000002a"]],"content":"","sig":"b1f82e0055432fe5374e186ae269a887fa45497a3de1cd3dac5a1db71043d9d5e639aa1e1381c68fe1a1cf56fe7e2365b23bc1ea0d25006b4bd7210f660f7761"}"#;
const QUERY: &str = r#"{"id":"31a4a157435f64f7e9a95ea9d8b67f5751305934e9cef06d0cea9f9d27617cc1","pubkey":"bb50e2d89a4ed70663d080659fe0ad4b9bc3e06c17a227433966cb59ceee020d","created_at":1700000000,"kind":27235,"tags":[["u","https://core.example/api/v1/identity/client-keys?x=1"],["method","POST"],["session","00000000-0000-0000-0000-00000000002a"]],"content":"","sig":"ff4c4d6b0ca435bc0ebfca02c2399b57fa0d33e94ffc48f80ad6c6edd53b2f506094bf38457d6855a6d20477c1727300561f4137e32f0c2b376133b56c6e31ad"}"#;
const GET: &str = r#"{"id":"798803946559299d2b8171316dbacbb4414f59c51155ddfb7bcf80077ff55715","pubkey":"bb50e2d89a4ed70663d080659fe0ad4b9bc3e06c17a227433966cb59ceee020d","created_at":1700000000,"kind":27235,"tags":[["u","https://core.example/api/v1/identity/client-keys"],["method","GET"],["session","00000000-0000-0000-0000-00000000002a"]],"content":"","sig":"fc7eef65d87d5c8d68e3c2302de478996887f15e5c85f49967c847fd305ae92ce59e1c3c75fbeb69dd6941509b7bdeef103c318d4b36ebda2a8549d67c89f240"}"#;
const KIND: &str = r#"{"id":"1fddb2487f685211758ff8b803409ba2b88be12eb36c429c2249cb5bbc23fa16","pubkey":"bb50e2d89a4ed70663d080659fe0ad4b9bc3e06c17a227433966cb59ceee020d","created_at":1700000000,"kind":1,"tags":[["u","https://core.example/api/v1/identity/client-keys"],["method","POST"],["session","00000000-0000-0000-0000-00000000002a"]],"content":"","sig":"a557c699dde767013fdd0163ee5991709268f1c1abeb97c1e34ab2a8e3be64f8e263a52dfbe6291bba9eb6267d6847d38a80740a814ecf91c6851c9e1d1d80ec"}"#;
const BAD_SIG: &str = r#"{"id":"915d86803b2f886e5e6f8fc080680f18c88d11fbc0169596fd3a756e40b9247f","pubkey":"bb50e2d89a4ed70663d080659fe0ad4b9bc3e06c17a227433966cb59ceee020d","created_at":1700000000,"kind":27235,"tags":[["u","https://core.example/api/v1/identity/client-keys"],["method","POST"],["session","00000000-0000-0000-0000-00000000002a"]],"content":"","sig":"b1f82e0055432fe5374e186ae269a887fa45497a3de1cd3dac5a1db71043d9d5e639aa1e1381c68fe1a1cf56fe7e2365b23bc1ea0d25006b4bd7210f660f7760"}"#;
const PUB: &str = "bb50e2d89a4ed70663d080659fe0ad4b9bc3e06c17a227433966cb59ceee020d";
const SESSION: u128 = 0x2a;

#[test]
fn a_fresh_bound_proof_holds() {
    assert!(proof_is_valid(GOOD, 1_700_000_010, 60, SESSION));
    assert!(proof_is_valid(GOOD, 1_699_999_950, 60, SESSION));
    assert_eq!(proof_pubkey(GOOD).as_deref(), Some(PUB));
}

#[test]
fn a_proof_for_anything_else_fails() {
    assert!(!proof_is_valid(GOOD, 1_700_000_010, 60, SESSION + 1), "another session");
    assert!(!proof_is_valid(GOOD, 1_700_000_061, 60, SESSION), "too old");
    assert!(!proof_is_valid(QUERY, 1_700_000_010, 60, SESSION), "a query on the URL");
    assert!(!proof_is_valid(GET, 1_700_000_010, 60, SESSION), "another method");
    assert!(!proof_is_valid(KIND, 1_700_000_010, 60, SESSION), "not an HTTP-auth event");
    assert!(!proof_is_valid(BAD_SIG, 1_700_000_010, 60, SESSION), "signature does not verify");
    assert!(!proof_is_valid("{}", 1_700_000_010, 60, SESSION), "not an event");
    assert_eq!(proof_pubkey("not json"), None);
}

#[test]
fn first_tag_of_a_name_decides() {
    let tags = vec![
        vec!["method".to_string()],
        vec!["method".to_string(), "POST".to_string()],
        vec!["u".to_string(), "x".to_string(), "y".to_string()],
    ];
    assert_eq!(find_tag(&tags, "method"), None);
    assert_eq!(find_tag(&tags, "u").as_deref(), Some("x"));
    assert_eq!(find_tag(&tags, "session"), None);
}

#[test]
fn registration_refusals() {
    assert!(native_surface(Some("native")));
    assert!(!native_surface(Some("browser")));
    assert!(!native_surface(None));
    assert_eq!(
        registration_gate(false, true, true),
        Err(KeyRefusal { status: 403, class: ErrorClass::Denied, reason: ReasonCode::NativeSurfaceRequired })
    );
    assert_eq!(
        registration_gate(true, false, true),
        Err(KeyRefusal { status: 403, class: ErrorClass::Denied, reason: ReasonCode::ClientKeyProofInvalid })
    );
    assert_eq!(
        registration_gate(true, true, false),
        Err(KeyRefusal { status: 403, class: ErrorClass::Denied, reason: ReasonCode::ClientKeyProofInvalid })
    );
    assert_eq!(registration_gate(true, true, true), Ok(()));
    assert_eq!(bound_key(true, "RECONCILING"), BoundKey::Resume);
    assert_eq!(bound_key(true, "ACTIVE"), BoundKey::Active);
    assert_eq!(bound_key(true, "REVOKED"), BoundKey::Conflict);
    assert_eq!(bound_key(false, "ACTIVE"), BoundKey::Conflict);
    assert_eq!(
        within_key_limit(5, 5),
        Err(KeyRefusal { status: 429, class: ErrorClass::Limit, reason: ReasonCode::ClientKeyLimitReached })
    );
    assert_eq!(within_key_limit(4, 5), Ok(()));
}

#[test]
fn revocation_steps_and_resumes() {
    assert_eq!(revoke_step(None), RevokeStep::NotFound);
    assert_eq!(revoke_step(Some("REVOKED")), RevokeStep::Revoked);
    assert_eq!(revoke_step(Some("REVOKING")), RevokeStep::Resume);
    assert_eq!(revoke_step(Some("ACTIVE")), RevokeStep::Revoke);
    assert_eq!(resumed_state("identity.client_key.revoke"), "REVOKING");
    assert_eq!(resumed_state("identity.client_key.register"), "RECONCILING");
    assert_eq!(key_status_code(true), 202);
    assert_eq!(key_status_code(false), 200);
    assert_eq!(
        pubkey_parameter_hash("npub-hex"),
        "cbac5970f338c36a8de51c07fe1bd652804e9e1cdf566c4b743409065983ead5"
    );
    let id = key_workflow_id(1, "abcd", 3);
    assert_eq!(id, "kailo:BUZZ_IDENTITY_PROJECTION:00000000-0000-0000-0000-000000000001:abcd:3");
}

#[test]
fn server_key_rotation_gates() {
    assert!(revocable_here("HUMAN", "SERVER"));
    assert!(!revocable_here("HUMAN", "CLIENT"));
    assert!(!revocable_here("CONTROL", "SERVER"));
    assert!(revocable_state("ACTIVE") && revocable_state("RECONCILING"));
    assert!(!revocable_state("REVOKING"));
    assert_eq!(key_resume(None, 1), KeyResume::Fresh);
    let id = key_workflow_id(1, "abcd", 3);
    assert_eq!(key_resume(Some(&id), 1), KeyResume::Start { pubkey: "abcd".into(), version: 3 });
    assert_eq!(key_resume(Some(&id), 2), KeyResume::Conflict);
    assert_eq!(key_resume(Some("kailo:TENANT_LIFECYCLE:x:y:1"), 1), KeyResume::Conflict);
    assert_eq!(rebuild_gate(None, None), Err(409));
    assert_eq!(rebuild_gate(Some(4), Some("REVOKING")), Err(409));
    assert_eq!(rebuild_gate(Some(4), None), Ok(4));
}

#[test]
fn membership_projection_plans() {
    assert_eq!(presence_of(TargetPresence::Absent), Presence::Absent);
    assert_eq!(refusal_status(ProjectionRefusal::NotFound), 404);
    assert_eq!(refusal_status(ProjectionRefusal::Denied), 403);
    assert_eq!(projection_targets(vec![], None), Err(ProjectionRefusal::NotFound));
    assert_eq!(projection_targets(vec![], Some("w".into())), Ok(vec!["w".to_string()]));
    assert_eq!(projection_targets(vec!["a".into(), "w".into()], Some("w".into())), Ok(vec!["a".to_string(), "w".to_string()]));
    assert_eq!(projection_targets(vec!["a".into()], Some("w".into())), Ok(vec!["a".to_string(), "w".to_string()]));
    assert_eq!(control_secret(Some("l".into()), Some(3), Some("aud".into())), Ok(("l".to_string(), 3, "aud".to_string())));
    assert_eq!(control_secret(Some("l".into()), None, Some("aud".into())), Err(ProjectionRefusal::Denied));
    assert_eq!(binding_transition(TargetPresence::Present, MembershipScope::Workspace), BindingTransition::ActivateServerKeys);
    assert_eq!(binding_transition(TargetPresence::Absent, MembershipScope::Tenant), BindingTransition::RevokeAll);
    assert_eq!(binding_transition(TargetPresence::Absent, MembershipScope::Workspace), BindingTransition::Unchanged);
    assert!(control_read_is_final(SecretFailure::VersionUnavailable));
    assert!(!control_read_is_final(SecretFailure::Other));
    assert!(key_write_is_final(SecretFailure::LocatorMalformed));
    assert!(!key_write_is_final(SecretFailure::VersionUnavailable));
    assert_eq!(
        human_key_locator("ns/kv", 1, 2),
        "ns/kv/buzz-human/00000000-0000-0000-0000-000000000001/00000000-0000-0000-0000-000000000002"
    );
    assert_eq!(identity_direction("RECONCILING"), Ok(Presence::Present));
    assert_eq!(identity_direction("REVOKING"), Ok(Presence::Absent));
    assert_eq!(identity_direction("ACTIVE"), Err(409));
    assert!(after_activation(1, None));
    assert!(after_activation(0, Some("ACTIVE")));
    assert!(!after_activation(0, Some("REVOKING")));
}

#[test]
fn relay_rosters_and_events() {
    assert!(can_sign(Custody::Server));
    assert!(!can_sign(Custody::Client));
    assert_eq!(to_ascii_lowercase("AbC-Ä1"), "abc-Ä1");
    let tags = vec![
        vec!["member".to_string(), "ABCD".to_string(), "x".to_string(), "admin".to_string()],
        vec!["member".to_string(), "ef01".to_string()],
        vec!["p".to_string(), "1234".to_string(), "".to_string(), "member".to_string()],
        vec!["member".to_string(), "5678".to_string(), "member".to_string()],
    ];
    let roster = roster_entries(&tags, "member");
    assert_eq!(
        roster,
        vec![
            RosterEntry { pubkey: "abcd".into(), role: "admin".into() },
            RosterEntry { pubkey: "5678".into(), role: "member".into() },
        ]
    );
    assert!(roster_satisfied(&roster, "abcd", Presence::Present));
    assert!(!roster_satisfied(&roster, "abcd", Presence::Absent));
    assert!(roster_satisfied(&roster, "9999", Presence::Absent));
    assert_eq!(roster_query(Scope::Relay), (13534, "member"));
    assert_eq!(roster_query(Scope::Channel("c")), (39002, "p"));
    let (kind, tags) = admin_event(Scope::Channel("ch"), Presence::Absent, "abcd");
    assert_eq!(kind, 9001);
    assert_eq!(tags, vec![vec!["h".to_string(), "ch".to_string()], vec!["p".to_string(), "abcd".to_string()]]);
    let (kind, tags) = admin_event(Scope::Relay, Presence::Present, "abcd");
    assert_eq!(kind, 9030);
    assert_eq!(tags, vec![vec!["p".to_string(), "abcd".to_string()]]);
    assert_eq!(accepted_event_id(Some(true), Some("e".into())), Some("e".into()));
    assert_eq!(accepted_event_id(Some(false), Some("e".into())), None);
    assert_eq!(accepted_event_id(None, Some("e".into())), None);
    assert!(media_path_allowed("/media/abc"));
    assert!(!media_path_allowed("/media/../admin"));
    assert!(!media_path_allowed("/upload"));
    assert!(!media_path_allowed("/media"));
    let b = blossom_tags("upload", Some("ff"), 1000, "h.example");
    assert_eq!(
        b,
        vec![
            vec!["t".to_string(), "upload".to_string()],
            vec!["x".to_string(), "ff".to_string()],
            vec!["expiration".to_string(), "1600".to_string()],
            vec!["server".to_string(), "h.example".to_string()],
        ]
    );
    assert_eq!(blossom_tags("get", None, 0, "h").len(), 3);
    assert_eq!(nip98_tags("u", "POST", "n", "p")[1], vec!["method".to_string(), "POST".to_string()]);
}
