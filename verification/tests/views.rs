use kailo_core::contracts::{AuditEventType, WorkspaceMembershipState};
use kailo_core::oidc::{reusable_token, token_answer, CachedToken, TokenError, TokenSettings};
use kailo_core::views::{
    member_views, native_community, own_audit_entries, relay_url, session_ids, session_view, workspace_views, AuditRow,
    MemberRow, ResolvedIdentity, WorkspaceRow,
};

#[test]
fn workspace_views_keep_order_and_render_ids() {
    let v = workspace_views(&[
        WorkspaceRow { id: 1, slug: "alpha".into(), name: "Alpha".into() },
        WorkspaceRow { id: 2, slug: "beta".into(), name: "Beta".into() },
    ]);
    assert_eq!(v.len(), 2);
    assert_eq!(v[0].id, "00000000-0000-0000-0000-000000000001");
    assert_eq!(v[1].slug, "beta");
    assert_eq!(v[1].name, "Beta");
}

#[test]
fn member_views_read_states_and_keep_every_key() {
    let rows = vec![
        MemberRow {
            principal_id: 0xab,
            display_name: "Ada".into(),
            pubkeys: vec!["k1".into(), "k2".into()],
            state: "ACTIVE".into(),
        },
        MemberRow { principal_id: 0xcd, display_name: "Bo".into(), pubkeys: vec![], state: "REVOKING".into() },
    ];
    let v = member_views(&rows).unwrap();
    assert_eq!(v.len(), 2);
    assert_eq!(v[0].principal_id, "00000000-0000-0000-0000-0000000000ab");
    assert_eq!(v[0].pubkeys, vec!["k1".to_owned(), "k2".to_owned()]);
    assert_eq!(v[0].state, WorkspaceMembershipState::Active);
    assert_eq!(v[1].state, WorkspaceMembershipState::Revoking);
    assert!(v[1].pubkeys.is_empty());
}

#[test]
fn a_state_outside_the_contract_refuses_the_whole_view() {
    let rows = vec![
        MemberRow { principal_id: 1, display_name: "Ada".into(), pubkeys: vec![], state: "ACTIVE".into() },
        MemberRow { principal_id: 2, display_name: "Bo".into(), pubkeys: vec![], state: "active".into() },
    ];
    assert!(member_views(&rows).is_none());
}

#[test]
fn own_audit_entries_leave_out_a_missing_workspace() {
    let rows = vec![
        AuditRow {
            occurred_at: "2024-01-02T03:04:05+00:00".into(),
            event_type: "DISPATCH".into(),
            action_key: "workspace.create".into(),
            decision: "ALLOW".into(),
            result_code: "STARTED".into(),
            workspace_id: Some(5),
        },
        AuditRow {
            occurred_at: "2024-01-02T03:04:06+00:00".into(),
            event_type: "OUTCOME".into(),
            action_key: "tenant.member.revoke".into(),
            decision: "DENY".into(),
            result_code: "LAST_TENANT_ADMIN".into(),
            workspace_id: None,
        },
    ];
    let e = own_audit_entries(&rows).unwrap();
    assert_eq!(e[0].event_type, AuditEventType::Dispatch);
    assert_eq!(e[0].workspace_id.as_deref(), Some("00000000-0000-0000-0000-000000000005"));
    assert_eq!(e[1].event_type, AuditEventType::Outcome);
    assert_eq!(e[1].workspace_id, None);
    assert_eq!(e[1].result_code, "LAST_TENANT_ADMIN");
    let bad = vec![AuditRow { event_type: "SOMETHING".into(), ..rows[0].clone() }];
    assert!(own_audit_entries(&bad).is_none());
}

#[test]
fn relay_urls_replace_every_host_placeholder() {
    assert_eq!(relay_url("wss://{host}:8443/", "t1.kailo.local"), "wss://t1.kailo.local:8443/");
    assert_eq!(relay_url("wss://{host}/{host}", "h"), "wss://h/h");
    assert_eq!(relay_url("wss://{hos}/{host", "h"), "wss://{hos}/{host");
    assert_eq!(relay_url("{{host}}", "h"), "{h}");
    assert_eq!(relay_url("", "h"), "");
}

#[test]
fn community_facts_need_an_active_binding() {
    assert!(native_community("wss://{host}", None).is_none());
    let f = native_community("wss://{host}:8443", Some("t1.kailo.local".into())).unwrap();
    assert_eq!(f.community_host, "t1.kailo.local");
    assert_eq!(f.relay_url, "wss://t1.kailo.local:8443");
}

fn identity() -> ResolvedIdentity {
    ResolvedIdentity {
        human_identity_id: "00000000-0000-0000-0000-000000000001".into(),
        tenant_membership_id: "00000000-0000-0000-0000-000000000002".into(),
        tenant_id: "00000000-0000-0000-0000-000000000003".into(),
        tenant_principal_id: "00000000-0000-0000-0000-000000000004".into(),
    }
}

#[test]
fn session_ids_need_two_uuids() {
    assert_eq!(session_ids(&identity()), Some((1, 2)));
    let mut bad = identity();
    bad.tenant_membership_id = "x".into();
    assert_eq!(session_ids(&bad), None);
}

#[test]
fn session_views_leave_out_an_unchosen_workspace() {
    let v = session_view(identity(), "Ada".into(), 9, None);
    assert_eq!(v.platform_session_id, "00000000-0000-0000-0000-000000000009");
    assert_eq!(v.display_name, "Ada");
    assert_eq!(v.current_workspace_id, None);
    assert_eq!(v.tenant_principal_id, "00000000-0000-0000-0000-000000000004");
    let w = session_view(identity(), "Ada".into(), 9, Some(10));
    assert_eq!(w.current_workspace_id.as_deref(), Some("00000000-0000-0000-0000-00000000000a"));
}

#[test]
fn a_token_is_reused_until_its_declared_expiry() {
    let c = Some(CachedToken { token: "t".into(), valid_until: 100 });
    assert_eq!(reusable_token(&c, 99).as_deref(), Some("t"));
    assert_eq!(reusable_token(&c, 100), None);
    assert_eq!(reusable_token(&None, 0), None);
}

#[test]
fn token_answers() {
    assert_eq!(token_answer(401, Ok(("t".into(), 900)), 10), Err(TokenError::Rejected(401)));
    assert_eq!(token_answer(200, Ok((String::new(), 900)), 10), Err(TokenError::Malformed));
    assert_eq!(token_answer(200, Err("eof".into()), 10), Err(TokenError::Transport("eof".into())));
    let (t, c) = token_answer(200, Ok(("abc".into(), 900)), 10).unwrap();
    assert_eq!(t, "abc");
    assert_eq!(c, CachedToken { token: "abc".into(), valid_until: 910 });
}

#[test]
fn token_settings_report_the_first_missing_one() {
    let s = TokenSettings::from_values(Some("https://idp/token".into()), Some("kailo-core".into()), Some("s".into()))
        .unwrap();
    assert_eq!(s.client_id, "kailo-core");
    assert_eq!(TokenSettings::from_values(None, None, None).unwrap_err(), "缺少 OIDC_TOKEN_URL");
    assert_eq!(
        TokenSettings::from_values(Some("u".into()), Some("c".into()), None).unwrap_err(),
        "缺少 OIDC_SERVICE_CLIENT_SECRET"
    );
}
