use kailo_core::bootstrap::{
    arguments_acceptable, bootstrap_params_hash, dispatch_target_type, entity_step, start_confirmed, wait_step,
    zero_to_one, Args, BootstrapState, EntityStep, Outcome, WaitStep,
};
use kailo_core::config::{
    batch_setting, positive_i64_setting, positive_setting, relationship_page, text_setting, GovernanceConfig,
};
use kailo_core::platform::{
    operator_locator, operator_step, registration_took_effect, secret_version, ActiveOperator, BootstrapConfig,
    OperatorStep, RegistrationFailure,
};

fn argv(items: &[&str]) -> Vec<String> {
    items.iter().map(|s| s.to_string()).collect()
}

#[test]
fn every_bootstrap_argument_is_required() {
    let a = Args::parse(&argv(&[
        "bootstrap-tenant", "--slug", "acme", "--name", "Acme Inc", "--admin-subject", "sub-1",
        "--admin-display-name", "Ann", "--wait-seconds", "30",
    ]))
    .unwrap();
    assert_eq!((a.slug.as_str(), a.name.as_str(), a.admin_subject.as_str()), ("acme", "Acme Inc", "sub-1"));
    assert_eq!(a.admin_display_name, "Ann");
    assert_eq!(a.wait_seconds, 30);
    let missing = Args::parse(&argv(&["--slug", "acme", "--wait-seconds", "1"])).err().unwrap();
    assert_eq!(missing, "缺少 --name");
    let no_wait = Args::parse(&argv(&["--slug", "acme"])).err().unwrap();
    assert_eq!(no_wait, "缺少 --wait-seconds");
    let bad_wait = Args::parse(&argv(&["--wait-seconds", "-3"])).err().unwrap();
    assert_eq!(bad_wait, "--wait-seconds 必须是非负整数");
    let bad_wait = Args::parse(&argv(&["--wait-seconds", "x"])).err().unwrap();
    assert_eq!(bad_wait, "--wait-seconds 必须是非负整数");
    let flag_as_value = Args::parse(&argv(&["--wait-seconds", "1", "--slug", "--name", "n"])).err().unwrap();
    assert_eq!(flag_as_value, "--slug 缺值");
    let empty = Args::parse(&argv(&["--wait-seconds", "1", "--slug", ""])).err().unwrap();
    assert_eq!(empty, "--slug 缺值");
    let last = Args::parse(&argv(&["--wait-seconds", "1", "--slug"])).err().unwrap();
    assert_eq!(last, "--slug 缺值");
}

#[test]
fn bootstrap_goes_from_zero_admins_to_one_only() {
    assert_eq!(zero_to_one(9, Some(1), &[1, 2]), Some(Outcome { tenant_id: 9, admin_principal_id: Some(1), state: BootstrapState::Completed }));
    assert_eq!(zero_to_one(9, Some(3), &[1, 2]), Some(Outcome { tenant_id: 9, admin_principal_id: None, state: BootstrapState::Inert }));
    assert_eq!(zero_to_one(9, None, &[1]), Some(Outcome { tenant_id: 9, admin_principal_id: None, state: BootstrapState::Inert }));
    assert_eq!(zero_to_one(9, Some(3), &[]), None);
    assert_eq!(BootstrapState::Pending.wire(), "PENDING");
}

#[test]
fn bootstrap_steps() {
    assert!(arguments_acceptable("acme", "Acme"));
    assert!(!arguments_acceptable("Acme", "Acme"));
    assert!(!arguments_acceptable("acme", "  "));
    assert_eq!(entity_step("ACTIVE"), EntityStep::Ready);
    assert_eq!(entity_step("PROVISIONING"), EntityStep::Launch);
    assert_eq!(entity_step("REVOKED"), EntityStep::Refuse);
    assert_eq!(wait_step("ACTIVE", true), WaitStep::Active);
    assert_eq!(wait_step("PROVISIONING", true), WaitStep::Poll);
    assert_eq!(wait_step("PROVISIONING", false), WaitStep::Pending);
    assert_eq!(wait_step("ERROR", true), WaitStep::Stop);
    assert!(start_confirmed(Ok(())));
    assert!(start_confirmed(Err(409)));
    assert!(!start_confirmed(Err(503)));
    assert_eq!(dispatch_target_type(4, 4), "TENANT");
    assert_eq!(dispatch_target_type(5, 4), "TENANT_MEMBERSHIP");
    assert_eq!(
        bootstrap_params_hash("acme", "sub-1"),
        "68d4eed9d248a7b888e866a72fc0ab310f0849a8b822ddf3e0ce2ffdb20b69b2"
    );
}

fn cfg() -> BootstrapConfig {
    BootstrapConfig::from_values(
        "catalog".into(),
        "key".into(),
        "aud".into(),
        "https://relay".into(),
        "ns",
        "kv",
        "svc".into(),
    )
}

#[test]
fn operator_identity_follows_the_delivered_key() {
    let c = cfg();
    assert_eq!(c.secret_mount, "ns/kv");
    let same = ActiveOperator { pubkey: "k1".into(), audience: "aud".into(), api_origin: "https://relay".into() };
    assert_eq!(operator_step(&None, "k1", &c), OperatorStep::Register);
    assert_eq!(operator_step(&Some(same.clone()), "k1", &c), OperatorStep::Reverify);
    assert_eq!(operator_step(&Some(same.clone()), "k2", &c), OperatorStep::Rotate);
    let elsewhere = ActiveOperator { pubkey: "k1".into(), audience: "other".into(), api_origin: "https://relay".into() };
    assert_eq!(operator_step(&Some(elsewhere.clone()), "k1", &c), OperatorStep::Mismatch);
    assert_eq!(registration_took_effect(&Some(same.clone()), "k1", &c), Ok(()));
    assert_eq!(registration_took_effect(&Some(same), "k2", &c), Err(RegistrationFailure::OtherKey));
    assert_eq!(registration_took_effect(&None, "k1", &c), Err(RegistrationFailure::NotActive));
    assert_eq!(registration_took_effect(&Some(elsewhere), "k1", &c), Err(RegistrationFailure::Mismatch));
    let l1 = operator_locator(&c, "k1").unwrap();
    let l2 = operator_locator(&c, "k1").unwrap();
    assert!(l1.starts_with("ns/kv/relay-operator/aud/k1/"));
    assert_eq!(l1.len(), "ns/kv/relay-operator/aud/k1/".len() + 36);
    assert_ne!(l1, l2);
    assert_eq!(secret_version(Some(7)), 7);
    assert_eq!(secret_version(None), 0);
    assert_eq!(secret_version(Some(-1)), u32::MAX);
}

fn governance(base: &str, margin: i64, window: i64) -> GovernanceConfig {
    GovernanceConfig {
        consume_window_seconds: window,
        dispatch_margin_seconds: margin,
        update_wait_seconds: 10,
        evaluation_timeout_seconds: 60,
        projection_freshness_seconds: 60,
        page_limit: 50,
        role_member_page_limit: 50,
        relationship_page: 100,
        invitation_ttl_seconds: 3600,
        invitation_link_base: base.into(),
        human_oidc_issuer: "https://idp".into(),
        human_oidc_client_id: "web".into(),
    }
}

#[test]
fn settings_are_checked() {
    assert_eq!(positive_setting("N", Some("5")), Ok(5));
    assert_eq!(positive_setting("N", Some("+5")), Ok(5));
    assert_eq!(positive_setting("N", Some("0")), Err("N 必须是正整数".to_string()));
    assert_eq!(positive_setting("N", Some("-1")), Err("N 必须是正整数".to_string()));
    assert_eq!(positive_setting("N", None), Err("缺少 N".to_string()));
    assert_eq!(positive_i64_setting("N", Some("9223372036854775808")), Err("N 必须是正整数".to_string()));
    assert_eq!(positive_i64_setting("N", Some("9223372036854775807")), Ok(i64::MAX));
    assert_eq!(batch_setting("B", 10), Ok(10));
    assert_eq!(batch_setting("B", u64::MAX), Err("B 超出范围".to_string()));
    assert_eq!(text_setting("T", Some(" x ".into())), Ok(" x ".to_string()));
    assert_eq!(text_setting("T", Some("  ".into())), Err("缺少 T".to_string()));
    assert_eq!(relationship_page(100), Ok(100));
    assert!(relationship_page(1 << 40).is_err());
    assert_eq!(governance("https://web/invite", 10, 60).check(), Ok(()));
    assert_eq!(governance("http://web/invite", 10, 60).check(), Ok(()));
    assert_eq!(
        governance("ftp://web", 10, 60).check(),
        Err("TENANT_INVITATION_LINK_BASE 必须是不含 # 的 http(s) 地址".to_string())
    );
    assert!(governance("https://web/#x", 10, 60).check().is_err());
    assert_eq!(
        governance("https://web", 60, 60).check(),
        Err("APPROVAL_DISPATCH_MARGIN_SECONDS 必须小于 APPROVAL_CONSUME_WINDOW_SECONDS".to_string())
    );
}
