use kailo_core::contracts::ReasonCode;
use kailo_core::governance::Refusal;
use kailo_core::roles::{
    member_revoke_gate, role_change_gate, role_member_view, target_id, would_empty, EnabledRoleActions, RoleTemplate,
};

fn t(object: &str, rels: &[&str]) -> RoleTemplate {
    RoleTemplate {
        role_key: "R".into(),
        object_type: object.into(),
        relations: rels.iter().map(|s| s.to_string()).collect(),
    }
}

#[test]
fn last_admin_is_the_only_emptying_change() {
    let (a, b) = (uuid::Uuid::new_v4().as_u128(), uuid::Uuid::new_v4().as_u128());
    assert!(would_empty(&[a], a));
    assert!(!would_empty(&[a, b], a));
    assert!(!would_empty(&[a], b));
    assert!(!would_empty(&[], b));
}

#[test]
fn target_id_is_stable_per_tuple() {
    let (o, p) = (uuid::Uuid::new_v4().as_u128(), uuid::Uuid::new_v4().as_u128());
    let admin = t("tenant", &["admin"]);
    assert_eq!(target_id(&admin, o, p), target_id(&admin, o, p));
    assert_ne!(target_id(&admin, o, p), target_id(&admin, o, uuid::Uuid::new_v4().as_u128()));
    let mut other = admin.clone();
    other.role_key = "OTHER".into();
    assert_ne!(target_id(&admin, o, p), target_id(&other, o, p));
}

#[test]
fn only_tenant_admin_grants_manage() {
    assert!(t("tenant", &["admin"]).grants_tenant_manage());
    assert!(!t("workspace", &["admin"]).grants_tenant_manage());
    assert!(!t("tenant", &["auditor"]).grants_tenant_manage());
}

#[test]
fn role_target_id_is_the_v5_name_of_the_tuple() {
    let object = 0x0123_4567_89ab_cdef_0123_4567_89ab_cdef_u128;
    let principal = 0xfedc_ba98_7654_3210_fedc_ba98_7654_3210_u128;
    let id = target_id(&t("tenant", &["admin"]), object, principal);
    // version 5, RFC 4122 variant
    assert_eq!((id >> 76) & 0xf, 5);
    assert_eq!((id >> 62) & 0x3, 0b10);
    assert_ne!(id, object);
    assert_ne!(id, principal);
}

#[test]
fn revoking_the_last_admin_is_refused_and_others_pass() {
    let (a, b) = (1u128, 2u128);
    assert_eq!(
        role_change_gate(false, true, true, &[a], a),
        Err(Refusal::Precondition(ReasonCode::LastTenantAdmin))
    );
    assert_eq!(role_change_gate(false, true, true, &[a, b], a), Ok(()));
    assert_eq!(role_change_gate(false, true, false, &[a], a), Ok(()));
    assert_eq!(
        role_change_gate(true, true, true, &[a], a),
        Err(Refusal::Conflict(ReasonCode::TargetStateConflict))
    );
    assert_eq!(role_change_gate(true, false, true, &[a], b), Ok(()));
    assert_eq!(
        role_change_gate(false, false, true, &[a], b),
        Err(Refusal::Precondition(ReasonCode::TargetNotFound))
    );
    assert_eq!(member_revoke_gate(&[a], a), Err(Refusal::Precondition(ReasonCode::LastTenantAdmin)));
    assert_eq!(member_revoke_gate(&[a, b], a), Ok(()));
    assert_eq!(member_revoke_gate(&[a, a], a), Err(Refusal::Precondition(ReasonCode::LastTenantAdmin)));
}

#[test]
fn sole_admin_gets_no_revoke_button() {
    let enabled = EnabledRoleActions { tenant_grant: true, tenant_revoke: true, workspace_grant: true, workspace_revoke: true };
    let v = role_member_view(7, &[7], &[], &[7], true, false, &enabled);
    assert!(v.tenant_admin);
    assert!(v.last_tenant_admin);
    assert!(!v.can_revoke_tenant_admin);
    assert!(!v.can_grant_tenant_admin);
    assert!(!v.can_grant_workspace_admin);
    let w = role_member_view(8, &[7, 8], &[8], &[7, 8], true, true, &enabled);
    assert!(w.can_revoke_tenant_admin);
    assert!(!w.last_tenant_admin);
    assert!(w.can_revoke_workspace_admin);
    let x = role_member_view(9, &[7], &[], &[7], true, true, &enabled);
    assert!(x.can_grant_tenant_admin && x.can_grant_workspace_admin);
}
