use kailo_core::contracts::{ActionGateState, AuditEventType, ReasonCode};
use kailo_core::governance::Refusal;
use kailo_core::invitation::{
    invitation_link, invitation_status, issued_or_refusal, redeem_plan, redeem_write_result, redemption_request,
    redemption_status, refused_redemption_event, revoke_result, HeldMembership, MatchedInvitation, RedeemPlan,
    TenantInvitationStatus,
};

fn matched(state: &str, live: bool) -> MatchedInvitation {
    MatchedInvitation {
        id: 10,
        tenant_id: 1,
        inviter_principal_id: 2,
        state: state.into(),
        live,
        redeemed_human_identity_id: None,
        admit_action_execution_id: None,
        tenant_state: "ACTIVE".into(),
    }
}

fn held(tenant: u128, state: &str) -> HeldMembership {
    HeldMembership { tenant_id: tenant, id: 100 + tenant, principal_id: 200 + tenant, state: state.into(), version: 4 }
}

#[test]
fn only_an_issued_live_invitation_is_redeemable() {
    assert_eq!(issued_or_refusal("ISSUED", true), Ok(()));
    assert_eq!(issued_or_refusal("ISSUED", false), Err(Refusal::Conflict(ReasonCode::InvitationExpired)));
    assert_eq!(issued_or_refusal("REDEEMED", true), Err(Refusal::Conflict(ReasonCode::InvitationAlreadyRedeemed)));
    assert_eq!(issued_or_refusal("REVOKED", false), Err(Refusal::Conflict(ReasonCode::InvitationRevoked)));
    assert_eq!(
        issued_or_refusal("PAUSED", true),
        Err(Refusal::Unavailable("邀请状态 PAUSED 不在状态机内".into()))
    );
}

#[test]
fn redemption_order_of_checks() {
    assert_eq!(redeem_plan(&None, None, &[]), Err(Refusal::Precondition(ReasonCode::InvitationNotFound)));
    let m = Some(matched("ISSUED", true));
    assert_eq!(redeem_plan(&m, Some((5, false)), &[]), Err(Refusal::Denied(ReasonCode::IdentityUnknown)));
    assert_eq!(redeem_plan(&m, None, &[]), Ok(RedeemPlan::Create));
    assert_eq!(redeem_plan(&m, Some((5, true)), &[]), Ok(RedeemPlan::Create));
    let expired = Some(matched("ISSUED", false));
    assert_eq!(redeem_plan(&expired, Some((5, true)), &[]), Err(Refusal::Conflict(ReasonCode::InvitationExpired)));
    let mut closed = matched("ISSUED", true);
    closed.tenant_state = "SUSPENDED".into();
    assert_eq!(redeem_plan(&Some(closed), None, &[]), Err(Refusal::Conflict(ReasonCode::TargetStateConflict)));
    let odd = Some(matched("LOST", true));
    assert!(matches!(redeem_plan(&odd, None, &[]), Err(Refusal::Unavailable(_))));
}

#[test]
fn a_repeated_redemption_answers_the_original_result() {
    let mut m = matched("REDEEMED", false);
    m.redeemed_human_identity_id = Some(5);
    m.admit_action_execution_id = Some(99);
    let m = Some(m);
    assert_eq!(redeem_plan(&m, Some((5, true)), &[]), Ok(RedeemPlan::Replay { invitation: 10, admission: 99 }));
    assert_eq!(
        redeem_plan(&m, Some((6, true)), &[]),
        Err(Refusal::Conflict(ReasonCode::InvitationAlreadyRedeemed))
    );
    assert_eq!(redeem_plan(&m, None, &[]), Err(Refusal::Conflict(ReasonCode::InvitationAlreadyRedeemed)));
}

#[test]
fn existing_memberships_decide_reuse_or_refusal() {
    let m = Some(matched("ISSUED", true));
    let k = Some((5, true));
    assert_eq!(
        redeem_plan(&m, k, &[held(1, "REVOKED")]),
        Ok(RedeemPlan::Restore { membership: 101, principal: 201, version: 4 })
    );
    assert_eq!(
        redeem_plan(&m, k, &[held(1, "ACTIVE")]),
        Err(Refusal::Conflict(ReasonCode::InviteeAlreadyMember))
    );
    assert_eq!(
        redeem_plan(&m, k, &[held(3, "ACTIVE")]),
        Err(Refusal::Blocked(ReasonCode::TenantSelectionNotAvailable))
    );
    assert_eq!(redeem_plan(&m, k, &[held(3, "REVOKED")]), Ok(RedeemPlan::Create));
    // the first offending row decides
    assert_eq!(
        redeem_plan(&m, k, &[held(3, "ACTIVE"), held(1, "ACTIVE")]),
        Err(Refusal::Blocked(ReasonCode::TenantSelectionNotAvailable))
    );
}

#[test]
fn redemption_requests_are_checked_before_lookup() {
    let iss = "https://idp";
    assert_eq!(
        redemption_request(None, Some("s"), Some(("c", "n")), iss),
        Err(Refusal::Denied(ReasonCode::IdentityHeaderMissing))
    );
    assert_eq!(
        redemption_request(Some(""), Some("s"), Some(("c", "n")), iss),
        Err(Refusal::Denied(ReasonCode::IdentityHeaderMissing))
    );
    assert_eq!(
        redemption_request(Some(iss), Some("s"), None, iss),
        Err(Refusal::Precondition(ReasonCode::InvalidParameters))
    );
    assert_eq!(
        redemption_request(Some(iss), Some("s"), Some(("", "n")), iss),
        Err(Refusal::Precondition(ReasonCode::InvalidParameters))
    );
    assert_eq!(
        redemption_request(Some(iss), Some("s"), Some(("c", " \t ")), iss),
        Err(Refusal::Precondition(ReasonCode::InvalidParameters))
    );
    assert_eq!(
        redemption_request(Some("https://other"), Some("s"), Some(("c", "n")), iss),
        Err(Refusal::Denied(ReasonCode::IdentityUnknown))
    );
    assert_eq!(redemption_request(Some(iss), Some("s"), Some(("c", "  Ann Lee ")), iss), Ok("Ann Lee".to_owned()));
}

#[test]
fn invitation_views_and_answers() {
    assert_eq!(invitation_link("https://web/invite", "abc"), "https://web/invite#abc");
    assert_eq!(invitation_status("ISSUED", true), Some(TenantInvitationStatus::Issued));
    assert_eq!(invitation_status("ISSUED", false), Some(TenantInvitationStatus::Expired));
    assert_eq!(invitation_status("REDEEMED", false), Some(TenantInvitationStatus::Redeemed));
    assert_eq!(invitation_status("REVOKED", true), Some(TenantInvitationStatus::Revoked));
    assert_eq!(invitation_status("OTHER", true), None);
    assert_eq!(TenantInvitationStatus::Expired.wire(), "EXPIRED");
    assert_eq!(redemption_status(ActionGateState::Evaluating), 202);
    assert_eq!(redemption_status(ActionGateState::Allowed), 200);
    assert_eq!(redemption_status(ActionGateState::Denied), 200);
    assert_eq!(refused_redemption_event(true), AuditEventType::Decision);
    assert_eq!(refused_redemption_event(false), AuditEventType::Authentication);
    assert_eq!(revoke_result(0), Err(Refusal::Conflict(ReasonCode::InvitationExpired)));
    assert_eq!(revoke_result(1), Ok(()));
    assert_eq!(redeem_write_result(1), Ok(()));
    assert_eq!(redeem_write_result(0), Err(Refusal::Conflict(ReasonCode::InvitationExpired)));
}
