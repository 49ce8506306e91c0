//! Closed enums of the service contracts and their wire values.
//!
//! Every enum here crosses the API, the database and the workflow history as
//! its SCREAMING_SNAKE wire value; `wire` and `from_wire` are the only
//! conversions, and each reads back what it wrote.

use vstd::prelude::*;

use crate::text::text_eq;

verus! {

/// Error classification: every API error, workflow failure and UI state falls in exactly one.
#[derive(Debug, Clone, Copy, PartialEq, Eq, Structural)]
pub enum ErrorClass {
    Blocked,
    Conflict,
    Denied,
    Limit,
    Precondition,
    Unknown,
}

impl ErrorClass {
    /// The wire value of this variant.
    pub open spec fn wire_text(self) -> Seq<char> {
        match self {
            ErrorClass::Blocked => "BLOCKED"@,
            ErrorClass::Conflict => "CONFLICT"@,
            ErrorClass::Denied => "DENIED"@,
            ErrorClass::Limit => "LIMIT"@,
            ErrorClass::Precondition => "PRECONDITION"@,
            ErrorClass::Unknown => "UNKNOWN"@,
        }
    }

    /// The variant whose wire value is `s`, if any.
    pub open spec fn from_wire_text(s: Seq<char>) -> Option<Self> {
        if s == "BLOCKED"@ {
            Some(ErrorClass::Blocked)
        } else if s == "CONFLICT"@ {
            Some(ErrorClass::Conflict)
        } else if s == "DENIED"@ {
            Some(ErrorClass::Denied)
        } else if s == "LIMIT"@ {
            Some(ErrorClass::Limit)
        } else if s == "PRECONDITION"@ {
            Some(ErrorClass::Precondition)
        } else if s == "UNKNOWN"@ {
            Some(ErrorClass::Unknown)
        } else {
            None
        }
    }

    /// The wire value of this variant.
    pub fn wire(&self) -> (r: &'static str)
        ensures
            r@ == self.wire_text(),
    {
        match self {
            ErrorClass::Blocked => "BLOCKED",
            ErrorClass::Conflict => "CONFLICT",
            ErrorClass::Denied => "DENIED",
            ErrorClass::Limit => "LIMIT",
            ErrorClass::Precondition => "PRECONDITION",
            ErrorClass::Unknown => "UNKNOWN",
        }
    }

    /// Reads a wire value back; `None` for a value outside the enum.
    pub fn from_wire(s: &str) -> (r: Option<Self>)
        ensures
            r == Self::from_wire_text(s@),
    {
        if text_eq(s, "BLOCKED") {
            Some(ErrorClass::Blocked)
        } else if text_eq(s, "CONFLICT") {
            Some(ErrorClass::Conflict)
        } else if text_eq(s, "DENIED") {
            Some(ErrorClass::Denied)
        } else if text_eq(s, "LIMIT") {
            Some(ErrorClass::Limit)
        } else if text_eq(s, "PRECONDITION") {
            Some(ErrorClass::Precondition)
        } else if text_eq(s, "UNKNOWN") {
            Some(ErrorClass::Unknown)
        } else {
            None
        }
    }
}

/// Reading back the wire value of any `ErrorClass` gives that variant.
pub proof fn lemma_error_class_wire_roundtrip(x: ErrorClass)
    ensures
        ErrorClass::from_wire_text(x.wire_text()) == Some(x),
{
    reveal_strlit("BLOCKED");
    assert("BLOCKED"@.len() == 7);
    reveal_strlit("CONFLICT");
    assert("CONFLICT"@.len() == 8);
    reveal_strlit("DENIED");
    assert("DENIED"@.len() == 6);
    reveal_strlit("LIMIT");
    assert("LIMIT"@.len() == 5);
    reveal_strlit("PRECONDITION");
    assert("PRECONDITION"@.len() == 12);
    reveal_strlit("UNKNOWN");
    assert("UNKNOWN"@.len() == 7);
    match x {
        ErrorClass::Blocked => {
        },
        ErrorClass::Conflict => {
        },
        ErrorClass::Denied => {
        },
        ErrorClass::Limit => {
        },
        ErrorClass::Precondition => {
        },
        ErrorClass::Unknown => {
            assert("UNKNOWN"@[0] == 'U' && "BLOCKED"@[0] == 'B');
        },
    }
}

/// Capability state; a BLOCKED capability yields no entry point of any kind.
#[derive(Debug, Clone, Copy, PartialEq, Eq, Structural)]
pub enum CapabilityState {
    AdapterRequired,
    Blocked,
    DesignDefined,
    Excluded,
    UpstreamSupported,
}

impl CapabilityState {
    /// The wire value of this variant.
    pub open spec fn wire_text(self) -> Seq<char> {
        match self {
            CapabilityState::AdapterRequired => "ADAPTER_REQUIRED"@,
            CapabilityState::Blocked => "BLOCKED"@,
            CapabilityState::DesignDefined => "DESIGN_DEFINED"@,
            CapabilityState::Excluded => "EXCLUDED"@,
            CapabilityState::UpstreamSupported => "UPSTREAM_SUPPORTED"@,
        }
    }

    /// The variant whose wire value is `s`, if any.
    pub open spec fn from_wire_text(s: Seq<char>) -> Option<Self> {
        if s == "ADAPTER_REQUIRED"@ {
            Some(CapabilityState::AdapterRequired)
        } else if s == "BLOCKED"@ {
            Some(CapabilityState::Blocked)
        } else if s == "DESIGN_DEFINED"@ {
            Some(CapabilityState::DesignDefined)
        } else if s == "EXCLUDED"@ {
            Some(CapabilityState::Excluded)
        } else if s == "UPSTREAM_SUPPORTED"@ {
            Some(CapabilityState::UpstreamSupported)
        } else {
            None
        }
    }

    /// The wire value of this variant.
    pub fn wire(&self) -> (r: &'static str)
        ensures
            r@ == self.wire_text(),
    {
        match self {
            CapabilityState::AdapterRequired => "ADAPTER_REQUIRED",
            CapabilityState::Blocked => "BLOCKED",
            CapabilityState::DesignDefined => "DESIGN_DEFINED",
            CapabilityState::Excluded => "EXCLUDED",
            CapabilityState::UpstreamSupported => "UPSTREAM_SUPPORTED",
        }
    }

    /// Reads a wire value back; `None` for a value outside the enum.
    pub fn from_wire(s: &str) -> (r: Option<Self>)
        ensures
            r == Self::from_wire_text(s@),
    {
        if text_eq(s, "ADAPTER_REQUIRED") {
            Some(CapabilityState::AdapterRequired)
        } else if text_eq(s, "BLOCKED") {
            Some(CapabilityState::Blocked)
        } else if text_eq(s, "DESIGN_DEFINED") {
            Some(CapabilityState::DesignDefined)
        } else if text_eq(s, "EXCLUDED") {
            Some(CapabilityState::Excluded)
        } else if text_eq(s, "UPSTREAM_SUPPORTED") {
            Some(CapabilityState::UpstreamSupported)
        } else {
            None
        }
    }
}

/// Reading back the wire value of any `CapabilityState` gives that variant.
pub proof fn lemma_capability_state_wire_roundtrip(x: CapabilityState)
    ensures
        CapabilityState::from_wire_text(x.wire_text()) == Some(x),
{
    reveal_strlit("ADAPTER_REQUIRED");
    assert("ADAPTER_REQUIRED"@.len() == 16);
    reveal_strlit("BLOCKED");
    assert("BLOCKED"@.len() == 7);
    reveal_strlit("DESIGN_DEFINED");
    assert("DESIGN_DEFINED"@.len() == 14);
    reveal_strlit("EXCLUDED");
    assert("EXCLUDED"@.len() == 8);
    reveal_strlit("UPSTREAM_SUPPORTED");
    assert("UPSTREAM_SUPPORTED"@.len() == 18);
    match x {
        CapabilityState::AdapterRequired => {
        },
        CapabilityState::Blocked => {
        },
        CapabilityState::DesignDefined => {
        },
        CapabilityState::Excluded => {
        },
        CapabilityState::UpstreamSupported => {
        },
    }
}

/// Kind of a canary variant.
#[derive(Debug, Clone, Copy, PartialEq, Eq, Structural)]
pub enum Kind {
    File,
    Message,
    Task,
}

impl Kind {
    /// The wire value of this variant.
    pub open spec fn wire_text(self) -> Seq<char> {
        match self {
            Kind::File => "FILE"@,
            Kind::Message => "MESSAGE"@,
            Kind::Task => "TASK"@,
        }
    }

    /// The variant whose wire value is `s`, if any.
    pub open spec fn from_wire_text(s: Seq<char>) -> Option<Self> {
        if s == "FILE"@ {
            Some(Kind::File)
        } else if s == "MESSAGE"@ {
            Some(Kind::Message)
        } else if s == "TASK"@ {
            Some(Kind::Task)
        } else {
            None
        }
    }

    /// The wire value of this variant.
    pub fn wire(&self) -> (r: &'static str)
        ensures
            r@ == self.wire_text(),
    {
        match self {
            Kind::File => "FILE",
            Kind::Message => "MESSAGE",
            Kind::Task => "TASK",
        }
    }

    /// Reads a wire value back; `None` for a value outside the enum.
    pub fn from_wire(s: &str) -> (r: Option<Self>)
        ensures
            r == Self::from_wire_text(s@),
    {
        if text_eq(s, "FILE") {
            Some(Kind::File)
        } else if text_eq(s, "MESSAGE") {
            Some(Kind::Message)
        } else if text_eq(s, "TASK") {
            Some(Kind::Task)
        } else {
            None
        }
    }
}

/// Reading back the wire value of any `Kind` gives that variant.
pub proof fn lemma_kind_wire_roundtrip(x: Kind)
    ensures
        Kind::from_wire_text(x.wire_text()) == Some(x),
{
    reveal_strlit("FILE");
    assert("FILE"@.len() == 4);
    reveal_strlit("MESSAGE");
    assert("MESSAGE"@.len() == 7);
    reveal_strlit("TASK");
    assert("TASK"@.len() == 4);
    match x {
        Kind::File => {
        },
        Kind::Message => {
        },
        Kind::Task => {
            assert("TASK"@[0] == 'T' && "FILE"@[0] == 'F');
        },
    }
}

/// Dispatch state of an ActionExecution: whether the side effect happened.
#[derive(Debug, Clone, Copy, PartialEq, Eq, Structural)]
pub enum ActionDispatchState {
    Aborted,
    Dispatched,
    NotDispatched,
    Unknown,
}

impl ActionDispatchState {
    /// The wire value of this variant.
    pub open spec fn wire_text(self) -> Seq<char> {
        match self {
            ActionDispatchState::Aborted => "ABORTED"@,
            ActionDispatchState::Dispatched => "DISPATCHED"@,
            ActionDispatchState::NotDispatched => "NOT_DISPATCHED"@,
            ActionDispatchState::Unknown => "UNKNOWN"@,
        }
    }

    /// The variant whose wire value is `s`, if any.
    pub open spec fn from_wire_text(s: Seq<char>) -> Option<Self> {
        if s == "ABORTED"@ {
            Some(ActionDispatchState::Aborted)
        } else if s == "DISPATCHED"@ {
            Some(ActionDispatchState::Dispatched)
        } else if s == "NOT_DISPATCHED"@ {
            Some(ActionDispatchState::NotDispatched)
        } else if s == "UNKNOWN"@ {
            Some(ActionDispatchState::Unknown)
        } else {
            None
        }
    }

    /// The wire value of this variant.
    pub fn wire(&self) -> (r: &'static str)
        ensures
            r@ == self.wire_text(),
    {
        match self {
            ActionDispatchState::Aborted => "ABORTED",
            ActionDispatchState::Dispatched => "DISPATCHED",
            ActionDispatchState::NotDispatched => "NOT_DISPATCHED",
            ActionDispatchState::Unknown => "UNKNOWN",
        }
    }

    /// Reads a wire value back; `None` for a value outside the enum.
    pub fn from_wire(s: &str) -> (r: Option<Self>)
        ensures
            r == Self::from_wire_text(s@),
    {
        if text_eq(s, "ABORTED") {
            Some(ActionDispatchState::Aborted)
        } else if text_eq(s, "DISPATCHED") {
            Some(ActionDispatchState::Dispatched)
        } else if text_eq(s, "NOT_DISPATCHED") {
            Some(ActionDispatchState::NotDispatched)
        } else if text_eq(s, "UNKNOWN") {
            Some(ActionDispatchState::Unknown)
        } else {
            None
        }
    }
}

/// Reading back the wire value of any `ActionDispatchState` gives that variant.
pub proof fn lemma_action_dispatch_state_wire_roundtrip(x: ActionDispatchState)
    ensures
        ActionDispatchState::from_wire_text(x.wire_text()) == Some(x),
{
    reveal_strlit("ABORTED");
    assert("ABORTED"@.len() == 7);
    reveal_strlit("DISPATCHED");
    assert("DISPATCHED"@.len() == 10);
    reveal_strlit("NOT_DISPATCHED");
    assert("NOT_DISPATCHED"@.len() == 14);
    reveal_strlit("UNKNOWN");
    assert("UNKNOWN"@.len() == 7);
    match x {
        ActionDispatchState::Aborted => {
        },
        ActionDispatchState::Dispatched => {
        },
        ActionDispatchState::NotDispatched => {
        },
        ActionDispatchState::Unknown => {
            assert("UNKNOWN"@[0] == 'U' && "ABORTED"@[0] == 'A');
        },
    }
}

/// Admission gate state of an ActionExecution: whether the action is allowed.
#[derive(Debug, Clone, Copy, PartialEq, Eq, Structural)]
pub enum ActionGateState {
    Allowed,
    Denied,
    Evaluating,
    Expired,
    Revoked,
    Waiting,
}

impl ActionGateState {
    /// The wire value of this variant.
    pub open spec fn wire_text(self) -> Seq<char> {
        match self {
            ActionGateState::Allowed => "ALLOWED"@,
            ActionGateState::Denied => "DENIED"@,
            ActionGateState::Evaluating => "EVALUATING"@,
            ActionGateState::Expired => "EXPIRED"@,
            ActionGateState::Revoked => "REVOKED"@,
            ActionGateState::Waiting => "WAITING"@,
        }
    }

    /// The variant whose wire value is `s`, if any.
    pub open spec fn from_wire_text(s: Seq<char>) -> Option<Self> {
        if s == "ALLOWED"@ {
            Some(ActionGateState::Allowed)
        } else if s == "DENIED"@ {
            Some(ActionGateState::Denied)
        } else if s == "EVALUATING"@ {
            Some(ActionGateState::Evaluating)
        } else if s == "EXPIRED"@ {
            Some(ActionGateState::Expired)
        } else if s == "REVOKED"@ {
            Some(ActionGateState::Revoked)
        } else if s == "WAITING"@ {
            Some(ActionGateState::Waiting)
        } else {
            None
        }
    }

    /// The wire value of this variant.
    pub fn wire(&self) -> (r: &'static str)
        ensures
            r@ == self.wire_text(),
    {
        match self {
            ActionGateState::Allowed => "ALLOWED",
            ActionGateState::Denied => "DENIED",
            ActionGateState::Evaluating => "EVALUATING",
            ActionGateState::Expired => "EXPIRED",
            ActionGateState::Revoked => "REVOKED",
            ActionGateState::Waiting => "WAITING",
        }
    }

    /// Reads a wire value back; `None` for a value outside the enum.
    pub fn from_wire(s: &str) -> (r: Option<Self>)
        ensures
            r == Self::from_wire_text(s@),
    {
        if text_eq(s, "ALLOWED") {
            Some(ActionGateState::Allowed)
        } else if text_eq(s, "DENIED") {
            Some(ActionGateState::Denied)
        } else if text_eq(s, "EVALUATING") {
            Some(ActionGateState::Evaluating)
        } else if text_eq(s, "EXPIRED") {
            Some(ActionGateState::Expired)
        } else if text_eq(s, "REVOKED") {
            Some(ActionGateState::Revoked)
        } else if text_eq(s, "WAITING") {
            Some(ActionGateState::Waiting)
        } else {
            None
        }
    }
}

/// Reading back the wire value of any `ActionGateState` gives that variant.
pub proof fn lemma_action_gate_state_wire_roundtrip(x: ActionGateState)
    ensures
        ActionGateState::from_wire_text(x.wire_text()) == Some(x),
{
    reveal_strlit("ALLOWED");
    assert("ALLOWED"@.len() == 7);
    reveal_strlit("DENIED");
    assert("DENIED"@.len() == 6);
    reveal_strlit("EVALUATING");
    assert("EVALUATING"@.len() == 10);
    reveal_strlit("EXPIRED");
    assert("EXPIRED"@.len() == 7);
    reveal_strlit("REVOKED");
    assert("REVOKED"@.len() == 7);
    reveal_strlit("WAITING");
    assert("WAITING"@.len() == 7);
    match x {
        ActionGateState::Allowed => {
        },
        ActionGateState::Denied => {
        },
        ActionGateState::Evaluating => {
        },
        ActionGateState::Expired => {
            assert("EXPIRED"@[0] == 'E' && "ALLOWED"@[0] == 'A');
        },
        ActionGateState::Revoked => {
            assert("REVOKED"@[0] == 'R' && "ALLOWED"@[0] == 'A');
            assert("REVOKED"@[0] == 'R' && "EXPIRED"@[0] == 'E');
        },
        ActionGateState::Waiting => {
            assert("WAITING"@[0] == 'W' && "ALLOWED"@[0] == 'A');
            assert("WAITING"@[0] == 'W' && "EXPIRED"@[0] == 'E');
            assert("WAITING"@[0] == 'W' && "REVOKED"@[0] == 'R');
        },
    }
}

/// Stable business reason code carried by audit, UI and alerts.
#[derive(Debug, Clone, Copy, PartialEq, Eq, Structural)]
pub enum ReasonCode {
    AdmissionAbandoned,
    ApprovalConsumeWindowClosed,
    ApprovalDenied,
    ApprovalExpired,
    ApprovalInvalidated,
    ApprovalNotOpen,
    ApprovalSelectorUnresolvable,
    ApprovalWithdrawn,
    ApproverNotEligible,
    CapabilityBlocked,
    ClientKeyAlreadyBound,
    ClientKeyLimitReached,
    ClientKeyNotFound,
    ClientKeyProofInvalid,
    DependencyUnavailable,
    DispatchResultUnknown,
    DuplicateDecision,
    ExternalResultUnknown,
    IdempotencyKeyReused,
    IdentityHeaderMissing,
    IdentityUnknown,
    InvalidParameters,
    InvitationAlreadyRedeemed,
    InvitationExpired,
    InvitationNotFound,
    InvitationRevoked,
    InviteeAlreadyMember,
    LastTenantAdmin,
    NativeSurfaceRequired,
    PermissionDenied,
    ProjectionDelayed,
    PublishRejected,
    PublishResultUnknown,
    ScopeGuardFailed,
    SelfApprovalDenied,
    SessionNotActive,
    SurfaceCapabilityUnavailable,
    TargetNotFound,
    TargetStateConflict,
    TenantMembershipNotActive,
    TenantSelectionNotAvailable,
    WaitingApproval,
}

impl ReasonCode {
    /// The wire value of this variant.
    pub open spec fn wire_text(self) -> Seq<char> {
        match self {
            ReasonCode::AdmissionAbandoned => "ADMISSION_ABANDONED"@,
            ReasonCode::ApprovalConsumeWindowClosed => "APPROVAL_CONSUME_WINDOW_CLOSED"@,
            ReasonCode::ApprovalDenied => "APPROVAL_DENIED"@,
            ReasonCode::ApprovalExpired => "APPROVAL_EXPIRED"@,
            ReasonCode::ApprovalInvalidated => "APPROVAL_INVALIDATED"@,
            ReasonCode::ApprovalNotOpen => "APPROVAL_NOT_OPEN"@,
            ReasonCode::ApprovalSelectorUnresolvable => "APPROVAL_SELECTOR_UNRESOLVABLE"@,
            ReasonCode::ApprovalWithdrawn => "APPROVAL_WITHDRAWN"@,
            ReasonCode::ApproverNotEligible => "APPROVER_NOT_ELIGIBLE"@,
            ReasonCode::CapabilityBlocked => "CAPABILITY_BLOCKED"@,
            ReasonCode::ClientKeyAlreadyBound => "CLIENT_KEY_ALREADY_BOUND"@,
            ReasonCode::ClientKeyLimitReached => "CLIENT_KEY_LIMIT_REACHED"@,
            ReasonCode::ClientKeyNotFound => "CLIENT_KEY_NOT_FOUND"@,
            ReasonCode::ClientKeyProofInvalid => "CLIENT_KEY_PROOF_INVALID"@,
            ReasonCode::DependencyUnavailable => "DEPENDENCY_UNAVAILABLE"@,
            ReasonCode::DispatchResultUnknown => "DISPATCH_RESULT_UNKNOWN"@,
            ReasonCode::DuplicateDecision => "DUPLICATE_DECISION"@,
            ReasonCode::ExternalResultUnknown => "EXTERNAL_RESULT_UNKNOWN"@,
            ReasonCode::IdempotencyKeyReused => "IDEMPOTENCY_KEY_REUSED"@,
            ReasonCode::IdentityHeaderMissing => "IDENTITY_HEADER_MISSING"@,
            ReasonCode::IdentityUnknown => "IDENTITY_UNKNOWN"@,
            ReasonCode::InvalidParameters => "INVALID_PARAMETERS"@,
            ReasonCode::InvitationAlreadyRedeemed => "INVITATION_ALREADY_REDEEMED"@,
            ReasonCode::InvitationExpired => "INVITATION_EXPIRED"@,
            ReasonCode::InvitationNotFound => "INVITATION_NOT_FOUND"@,
            ReasonCode::InvitationRevoked => "INVITATION_REVOKED"@,
            ReasonCode::InviteeAlreadyMember => "INVITEE_ALREADY_MEMBER"@,
            ReasonCode::LastTenantAdmin => "LAST_TENANT_ADMIN"@,
            ReasonCode::NativeSurfaceRequired => "NATIVE_SURFACE_REQUIRED"@,
            ReasonCode::PermissionDenied => "PERMISSION_DENIED"@,
            ReasonCode::ProjectionDelayed => "PROJECTION_DELAYED"@,
            ReasonCode::PublishRejected => "PUBLISH_REJECTED"@,
            ReasonCode::PublishResultUnknown => "PUBLISH_RESULT_UNKNOWN"@,
            ReasonCode::ScopeGuardFailed => "SCOPE_GUARD_FAILED"@,
            ReasonCode::SelfApprovalDenied => "SELF_APPROVAL_DENIED"@,
            ReasonCode::SessionNotActive => "SESSION_NOT_ACTIVE"@,
            ReasonCode::SurfaceCapabilityUnavailable => "SURFACE_CAPABILITY_UNAVAILABLE"@,
            ReasonCode::TargetNotFound => "TARGET_NOT_FOUND"@,
            ReasonCode::TargetStateConflict => "TARGET_STATE_CONFLICT"@,
            ReasonCode::TenantMembershipNotActive => "TENANT_MEMBERSHIP_NOT_ACTIVE"@,
            ReasonCode::TenantSelectionNotAvailable => "TENANT_SELECTION_NOT_AVAILABLE"@,
            ReasonCode::WaitingApproval => "WAITING_APPROVAL"@,
        }
    }

    /// The variant whose wire value is `s`, if any.
    pub open spec fn from_wire_text(s: Seq<char>) -> Option<Self> {
        if s == "ADMISSION_ABANDONED"@ {
            Some(ReasonCode::AdmissionAbandoned)
        } else if s == "APPROVAL_CONSUME_WINDOW_CLOSED"@ {
            Some(ReasonCode::ApprovalConsumeWindowClosed)
        } else if s == "APPROVAL_DENIED"@ {
            Some(ReasonCode::ApprovalDenied)
        } else if s == "APPROVAL_EXPIRED"@ {
            Some(ReasonCode::ApprovalExpired)
        } else if s == "APPROVAL_INVALIDATED"@ {
            Some(ReasonCode::ApprovalInvalidated)
        } else if s == "APPROVAL_NOT_OPEN"@ {
            Some(ReasonCode::ApprovalNotOpen)
        } else if s == "APPROVAL_SELECTOR_UNRESOLVABLE"@ {
            Some(ReasonCode::ApprovalSelectorUnresolvable)
        } else if s == "APPROVAL_WITHDRAWN"@ {
            Some(ReasonCode::ApprovalWithdrawn)
        } else if s == "APPROVER_NOT_ELIGIBLE"@ {
            Some(ReasonCode::ApproverNotEligible)
        } else if s == "CAPABILITY_BLOCKED"@ {
            Some(ReasonCode::CapabilityBlocked)
        } else if s == "CLIENT_KEY_ALREADY_BOUND"@ {
            Some(ReasonCode::ClientKeyAlreadyBound)
        } else if s == "CLIENT_KEY_LIMIT_REACHED"@ {
            Some(ReasonCode::ClientKeyLimitReached)
        } else if s == "CLIENT_KEY_NOT_FOUND"@ {
            Some(ReasonCode::ClientKeyNotFound)
        } else if s == "CLIENT_KEY_PROOF_INVALID"@ {
            Some(ReasonCode::ClientKeyProofInvalid)
        } else if s == "DEPENDENCY_UNAVAILABLE"@ {
            Some(ReasonCode::DependencyUnavailable)
        } else if s == "DISPATCH_RESULT_UNKNOWN"@ {
            Some(ReasonCode::DispatchResultUnknown)
        } else if s == "DUPLICATE_DECISION"@ {
            Some(ReasonCode::DuplicateDecision)
        } else if s == "EXTERNAL_RESULT_UNKNOWN"@ {
            Some(ReasonCode::ExternalResultUnknown)
        } else if s == "IDEMPOTENCY_KEY_REUSED"@ {
            Some(ReasonCode::IdempotencyKeyReused)
        } else if s == "IDENTITY_HEADER_MISSING"@ {
            Some(ReasonCode::IdentityHeaderMissing)
        } else if s == "IDENTITY_UNKNOWN"@ {
            Some(ReasonCode::IdentityUnknown)
        } else if s == "INVALID_PARAMETERS"@ {
            Some(ReasonCode::InvalidParameters)
        } else if s == "INVITATION_ALREADY_REDEEMED"@ {
            Some(ReasonCode::InvitationAlreadyRedeemed)
        } else if s == "INVITATION_EXPIRED"@ {
            Some(ReasonCode::InvitationExpired)
        } else if s == "INVITATION_NOT_FOUND"@ {
            Some(ReasonCode::InvitationNotFound)
        } else if s == "INVITATION_REVOKED"@ {
            Some(ReasonCode::InvitationRevoked)
        } else if s == "INVITEE_ALREADY_MEMBER"@ {
            Some(ReasonCode::InviteeAlreadyMember)
        } else if s == "LAST_TENANT_ADMIN"@ {
            Some(ReasonCode::LastTenantAdmin)
        } else if s == "NATIVE_SURFACE_REQUIRED"@ {
            Some(ReasonCode::NativeSurfaceRequired)
        } else if s == "PERMISSION_DENIED"@ {
            Some(ReasonCode::PermissionDenied)
        } else if s == "PROJECTION_DELAYED"@ {
            Some(ReasonCode::ProjectionDelayed)
        } else if s == "PUBLISH_REJECTED"@ {
            Some(ReasonCode::PublishRejected)
        } else if s == "PUBLISH_RESULT_UNKNOWN"@ {
            Some(ReasonCode::PublishResultUnknown)
        } else if s == "SCOPE_GUARD_FAILED"@ {
            Some(ReasonCode::ScopeGuardFailed)
        } else if s == "SELF_APPROVAL_DENIED"@ {
            Some(ReasonCode::SelfApprovalDenied)
        } else if s == "SESSION_NOT_ACTIVE"@ {
            Some(ReasonCode::SessionNotActive)
        } else if s == "SURFACE_CAPABILITY_UNAVAILABLE"@ {
            Some(ReasonCode::SurfaceCapabilityUnavailable)
        } else if s == "TARGET_NOT_FOUND"@ {
            Some(ReasonCode::TargetNotFound)
        } else if s == "TARGET_STATE_CONFLICT"@ {
            Some(ReasonCode::TargetStateConflict)
        } else if s == "TENANT_MEMBERSHIP_NOT_ACTIVE"@ {
            Some(ReasonCode::TenantMembershipNotActive)
        } else if s == "TENANT_SELECTION_NOT_AVAILABLE"@ {
            Some(ReasonCode::TenantSelectionNotAvailable)
        } else if s == "WAITING_APPROVAL"@ {
            Some(ReasonCode::WaitingApproval)
        } else {
            None
        }
    }

    /// The wire value of this variant.
    pub fn wire(&self) -> (r: &'static str)
        ensures
            r@ == self.wire_text(),
    {
        match self {
            ReasonCode::AdmissionAbandoned => "ADMISSION_ABANDONED",
            ReasonCode::ApprovalConsumeWindowClosed => "APPROVAL_CONSUME_WINDOW_CLOSED",
            ReasonCode::ApprovalDenied => "APPROVAL_DENIED",
            ReasonCode::ApprovalExpired => "APPROVAL_EXPIRED",
            ReasonCode::ApprovalInvalidated => "APPROVAL_INVALIDATED",
            ReasonCode::ApprovalNotOpen => "APPROVAL_NOT_OPEN",
            ReasonCode::ApprovalSelectorUnresolvable => "APPROVAL_SELECTOR_UNRESOLVABLE",
            ReasonCode::ApprovalWithdrawn => "APPROVAL_WITHDRAWN",
            ReasonCode::ApproverNotEligible => "APPROVER_NOT_ELIGIBLE",
            ReasonCode::CapabilityBlocked => "CAPABILITY_BLOCKED",
            ReasonCode::ClientKeyAlreadyBound => "CLIENT_KEY_ALREADY_BOUND",
            ReasonCode::ClientKeyLimitReached => "CLIENT_KEY_LIMIT_REACHED",
            ReasonCode::ClientKeyNotFound => "CLIENT_KEY_NOT_FOUND",
            ReasonCode::ClientKeyProofInvalid => "CLIENT_KEY_PROOF_INVALID",
            ReasonCode::DependencyUnavailable => "DEPENDENCY_UNAVAILABLE",
            ReasonCode::DispatchResultUnknown => "DISPATCH_RESULT_UNKNOWN",
            ReasonCode::DuplicateDecision => "DUPLICATE_DECISION",
            ReasonCode::ExternalResultUnknown => "EXTERNAL_RESULT_UNKNOWN",
            ReasonCode::IdempotencyKeyReused => "IDEMPOTENCY_KEY_REUSED",
            ReasonCode::IdentityHeaderMissing => "IDENTITY_HEADER_MISSING",
            ReasonCode::IdentityUnknown => "IDENTITY_UNKNOWN",
            ReasonCode::InvalidParameters => "INVALID_PARAMETERS",
            ReasonCode::InvitationAlreadyRedeemed => "INVITATION_ALREADY_REDEEMED",
            ReasonCode::InvitationExpired => "INVITATION_EXPIRED",
            ReasonCode::InvitationNotFound => "INVITATION_NOT_FOUND",
            ReasonCode::InvitationRevoked => "INVITATION_REVOKED",
            ReasonCode::InviteeAlreadyMember => "INVITEE_ALREADY_MEMBER",
            ReasonCode::LastTenantAdmin => "LAST_TENANT_ADMIN",
            ReasonCode::NativeSurfaceRequired => "NATIVE_SURFACE_REQUIRED",
            ReasonCode::PermissionDenied => "PERMISSION_DENIED",
            ReasonCode::ProjectionDelayed => "PROJECTION_DELAYED",
            ReasonCode::PublishRejected => "PUBLISH_REJECTED",
            ReasonCode::PublishResultUnknown => "PUBLISH_RESULT_UNKNOWN",
            ReasonCode::ScopeGuardFailed => "SCOPE_GUARD_FAILED",
            ReasonCode::SelfApprovalDenied => "SELF_APPROVAL_DENIED",
            ReasonCode::SessionNotActive => "SESSION_NOT_ACTIVE",
            ReasonCode::SurfaceCapabilityUnavailable => "SURFACE_CAPABILITY_UNAVAILABLE",
            ReasonCode::TargetNotFound => "TARGET_NOT_FOUND",
            ReasonCode::TargetStateConflict => "TARGET_STATE_CONFLICT",
            ReasonCode::TenantMembershipNotActive => "TENANT_MEMBERSHIP_NOT_ACTIVE",
            ReasonCode::TenantSelectionNotAvailable => "TENANT_SELECTION_NOT_AVAILABLE",
            ReasonCode::WaitingApproval => "WAITING_APPROVAL",
        }
    }

    /// Reads a wire value back; `None` for a value outside the enum.
    pub fn from_wire(s: &str) -> (r: Option<Self>)
        ensures
            r == Self::from_wire_text(s@),
    {
        if text_eq(s, "ADMISSION_ABANDONED") {
            Some(ReasonCode::AdmissionAbandoned)
        } else if text_eq(s, "APPROVAL_CONSUME_WINDOW_CLOSED") {
            Some(ReasonCode::ApprovalConsumeWindowClosed)
        } else if text_eq(s, "APPROVAL_DENIED") {
            Some(ReasonCode::ApprovalDenied)
        } else if text_eq(s, "APPROVAL_EXPIRED") {
            Some(ReasonCode::ApprovalExpired)
        } else if text_eq(s, "APPROVAL_INVALIDATED") {
            Some(ReasonCode::ApprovalInvalidated)
        } else if text_eq(s, "APPROVAL_NOT_OPEN") {
            Some(ReasonCode::ApprovalNotOpen)
        } else if text_eq(s, "APPROVAL_SELECTOR_UNRESOLVABLE") {
            Some(ReasonCode::ApprovalSelectorUnresolvable)
        } else if text_eq(s, "APPROVAL_WITHDRAWN") {
            Some(ReasonCode::ApprovalWithdrawn)
        } else if text_eq(s, "APPROVER_NOT_ELIGIBLE") {
            Some(ReasonCode::ApproverNotEligible)
        } else if text_eq(s, "CAPABILITY_BLOCKED") {
            Some(ReasonCode::CapabilityBlocked)
        } else if text_eq(s, "CLIENT_KEY_ALREADY_BOUND") {
            Some(ReasonCode::ClientKeyAlreadyBound)
        } else if text_eq(s, "CLIENT_KEY_LIMIT_REACHED") {
            Some(ReasonCode::ClientKeyLimitReached)
        } else if text_eq(s, "CLIENT_KEY_NOT_FOUND") {
            Some(ReasonCode::ClientKeyNotFound)
        } else if text_eq(s, "CLIENT_KEY_PROOF_INVALID") {
            Some(ReasonCode::ClientKeyProofInvalid)
        } else if text_eq(s, "DEPENDENCY_UNAVAILABLE") {
            Some(ReasonCode::DependencyUnavailable)
        } else if text_eq(s, "DISPATCH_RESULT_UNKNOWN") {
            Some(ReasonCode::DispatchResultUnknown)
        } else if text_eq(s, "DUPLICATE_DECISION") {
            Some(ReasonCode::DuplicateDecision)
        } else if text_eq(s, "EXTERNAL_RESULT_UNKNOWN") {
            Some(ReasonCode::ExternalResultUnknown)
        } else if text_eq(s, "IDEMPOTENCY_KEY_REUSED") {
            Some(ReasonCode::IdempotencyKeyReused)
        } else if text_eq(s, "IDENTITY_HEADER_MISSING") {
            Some(ReasonCode::IdentityHeaderMissing)
        } else if text_eq(s, "IDENTITY_UNKNOWN") {
            Some(ReasonCode::IdentityUnknown)
        } else if text_eq(s, "INVALID_PARAMETERS") {
            Some(ReasonCode::InvalidParameters)
        } else if text_eq(s, "INVITATION_ALREADY_REDEEMED") {
            Some(ReasonCode::InvitationAlreadyRedeemed)
        } else if text_eq(s, "INVITATION_EXPIRED") {
            Some(ReasonCode::InvitationExpired)
        } else if text_eq(s, "INVITATION_NOT_FOUND") {
            Some(ReasonCode::InvitationNotFound)
        } else if text_eq(s, "INVITATION_REVOKED") {
            Some(ReasonCode::InvitationRevoked)
        } else if text_eq(s, "INVITEE_ALREADY_MEMBER") {
            Some(ReasonCode::InviteeAlreadyMember)
        } else if text_eq(s, "LAST_TENANT_ADMIN") {
            Some(ReasonCode::LastTenantAdmin)
        } else if text_eq(s, "NATIVE_SURFACE_REQUIRED") {
            Some(ReasonCode::NativeSurfaceRequired)
        } else if text_eq(s, "PERMISSION_DENIED") {
            Some(ReasonCode::PermissionDenied)
        } else if text_eq(s, "PROJECTION_DELAYED") {
            Some(ReasonCode::ProjectionDelayed)
        } else if text_eq(s, "PUBLISH_REJECTED") {
            Some(ReasonCode::PublishRejected)
        } else if text_eq(s, "PUBLISH_RESULT_UNKNOWN") {
            Some(ReasonCode::PublishResultUnknown)
        } else if text_eq(s, "SCOPE_GUARD_FAILED") {
            Some(ReasonCode::ScopeGuardFailed)
        } else if text_eq(s, "SELF_APPROVAL_DENIED") {
            Some(ReasonCode::SelfApprovalDenied)
        } else if text_eq(s, "SESSION_NOT_ACTIVE") {
            Some(ReasonCode::SessionNotActive)
        } else if text_eq(s, "SURFACE_CAPABILITY_UNAVAILABLE") {
            Some(ReasonCode::SurfaceCapabilityUnavailable)
        } else if text_eq(s, "TARGET_NOT_FOUND") {
            Some(ReasonCode::TargetNotFound)
        } else if text_eq(s, "TARGET_STATE_CONFLICT") {
            Some(ReasonCode::TargetStateConflict)
        } else if text_eq(s, "TENANT_MEMBERSHIP_NOT_ACTIVE") {
            Some(ReasonCode::TenantMembershipNotActive)
        } else if text_eq(s, "TENANT_SELECTION_NOT_AVAILABLE") {
            Some(ReasonCode::TenantSelectionNotAvailable)
        } else if text_eq(s, "WAITING_APPROVAL") {
            Some(ReasonCode::WaitingApproval)
        } else {
            None
        }
    }
}

/// Reading back the wire value of any `ReasonCode` gives that variant.
pub proof fn lemma_reason_code_wire_roundtrip(x: ReasonCode)
    ensures
        ReasonCode::from_wire_text(x.wire_text()) == Some(x),
{
    reveal_strlit("ADMISSION_ABANDONED");
    assert("ADMISSION_ABANDONED"@.len() == 19);
    reveal_strlit("APPROVAL_CONSUME_WINDOW_CLOSED");
    assert("APPROVAL_CONSUME_WINDOW_CLOSED"@.len() == 30);
    reveal_strlit("APPROVAL_DENIED");
    assert("APPROVAL_DENIED"@.len() == 15);
    reveal_strlit("APPROVAL_EXPIRED");
    assert("APPROVAL_EXPIRED"@.len() == 16);
    reveal_strlit("APPROVAL_INVALIDATED");
    assert("APPROVAL_INVALIDATED"@.len() == 20);
    reveal_strlit("APPROVAL_NOT_OPEN");
    assert("APPROVAL_NOT_OPEN"@.len() == 17);
    reveal_strlit("APPROVAL_SELECTOR_UNRESOLVABLE");
    assert("APPROVAL_SELECTOR_UNRESOLVABLE"@.len() == 30);
    reveal_strlit("APPROVAL_WITHDRAWN");
    assert("APPROVAL_WITHDRAWN"@.len() == 18);
    reveal_strlit("APPROVER_NOT_ELIGIBLE");
    assert("APPROVER_NOT_ELIGIBLE"@.len() == 21);
    reveal_strlit("CAPABILITY_BLOCKED");
    assert("CAPABILITY_BLOCKED"@.len() == 18);
    reveal_strlit("CLIENT_KEY_ALREADY_BOUND");
    assert("CLIENT_KEY_ALREADY_BOUND"@.len() == 24);
    reveal_strlit("CLIENT_KEY_LIMIT_REACHED");
    assert("CLIENT_KEY_LIMIT_REACHED"@.len() == 24);
    reveal_strlit("CLIENT_KEY_NOT_FOUND");
    assert("CLIENT_KEY_NOT_FOUND"@.len() == 20);
    reveal_strlit("CLIENT_KEY_PROOF_INVALID");
    assert("CLIENT_KEY_PROOF_INVALID"@.len() == 24);
    reveal_strlit("DEPENDENCY_UNAVAILABLE");
    assert("DEPENDENCY_UNAVAILABLE"@.len() == 22);
    reveal_strlit("DISPATCH_RESULT_UNKNOWN");
    assert("DISPATCH_RESULT_UNKNOWN"@.len() == 23);
    reveal_strlit("DUPLICATE_DECISION");
    assert("DUPLICATE_DECISION"@.len() == 18);
    reveal_strlit("EXTERNAL_RESULT_UNKNOWN");
    assert("EXTERNAL_RESULT_UNKNOWN"@.len() == 23);
    reveal_strlit("IDEMPOTENCY_KEY_REUSED");
    assert("IDEMPOTENCY_KEY_REUSED"@.len() == 22);
    reveal_strlit("IDENTITY_HEADER_MISSING");
    assert("IDENTITY_HEADER_MISSING"@.len() == 23);
    reveal_strlit("IDENTITY_UNKNOWN");
    assert("IDENTITY_UNKNOWN"@.len() == 16);
    reveal_strlit("INVALID_PARAMETERS");
    assert("INVALID_PARAMETERS"@.len() == 18);
    reveal_strlit("INVITATION_ALREADY_REDEEMED");
    assert("INVITATION_ALREADY_REDEEMED"@.len() == 27);
    reveal_strlit("INVITATION_EXPIRED");
    assert("INVITATION_EXPIRED"@.len() == 18);
    reveal_strlit("INVITATION_NOT_FOUND");
    assert("INVITATION_NOT_FOUND"@.len() == 20);
    reveal_strlit("INVITATION_REVOKED");
    assert("INVITATION_REVOKED"@.len() == 18);
    reveal_strlit("INVITEE_ALREADY_MEMBER");
    assert("INVITEE_ALREADY_MEMBER"@.len() == 22);
    reveal_strlit("LAST_TENANT_ADMIN");
    assert("LAST_TENANT_ADMIN"@.len() == 17);
    reveal_strlit("NATIVE_SURFACE_REQUIRED");
    assert("NATIVE_SURFACE_REQUIRED"@.len() == 23);
    reveal_strlit("PERMISSION_DENIED");
    assert("PERMISSION_DENIED"@.len() == 17);
    reveal_strlit("PROJECTION_DELAYED");
    assert("PROJECTION_DELAYED"@.len() == 18);
    reveal_strlit("PUBLISH_REJECTED");
    assert("PUBLISH_REJECTED"@.len() == 16);
    reveal_strlit("PUBLISH_RESULT_UNKNOWN");
    assert("PUBLISH_RESULT_UNKNOWN"@.len() == 22);
    reveal_strlit("SCOPE_GUARD_FAILED");
    assert("SCOPE_GUARD_FAILED"@.len() == 18);
    reveal_strlit("SELF_APPROVAL_DENIED");
    assert("SELF_APPROVAL_DENIED"@.len() == 20);
    reveal_strlit("SESSION_NOT_ACTIVE");
    assert("SESSION_NOT_ACTIVE"@.len() == 18);
    reveal_strlit("SURFACE_CAPABILITY_UNAVAILABLE");
    assert("SURFACE_CAPABILITY_UNAVAILABLE"@.len() == 30);
    reveal_strlit("TARGET_NOT_FOUND");
    assert("TARGET_NOT_FOUND"@.len() == 16);
    reveal_strlit("TARGET_STATE_CONFLICT");
    assert("TARGET_STATE_CONFLICT"@.len() == 21);
    reveal_strlit("TENANT_MEMBERSHIP_NOT_ACTIVE");
    assert("TENANT_MEMBERSHIP_NOT_ACTIVE"@.len() == 28);
    reveal_strlit("TENANT_SELECTION_NOT_AVAILABLE");
    assert("TENANT_SELECTION_NOT_AVAILABLE"@.len() == 30);
    reveal_strlit("WAITING_APPROVAL");
    assert("WAITING_APPROVAL"@.len() == 16);
    match x {
        ReasonCode::AdmissionAbandoned => {
        },
        ReasonCode::ApprovalConsumeWindowClosed => {
        },
        ReasonCode::ApprovalDenied => {
        },
        ReasonCode::ApprovalExpired => {
        },
        ReasonCode::ApprovalInvalidated => {
        },
        ReasonCode::ApprovalNotOpen => {
        },
        ReasonCode::ApprovalSelectorUnresolvable => {
            assert("APPROVAL_SELECTOR_UNRESOLVABLE"@[9] == 'S' && "APPROVAL_CONSUME_WINDOW_CLOSED"@[9] == 'C');
        },
        ReasonCode::ApprovalWithdrawn => {
        },
        ReasonCode::ApproverNotEligible => {
        },
        ReasonCode::CapabilityBlocked => {
            assert("CAPABILITY_BLOCKED"@[0] == 'C' && "APPROVAL_WITHDRAWN"@[0] == 'A');
        },
        ReasonCode::ClientKeyAlreadyBound => {
        },
        ReasonCode::ClientKeyLimitReached => {
            assert("CLIENT_KEY_LIMIT_REACHED"@[11] == 'L' && "CLIENT_KEY_ALREADY_BOUND"@[11] == 'A');
        },
        ReasonCode::ClientKeyNotFound => {
            assert("CLIENT_KEY_NOT_FOUND"@[0] == 'C' && "APPROVAL_INVALIDATED"@[0] == 'A');
        },
        ReasonCode::ClientKeyProofInvalid => {
            assert("CLIENT_KEY_PROOF_INVALID"@[11] == 'P' && "CLIENT_KEY_ALREADY_BOUND"@[11] == 'A');
            assert("CLIENT_KEY_PROOF_INVALID"@[11] == 'P' && "CLIENT_KEY_LIMIT_REACHED"@[11] == 'L');
        },
        ReasonCode::DependencyUnavailable => {
        },
        ReasonCode::DispatchResultUnknown => {
        },
        ReasonCode::DuplicateDecision => {
            assert("DUPLICATE_DECISION"@[0] == 'D' && "APPROVAL_WITHDRAWN"@[0] == 'A');
            assert("DUPLICATE_DECISION"@[0] == 'D' && "CAPABILITY_BLOCKED"@[0] == 'C');
        },
        ReasonCode::ExternalResultUnknown => {
            assert("EXTERNAL_RESULT_UNKNOWN"@[0] == 'E' && "DISPATCH_RESULT_UNKNOWN"@[0] == 'D');
        },
        ReasonCode::IdempotencyKeyReused => {
            assert("IDEMPOTENCY_KEY_REUSED"@[0] == 'I' && "DEPENDENCY_UNAVAILABLE"@[0] == 'D');
        },
        ReasonCode::IdentityHeaderMissing => {
            assert("IDENTITY_HEADER_MISSING"@[0] == 'I' && "DISPATCH_RESULT_UNKNOWN"@[0] == 'D');
            assert("IDENTITY_HEADER_MISSING"@[0] == 'I' && "EXTERNAL_RESULT_UNKNOWN"@[0] == 'E');
        },
        ReasonCode::IdentityUnknown => {
            assert("IDENTITY_UNKNOWN"@[0] == 'I' && "APPROVAL_EXPIRED"@[0] == 'A');
        },
        ReasonCode::InvalidParameters => {
            assert("INVALID_PARAMETERS"@[0] == 'I' && "APPROVAL_WITHDRAWN"@[0] == 'A');
            assert("INVALID_PARAMETERS"@[0] == 'I' && "CAPABILITY_BLOCKED"@[0] == 'C');
            assert("INVALID_PARAMETERS"@[0] == 'I' && "DUPLICATE_DECISION"@[0] == 'D');
        },
        ReasonCode::InvitationAlreadyRedeemed => {
        },
        ReasonCode::InvitationExpired => {
            assert("INVITATION_EXPIRED"@[0] == 'I' && "APPROVAL_WITHDRAWN"@[0] == 'A');
            assert("INVITATION_EXPIRED"@[0] == 'I' && "CAPABILITY_BLOCKED"@[0] == 'C');
            assert("INVITATION_EXPIRED"@[0] == 'I' && "DUPLICATE_DECISION"@[0] == 'D');
            assert("INVITATION_EXPIRED"@[3] == 'I' && "INVALID_PARAMETERS"@[3] == 'A');
        },
        ReasonCode::InvitationNotFound => {
            assert("INVITATION_NOT_FOUND"@[0] == 'I' && "APPROVAL_INVALIDATED"@[0] == 'A');
            assert("INVITATION_NOT_FOUND"@[0] == 'I' && "CLIENT_KEY_NOT_FOUND"@[0] == 'C');
        },
        ReasonCode::InvitationRevoked => {
            assert("INVITATION_REVOKED"@[0] == 'I' && "APPROVAL_WITHDRAWN"@[0] == 'A');
            assert("INVITATION_REVOKED"@[0] == 'I' && "CAPABILITY_BLOCKED"@[0] == 'C');
            assert("INVITATION_REVOKED"@[0] == 'I' && "DUPLICATE_DECISION"@[0] == 'D');
            assert("INVITATION_REVOKED"@[3] == 'I' && "INVALID_PARAMETERS"@[3] == 'A');
            assert("INVITATION_REVOKED"@[11] == 'R' && "INVITATION_EXPIRED"@[11] == 'E');
        },
        ReasonCode::InviteeAlreadyMember => {
            assert("INVITEE_ALREADY_MEMBER"@[0] == 'I' && "DEPENDENCY_UNAVAILABLE"@[0] == 'D');
            assert("INVITEE_ALREADY_MEMBER"@[1] == 'N' && "IDEMPOTENCY_KEY_REUSED"@[1] == 'D');
        },
        ReasonCode::LastTenantAdmin => {
            assert("LAST_TENANT_ADMIN"@[0] == 'L' && "APPROVAL_NOT_OPEN"@[0] == 'A');
        },
        ReasonCode::NativeSurfaceRequired => {
            assert("NATIVE_SURFACE_REQUIRED"@[0] == 'N' && "DISPATCH_RESULT_UNKNOWN"@[0] == 'D');
            assert("NATIVE_SURFACE_REQUIRED"@[0] == 'N' && "EXTERNAL_RESULT_UNKNOWN"@[0] == 'E');
            assert("NATIVE_SURFACE_REQUIRED"@[0] == 'N' && "IDENTITY_HEADER_MISSING"@[0] == 'I');
        },
        ReasonCode::PermissionDenied => {
            assert("PERMISSION_DENIED"@[0] == 'P' && "APPROVAL_NOT_OPEN"@[0] == 'A');
            assert("PERMISSION_DENIED"@[0] == 'P' && "LAST_TENANT_ADMIN"@[0] == 'L');
        },
        ReasonCode::ProjectionDelayed => {
            assert("PROJECTION_DELAYED"@[0] == 'P' && "APPROVAL_WITHDRAWN"@[0] == 'A');
            assert("PROJECTION_DELAYED"@[0] == 'P' && "CAPABILITY_BLOCKED"@[0] == 'C');
            assert("PROJECTION_DELAYED"@[0] == 'P' && "DUPLICATE_DECISION"@[0] == 'D');
            assert("PROJECTION_DELAYED"@[0] == 'P' && "INVALID_PARAMETERS"@[0] == 'I');
            assert("PROJECTION_DELAYED"@[0] == 'P' && "INVITATION_EXPIRED"@[0] == 'I');
            assert("PROJECTION_DELAYED"@[0] == 'P' && "INVITATION_REVOKED"@[0] == 'I');
        },
        ReasonCode::PublishRejected => {
            assert("PUBLISH_REJECTED"@[0] == 'P' && "APPROVAL_EXPIRED"@[0] == 'A');
            assert("PUBLISH_REJECTED"@[0] == 'P' && "IDENTITY_UNKNOWN"@[0] == 'I');
        },
        ReasonCode::PublishResultUnknown => {
            assert("PUBLISH_RESULT_UNKNOWN"@[0] == 'P' && "DEPENDENCY_UNAVAILABLE"@[0] == 'D');
            assert("PUBLISH_RESULT_UNKNOWN"@[0] == 'P' && "IDEMPOTENCY_KEY_REUSED"@[0] == 'I');
            assert("PUBLISH_RESULT_UNKNOWN"@[0] == 'P' && "INVITEE_ALREADY_MEMBER"@[0] == 'I');
        },
        ReasonCode::ScopeGuardFailed => {
            assert("SCOPE_GUARD_FAILED"@[0] == 'S' && "APPROVAL_WITHDRAWN"@[0] == 'A');
            assert("SCOPE_GUARD_FAILED"@[0] == 'S' && "CAPABILITY_BLOCKED"@[0] == 'C');
            assert("SCOPE_GUARD_FAILED"@[0] == 'S' && "DUPLICATE_DECISION"@[0] == 'D');
            assert("SCOPE_GUARD_FAILED"@[0] == 'S' && "INVALID_PARAMETERS"@[0] == 'I');
            assert("SCOPE_GUARD_FAILED"@[0] == 'S' && "INVITATION_EXPIRED"@[0] == 'I');
            assert("SCOPE_GUARD_FAILED"@[0] == 'S' && "INVITATION_REVOKED"@[0] == 'I');
            assert("SCOPE_GUARD_FAILED"@[0] == 'S' && "PROJECTION_DELAYED"@[0] == 'P');
        },
        ReasonCode::SelfApprovalDenied => {
            assert("SELF_APPROVAL_DENIED"@[0] == 'S' && "APPROVAL_INVALIDATED"@[0] == 'A');
            assert("SELF_APPROVAL_DENIED"@[0] == 'S' && "CLIENT_KEY_NOT_FOUND"@[0] == 'C');
            assert("SELF_APPROVAL_DENIED"@[0] == 'S' && "INVITATION_NOT_FOUND"@[0] == 'I');
        },
        ReasonCode::SessionNotActive => {
            assert("SESSION_NOT_ACTIVE"@[0] == 'S' && "APPROVAL_WITHDRAWN"@[0] == 'A');
            assert("SESSION_NOT_ACTIVE"@[0] == 'S' && "CAPABILITY_BLOCKED"@[0] == 'C');
            assert("SESSION_NOT_ACTIVE"@[0] == 'S' && "DUPLICATE_DECISION"@[0] == 'D');
            assert("SESSION_NOT_ACTIVE"@[0] == 'S' && "INVALID_PARAMETERS"@[0] == 'I');
            assert("SESSION_NOT_ACTIVE"@[0] == 'S' && "INVITATION_EXPIRED"@[0] == 'I');
            assert("SESSION_NOT_ACTIVE"@[0] == 'S' && "INVITATION_REVOKED"@[0] == 'I');
            assert("SESSION_NOT_ACTIVE"@[0] == 'S' && "PROJECTION_DELAYED"@[0] == 'P');
            assert("SESSION_NOT_ACTIVE"@[1] == 'E' && "SCOPE_GUARD_FAILED"@[1] == 'C');
        },
        ReasonCode::SurfaceCapabilityUnavailable => {
            assert("SURFACE_CAPABILITY_UNAVAILABLE"@[0] == 'S' && "APPROVAL_CONSUME_WINDOW_CLOSED"@[0] == 'A');
            assert("SURFACE_CAPABILITY_UNAVAILABLE"@[0] == 'S' && "APPROVAL_SELECTOR_UNRESOLVABLE"@[0] == 'A');
        },
        ReasonCode::TargetNotFound => {
            assert("TARGET_NOT_FOUND"@[0] == 'T' && "APPROVAL_EXPIRED"@[0] == 'A');
            assert("TARGET_NOT_FOUND"@[0] == 'T' && "IDENTITY_UNKNOWN"@[0] == 'I');
            assert("TARGET_NOT_FOUND"@[0] == 'T' && "PUBLISH_REJECTED"@[0] == 'P');
        },
        ReasonCode::TargetStateConflict => {
            assert("TARGET_STATE_CONFLICT"@[0] == 'T' && "APPROVER_NOT_ELIGIBLE"@[0] == 'A');
        },
        ReasonCode::TenantMembershipNotActive => {
        },
        ReasonCode::TenantSelectionNotAvailable => {
            assert("TENANT_SELECTION_NOT_AVAILABLE"@[0] == 'T' && "APPROVAL_CONSUME_WINDOW_CLOSED"@[0] == 'A');
            assert("TENANT_SELECTION_NOT_AVAILABLE"@[0] == 'T' && "APPROVAL_SELECTOR_UNRESOLVABLE"@[0] == 'A');
            assert("TENANT_SELECTION_NOT_AVAILABLE"@[0] == 'T' && "SURFACE_CAPABILITY_UNAVAILABLE"@[0] == 'S');
        },
        ReasonCode::WaitingApproval => {
            assert("WAITING_APPROVAL"@[0] == 'W' && "APPROVAL_EXPIRED"@[0] == 'A');
            assert("WAITING_APPROVAL"@[0] == 'W' && "IDENTITY_UNKNOWN"@[0] == 'I');
            assert("WAITING_APPROVAL"@[0] == 'W' && "PUBLISH_REJECTED"@[0] == 'P');
            assert("WAITING_APPROVAL"@[0] == 'W' && "TARGET_NOT_FOUND"@[0] == 'T');
        },
    }
}

/// An approver's immutable decision.
#[derive(Debug, Clone, Copy, PartialEq, Eq, Structural)]
pub enum ApprovalDecision {
    Approve,
    Deny,
}

impl ApprovalDecision {
    /// The wire value of this variant.
    pub open spec fn wire_text(self) -> Seq<char> {
        match self {
            ApprovalDecision::Approve => "APPROVE"@,
            ApprovalDecision::Deny => "DENY"@,
        }
    }

    /// The variant whose wire value is `s`, if any.
    pub open spec fn from_wire_text(s: Seq<char>) -> Option<Self> {
        if s == "APPROVE"@ {
            Some(ApprovalDecision::Approve)
        } else if s == "DENY"@ {
            Some(ApprovalDecision::Deny)
        } else {
            None
        }
    }

    /// The wire value of this variant.
    pub fn wire(&self) -> (r: &'static str)
        ensures
            r@ == self.wire_text(),
    {
        match self {
            ApprovalDecision::Approve => "APPROVE",
            ApprovalDecision::Deny => "DENY",
        }
    }

    /// Reads a wire value back; `None` for a value outside the enum.
    pub fn from_wire(s: &str) -> (r: Option<Self>)
        ensures
            r == Self::from_wire_text(s@),
    {
        if text_eq(s, "APPROVE") {
            Some(ApprovalDecision::Approve)
        } else if text_eq(s, "DENY") {
            Some(ApprovalDecision::Deny)
        } else {
            None
        }
    }
}

/// Reading back the wire value of any `ApprovalDecision` gives that variant.
pub proof fn lemma_approval_decision_wire_roundtrip(x: ApprovalDecision)
    ensures
        ApprovalDecision::from_wire_text(x.wire_text()) == Some(x),
{
    reveal_strlit("APPROVE");
    assert("APPROVE"@.len() == 7);
    reveal_strlit("DENY");
    assert("DENY"@.len() == 4);
    match x {
        ApprovalDecision::Approve => {
        },
        ApprovalDecision::Deny => {
        },
    }
}

/// Which role an approver must hold.
#[derive(Debug, Clone, Copy, PartialEq, Eq, Structural)]
pub enum ApprovalSelector {
    ResourceApprover,
    TenantAdmin,
    WorkspaceAdmin,
}

impl ApprovalSelector {
    /// The wire value of this variant.
    pub open spec fn wire_text(self) -> Seq<char> {
        match self {
            ApprovalSelector::ResourceApprover => "RESOURCE_APPROVER"@,
            ApprovalSelector::TenantAdmin => "TENANT_ADMIN"@,
            ApprovalSelector::WorkspaceAdmin => "WORKSPACE_ADMIN"@,
        }
    }

    /// The variant whose wire value is `s`, if any.
    pub open spec fn from_wire_text(s: Seq<char>) -> Option<Self> {
        if s == "RESOURCE_APPROVER"@ {
            Some(ApprovalSelector::ResourceApprover)
        } else if s == "TENANT_ADMIN"@ {
            Some(ApprovalSelector::TenantAdmin)
        } else if s == "WORKSPACE_ADMIN"@ {
            Some(ApprovalSelector::WorkspaceAdmin)
        } else {
            None
        }
    }

    /// The wire value of this variant.
    pub fn wire(&self) -> (r: &'static str)
        ensures
            r@ == self.wire_text(),
    {
        match self {
            ApprovalSelector::ResourceApprover => "RESOURCE_APPROVER",
            ApprovalSelector::TenantAdmin => "TENANT_ADMIN",
            ApprovalSelector::WorkspaceAdmin => "WORKSPACE_ADMIN",
        }
    }

    /// Reads a wire value back; `None` for a value outside the enum.
    pub fn from_wire(s: &str) -> (r: Option<Self>)
        ensures
            r == Self::from_wire_text(s@),
    {
        if text_eq(s, "RESOURCE_APPROVER") {
            Some(ApprovalSelector::ResourceApprover)
        } else if text_eq(s, "TENANT_ADMIN") {
            Some(ApprovalSelector::TenantAdmin)
        } else if text_eq(s, "WORKSPACE_ADMIN") {
            Some(ApprovalSelector::WorkspaceAdmin)
        } else {
            None
        }
    }
}

/// Reading back the wire value of any `ApprovalSelector` gives that variant.
pub proof fn lemma_approval_selector_wire_roundtrip(x: ApprovalSelector)
    ensures
        ApprovalSelector::from_wire_text(x.wire_text()) == Some(x),
{
    reveal_strlit("RESOURCE_APPROVER");
    assert("RESOURCE_APPROVER"@.len() == 17);
    reveal_strlit("TENANT_ADMIN");
    assert("TENANT_ADMIN"@.len() == 12);
    reveal_strlit("WORKSPACE_ADMIN");
    assert("WORKSPACE_ADMIN"@.len() == 15);
    match x {
        ApprovalSelector::ResourceApprover => {
        },
        ApprovalSelector::TenantAdmin => {
        },
        ApprovalSelector::WorkspaceAdmin => {
        },
    }
}

/// Status of an approval as projected from its workflow.
#[derive(Debug, Clone, Copy, PartialEq, Eq, Structural)]
pub enum ApprovalStatus {
    Approved,
    Cancelled,
    Consumed,
    Denied,
    Expired,
    Invalidated,
    Requested,
    Waiting,
}

impl ApprovalStatus {
    /// The wire value of this variant.
    pub open spec fn wire_text(self) -> Seq<char> {
        match self {
            ApprovalStatus::Approved => "APPROVED"@,
            ApprovalStatus::Cancelled => "CANCELLED"@,
            ApprovalStatus::Consumed => "CONSUMED"@,
            ApprovalStatus::Denied => "DENIED"@,
            ApprovalStatus::Expired => "EXPIRED"@,
            ApprovalStatus::Invalidated => "INVALIDATED"@,
            ApprovalStatus::Requested => "REQUESTED"@,
            ApprovalStatus::Waiting => "WAITING"@,
        }
    }

    /// The variant whose wire value is `s`, if any.
    pub open spec fn from_wire_text(s: Seq<char>) -> Option<Self> {
        if s == "APPROVED"@ {
            Some(ApprovalStatus::Approved)
        } else if s == "CANCELLED"@ {
            Some(ApprovalStatus::Cancelled)
        } else if s == "CONSUMED"@ {
            Some(ApprovalStatus::Consumed)
        } else if s == "DENIED"@ {
            Some(ApprovalStatus::Denied)
        } else if s == "EXPIRED"@ {
            Some(ApprovalStatus::Expired)
        } else if s == "INVALIDATED"@ {
            Some(ApprovalStatus::Invalidated)
        } else if s == "REQUESTED"@ {
            Some(ApprovalStatus::Requested)
        } else if s == "WAITING"@ {
            Some(ApprovalStatus::Waiting)
        } else {
            None
        }
    }

    /// The wire value of this variant.
    pub fn wire(&self) -> (r: &'static str)
        ensures
            r@ == self.wire_text(),
    {
        match self {
            ApprovalStatus::Approved => "APPROVED",
            ApprovalStatus::Cancelled => "CANCELLED",
            ApprovalStatus::Consumed => "CONSUMED",
            ApprovalStatus::Denied => "DENIED",
            ApprovalStatus::Expired => "EXPIRED",
            ApprovalStatus::Invalidated => "INVALIDATED",
            ApprovalStatus::Requested => "REQUESTED",
            ApprovalStatus::Waiting => "WAITING",
        }
    }

    /// Reads a wire value back; `None` for a value outside the enum.
    pub fn from_wire(s: &str) -> (r: Option<Self>)
        ensures
            r == Self::from_wire_text(s@),
    {
        if text_eq(s, "APPROVED") {
            Some(ApprovalStatus::Approved)
        } else if text_eq(s, "CANCELLED") {
            Some(ApprovalStatus::Cancelled)
        } else if text_eq(s, "CONSUMED") {
            Some(ApprovalStatus::Consumed)
        } else if text_eq(s, "DENIED") {
            Some(ApprovalStatus::Denied)
        } else if text_eq(s, "EXPIRED") {
            Some(ApprovalStatus::Expired)
        } else if text_eq(s, "INVALIDATED") {
            Some(ApprovalStatus::Invalidated)
        } else if text_eq(s, "REQUESTED") {
            Some(ApprovalStatus::Requested)
        } else if text_eq(s, "WAITING") {
            Some(ApprovalStatus::Waiting)
        } else {
            None
        }
    }
}

/// Reading back the wire value of any `ApprovalStatus` gives that variant.
pub proof fn lemma_approval_status_wire_roundtrip(x: ApprovalStatus)
    ensures
        ApprovalStatus::from_wire_text(x.wire_text()) == Some(x),
{
    reveal_strlit("APPROVED");
    assert("APPROVED"@.len() == 8);
    reveal_strlit("CANCELLED");
    assert("CANCELLED"@.len() == 9);
    reveal_strlit("CONSUMED");
    assert("CONSUMED"@.len() == 8);
    reveal_strlit("DENIED");
    assert("DENIED"@.len() == 6);
    reveal_strlit("EXPIRED");
    assert("EXPIRED"@.len() == 7);
    reveal_strlit("INVALIDATED");
    assert("INVALIDATED"@.len() == 11);
    reveal_strlit("REQUESTED");
    assert("REQUESTED"@.len() == 9);
    reveal_strlit("WAITING");
    assert("WAITING"@.len() == 7);
    match x {
        ApprovalStatus::Approved => {
        },
        ApprovalStatus::Cancelled => {
        },
        ApprovalStatus::Consumed => {
            assert("CONSUMED"@[0] == 'C' && "APPROVED"@[0] == 'A');
        },
        ApprovalStatus::Denied => {
        },
        ApprovalStatus::Expired => {
        },
        ApprovalStatus::Invalidated => {
        },
        ApprovalStatus::Requested => {
            assert("REQUESTED"@[0] == 'R' && "CANCELLED"@[0] == 'C');
        },
        ApprovalStatus::Waiting => {
            assert("WAITING"@[0] == 'W' && "EXPIRED"@[0] == 'E');
        },
    }
}

/// State of a Buzz identity binding.
#[derive(Debug, Clone, Copy, PartialEq, Eq, Structural)]
pub enum BuzzIdentityState {
    Active,
    PendingSecret,
    Reconciling,
    Revoked,
    Revoking,
}

impl BuzzIdentityState {
    /// The wire value of this variant.
    pub open spec fn wire_text(self) -> Seq<char> {
        match self {
            BuzzIdentityState::Active => "ACTIVE"@,
            BuzzIdentityState::PendingSecret => "PENDING_SECRET"@,
            BuzzIdentityState::Reconciling => "RECONCILING"@,
            BuzzIdentityState::Revoked => "REVOKED"@,
            BuzzIdentityState::Revoking => "REVOKING"@,
        }
    }

    /// The variant whose wire value is `s`, if any.
    pub open spec fn from_wire_text(s: Seq<char>) -> Option<Self> {
        if s == "ACTIVE"@ {
            Some(BuzzIdentityState::Active)
        } else if s == "PENDING_SECRET"@ {
            Some(BuzzIdentityState::PendingSecret)
        } else if s == "RECONCILING"@ {
            Some(BuzzIdentityState::Reconciling)
        } else if s == "REVOKED"@ {
            Some(BuzzIdentityState::Revoked)
        } else if s == "REVOKING"@ {
            Some(BuzzIdentityState::Revoking)
        } else {
            None
        }
    }

    /// The wire value of this variant.
    pub fn wire(&self) -> (r: &'static str)
        ensures
            r@ == self.wire_text(),
    {
        match self {
            BuzzIdentityState::Active => "ACTIVE",
            BuzzIdentityState::PendingSecret => "PENDING_SECRET",
            BuzzIdentityState::Reconciling => "RECONCILING",
            BuzzIdentityState::Revoked => "REVOKED",
            BuzzIdentityState::Revoking => "REVOKING",
        }
    }

    /// Reads a wire value back; `None` for a value outside the enum.
    pub fn from_wire(s: &str) -> (r: Option<Self>)
        ensures
            r == Self::from_wire_text(s@),
    {
        if text_eq(s, "ACTIVE") {
            Some(BuzzIdentityState::Active)
        } else if text_eq(s, "PENDING_SECRET") {
            Some(BuzzIdentityState::PendingSecret)
        } else if text_eq(s, "RECONCILING") {
            Some(BuzzIdentityState::Reconciling)
        } else if text_eq(s, "REVOKED") {
            Some(BuzzIdentityState::Revoked)
        } else if text_eq(s, "REVOKING") {
            Some(BuzzIdentityState::Revoking)
        } else {
            None
        }
    }
}

/// Reading back the wire value of any `BuzzIdentityState` gives that variant.
pub proof fn lemma_buzz_identity_state_wire_roundtrip(x: BuzzIdentityState)
    ensures
        BuzzIdentityState::from_wire_text(x.wire_text()) == Some(x),
{
    reveal_strlit("ACTIVE");
    assert("ACTIVE"@.len() == 6);
    reveal_strlit("PENDING_SECRET");
    assert("PENDING_SECRET"@.len() == 14);
    reveal_strlit("RECONCILING");
    assert("RECONCILING"@.len() == 11);
    reveal_strlit("REVOKED");
    assert("REVOKED"@.len() == 7);
    reveal_strlit("REVOKING");
    assert("REVOKING"@.len() == 8);
    match x {
        BuzzIdentityState::Active => {
        },
        BuzzIdentityState::PendingSecret => {
        },
        BuzzIdentityState::Reconciling => {
        },
        BuzzIdentityState::Revoked => {
        },
        BuzzIdentityState::Revoking => {
        },
    }
}

/// Type of an audit event.
#[derive(Debug, Clone, Copy, PartialEq, Eq, Structural)]
pub enum AuditEventType {
    Access,
    Approval,
    Authentication,
    Decision,
    Dispatch,
    Intent,
    Outcome,
    Reconciliation,
    Revocation,
    Session,
}

impl AuditEventType {
    /// The wire value of this variant.
    pub open spec fn wire_text(self) -> Seq<char> {
        match self {
            AuditEventType::Access => "ACCESS"@,
            AuditEventType::Approval => "APPROVAL"@,
            AuditEventType::Authentication => "AUTHENTICATION"@,
            AuditEventType::Decision => "DECISION"@,
            AuditEventType::Dispatch => "DISPATCH"@,
            AuditEventType::Intent => "INTENT"@,
            AuditEventType::Outcome => "OUTCOME"@,
            AuditEventType::Reconciliation => "RECONCILIATION"@,
            AuditEventType::Revocation => "REVOCATION"@,
            AuditEventType::Session => "SESSION"@,
        }
    }

    /// The variant whose wire value is `s`, if any.
    pub open spec fn from_wire_text(s: Seq<char>) -> Option<Self> {
        if s == "ACCESS"@ {
            Some(AuditEventType::Access)
        } else if s == "APPROVAL"@ {
            Some(AuditEventType::Approval)
        } else if s == "AUTHENTICATION"@ {
            Some(AuditEventType::Authentication)
        } else if s == "DECISION"@ {
            Some(AuditEventType::Decision)
        } else if s == "DISPATCH"@ {
            Some(AuditEventType::Dispatch)
        } else if s == "INTENT"@ {
            Some(AuditEventType::Intent)
        } else if s == "OUTCOME"@ {
            Some(AuditEventType::Outcome)
        } else if s == "RECONCILIATION"@ {
            Some(AuditEventType::Reconciliation)
        } else if s == "REVOCATION"@ {
            Some(AuditEventType::Revocation)
        } else if s == "SESSION"@ {
            Some(AuditEventType::Session)
        } else {
            None
        }
    }

    /// The wire value of this variant.
    pub fn wire(&self) -> (r: &'static str)
        ensures
            r@ == self.wire_text(),
    {
        match self {
            AuditEventType::Access => "ACCESS",
            AuditEventType::Approval => "APPROVAL",
            AuditEventType::Authentication => "AUTHENTICATION",
            AuditEventType::Decision => "DECISION",
            AuditEventType::Dispatch => "DISPATCH",
            AuditEventType::Intent => "INTENT",
            AuditEventType::Outcome => "OUTCOME",
            AuditEventType::Reconciliation => "RECONCILIATION",
            AuditEventType::Revocation => "REVOCATION",
            AuditEventType::Session => "SESSION",
        }
    }

    /// Reads a wire value back; `None` for a value outside the enum.
    pub fn from_wire(s: &str) -> (r: Option<Self>)
        ensures
            r == Self::from_wire_text(s@),
    {
        if text_eq(s, "ACCESS") {
            Some(AuditEventType::Access)
        } else if text_eq(s, "APPROVAL") {
            Some(AuditEventType::Approval)
        } else if text_eq(s, "AUTHENTICATION") {
            Some(AuditEventType::Authentication)
        } else if text_eq(s, "DECISION") {
            Some(AuditEventType::Decision)
        } else if text_eq(s, "DISPATCH") {
            Some(AuditEventType::Dispatch)
        } else if text_eq(s, "INTENT") {
            Some(AuditEventType::Intent)
        } else if text_eq(s, "OUTCOME") {
            Some(AuditEventType::Outcome)
        } else if text_eq(s, "RECONCILIATION") {
            Some(AuditEventType::Reconciliation)
        } else if text_eq(s, "REVOCATION") {
            Some(AuditEventType::Revocation)
        } else if text_eq(s, "SESSION") {
            Some(AuditEventType::Session)
        } else {
            None
        }
    }
}

/// Reading back the wire value of any `AuditEventType` gives that variant.
pub proof fn lemma_audit_event_type_wire_roundtrip(x: AuditEventType)
    ensures
        AuditEventType::from_wire_text(x.wire_text()) == Some(x),
{
    reveal_strlit("ACCESS");
    assert("ACCESS"@.len() == 6);
    reveal_strlit("APPROVAL");
    assert("APPROVAL"@.len() == 8);
    reveal_strlit("AUTHENTICATION");
    assert("AUTHENTICATION"@.len() == 14);
    reveal_strlit("DECISION");
    assert("DECISION"@.len() == 8);
    reveal_strlit("DISPATCH");
    assert("DISPATCH"@.len() == 8);
    reveal_strlit("INTENT");
    assert("INTENT"@.len() == 6);
    reveal_strlit("OUTCOME");
    assert("OUTCOME"@.len() == 7);
    reveal_strlit("RECONCILIATION");
    assert("RECONCILIATION"@.len() == 14);
    reveal_strlit("REVOCATION");
    assert("REVOCATION"@.len() == 10);
    reveal_strlit("SESSION");
    assert("SESSION"@.len() == 7);
    match x {
        AuditEventType::Access => {
        },
        AuditEventType::Approval => {
        },
        AuditEventType::Authentication => {
        },
        AuditEventType::Decision => {
            assert("DECISION"@[0] == 'D' && "APPROVAL"@[0] == 'A');
        },
        AuditEventType::Dispatch => {
            assert("DISPATCH"@[0] == 'D' && "APPROVAL"@[0] == 'A');
            assert("DISPATCH"@[1] == 'I' && "DECISION"@[1] == 'E');
        },
        AuditEventType::Intent => {
            assert("INTENT"@[0] == 'I' && "ACCESS"@[0] == 'A');
        },
        AuditEventType::Outcome => {
        },
        AuditEventType::Reconciliation => {
            assert("RECONCILIATION"@[0] == 'R' && "AUTHENTICATION"@[0] == 'A');
        },
        AuditEventType::Revocation => {
        },
        AuditEventType::Session => {
            assert("SESSION"@[0] == 'S' && "OUTCOME"@[0] == 'O');
        },
    }
}

/// Close status of a component task workflow; RUNNING is the only open one.
#[derive(Debug, Clone, Copy, PartialEq, Eq, Structural)]
pub enum TaskStatus {
    Canceled,
    Completed,
    Failed,
    Running,
    Terminated,
    TimedOut,
}

impl TaskStatus {
    /// The wire value of this variant.
    pub open spec fn wire_text(self) -> Seq<char> {
        match self {
            TaskStatus::Canceled => "CANCELED"@,
            TaskStatus::Completed => "COMPLETED"@,
            TaskStatus::Failed => "FAILED"@,
            TaskStatus::Running => "RUNNING"@,
            TaskStatus::Terminated => "TERMINATED"@,
            TaskStatus::TimedOut => "TIMED_OUT"@,
        }
    }

    /// The variant whose wire value is `s`, if any.
    pub open spec fn from_wire_text(s: Seq<char>) -> Option<Self> {
        if s == "CANCELED"@ {
            Some(TaskStatus::Canceled)
        } else if s == "COMPLETED"@ {
            Some(TaskStatus::Completed)
        } else if s == "FAILED"@ {
            Some(TaskStatus::Failed)
        } else if s == "RUNNING"@ {
            Some(TaskStatus::Running)
        } else if s == "TERMINATED"@ {
            Some(TaskStatus::Terminated)
        } else if s == "TIMED_OUT"@ {
            Some(TaskStatus::TimedOut)
        } else {
            None
        }
    }

    /// The wire value of this variant.
    pub fn wire(&self) -> (r: &'static str)
        ensures
            r@ == self.wire_text(),
    {
        match self {
            TaskStatus::Canceled => "CANCELED",
            TaskStatus::Completed => "COMPLETED",
            TaskStatus::Failed => "FAILED",
            TaskStatus::Running => "RUNNING",
            TaskStatus::Terminated => "TERMINATED",
            TaskStatus::TimedOut => "TIMED_OUT",
        }
    }

    /// Reads a wire value back; `None` for a value outside the enum.
    pub fn from_wire(s: &str) -> (r: Option<Self>)
        ensures
            r == Self::from_wire_text(s@),
    {
        if text_eq(s, "CANCELED") {
            Some(TaskStatus::Canceled)
        } else if text_eq(s, "COMPLETED") {
            Some(TaskStatus::Completed)
        } else if text_eq(s, "FAILED") {
            Some(TaskStatus::Failed)
        } else if text_eq(s, "RUNNING") {
            Some(TaskStatus::Running)
        } else if text_eq(s, "TERMINATED") {
            Some(TaskStatus::Terminated)
        } else if text_eq(s, "TIMED_OUT") {
            Some(TaskStatus::TimedOut)
        } else {
            None
        }
    }
}

/// Reading back the wire value of any `TaskStatus` gives that variant.
pub proof fn lemma_task_status_wire_roundtrip(x: TaskStatus)
    ensures
        TaskStatus::from_wire_text(x.wire_text()) == Some(x),
{
    reveal_strlit("CANCELED");
    assert("CANCELED"@.len() == 8);
    reveal_strlit("COMPLETED");
    assert("COMPLETED"@.len() == 9);
    reveal_strlit("FAILED");
    assert("FAILED"@.len() == 6);
    reveal_strlit("RUNNING");
    assert("RUNNING"@.len() == 7);
    reveal_strlit("TERMINATED");
    assert("TERMINATED"@.len() == 10);
    reveal_strlit("TIMED_OUT");
    assert("TIMED_OUT"@.len() == 9);
    match x {
        TaskStatus::Canceled => {
        },
        TaskStatus::Completed => {
        },
        TaskStatus::Failed => {
        },
        TaskStatus::Running => {
        },
        TaskStatus::Terminated => {
        },
        TaskStatus::TimedOut => {
            assert("TIMED_OUT"@[0] == 'T' && "COMPLETED"@[0] == 'C');
        },
    }
}

/// Kind of a component task workflow.
#[derive(Debug, Clone, Copy, PartialEq, Eq, Structural)]
pub enum WorkflowKind {
    BuzzIdentityProjection,
    MembershipProjection,
    MembershipRevocation,
    TenantLifecycle,
    WorkspaceLifecycle,
}

impl WorkflowKind {
    /// The wire value of this variant.
    pub open spec fn wire_text(self) -> Seq<char> {
        match self {
            WorkflowKind::BuzzIdentityProjection => "BUZZ_IDENTITY_PROJECTION"@,
            WorkflowKind::MembershipProjection => "MEMBERSHIP_PROJECTION"@,
            WorkflowKind::MembershipRevocation => "MEMBERSHIP_REVOCATION"@,
            WorkflowKind::TenantLifecycle => "TENANT_LIFECYCLE"@,
            WorkflowKind::WorkspaceLifecycle => "WORKSPACE_LIFECYCLE"@,
        }
    }

    /// The variant whose wire value is `s`, if any.
    pub open spec fn from_wire_text(s: Seq<char>) -> Option<Self> {
        if s == "BUZZ_IDENTITY_PROJECTION"@ {
            Some(WorkflowKind::BuzzIdentityProjection)
        } else if s == "MEMBERSHIP_PROJECTION"@ {
            Some(WorkflowKind::MembershipProjection)
        } else if s == "MEMBERSHIP_REVOCATION"@ {
            Some(WorkflowKind::MembershipRevocation)
        } else if s == "TENANT_LIFECYCLE"@ {
            Some(WorkflowKind::TenantLifecycle)
        } else if s == "WORKSPACE_LIFECYCLE"@ {
            Some(WorkflowKind::WorkspaceLifecycle)
        } else {
            None
        }
    }

    /// The wire value of this variant.
    pub fn wire(&self) -> (r: &'static str)
        ensures
            r@ == self.wire_text(),
    {
        match self {
            WorkflowKind::BuzzIdentityProjection => "BUZZ_IDENTITY_PROJECTION",
            WorkflowKind::MembershipProjection => "MEMBERSHIP_PROJECTION",
            WorkflowKind::MembershipRevocation => "MEMBERSHIP_REVOCATION",
            WorkflowKind::TenantLifecycle => "TENANT_LIFECYCLE",
            WorkflowKind::WorkspaceLifecycle => "WORKSPACE_LIFECYCLE",
        }
    }

    /// Reads a wire value back; `None` for a value outside the enum.
    pub fn from_wire(s: &str) -> (r: Option<Self>)
        ensures
            r == Self::from_wire_text(s@),
    {
        if text_eq(s, "BUZZ_IDENTITY_PROJECTION") {
            Some(WorkflowKind::BuzzIdentityProjection)
        } else if text_eq(s, "MEMBERSHIP_PROJECTION") {
            Some(WorkflowKind::MembershipProjection)
        } else if text_eq(s, "MEMBERSHIP_REVOCATION") {
            Some(WorkflowKind::MembershipRevocation)
        } else if text_eq(s, "TENANT_LIFECYCLE") {
            Some(WorkflowKind::TenantLifecycle)
        } else if text_eq(s, "WORKSPACE_LIFECYCLE") {
            Some(WorkflowKind::WorkspaceLifecycle)
        } else {
            None
        }
    }
}

/// Reading back the wire value of any `WorkflowKind` gives that variant.
pub proof fn lemma_workflow_kind_wire_roundtrip(x: WorkflowKind)
    ensures
        WorkflowKind::from_wire_text(x.wire_text()) == Some(x),
{
    reveal_strlit("BUZZ_IDENTITY_PROJECTION");
    assert("BUZZ_IDENTITY_PROJECTION"@.len() == 24);
    reveal_strlit("MEMBERSHIP_PROJECTION");
    assert("MEMBERSHIP_PROJECTION"@.len() == 21);
    reveal_strlit("MEMBERSHIP_REVOCATION");
    assert("MEMBERSHIP_REVOCATION"@.len() == 21);
    reveal_strlit("TENANT_LIFECYCLE");
    assert("TENANT_LIFECYCLE"@.len() == 16);
    reveal_strlit("WORKSPACE_LIFECYCLE");
    assert("WORKSPACE_LIFECYCLE"@.len() == 19);
    match x {
        WorkflowKind::BuzzIdentityProjection => {
        },
        WorkflowKind::MembershipProjection => {
        },
        WorkflowKind::MembershipRevocation => {
            assert("MEMBERSHIP_REVOCATION"@[11] == 'R' && "MEMBERSHIP_PROJECTION"@[11] == 'P');
        },
        WorkflowKind::TenantLifecycle => {
        },
        WorkflowKind::WorkspaceLifecycle => {
        },
    }
}

/// State of a workspace membership as shown to users.
#[derive(Debug, Clone, Copy, PartialEq, Eq, Structural)]
pub enum WorkspaceMembershipState {
    Active,
    Error,
    Provisioning,
    Revoked,
    Revoking,
}

impl WorkspaceMembershipState {
    /// The wire value of this variant.
    pub open spec fn wire_text(self) -> Seq<char> {
        match self {
            WorkspaceMembershipState::Active => "ACTIVE"@,
            WorkspaceMembershipState::Error => "ERROR"@,
            WorkspaceMembershipState::Provisioning => "PROVISIONING"@,
            WorkspaceMembershipState::Revoked => "REVOKED"@,
            WorkspaceMembershipState::Revoking => "REVOKING"@,
        }
    }

    /// The variant whose wire value is `s`, if any.
    pub open spec fn from_wire_text(s: Seq<char>) -> Option<Self> {
        if s == "ACTIVE"@ {
            Some(WorkspaceMembershipState::Active)
        } else if s == "ERROR"@ {
            Some(WorkspaceMembershipState::Error)
        } else if s == "PROVISIONING"@ {
            Some(WorkspaceMembershipState::Provisioning)
        } else if s == "REVOKED"@ {
            Some(WorkspaceMembershipState::Revoked)
        } else if s == "REVOKING"@ {
            Some(WorkspaceMembershipState::Revoking)
        } else {
            None
        }
    }

    /// The wire value of this variant.
    pub fn wire(&self) -> (r: &'static str)
        ensures
            r@ == self.wire_text(),
    {
        match self {
            WorkspaceMembershipState::Active => "ACTIVE",
            WorkspaceMembershipState::Error => "ERROR",
            WorkspaceMembershipState::Provisioning => "PROVISIONING",
            WorkspaceMembershipState::Revoked => "REVOKED",
            WorkspaceMembershipState::Revoking => "REVOKING",
        }
    }

    /// Reads a wire value back; `None` for a value outside the enum.
    pub fn from_wire(s: &str) -> (r: Option<Self>)
        ensures
            r == Self::from_wire_text(s@),
    {
        if text_eq(s, "ACTIVE") {
            Some(WorkspaceMembershipState::Active)
        } else if text_eq(s, "ERROR") {
            Some(WorkspaceMembershipState::Error)
        } else if text_eq(s, "PROVISIONING") {
            Some(WorkspaceMembershipState::Provisioning)
        } else if text_eq(s, "REVOKED") {
            Some(WorkspaceMembershipState::Revoked)
        } else if text_eq(s, "REVOKING") {
            Some(WorkspaceMembershipState::Revoking)
        } else {
            None
        }
    }
}

/// Reading back the wire value of any `WorkspaceMembershipState` gives that variant.
pub proof fn lemma_workspace_membership_state_wire_roundtrip(x: WorkspaceMembershipState)
    ensures
        WorkspaceMembershipState::from_wire_text(x.wire_text()) == Some(x),
{
    reveal_strlit("ACTIVE");
    assert("ACTIVE"@.len() == 6);
    reveal_strlit("ERROR");
    assert("ERROR"@.len() == 5);
    reveal_strlit("PROVISIONING");
    assert("PROVISIONING"@.len() == 12);
    reveal_strlit("REVOKED");
    assert("REVOKED"@.len() == 7);
    reveal_strlit("REVOKING");
    assert("REVOKING"@.len() == 8);
    match x {
        WorkspaceMembershipState::Active => {
        },
        WorkspaceMembershipState::Error => {
        },
        WorkspaceMembershipState::Provisioning => {
        },
        WorkspaceMembershipState::Revoked => {
        },
        WorkspaceMembershipState::Revoking => {
        },
    }
}

/// Owner requirement of an approval policy.
#[derive(Debug, Clone, Copy, PartialEq, Eq, Structural)]
pub enum ApprovalOwnerRequirement {
    AllAffectedOwners,
    NoRequirement,
    TargetOwner,
}

impl ApprovalOwnerRequirement {
    /// The wire value of this variant.
    pub open spec fn wire_text(self) -> Seq<char> {
        match self {
            ApprovalOwnerRequirement::AllAffectedOwners => "ALL_AFFECTED_OWNERS"@,
            ApprovalOwnerRequirement::NoRequirement => "NONE"@,
            ApprovalOwnerRequirement::TargetOwner => "TARGET_OWNER"@,
        }
    }

    /// The variant whose wire value is `s`, if any.
    pub open spec fn from_wire_text(s: Seq<char>) -> Option<Self> {
        if s == "ALL_AFFECTED_OWNERS"@ {
            Some(ApprovalOwnerRequirement::AllAffectedOwners)
        } else if s == "NONE"@ {
            Some(ApprovalOwnerRequirement::NoRequirement)
        } else if s == "TARGET_OWNER"@ {
            Some(ApprovalOwnerRequirement::TargetOwner)
        } else {
            None
        }
    }

    /// The wire value of this variant.
    pub fn wire(&self) -> (r: &'static str)
        ensures
            r@ == self.wire_text(),
    {
        match self {
            ApprovalOwnerRequirement::AllAffectedOwners => "ALL_AFFECTED_OWNERS",
            ApprovalOwnerRequirement::NoRequirement => "NONE",
            ApprovalOwnerRequirement::TargetOwner => "TARGET_OWNER",
        }
    }

    /// Reads a wire value back; `None` for a value outside the enum.
    pub fn from_wire(s: &str) -> (r: Option<Self>)
        ensures
            r == Self::from_wire_text(s@),
    {
        if text_eq(s, "ALL_AFFECTED_OWNERS") {
            Some(ApprovalOwnerRequirement::AllAffectedOwners)
        } else if text_eq(s, "NONE") {
            Some(ApprovalOwnerRequirement::NoRequirement)
        } else if text_eq(s, "TARGET_OWNER") {
            Some(ApprovalOwnerRequirement::TargetOwner)
        } else {
            None
        }
    }
}

/// Reading back the wire value of any `ApprovalOwnerRequirement` gives that variant.
pub proof fn lemma_approval_owner_requirement_wire_roundtrip(x: ApprovalOwnerRequirement)
    ensures
        ApprovalOwnerRequirement::from_wire_text(x.wire_text()) == Some(x),
{
    reveal_strlit("ALL_AFFECTED_OWNERS");
    assert("ALL_AFFECTED_OWNERS"@.len() == 19);
    reveal_strlit("NONE");
    assert("NONE"@.len() == 4);
    reveal_strlit("TARGET_OWNER");
    assert("TARGET_OWNER"@.len() == 12);
    match x {
        ApprovalOwnerRequirement::AllAffectedOwners => {
        },
        ApprovalOwnerRequirement::NoRequirement => {
        },
        ApprovalOwnerRequirement::TargetOwner => {
        },
    }
}

/// Whether the initiator may decide their own request.
#[derive(Debug, Clone, Copy, PartialEq, Eq, Structural)]
pub enum ApprovalSelfApproval {
    Allow,
    Deny,
}

impl ApprovalSelfApproval {
    /// The wire value of this variant.
    pub open spec fn wire_text(self) -> Seq<char> {
        match self {
            ApprovalSelfApproval::Allow => "ALLOW"@,
            ApprovalSelfApproval::Deny => "DENY"@,
        }
    }

    /// The variant whose wire value is `s`, if any.
    pub open spec fn from_wire_text(s: Seq<char>) -> Option<Self> {
        if s == "ALLOW"@ {
            Some(ApprovalSelfApproval::Allow)
        } else if s == "DENY"@ {
            Some(ApprovalSelfApproval::Deny)
        } else {
            None
        }
    }

    /// The wire value of this variant.
    pub fn wire(&self) -> (r: &'static str)
        ensures
            r@ == self.wire_text(),
    {
        match self {
            ApprovalSelfApproval::Allow => "ALLOW",
            ApprovalSelfApproval::Deny => "DENY",
        }
    }

    /// Reads a wire value back; `None` for a value outside the enum.
    pub fn from_wire(s: &str) -> (r: Option<Self>)
        ensures
            r == Self::from_wire_text(s@),
    {
        if text_eq(s, "ALLOW") {
            Some(ApprovalSelfApproval::Allow)
        } else if text_eq(s, "DENY") {
            Some(ApprovalSelfApproval::Deny)
        } else {
            None
        }
    }
}

/// Reading back the wire value of any `ApprovalSelfApproval` gives that variant.
pub proof fn lemma_approval_self_approval_wire_roundtrip(x: ApprovalSelfApproval)
    ensures
        ApprovalSelfApproval::from_wire_text(x.wire_text()) == Some(x),
{
    reveal_strlit("ALLOW");
    assert("ALLOW"@.len() == 5);
    reveal_strlit("DENY");
    assert("DENY"@.len() == 4);
    match x {
        ApprovalSelfApproval::Allow => {
        },
        ApprovalSelfApproval::Deny => {
        },
    }
}

/// One variant of the code generator's union fixture.
#[derive(Debug, PartialEq)]
pub struct Variant {
    pub file_digest: Option<String>,
    pub kind: Kind,
    pub message_body: Option<String>,
    pub task_attempt: Option<i64>,
}

/// The answer to a submitted action: the admission gate and dispatch state of its operation.
#[derive(Debug, PartialEq)]
pub struct ActionSubmission {
    pub action_execution_id: String,
    pub action_key: String,
    pub approval_workflow_id: Option<String>,
    pub dispatch_state: ActionDispatchState,
    pub gate_state: ActionGateState,
    pub operation_id: String,
    pub reason: Option<ReasonCode>,
    pub workflow_id: Option<String>,
}

/// A decision on an approval.
#[derive(Debug, PartialEq)]
pub struct ApprovalDecisionRequest {
    pub decision: ApprovalDecision,
}

/// An approval as its approvers see it.
#[derive(Debug, PartialEq)]
pub struct ApprovalView {
    pub action_execution_id: String,
    pub action_key: String,
    pub consume_deadline: Option<String>,
    pub decisions: Vec<DecisionElement>,
    pub expires_at: String,
    pub initiator_principal_id: String,
    pub observation: Option<ReasonCode>,
    pub reason: Option<ReasonCode>,
    pub role_requirements: Vec<RoleRequirementElement>,
    pub status: ApprovalStatus,
    pub target_id: String,
    pub target_type: String,
    pub workflow_id: String,
    pub workspace_id: Option<String>,
}

/// One recorded decision on an approval.
#[derive(Debug, PartialEq)]
pub struct DecisionElement {
    pub approver_principal_id: String,
    pub decided_at: String,
    pub decision: ApprovalDecision,
    pub satisfied_selectors: Vec<ApprovalSelector>,
}

/// One role requirement of an approval policy.
#[derive(Debug, PartialEq)]
pub struct RoleRequirementElement {
    pub min_distinct: i64,
    pub selector: ApprovalSelector,
}

/// A registered device key.
#[derive(Debug, PartialEq)]
pub struct ClientKeyView {
    pub created_at: String,
    pub pubkey: String,
    pub state: BuzzIdentityState,
}

/// The state of a device key after a register or revoke call.
#[derive(Debug, PartialEq)]
pub struct ClientKeyStatus {
    pub pubkey: String,
    pub state: BuzzIdentityState,
    pub workflow_id: Option<String>,
}

/// What a native client needs to join its community.
#[derive(Debug, PartialEq)]
pub struct NativeCommunityFacts {
    pub community_host: String,
    pub relay_url: String,
}

/// An audit entry of the caller's own actions.
#[derive(Debug, PartialEq)]
pub struct OwnAuditEntry {
    pub action_key: String,
    pub decision: String,
    pub event_type: AuditEventType,
    pub occurred_at: String,
    pub result_code: String,
    pub workspace_id: Option<String>,
}

/// A read mark of a channel.
#[derive(Debug, PartialEq)]
pub struct ReadMarkRequest {
    pub context_key: String,
    pub last_read_at: String,
    pub version: i64,
}

/// The caller's platform session.
#[derive(Debug, PartialEq)]
pub struct PlatformSessionView {
    pub current_workspace_id: Option<String>,
    pub display_name: String,
    pub human_identity_id: String,
    pub platform_session_id: String,
    pub tenant_id: String,
    pub tenant_membership_id: String,
    pub tenant_principal_id: String,
}

/// A governed action of the caller, with its projected progress.
#[derive(Debug, PartialEq)]
pub struct TaskView {
    pub action_execution_id: String,
    pub action_key: String,
    pub action_version: i64,
    pub approval_status: Option<ApprovalStatus>,
    pub approval_workflow_id: Option<String>,
    pub created_at: String,
    pub dispatch_state: ActionDispatchState,
    pub gate_state: ActionGateState,
    pub observation: Option<ReasonCode>,
    pub operation_id: String,
    pub reason: Option<ReasonCode>,
    pub target_id: String,
    pub task_status: Option<TaskStatus>,
    pub waiting_reason: Option<String>,
    pub workflow_id: Option<String>,
    pub workflow_kind: Option<WorkflowKind>,
    pub workspace_id: Option<String>,
}

/// The version of a user's stored state.
#[derive(Debug, PartialEq)]
pub struct UserStateVersion {
    pub version: i64,
}

/// A workspace the caller belongs to.
#[derive(Debug, PartialEq)]
pub struct WorkspaceView {
    pub id: String,
    pub name: String,
    pub slug: String,
}

/// A member of a workspace.
#[derive(Debug, PartialEq)]
pub struct WorkspaceMemberView {
    pub display_name: String,
    pub principal_id: String,
    pub pubkeys: Vec<String>,
    pub state: WorkspaceMembershipState,
}

/// A change of the caller's workspace preference.
#[derive(Debug, PartialEq)]
pub struct WorkspacePreferenceRequest {
    pub muted: bool,
    pub starred: bool,
    pub version: i64,
}

/// The body of a refused request.
#[derive(Debug, PartialEq)]
pub struct ErrorBody {
    pub class: ErrorClass,
    pub operation_id: Option<String>,
    pub reason: ReasonCode,
}

/// The identity a session resolved to.
#[derive(Debug, PartialEq)]
pub struct ResolvedIdentity {
    pub current_workspace_id: Option<String>,
    pub human_identity_id: String,
    pub tenant_id: String,
    pub tenant_membership_id: String,
    pub tenant_principal_id: String,
}

/// A workflow's report of its task state.
#[derive(Debug, PartialEq)]
pub struct TaskStateReport {
    pub event_id: i64,
    pub progress: Option<String>,
    pub run_id: String,
    pub status: TaskStatus,
    pub waiting_reason: Option<String>,
    pub workflow_id: String,
}

/// The reference of a business workflow.
#[derive(Debug, PartialEq)]
pub struct WorkflowRef {
    pub created_at: String,
    pub entity_version: i64,
    pub kind: WorkflowKind,
    pub primary_entity_id: String,
    pub run_id: Option<String>,
    pub tenant_id: String,
    pub workflow_id: String,
}

/// An owner whose resources an action affects.
#[derive(Debug, PartialEq)]
pub struct AffectedOwnerRef {
    pub owner_principal_id: String,
    pub target_id: String,
    pub target_type: String,
    pub target_version: i64,
}

/// The outcome of a control call on an approval workflow.
#[derive(Debug, PartialEq)]
pub struct ApprovalControlOutcome {
    pub status: ApprovalStatus,
}

/// The outcome of a decision sent to an approval workflow.
#[derive(Debug, PartialEq)]
pub struct ApprovalDecisionOutcome {
    pub admitted: bool,
    pub approver_principal_id: String,
    pub decision: Option<ApprovalDecision>,
    pub reason: Option<ReasonCode>,
    pub status: ApprovalStatus,
}

/// A decision as the approval workflow records it.
#[derive(Debug, PartialEq)]
pub struct ApprovalDecisionRecord {
    pub approver_principal_id: String,
    pub decided_at: String,
    pub decision: ApprovalDecision,
    pub satisfied_selectors: Vec<ApprovalSelector>,
}

/// A decision sent to an approval workflow.
#[derive(Debug, PartialEq)]
pub struct ApprovalDecisionUpdate {
    pub approver_principal_id: String,
    pub decision: ApprovalDecision,
}

/// The input of an approval workflow.
#[derive(Debug, PartialEq)]
pub struct ApprovalWorkflowInput {
    pub action_definition_version: i64,
    pub action_execution_id: String,
    pub action_key: String,
    pub affected_owner_refs: Vec<AffectedOwnerRefElement>,
    pub consume_window_seconds: i64,
    pub expires_at: String,
    pub initiator_principal_id: String,
    pub operation_id: String,
    pub owner_requirement: ApprovalOwnerRequirement,
    pub parameter_hash: String,
    pub policy_id: String,
    pub policy_version: i64,
    pub role_requirements: Vec<RoleRequirementElement>,
    pub self_approval: ApprovalSelfApproval,
    pub target_id: String,
    pub target_type: String,
    pub tenant_id: String,
    pub workspace_id: Option<String>,
}

/// One affected owner in an approval workflow's input.
#[derive(Debug, PartialEq)]
pub struct AffectedOwnerRefElement {
    pub owner_principal_id: String,
    pub target_id: String,
    pub target_type: String,
    pub target_version: i64,
}

/// An invalidation sent to an approval workflow.
#[derive(Debug, PartialEq)]
pub struct ApprovalInvalidateUpdate {
    pub reason: ReasonCode,
}

/// A role requirement in an approval workflow's input.
#[derive(Debug, PartialEq)]
pub struct ApprovalRoleRequirement {
    pub min_distinct: i64,
    pub selector: ApprovalSelector,
}

/// An approval workflow's report of its state.
#[derive(Debug, PartialEq)]
pub struct ApprovalStateReport {
    pub consumed_at: Option<String>,
    pub consume_deadline: Option<String>,
    pub decisions: Vec<DecisionElement>,
    pub event_id: i64,
    pub expires_at: String,
    pub reason: Option<ReasonCode>,
    pub run_id: String,
    pub status: ApprovalStatus,
    pub workflow_id: String,
}

/// A request to re-admit an approved action.
#[derive(Debug, PartialEq)]
pub struct FreshApprovalAdmissionRequest {
    pub approval_workflow_id: String,
    pub approver_principal_id: String,
    pub decision: ApprovalDecision,
}

/// The result of re-admitting an approved action.
#[derive(Debug, PartialEq)]
pub struct FreshApprovalAdmissionResult {
    pub admitted: bool,
    pub reason: Option<ReasonCode>,
    pub satisfied_selectors: Vec<ApprovalSelector>,
}

} // verus!
