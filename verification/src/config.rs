//! Deployment settings. None has a default: a guessed value would start the
//! service on a coincidence instead of a decision.

use vstd::prelude::*;

use crate::digest::push_chars;
use crate::roster::{parse_positive_seconds, positive_seconds};
use crate::text::{chars_of, string_from_chars, trim_chars, trimmed};

verus! {

fn join(a: &str, b: &str) -> (r: String)
    ensures
        r@ == a@ + b@,
{
    let mut v: Vec<char> = Vec::new();
    let x = chars_of(a);
    push_chars(&mut v, x.as_slice());
    let y = chars_of(b);
    push_chars(&mut v, y.as_slice());
    string_from_chars(v.as_slice())
}

/// The message for a missing setting.
pub open spec fn missing_message(name: Seq<char>) -> Seq<char> {
    "缺少 "@ + name
}

/// The message for a setting that is not a positive integer.
pub open spec fn not_positive_message(name: Seq<char>) -> Seq<char> {
    name + " 必须是正整数"@
}

/// The message for a setting out of its type's range.
pub open spec fn out_of_range_message(name: Seq<char>) -> Seq<char> {
    name + " 超出范围"@
}

/// A setting that must be a positive integer.
pub fn positive_setting(name: &str, raw: Option<&str>) -> (r: Result<u64, String>)
    ensures
        (match raw {
            None => r matches Err(m) && m@ == missing_message(name@),
            Some(v) => match positive_seconds(v@) {
                Some(n) => r == Ok::<u64, String>(n),
                None => r matches Err(m) && m@ == not_positive_message(name@),
            },
        }),
{
    match raw {
        None => Err(join("缺少 ", name)),
        Some(v) => match parse_positive_seconds(v) {
            Some(n) => Ok(n),
            None => Err(join(name, " 必须是正整数")),
        },
    }
}

/// A positive setting that must also fit a signed 64-bit integer.
pub fn positive_i64_setting(name: &str, raw: Option<&str>) -> (r: Result<i64, String>)
    ensures
        (match raw {
            None => r matches Err(m) && m@ == missing_message(name@),
            Some(v) => match positive_seconds(v@) {
                Some(n) => if n <= i64::MAX {
                    r == Ok::<i64, String>(n as i64)
                } else {
                    r matches Err(m) && m@ == not_positive_message(name@)
                },
                None => r matches Err(m) && m@ == not_positive_message(name@),
            },
        }),
{
    match raw {
        None => Err(join("缺少 ", name)),
        Some(v) => match parse_positive_seconds(v) {
            Some(n) => if n <= i64::MAX as u64 {
                Ok(n as i64)
            } else {
                Err(join(name, " 必须是正整数"))
            },
            None => Err(join(name, " 必须是正整数")),
        },
    }
}

/// A batch size read as a positive integer, which must fit a signed 64-bit
/// integer.
pub fn batch_setting(name: &str, n: u64) -> (r: Result<i64, String>)
    ensures
        n <= i64::MAX ==> r == Ok::<i64, String>(n as i64),
        n > i64::MAX ==> (r matches Err(m) && m@ == out_of_range_message(name@)),
{
    if n <= i64::MAX as u64 {
        Ok(n as i64)
    } else {
        Err(join(name, " 超出范围"))
    }
}

/// A text setting: present and not blank (kept as given).
pub fn text_setting(name: &str, raw: Option<String>) -> (r: Result<String, String>)
    ensures
        (match raw {
            Some(v) => if trimmed(v@).len() > 0 {
                r == Ok::<String, String>(v)
            } else {
                r matches Err(m) && m@ == missing_message(name@)
            },
            None => r matches Err(m) && m@ == missing_message(name@),
        }),
{
    match raw {
        Some(v) => {
            let c = chars_of(v.as_str());
            let t = trim_chars(c.as_slice());
            if t.len() > 0 {
                Ok(v)
            } else {
                Err(join("缺少 ", name))
            }
        },
        None => Err(join("缺少 ", name)),
    }
}

/// The governance chain's settings.
#[derive(Debug, Clone, PartialEq, Eq)]
pub struct GovernanceConfig {
    /// How long an approval may wait to be consumed; frozen into the approval
    /// workflow.
    pub consume_window_seconds: i64,
    /// The margin that re-admission and dispatch must leave before the
    /// consume deadline; with less, nothing is dispatched.
    pub dispatch_margin_seconds: i64,
    /// How long to wait for an update to complete before the outcome counts
    /// as unknown.
    pub update_wait_seconds: u64,
    /// The age at which an evaluation or an undispatched admission counts as
    /// stalled.
    pub evaluation_timeout_seconds: i64,
    /// The freshness bound of projections.
    pub projection_freshness_seconds: i64,
    /// The page size of task and approval lists.
    pub page_limit: i64,
    /// The page size of the role management view.
    pub role_member_page_limit: i64,
    /// The page size of relationship reads (reads always go to the end).
    pub relationship_page: u32,
    /// How long an invitation stays valid.
    pub invitation_ttl_seconds: i64,
    /// The base of invitation links; the credential follows `#`.
    pub invitation_link_base: String,
    pub human_oidc_issuer: String,
    pub human_oidc_client_id: String,
}

/// Whether `s` starts with `p`.
pub open spec fn starts_with(s: Seq<char>, p: Seq<char>) -> bool {
    s.len() >= p.len() && s.subrange(0, p.len() as int) == p
}

/// Whether an invitation link base is usable: an http(s) address without a
/// `#`, since the credential is appended as the fragment.
pub open spec fn link_base_ok(base: Seq<char>) -> bool {
    (starts_with(base, "https://"@) || starts_with(base, "http://"@)) && !base.contains('#')
}

fn starts_with_text(s: &[char], p: &str) -> (r: bool)
    ensures
        r == starts_with(s@, p@),
{
    let pc = chars_of(p);
    if pc.len() > s.len() {
        return false;
    }
    let mut i: usize = 0;
    while i < pc.len()
        invariant
            i <= pc@.len() <= s@.len(),
            pc@ == p@,
            forall|j: int| 0 <= j < i ==> s@[j] == pc@[j],
        decreases pc.len() - i,
    {
        if s[i] != pc[i] {
            proof {
                if s@.subrange(0, pc@.len() as int) == pc@ {
                    assert(s@.subrange(0, pc@.len() as int)[i as int] == s@[i as int]);
                }
            }
            return false;
        }
        i = i + 1;
    }
    assert(s@.subrange(0, pc@.len() as int) =~= pc@);
    true
}

fn has_hash(s: &[char]) -> (r: bool)
    ensures
        r == s@.contains('#'),
{
    let mut i: usize = 0;
    while i < s.len()
        invariant
            i <= s@.len(),
            forall|j: int| 0 <= j < i ==> s@[j] != '#',
        decreases s.len() - i,
    {
        if s[i] == '#' {
            assert(s@[i as int] == '#');
            return true;
        }
        i = i + 1;
    }
    false
}

/// Checks an invitation link base (see `link_base_ok`).
pub fn link_base_usable(base: &str) -> (r: bool)
    ensures
        r == link_base_ok(base@),
{
    let c = chars_of(base);
    (starts_with_text(c.as_slice(), "https://") || starts_with_text(c.as_slice(), "http://")) && !has_hash(
        c.as_slice(),
    )
}

/// The refusal of an unusable link base.
pub open spec fn link_base_message() -> Seq<char> {
    "TENANT_INVITATION_LINK_BASE 必须是不含 # 的 http(s) 地址"@
}

/// The refusal of a margin that does not fit the window.
pub open spec fn margin_message() -> Seq<char> {
    "APPROVAL_DISPATCH_MARGIN_SECONDS 必须小于 APPROVAL_CONSUME_WINDOW_SECONDS"@
}

impl GovernanceConfig {
    /// Checks the settings against each other: the link base must be usable,
    /// and the dispatch margin must be less than the consume window.
    pub fn check(&self) -> (r: Result<(), String>)
        ensures
            !link_base_ok(self.invitation_link_base@) ==> (r matches Err(m) && m@ == link_base_message()),
            link_base_ok(self.invitation_link_base@) && self.dispatch_margin_seconds >= self.consume_window_seconds
                ==> (r matches Err(m) && m@ == margin_message()),
            link_base_ok(self.invitation_link_base@) && self.dispatch_margin_seconds < self.consume_window_seconds
                ==> r is Ok,
    {
        if !link_base_usable(self.invitation_link_base.as_str()) {
            return Err("TENANT_INVITATION_LINK_BASE 必须是不含 # 的 http(s) 地址".to_owned());
        }
        if self.dispatch_margin_seconds >= self.consume_window_seconds {
            return Err(
                "APPROVAL_DISPATCH_MARGIN_SECONDS 必须小于 APPROVAL_CONSUME_WINDOW_SECONDS".to_owned(),
            );
        }
        Ok(())
    }
}

/// The relationship page size, which must fit 32 bits.
pub fn relationship_page(n: i64) -> (r: Result<u32, String>)
    ensures
        0 <= n <= u32::MAX ==> r == Ok::<u32, String>(n as u32),
        !(0 <= n <= u32::MAX) ==> r is Err,
{
    if 0 <= n && n <= u32::MAX as i64 {
        Ok(n as u32)
    } else {
        Err("SPICEDB_READ_PAGE_LIMIT 超出范围".to_owned())
    }
}

/// The settings of the governance reconciliation.
#[derive(Debug, Clone, PartialEq, Eq)]
pub struct GovernanceReconcileConfig {
    pub interval_seconds: u64,
    pub batch: i64,
}

/// The settings of the publish reconciliation.
#[derive(Debug, Clone, PartialEq, Eq)]
pub struct PublishReconcileConfig {
    pub interval_seconds: u64,
    /// How long after dispatch a message must stay unfound before it counts
    /// as undelivered; at least the relay's clock skew window.
    pub settle_seconds: u64,
    pub batch: i64,
    /// How long an idempotency record is kept after its operation settled.
    pub idempotency_retention_seconds: u64,
}

/// The settings of the role reconciliation.
#[derive(Debug, Clone, PartialEq, Eq)]
pub struct RoleReconcileConfig {
    pub interval_seconds: u64,
}

impl GovernanceReconcileConfig {
    /// The settings from their configured texts; the first missing or
    /// malformed one is reported.
    pub fn from_values(interval: Option<&str>, batch: Option<&str>) -> (r: Result<Self, String>)
        ensures
            r matches Ok(c) ==> Some(c.interval_seconds) == positive_of(interval) && Some(c.batch as u64)
                == positive_of(batch),
            r is Ok <==> (positive_of(interval) is Some && batch_fits(positive_of(batch))),
            interval is None ==> (r matches Err(m) && m@ == missing_message(
                "GOVERNANCE_RECONCILE_INTERVAL_SECONDS"@,
            )),
    {
        let interval_seconds = positive_setting("GOVERNANCE_RECONCILE_INTERVAL_SECONDS", interval)?;
        let b = positive_setting("GOVERNANCE_RECONCILE_BATCH", batch)?;
        let batch = batch_setting("GOVERNANCE_RECONCILE_BATCH", b)?;
        Ok(GovernanceReconcileConfig { interval_seconds, batch })
    }
}

impl PublishReconcileConfig {
    /// The settings from their configured texts; the first missing or
    /// malformed one is reported.
    pub fn from_values(
        interval: Option<&str>,
        settle: Option<&str>,
        batch: Option<&str>,
        retention: Option<&str>,
    ) -> (r: Result<Self, String>)
        ensures
            r matches Ok(c) ==> Some(c.interval_seconds) == positive_of(interval) && Some(c.settle_seconds)
                == positive_of(settle) && Some(c.batch as u64) == positive_of(batch) && Some(
                c.idempotency_retention_seconds,
            ) == positive_of(retention),
            r is Ok <==> (positive_of(interval) is Some && positive_of(settle) is Some && batch_fits(
                positive_of(batch),
            ) && positive_of(retention) is Some),
            interval is None ==> (r matches Err(m) && m@ == missing_message(
                "PUBLISH_RECONCILE_INTERVAL_SECONDS"@,
            )),
    {
        let interval_seconds = positive_setting("PUBLISH_RECONCILE_INTERVAL_SECONDS", interval)?;
        let settle_seconds = positive_setting("PUBLISH_RESULT_SETTLE_SECONDS", settle)?;
        let b = positive_setting("PUBLISH_RECONCILE_BATCH", batch)?;
        let batch = batch_setting("PUBLISH_RECONCILE_BATCH", b)?;
        let idempotency_retention_seconds = positive_setting("PUBLISH_IDEMPOTENCY_RETENTION_SECONDS", retention)?;
        Ok(PublishReconcileConfig { interval_seconds, settle_seconds, batch, idempotency_retention_seconds })
    }
}

impl RoleReconcileConfig {
    /// The settings from the configured interval.
    pub fn from_values(interval: Option<&str>) -> (r: Result<Self, String>)
        ensures
            r matches Ok(c) ==> Some(c.interval_seconds) == positive_of(interval),
            r is Ok <==> positive_of(interval) is Some,
            interval is None ==> (r matches Err(m) && m@ == missing_message("ROLE_RECONCILE_INTERVAL_SECONDS"@)),
            (interval matches Some(v) && positive_seconds(v@) is None) ==> (r matches Err(m) && m@
                == not_positive_message("ROLE_RECONCILE_INTERVAL_SECONDS"@)),
    {
        let interval_seconds = positive_setting("ROLE_RECONCILE_INTERVAL_SECONDS", interval)?;
        Ok(RoleReconcileConfig { interval_seconds })
    }
}

/// Whether a batch size is present and fits a signed 64-bit integer.
pub open spec fn batch_fits(b: Option<u64>) -> bool {
    match b {
        Some(n) => n <= i64::MAX,
        None => false,
    }
}

/// The positive integer a present setting holds.
pub open spec fn positive_of(raw: Option<&str>) -> Option<u64> {
    match raw {
        Some(v) => positive_seconds(v@),
        None => None,
    }
}

} // verus!
