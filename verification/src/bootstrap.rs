//! Deployment bootstrap of a business tenant and its first tenant admin.
//!
//! The bootstrap only ever goes from zero admins to one: once the tenant has
//! an effective admin it adds nobody and grants nothing. Every argument is
//! required; guessing a slug or a subject would decide for the operator who
//! governs a tenant. A run that stopped part way continues when run again
//! with the same arguments.

use vstd::prelude::*;

use crate::digest::{
    hex_encode, hex_text, int_members, json_object, json_object_result, object_members, push_chars, sha256, sha256_result,
    text_members,
};
use crate::governance::{is_slug, valid_slug, HTTP_CONFLICT};
use crate::roles::texts;
use crate::text::{chars_of, parse_u64, parse_u64_result, string_from_chars, text_eq, trim_chars, trimmed, utf8_of};

verus! {

/// The bootstrap's arguments.
#[derive(Debug, Clone, PartialEq, Eq)]
pub struct Args {
    pub slug: String,
    pub name: String,
    pub admin_subject: String,
    pub admin_display_name: String,
    /// How long to wait for lifecycles to settle, in seconds.
    pub wait_seconds: u64,
}

/// Whether a text starts with `--`.
pub open spec fn starts_with_dashes(s: Seq<char>) -> bool {
    s.len() >= 2 && s[0] == '-' && s[1] == '-'
}

/// The first position of `flag` among the arguments.
pub open spec fn first_position(argv: Seq<Seq<char>>, flag: Seq<char>) -> Option<int> {
    if argv.contains(flag) {
        Some(choose|i: int| 0 <= i < argv.len() && argv[i] == flag && forall|j: int| 0 <= j < i ==> argv[j] != flag)
    } else {
        None
    }
}

/// The value given for `flag`: the argument right after its first occurrence,
/// which must exist, be non-empty and not itself look like a flag.
pub open spec fn flag_value(argv: Seq<Seq<char>>, flag: Seq<char>) -> Result<Seq<char>, Seq<char>> {
    match first_position(argv, flag) {
        None => Err("缺少 "@ + flag),
        Some(i) => if i + 1 < argv.len() && argv[i + 1].len() > 0 && !starts_with_dashes(argv[i + 1]) {
            Ok(argv[i + 1])
        } else {
            Err(flag + " 缺值"@)
        },
    }
}

/// The message for a wait that is not a non-negative integer.
pub open spec fn wait_message() -> Seq<char> {
    "--wait-seconds 必须是非负整数"@
}

/// What parsing the arguments gives: the wait first, then the other flags in
/// order; the first failure is reported. Values are `(slug, name, subject,
/// display name, wait)`.
pub open spec fn parse_of(argv: Seq<Seq<char>>) -> Result<(Seq<char>, Seq<char>, Seq<char>, Seq<char>, u64), Seq<char>> {
    parse_from(
        flag_value(argv, "--wait-seconds"@),
        flag_value(argv, "--slug"@),
        flag_value(argv, "--name"@),
        flag_value(argv, "--admin-subject"@),
        flag_value(argv, "--admin-display-name"@),
    )
}

/// The parse of the five flags' values (see `parse_of`).
pub open spec fn parse_from(
    wait: Result<Seq<char>, Seq<char>>,
    slug: Result<Seq<char>, Seq<char>>,
    name: Result<Seq<char>, Seq<char>>,
    subject: Result<Seq<char>, Seq<char>>,
    display: Result<Seq<char>, Seq<char>>,
) -> Result<(Seq<char>, Seq<char>, Seq<char>, Seq<char>, u64), Seq<char>> {
    match wait {
        Err(e) => Err(e),
        Ok(w) => match parse_u64_result(w) {
            None => Err(wait_message()),
            Some(wait) => match slug {
                Err(e) => Err(e),
                Ok(slug) => match name {
                    Err(e) => Err(e),
                    Ok(name) => match subject {
                        Err(e) => Err(e),
                        Ok(subject) => match display {
                            Err(e) => Err(e),
                            Ok(display) => Ok((slug, name, subject, display, wait)),
                        },
                    },
                },
            },
        },
    }
}

pub(crate) fn concat(a: &str, b: &str) -> (r: String)
    ensures
        r@ == a@ + b@,
{
    let mut v: Vec<char> = Vec::new();
    let x = chars_of(a);
    push_chars(&mut v, x.as_slice());
    let y = chars_of(b);
    push_chars(&mut v, y.as_slice());
    string_from_chars(v.as_slice())
}

fn dashes(s: &str) -> (r: bool)
    ensures
        r == starts_with_dashes(s@),
{
    let c = chars_of(s);
    c.len() >= 2 && c[0] == '-' && c[1] == '-'
}

fn clone_text(s: &String) -> (r: String)
    ensures
        r@ == s@,
{
    s.as_str().to_owned()
}

fn position(argv: &[String], flag: &str) -> (r: Option<usize>)
    ensures
        (match r {
            Some(i) => i < argv@.len() && texts(argv@)[i as int] == flag@ && forall|j: int|
                0 <= j < i ==> texts(argv@)[j] != flag@,
            None => !texts(argv@).contains(flag@),
        }),
{
    let ghost a = texts(argv@);
    let mut i: usize = 0;
    while i < argv.len()
        invariant
            i <= argv@.len(),
            a == texts(argv@),
            forall|j: int| 0 <= j < i ==> a[j] != flag@,
        decreases argv.len() - i,
    {
        if text_eq(argv[i].as_str(), flag) {
            return Some(i);
        }
        i = i + 1;
    }
    None
}

/// The value of `flag` (see `flag_value`).
pub fn get_flag(argv: &[String], flag: &str) -> (r: Result<String, String>)
    ensures
        (match flag_value(texts(argv@), flag@) {
            Ok(v) => r matches Ok(x) && x@ == v,
            Err(e) => r matches Err(x) && x@ == e,
        }),
{
    let ghost a = texts(argv@);
    let i = match position(argv, flag) {
        None => {
            return Err(concat("缺少 ", flag));
        },
        Some(i) => i,
    };
    proof {
        assert(a.contains(flag@));
        let p = first_position(a, flag@)->0;
        assert(p == i) by {
            if p < i {
                assert(a[p] != flag@);
            }
            if p > i {
                assert(a[i as int] == flag@);
            }
        }
    }
    if i < argv.len() - 1 {
        let v = argv[i + 1].as_str();
        if !v.is_empty() && !dashes(v) {
            return Ok(clone_text(&argv[i + 1]));
        }
    }
    Err(concat(flag, " 缺值"))
}

impl Args {
    /// Parses the arguments (see `parse_of`). None has a default.
    pub fn parse(argv: &[String]) -> (r: Result<Args, String>)
        ensures
            (match parse_of(texts(argv@)) {
                Ok((slug, name, subject, display, wait)) => r matches Ok(a) && a.slug@ == slug && a.name@ == name
                    && a.admin_subject@ == subject && a.admin_display_name@ == display && a.wait_seconds == wait,
                Err(e) => r matches Err(x) && x@ == e,
            }),
    {
        let w = match get_flag(argv, "--wait-seconds") {
            Ok(v) => v,
            Err(e) => {
                return Err(e);
            },
        };
        let wc = chars_of(w.as_str());
        let wait = match parse_u64(wc.as_slice()) {
            Some(n) => n,
            None => {
                return Err("--wait-seconds 必须是非负整数".to_owned());
            },
        };
        let slug = match get_flag(argv, "--slug") {
            Ok(v) => v,
            Err(e) => {
                return Err(e);
            },
        };
        let name = match get_flag(argv, "--name") {
            Ok(v) => v,
            Err(e) => {
                return Err(e);
            },
        };
        let admin_subject = match get_flag(argv, "--admin-subject") {
            Ok(v) => v,
            Err(e) => {
                return Err(e);
            },
        };
        let admin_display_name = match get_flag(argv, "--admin-display-name") {
            Ok(v) => v,
            Err(e) => {
                return Err(e);
            },
        };
        Ok(Args { slug, name, admin_subject, admin_display_name, wait_seconds: wait })
    }
}

/// Whether the arguments name a valid tenant: a slug of lowercase letters,
/// digits and hyphens, and a display name that is not blank.
pub fn arguments_acceptable(slug: &str, name: &str) -> (r: bool)
    ensures
        r == (is_slug(slug@) && trimmed(name@).len() > 0),
{
    let c = chars_of(name);
    let t = trim_chars(c.as_slice());
    valid_slug(slug) && t.len() > 0
}

/// The canonical JSON that a bootstrap's steps are frozen on: the slug and the
/// admin's subject.
pub open spec fn bootstrap_json(slug: Seq<char>, subject: Seq<char>) -> Seq<char> {
    json_object_result(seq![("adminSubject"@, subject), ("slug"@, slug)], Seq::empty(), Seq::empty())
}

/// The parameter hash of every bootstrap step: hex of SHA-256 of the JSON of
/// slug and admin subject.
pub fn bootstrap_params_hash(slug: &str, admin_subject: &str) -> (r: String)
    ensures
        r@ == hex_text(sha256_result(utf8_of(bootstrap_json(slug@, admin_subject@)))),
{
    let mut texts: Vec<(String, String)> = Vec::new();
    texts.push(("adminSubject".to_owned(), admin_subject.to_owned()));
    texts.push(("slug".to_owned(), slug.to_owned()));
    let ints: Vec<(String, i64)> = Vec::new();
    let objects: Vec<(String, Vec<(String, String)>)> = Vec::new();
    proof {
        assert(text_members(texts@) =~= seq![("adminSubject"@, admin_subject@), ("slug"@, slug@)]);
        assert(int_members(ints@) =~= Seq::<(Seq<char>, i64)>::empty());
        assert(object_members(objects@) =~= Seq::<(Seq<char>, Seq<(Seq<char>, Seq<char>)>)>::empty());
    }
    let text = json_object(texts.as_slice(), ints.as_slice(), objects.as_slice());
    let d = sha256(text.as_str().as_bytes());
    hex_encode(d.as_slice())
}

/// Where a bootstrap ended.
#[derive(Debug, Clone, Copy, PartialEq, Eq, Structural)]
pub enum BootstrapState {
    /// The declared person is an effective admin.
    Completed,
    /// A lifecycle is still settling; run again to continue.
    Pending,
    /// The tenant already has another effective admin; nothing was added.
    Inert,
}

impl BootstrapState {
    /// The wire value of this state.
    pub fn wire(self) -> (r: &'static str)
        ensures
            r@ == (match self {
                BootstrapState::Completed => "COMPLETED"@,
                BootstrapState::Pending => "PENDING"@,
                BootstrapState::Inert => "INERT"@,
            }),
    {
        match self {
            BootstrapState::Completed => "COMPLETED",
            BootstrapState::Pending => "PENDING",
            BootstrapState::Inert => "INERT",
        }
    }
}

/// The result of a bootstrap.
#[derive(Debug, Clone, Copy, PartialEq, Eq, Structural)]
pub struct Outcome {
    pub tenant_id: u128,
    pub admin_principal_id: Option<u128>,
    pub state: BootstrapState,
}

/// The zero-to-one rule: if the declared person is already an effective admin
/// the bootstrap is complete; if anyone else is, it stays inert; only with no
/// effective admin does it go on (`None`).
pub open spec fn zero_to_one_of(tenant: u128, declared: Option<u128>, effective: Seq<u128>) -> Option<Outcome> {
    if (match declared {
        Some(p) => effective.contains(p),
        None => false,
    }) {
        Some(Outcome { tenant_id: tenant, admin_principal_id: declared, state: BootstrapState::Completed })
    } else if effective.len() > 0 {
        Some(Outcome { tenant_id: tenant, admin_principal_id: None, state: BootstrapState::Inert })
    } else {
        None
    }
}

fn contains_u128(v: &[u128], x: u128) -> (r: bool)
    ensures
        r == v@.contains(x),
{
    let mut i: usize = 0;
    while i < v.len()
        invariant
            i <= v@.len(),
            forall|j: int| 0 <= j < i ==> v@[j] != x,
        decreases v.len() - i,
    {
        if v[i] == x {
            assert(v@[i as int] == x);
            return true;
        }
        i = i + 1;
    }
    false
}

/// Applies the zero-to-one rule (see `zero_to_one_of`). It is checked before
/// any write, and again under the tenant's lock before the grant.
pub fn zero_to_one(tenant: u128, declared: Option<u128>, effective: &[u128]) -> (r: Option<Outcome>)
    ensures
        r == zero_to_one_of(tenant, declared, effective@),
{
    if let Some(p) = declared {
        if contains_u128(effective, p) {
            return Some(Outcome { tenant_id: tenant, admin_principal_id: Some(p), state: BootstrapState::Completed });
        }
    }
    if effective.len() > 0 {
        Some(Outcome { tenant_id: tenant, admin_principal_id: None, state: BootstrapState::Inert })
    } else {
        None
    }
}

/// What to do with an entity the bootstrap found or created.
#[derive(Debug, Clone, Copy, PartialEq, Eq, Structural)]
pub enum EntityStep {
    /// It is ACTIVE.
    Ready,
    /// It is PROVISIONING: (re)start its lifecycle under the same ID.
    Launch,
    /// Any other state: the bootstrap does not change it (a revoked member is
    /// only restored through an invitation).
    Refuse,
}

/// The step for an entity in `state`.
pub fn entity_step(state: &str) -> (r: EntityStep)
    ensures
        r == (if state@ == "ACTIVE"@ {
            EntityStep::Ready
        } else if state@ == "PROVISIONING"@ {
            EntityStep::Launch
        } else {
            EntityStep::Refuse
        }),
{
    if text_eq(state, "ACTIVE") {
        EntityStep::Ready
    } else if text_eq(state, "PROVISIONING") {
        EntityStep::Launch
    } else {
        EntityStep::Refuse
    }
}

/// One look at an entity the bootstrap waits for.
#[derive(Debug, Clone, Copy, PartialEq, Eq, Structural)]
pub enum WaitStep {
    /// ACTIVE: go on.
    Active,
    /// Still provisioning, before the deadline: look again after the poll
    /// interval.
    Poll,
    /// Still provisioning at the deadline: end as PENDING.
    Pending,
    /// Any other state: stop.
    Stop,
}

/// The wait's decision for an entity in `state`.
pub fn wait_step(state: &str, before_deadline: bool) -> (r: WaitStep)
    ensures
        r == (if state@ == "ACTIVE"@ {
            WaitStep::Active
        } else if state@ == "PROVISIONING"@ {
            if before_deadline {
                WaitStep::Poll
            } else {
                WaitStep::Pending
            }
        } else {
            WaitStep::Stop
        }),
{
    if text_eq(state, "ACTIVE") {
        WaitStep::Active
    } else if text_eq(state, "PROVISIONING") {
        if before_deadline {
            WaitStep::Poll
        } else {
            WaitStep::Pending
        }
    } else {
        WaitStep::Stop
    }
}

/// Whether a lifecycle start is confirmed: it was accepted, or the same ID
/// exists already (409). Any other answer leaves the step undispatched, to be
/// converged by a rerun under the same ID.
pub fn start_confirmed(started: Result<(), u16>) -> (r: bool)
    ensures
        r == (started is Ok || started == Err::<(), u16>(HTTP_CONFLICT)),
{
    match started {
        Ok(()) => true,
        Err(s) => s == HTTP_CONFLICT,
    }
}

/// The audit target type of a dispatched bootstrap step: the tenant itself or
/// the first membership.
pub fn dispatch_target_type(target: u128, tenant: u128) -> (r: &'static str)
    ensures
        r@ == (if target == tenant {
            "TENANT"@
        } else {
            "TENANT_MEMBERSHIP"@
        }),
{
    if target == tenant {
        "TENANT"
    } else {
        "TENANT_MEMBERSHIP"
    }
}

/// The bootstrap never adds a second admin: whenever the tenant has an
/// effective admin, the rule stops it, completed only if the declared person
/// is one of them.
pub proof fn lemma_bootstrap_only_from_zero(tenant: u128, declared: Option<u128>, effective: Seq<u128>)
    ensures
        effective.len() > 0 ==> zero_to_one_of(tenant, declared, effective) is Some,
        (match zero_to_one_of(tenant, declared, effective) {
            Some(o) => o.state == BootstrapState::Completed ==> (match o.admin_principal_id {
                Some(p) => effective.contains(p),
                None => false,
            }),
            None => true,
        }),
        effective.len() == 0 ==> zero_to_one_of(tenant, declared, effective) is None,
{
    if effective.len() == 0 {
        if let Some(p) = declared {
            assert(!effective.contains(p));
        }
    }
}

/// Arguments given as flag/value pairs, in order.
pub open spec fn flatten_pairs(p: Seq<(Seq<char>, Seq<char>)>) -> Seq<Seq<char>>
    decreases p.len(),
{
    if p.len() == 0 {
        Seq::empty()
    } else {
        flatten_pairs(p.drop_last()) + seq![p.last().0, p.last().1]
    }
}

/// The flags the bootstrap takes.
pub open spec fn is_bootstrap_flag(s: Seq<char>) -> bool {
    s == "--slug"@ || s == "--name"@ || s == "--admin-subject"@ || s == "--admin-display-name"@ || s
        == "--wait-seconds"@
}

/// Pairs in which no flag occurs twice and no value is itself a flag name.
pub open spec fn pairs_well_formed(p: Seq<(Seq<char>, Seq<char>)>) -> bool {
    &&& forall|i: int, j: int| 0 <= i < j < p.len() ==> (#[trigger] p[i]).0 != (#[trigger] p[j]).0
    &&& forall|i: int| 0 <= i < p.len() ==> !is_bootstrap_flag((#[trigger] p[i]).1)
}

proof fn lemma_flatten_pairs(p: Seq<(Seq<char>, Seq<char>)>)
    ensures
        flatten_pairs(p).len() == 2 * p.len(),
        forall|k: int| 0 <= k < p.len() ==> flatten_pairs(p)[2 * k] == (#[trigger] p[k]).0 && flatten_pairs(p)[2 * k + 1] == p[k].1,
    decreases p.len(),
{
    if p.len() > 0 {
        lemma_flatten_pairs(p.drop_last());
        assert forall|k: int| 0 <= k < p.len() implies flatten_pairs(p)[2 * k] == (#[trigger] p[k]).0 && flatten_pairs(p)[2 * k
            + 1] == p[k].1 by {
            if k < p.len() - 1 {
                assert(p.drop_last()[k] == p[k]);
            }
        }
    }
}

/// Where a flag's value comes from when the arguments are pairs: the pair
/// that names it.
proof fn lemma_flag_value_of_pairs(p: Seq<(Seq<char>, Seq<char>)>, f: Seq<char>)
    requires
        pairs_well_formed(p),
        is_bootstrap_flag(f),
    ensures
        forall|k: int| 0 <= k < p.len() && (#[trigger] p[k]).0 == f ==> flag_value(flatten_pairs(p), f) == (if p[k].1.len()
            > 0 && !starts_with_dashes(p[k].1) {
            Ok::<Seq<char>, Seq<char>>(p[k].1)
        } else {
            Err(f + " 缺值"@)
        }),
        (forall|k: int| 0 <= k < p.len() ==> (#[trigger] p[k]).0 != f) ==> flag_value(flatten_pairs(p), f) == Err::<
            Seq<char>,
            Seq<char>,
        >("缺少 "@ + f),
{
    let a = flatten_pairs(p);
    lemma_flatten_pairs(p);
    assert forall|m: int| 0 <= m < a.len() implies (m % 2 == 0 ==> a[m] == p[m / 2].0) && (m % 2 == 1 ==> a[m]
        == p[m / 2].1) by {
        let k = m / 2;
        assert(0 <= k < p.len());
        assert(m == 2 * k + m % 2);
        assert(a[2 * k] == p[k].0);
    }
    assert forall|k: int| 0 <= k < p.len() && (#[trigger] p[k]).0 == f implies flag_value(a, f) == (if p[k].1.len() > 0
        && !starts_with_dashes(p[k].1) {
        Ok::<Seq<char>, Seq<char>>(p[k].1)
    } else {
        Err(f + " 缺值"@)
    }) by {
        assert(a[2 * k] == f);
        assert(a.contains(f));
        let q = choose|i: int| 0 <= i < a.len() && a[i] == f && forall|j: int| 0 <= j < i ==> a[j] != f;
        assert(0 <= 2 * k < a.len() && a[2 * k] == f);
        assert forall|j: int| 0 <= j < 2 * k implies a[j] != f by {
            if j % 2 == 0 {
                assert(a[j] == p[j / 2].0);
                assert(j / 2 < k);
                assert(p[j / 2].0 != p[k].0);
            } else {
                assert(a[j] == p[j / 2].1);
                assert(!is_bootstrap_flag(p[j / 2].1));
            }
        }
        assert(first_position(a, f) is Some);
        let fp = first_position(a, f)->0;
        assert(fp == q);
        assert(fp == 2 * k) by {
            if fp < 2 * k {
                assert(a[fp] != f);
            }
            if fp > 2 * k {
                assert(a[2 * k] != f);
            }
        }
        assert(a[2 * k + 1] == p[k].1);
    }
    if forall|k: int| 0 <= k < p.len() ==> (#[trigger] p[k]).0 != f {
        assert forall|m: int| 0 <= m < a.len() implies a[m] != f by {
            if m % 2 == 0 {
                assert(a[m] == p[m / 2].0);
            } else {
                assert(a[m] == p[m / 2].1);
                assert(!is_bootstrap_flag(p[m / 2].1));
            }
        }
        assert(!a.contains(f));
    }
}

proof fn lemma_same_flag_value(p: Seq<(Seq<char>, Seq<char>)>, q: Seq<(Seq<char>, Seq<char>)>, f: Seq<char>)
    requires
        pairs_well_formed(p),
        pairs_well_formed(q),
        p.to_set() == q.to_set(),
        is_bootstrap_flag(f),
    ensures
        flag_value(flatten_pairs(p), f) == flag_value(flatten_pairs(q), f),
{
    lemma_flag_value_of_pairs(p, f);
    lemma_flag_value_of_pairs(q, f);
    if exists|k: int| 0 <= k < p.len() && (#[trigger] p[k]).0 == f {
        let k = choose|k: int| 0 <= k < p.len() && (#[trigger] p[k]).0 == f;
        assert(p.to_set().contains(p[k]));
        assert(q.to_set().contains(p[k]));
        let l = choose|l: int| 0 <= l < q.len() && q[l] == p[k];
        assert(q[l].0 == f);
    } else if exists|l: int| 0 <= l < q.len() && (#[trigger] q[l]).0 == f {
        let l = choose|l: int| 0 <= l < q.len() && (#[trigger] q[l]).0 == f;
        assert(q.to_set().contains(q[l]));
        assert(p.to_set().contains(q[l]));
        let k = choose|k: int| 0 <= k < p.len() && p[k] == q[l];
        assert(p[k].0 == f);
    }
}

/// The order of the flags does not matter: two argument lists made of the
/// same flag/value pairs, each flag at most once and no value a flag name,
/// parse to the same arguments or fail with the same message.
pub proof fn lemma_parse_ignores_flag_order(p: Seq<(Seq<char>, Seq<char>)>, q: Seq<(Seq<char>, Seq<char>)>)
    requires
        pairs_well_formed(p),
        pairs_well_formed(q),
        p.to_set() == q.to_set(),
    ensures
        parse_of(flatten_pairs(p)) == parse_of(flatten_pairs(q)),
{
    lemma_same_flag_value(p, q, "--wait-seconds"@);
    lemma_same_flag_value(p, q, "--slug"@);
    lemma_same_flag_value(p, q, "--name"@);
    lemma_same_flag_value(p, q, "--admin-subject"@);
    lemma_same_flag_value(p, q, "--admin-display-name"@);
    assert(parse_of(flatten_pairs(p)) == parse_of(flatten_pairs(q)));
}

} // verus!
