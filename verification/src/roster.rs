//! Drift between a Buzz roster and the settled membership facts.
//!
//! A key that should be on a roster is one whose binding and memberships are
//! settled ACTIVE. Keys still converging (binding or membership on the way in
//! or out) count on neither side: being on the roster or not is then the
//! intermediate state of their workflow, not drift. This only measures; it
//! never repairs.

use vstd::prelude::*;

use crate::roles::texts;
use crate::text::{chars_of, parse_u64, parse_u64_result, text_eq};

verus! {

/// How far a roster is from the settled facts.
#[derive(Debug, Clone, Copy, PartialEq, Eq, Structural)]
pub struct Drift {
    /// Settled keys missing from the roster.
    pub missing: u64,
    /// Keys on the roster that are not settled.
    pub unexpected: u64,
}

/// The distinct keys of `from` that are neither in `present` nor in
/// `unsettled`.
pub open spec fn drifted(from: Seq<Seq<char>>, present: Seq<Seq<char>>, unsettled: Seq<Seq<char>>) -> Set<
    Seq<char>,
> {
    Set::new(|k: Seq<char>| from.contains(k) && !present.contains(k) && !unsettled.contains(k))
}

/// Whether `k` is one of the first `upto` texts of `v`.
fn contains_text(v: &[String], upto: usize, k: &str) -> (r: bool)
    requires
        upto <= v@.len(),
    ensures
        r == texts(v@).subrange(0, upto as int).contains(k@),
{
    let ghost t = texts(v@).subrange(0, upto as int);
    let mut i: usize = 0;
    while i < upto
        invariant
            i <= upto <= v@.len(),
            t == texts(v@).subrange(0, upto as int),
            forall|j: int| 0 <= j < i ==> t[j] != k@,
        decreases upto - i,
    {
        if text_eq(v[i].as_str(), k) {
            assert(t[i as int] == k@);
            return true;
        }
        i = i + 1;
    }
    false
}

proof fn lemma_drifted_step(from: Seq<Seq<char>>, present: Seq<Seq<char>>, unsettled: Seq<Seq<char>>, i: int)
    requires
        0 <= i < from.len(),
        drifted(from.subrange(0, i), present, unsettled).finite(),
    ensures
        drifted(from.subrange(0, i + 1), present, unsettled).finite(),
        drifted(from.subrange(0, i + 1), present, unsettled).len() == drifted(from.subrange(0, i), present, unsettled).len()
            + (if !from.subrange(0, i).contains(from[i]) && !present.contains(from[i]) && !unsettled.contains(
            from[i],
        ) {
            1int
        } else {
            0int
        }),
{
    broadcast use vstd::set::group_set_axioms;

    let a = drifted(from.subrange(0, i), present, unsettled);
    let b = drifted(from.subrange(0, i + 1), present, unsettled);
    let x = from[i];
    let s0 = from.subrange(0, i);
    let s1 = from.subrange(0, i + 1);
    assert forall|k: Seq<char>| s1.contains(k) <==> (s0.contains(k) || k == x) by {
        if s1.contains(k) {
            let j = choose|j: int| 0 <= j < s1.len() && #[trigger] s1[j] == k;
            if j < i {
                assert(s0[j] == k);
            }
        }
        if s0.contains(k) {
            let j = choose|j: int| 0 <= j < s0.len() && #[trigger] s0[j] == k;
            assert(s1[j] == k);
        }
        if k == x {
            assert(s1[i] == k);
        }
    }
    if !present.contains(x) && !unsettled.contains(x) {
        assert(b =~= a.insert(x));
    } else {
        assert(b =~= a);
    }
}

/// The number of distinct keys of `from` that are neither in `present` nor in
/// `unsettled`.
pub fn count_drifted(from: &[String], present: &[String], unsettled: &[String]) -> (n: u64)
    requires
        from@.len() <= u64::MAX,
    ensures
        n == drifted(texts(from@), texts(present@), texts(unsettled@)).len(),
        drifted(texts(from@), texts(present@), texts(unsettled@)).finite(),
{
    let ghost f = texts(from@);
    let ghost p = texts(present@);
    let ghost u = texts(unsettled@);
    let mut n: u64 = 0;
    let mut i: usize = 0;
    proof {
        broadcast use vstd::set::group_set_axioms;

        assert(drifted(f.subrange(0, 0), p, u) =~= Set::<Seq<char>>::empty());
    }
    while i < from.len()
        invariant
            i <= from@.len() <= u64::MAX,
            f == texts(from@),
            p == texts(present@),
            u == texts(unsettled@),
            n <= i,
            drifted(f.subrange(0, i as int), p, u).finite(),
            n == drifted(f.subrange(0, i as int), p, u).len(),
        decreases from.len() - i,
    {
        let k = from[i].as_str();
        let seen = contains_text(from, i, k);
        let in_roster = contains_text(present, present.len(), k);
        let pending = contains_text(unsettled, unsettled.len(), k);
        proof {
            assert(f[i as int] == k@);
            assert(texts(present@).subrange(0, present@.len() as int) =~= p);
            assert(texts(unsettled@).subrange(0, unsettled@.len() as int) =~= u);
            lemma_drifted_step(f, p, u, i as int);
        }
        if !seen && !in_roster && !pending {
            n = n + 1;
        }
        i = i + 1;
    }
    proof {
        assert(f.subrange(0, from@.len() as int) =~= f);
    }
    n
}

/// The drift of a roster: settled keys missing from it, and keys on it that
/// are not settled, each counted once and leaving converging keys out.
pub fn diff(roster: &[String], settled: &[String], unsettled: &[String]) -> (d: Drift)
    requires
        roster@.len() <= u64::MAX,
        settled@.len() <= u64::MAX,
    ensures
        d.missing == drifted(texts(settled@), texts(roster@), texts(unsettled@)).len(),
        d.unexpected == drifted(texts(roster@), texts(settled@), texts(unsettled@)).len(),
{
    Drift {
        missing: count_drifted(settled, roster, unsettled),
        unexpected: count_drifted(roster, settled, unsettled),
    }
}

/// The outcome label of one roster's comparison.
pub fn drift_outcome(d: Drift) -> (r: &'static str)
    ensures
        r@ == (if d.missing == 0 && d.unexpected == 0 {
            "CONSISTENT"@
        } else {
            "DRIFTED"@
        }),
{
    if d.missing == 0 && d.unexpected == 0 {
        "CONSISTENT"
    } else {
        "DRIFTED"
    }
}

/// Adds one roster's drift into a running total.
pub fn add_drift(total: &mut Drift, d: Drift)
    requires
        old(total).missing + d.missing <= u64::MAX,
        old(total).unexpected + d.unexpected <= u64::MAX,
    ensures
        final(total).missing == old(total).missing + d.missing,
        final(total).unexpected == old(total).unexpected + d.unexpected,
{
    total.missing = total.missing + d.missing;
    total.unexpected = total.unexpected + d.unexpected;
}

/// A key that is converging never counts as drift, in either direction, and
/// a key counted as missing is never also counted as unexpected.
pub proof fn lemma_converging_keys_never_drift(
    roster: Seq<Seq<char>>,
    settled: Seq<Seq<char>>,
    unsettled: Seq<Seq<char>>,
    k: Seq<char>,
)
    ensures
        unsettled.contains(k) ==> !drifted(settled, roster, unsettled).contains(k) && !drifted(
            roster,
            settled,
            unsettled,
        ).contains(k),
        !(drifted(settled, roster, unsettled).contains(k) && drifted(roster, settled, unsettled).contains(k)),
{
}

/// The reconciliation's settings.
#[derive(Debug, Clone, PartialEq, Eq)]
pub struct Config {
    /// Seconds between passes; positive.
    pub interval_seconds: u64,
}

/// A positive whole number of seconds as configured: digits only, above zero.
pub open spec fn positive_seconds(raw: Seq<char>) -> Option<u64> {
    match parse_u64_result(raw) {
        Some(n) => if n > 0 {
            Some(n)
        } else {
            None
        },
        None => None,
    }
}

/// Reads a positive number of seconds; `None` when the value does not parse
/// or is zero.
pub fn parse_positive_seconds(raw: &str) -> (r: Option<u64>)
    ensures
        r == positive_seconds(raw@),
{
    let c = chars_of(raw);
    match parse_u64(c.as_slice()) {
        Some(n) => if n > 0 {
            Some(n)
        } else {
            None
        },
        None => None,
    }
}

impl Config {
    /// The settings from the configured interval, which must be a positive
    /// integer.
    pub fn from_value(interval: &str) -> (r: Option<Config>)
        ensures
            r matches Some(c) ==> positive_seconds(interval@) == Some(c.interval_seconds),
            r is None <==> positive_seconds(interval@) is None,
    {
        match parse_positive_seconds(interval) {
            Some(n) => Some(Config { interval_seconds: n }),
            None => None,
        }
    }
}

} // verus!
