//! External subjects at the sign-in boundary.
//!
//! Before a membership is resolved there is no principal to record, yet a
//! refusal must point back to someone. The subject itself may be an e-mail
//! address, so only an irreversible digest of issuer and subject is kept; the
//! issuer takes part because equal subjects of different identity providers
//! are different people.

use vstd::prelude::*;

use crate::contracts::ErrorClass;
use crate::digest::{hex_encode, hex_text, sha256, sha256_result};
use crate::ids::be_value;
use crate::text::utf8_of;

verus! {

/// The bytes a subject digest covers: issuer, a zero byte, subject.
pub open spec fn subject_input(issuer: Seq<char>, subject: Seq<char>) -> Seq<u8> {
    utf8_of(issuer) + seq![0u8] + utf8_of(subject)
}

fn subject_bytes(issuer: &str, subject: &str) -> (r: Vec<u8>)
    ensures
        r@ == subject_input(issuer@, subject@),
{
    let mut v: Vec<u8> = Vec::new();
    let a = issuer.as_bytes();
    let mut i: usize = 0;
    while i < a.len()
        invariant
            i <= a@.len(),
            v@ == a@.subrange(0, i as int),
        decreases a.len() - i,
    {
        v.push(a[i]);
        i = i + 1;
        assert(v@ =~= a@.subrange(0, i as int));
    }
    assert(a@.subrange(0, a@.len() as int) =~= a@);
    v.push(0u8);
    let b = subject.as_bytes();
    let ghost start = v@;
    let mut j: usize = 0;
    while j < b.len()
        invariant
            j <= b@.len(),
            v@ == start + b@.subrange(0, j as int),
        decreases b.len() - j,
    {
        v.push(b[j]);
        j = j + 1;
        assert(v@ =~= start + b@.subrange(0, j as int));
    }
    assert(b@.subrange(0, b@.len() as int) =~= b@);
    assert(v@ =~= subject_input(issuer@, subject@));
    v
}

/// The irreversible digest of an external subject: hex of the SHA-256 of
/// issuer, a zero byte and subject.
pub fn subject_digest(issuer: &str, subject: &str) -> (r: String)
    ensures
        r@ == hex_text(sha256_result(subject_input(issuer@, subject@))),
{
    let v = subject_bytes(issuer, subject);
    let d = sha256(v.as_slice());
    hex_encode(d.as_slice())
}

/// `256^k`.
pub open spec fn pow_256(k: nat) -> nat
    decreases k,
{
    if k == 0 {
        1
    } else {
        pow_256((k - 1) as nat) * 256
    }
}

/// The key of the advisory lock that serializes work on one external subject:
/// the first eight digest bytes as a signed big-endian integer.
pub fn subject_lock_key(issuer: &str, subject: &str) -> (r: i64)
    ensures
        r == (be_value(sha256_result(subject_input(issuer@, subject@)).subrange(0, 8)) as u64) as i64,
{
    let v = subject_bytes(issuer, subject);
    let d = sha256(v.as_slice());
    let ghost head = d@.subrange(0, 8);
    let mut acc: u64 = 0;
    let mut i: usize = 0;
    while i < 8
        invariant
            i <= 8,
            d@.len() == 32,
            head == d@.subrange(0, 8),
            acc == be_value(d@.subrange(0, i as int)),
            acc < pow_256(i as nat),
        decreases 8 - i,
    {
        proof {
            assert(d@.subrange(0, i + 1).drop_last() =~= d@.subrange(0, i as int));
            assert(pow_256(i as nat + 1) == pow_256(i as nat) * 256);
            assert(pow_256(8) == 0x1_0000_0000_0000_0000) by {
                reveal_with_fuel(pow_256, 9);
            }
            assert(pow_256(i as nat) <= pow_256(7)) by {
                reveal_with_fuel(pow_256, 9);
            }
            assert(acc * 256 + d@[i as int] < pow_256(i as nat) * 256) by (nonlinear_arith)
                requires
                    acc < pow_256(i as nat),
                    d@[i as int] < 256,
            ;
            assert(pow_256(7) * 256 == 0x1_0000_0000_0000_0000) by {
                reveal_with_fuel(pow_256, 9);
            }
            assert(pow_256(i as nat) * 256 <= pow_256(7) * 256) by (nonlinear_arith)
                requires
                    pow_256(i as nat) <= pow_256(7),
            ;
        }
        acc = acc * 256 + d[i] as u64;
        i = i + 1;
    }
    acc as i64
}

/// The status of an identity resolution failure by its class: denials and
/// blocks are final (403); a missing precondition or an unknown outcome may
/// pass later (503); anything else is a server fault (500).
pub fn identity_error_status(class: ErrorClass) -> (r: u16)
    ensures
        r == (match class {
            ErrorClass::Denied | ErrorClass::Blocked => 403u16,
            ErrorClass::Precondition | ErrorClass::Unknown => 503u16,
            _ => 500u16,
        }),
{
    match class {
        ErrorClass::Denied | ErrorClass::Blocked => 403,
        ErrorClass::Precondition | ErrorClass::Unknown => 503,
        _ => 500,
    }
}

/// What a refused sign-in records as evidence: the subject digest when both
/// identity headers are present and not empty, otherwise the fact that they
/// were missing (`None`).
pub fn refused_sign_in_evidence(issuer: Option<&str>, subject: Option<&str>) -> (r: Option<String>)
    ensures
        (match (issuer, subject) {
            (Some(i), Some(s)) => if i@.len() > 0 && s@.len() > 0 {
                r matches Some(d) && d@ == hex_text(sha256_result(subject_input(i@, s@)))
            } else {
                r is None
            },
            _ => r is None,
        }),
{
    match (issuer, subject) {
        (Some(i), Some(s)) => if !i.is_empty() && !s.is_empty() {
            Some(subject_digest(i, s))
        } else {
            None
        },
        _ => None,
    }
}

/// What registering an external identity does with what is already there: an
/// existing identity is used as it is (`Some(None)` when it is deactivated,
/// and nothing is rebuilt for it); `None` means none exists and one is
/// created.
pub fn registered_identity(found: Option<(u128, bool)>) -> (r: Option<Option<u128>>)
    ensures
        r == (match found {
            Some((h, active)) => Some(
                if active {
                    Some(h)
                } else {
                    None
                },
            ),
            None => None,
        }),
{
    match found {
        Some((h, active)) => Some(
            if active {
                Some(h)
            } else {
                None
            },
        ),
        None => None,
    }
}

} // verus!
