//! The workspace event stream of the browser surface.
//!
//! A stream starts with its generation and, unless the client resumes that
//! same generation, a snapshot; then come events. The generation binds who is
//! reading, which channel and which admission: when any of them changes, the
//! generation changes, and a client cannot quietly continue a stream it should
//! no longer get. A stream looks back at its session periodically and closes,
//! saying why, when the session is gone or cannot be checked.

use vstd::prelude::*;

use crate::digest::{hex_encode, hex_text, sha256, sha256_result};
use crate::text::{text_eq, utf8_of};

verus! {

/// The `k` big-endian bytes of `n` (its low `k` bytes).
pub open spec fn be_bytes(n: nat, k: nat) -> Seq<u8>
    decreases k,
{
    if k == 0 {
        Seq::empty()
    } else {
        be_bytes(n / 256, (k - 1) as nat).push((n % 256) as u8)
    }
}

fn push_be_bytes(n: u128, k: usize, out: &mut Vec<u8>)
    ensures
        final(out)@ == old(out)@ + be_bytes(n as nat, k as nat),
    decreases k,
{
    if k > 0 {
        push_be_bytes(n / 256, k - 1, out);
        out.push((n % 256) as u8);
        proof {
            assert(be_bytes(n as nat, k as nat) == be_bytes((n / 256) as nat, (k - 1) as nat).push((n % 256) as u8));
        }
    } else {
        proof {
            assert(old(out)@ + be_bytes(n as nat, 0) =~= old(out)@);
        }
    }
}

/// The input a generation digests: the principal's 16 bytes, a zero byte,
/// the channel's UTF-8, a zero byte, and the admission version's 4 bytes
/// (two's complement, big-endian).
pub open spec fn generation_input(principal: u128, channel: Seq<char>, version: i32) -> Seq<u8> {
    be_bytes(principal as nat, 16) + seq![0u8] + utf8_of(channel) + seq![0u8] + be_bytes(
        (version as u32) as nat,
        4,
    )
}

/// The generation of a stream: the hex of the first 16 bytes of the SHA-256
/// of its input. A digest keeps the principal's and channel's internal IDs out
/// of URLs and client storage.
pub fn generation_of(principal: u128, channel_id: &str, admission_version: i32) -> (r: String)
    ensures
        r@ == hex_text(sha256_result(generation_input(principal, channel_id@, admission_version)).subrange(0, 16)),
{
    let mut input: Vec<u8> = Vec::new();
    push_be_bytes(principal, 16, &mut input);
    input.push(0u8);
    let c = channel_id.as_bytes();
    let mut i: usize = 0;
    let ghost start = input@;
    while i < c.len()
        invariant
            i <= c@.len(),
            input@ == start + c@.subrange(0, i as int),
        decreases c.len() - i,
    {
        input.push(c[i]);
        i = i + 1;
        assert(input@ =~= start + c@.subrange(0, i as int));
    }
    assert(c@.subrange(0, c@.len() as int) =~= c@);
    input.push(0u8);
    push_be_bytes((admission_version as u32) as u128, 4, &mut input);
    assert(input@ =~= generation_input(principal, channel_id@, admission_version));
    let d = sha256(input.as_slice());
    let mut head: Vec<u8> = Vec::new();
    let mut j: usize = 0;
    while j < 16
        invariant
            j <= 16,
            d@.len() == 32,
            head@ == d@.subrange(0, j as int),
        decreases 16 - j,
    {
        head.push(d[j]);
        j = j + 1;
        assert(head@ =~= d@.subrange(0, j as int));
    }
    hex_encode(head.as_slice())
}

/// Whether a reconnecting client resumes: it sent back exactly this
/// generation. Then no snapshot is sent again.
pub fn resumes(last_event_id: Option<&str>, generation: &str) -> (r: bool)
    ensures
        r == (last_event_id matches Some(l) && l@ == generation@),
{
    match last_event_id {
        Some(l) => text_eq(l, generation),
        None => false,
    }
}

/// What a periodic look at the session finds: `None` to go on, or the reason
/// the stream closes. A session that is gone closes with `session-revoked` (do
/// not reconnect); a check that cannot be made closes with
/// `readmission-unavailable` (reconnect).
pub fn readmission(live: Option<bool>) -> (r: Option<&'static str>)
    ensures
        live == Some(true) ==> r is None,
        live == Some(false) ==> (r matches Some(x) && x@ == "session-revoked"@),
        live is None ==> (r matches Some(x) && x@ == "readmission-unavailable"@),
{
    match live {
        Some(true) => None,
        Some(false) => Some("session-revoked"),
        None => Some("readmission-unavailable"),
    }
}

/// A frame of a relay subscription.
#[derive(Debug, Clone, PartialEq, Eq)]
pub enum Frame {
    /// An event, as JSON text.
    Event(String),
    /// The end of stored events: what follows is live.
    EndOfStored,
    /// The relay closed the subscription, with its reason.
    Closed(String),
}

/// The stream event of a frame: its name, its data, and whether the stream
/// ends after it. The live marker carries the generation, since an event with
/// empty data is never delivered.
pub fn frame_event(frame: Frame, generation: &str) -> (r: (&'static str, String, bool))
    ensures
        (match frame {
            Frame::Event(e) => r.0@ == "event"@ && r.1 == e && !r.2,
            Frame::EndOfStored => r.0@ == "live"@ && r.1@ == generation@ && !r.2,
            Frame::Closed(why) => r.0@ == "closed"@ && r.1 == why && r.2,
        }),
{
    match frame {
        Frame::Event(e) => ("event", e, false),
        Frame::EndOfStored => ("live", generation.to_owned(), false),
        Frame::Closed(why) => ("closed", why, true),
    }
}

/// `256^k`.
pub open spec fn pow256(k: nat) -> nat
    decreases k,
{
    if k == 0 {
        1
    } else {
        256 * pow256((k - 1) as nat)
    }
}

proof fn lemma_be_len(n: nat, k: nat)
    ensures
        be_bytes(n, k).len() == k,
    decreases k,
{
    if k > 0 {
        lemma_be_len(n / 256, (k - 1) as nat);
    }
}

proof fn lemma_be_injective(a: nat, b: nat, k: nat)
    requires
        a < pow256(k),
        b < pow256(k),
        be_bytes(a, k) == be_bytes(b, k),
    ensures
        a == b,
    decreases k,
{
    if k > 0 {
        let sa = be_bytes(a / 256, (k - 1) as nat);
        let sb = be_bytes(b / 256, (k - 1) as nat);
        lemma_be_len(a / 256, (k - 1) as nat);
        lemma_be_len(b / 256, (k - 1) as nat);
        assert(be_bytes(a, k).drop_last() =~= sa);
        assert(be_bytes(b, k).drop_last() =~= sb);
        assert(be_bytes(a, k).last() == (a % 256) as u8);
        assert(be_bytes(b, k).last() == (b % 256) as u8);
        assert(a / 256 < pow256((k - 1) as nat)) by (nonlinear_arith)
            requires
                a < 256 * pow256((k - 1) as nat),
        ;
        assert(b / 256 < pow256((k - 1) as nat)) by (nonlinear_arith)
            requires
                b < 256 * pow256((k - 1) as nat),
        ;
        lemma_be_injective(a / 256, b / 256, (k - 1) as nat);
        assert(a % 256 == b % 256);
        assert(a == 256 * (a / 256) + a % 256) by (nonlinear_arith);
        assert(b == 256 * (b / 256) + b % 256) by (nonlinear_arith);
    } else {
        assert(pow256(0) == 1);
    }
}

/// A generation binds the principal and the admission version: streams that
/// differ in either digest different inputs, whatever the channel.
pub proof fn lemma_generation_input_distinguishes(p1: u128, p2: u128, c: Seq<char>, v1: i32, v2: i32)
    ensures
        p1 != p2 ==> generation_input(p1, c, v1) != generation_input(p2, c, v1),
        v1 != v2 ==> generation_input(p1, c, v1) != generation_input(p1, c, v2),
{
    lemma_be_len(p1 as nat, 16);
    lemma_be_len(p2 as nat, 16);
    lemma_be_len((v1 as u32) as nat, 4);
    lemma_be_len((v2 as u32) as nat, 4);
    assert(pow256(16) == 0x1_0000_0000_0000_0000_0000_0000_0000_0000nat) by {
        reveal_with_fuel(pow256, 17);
    }
    assert(pow256(4) == 0x1_0000_0000nat) by {
        reveal_with_fuel(pow256, 5);
    }
    let x1 = generation_input(p1, c, v1);
    let x2 = generation_input(p2, c, v1);
    if p1 != p2 && x1 == x2 {
        assert(x1.subrange(0, 16) =~= be_bytes(p1 as nat, 16));
        assert(x2.subrange(0, 16) =~= be_bytes(p2 as nat, 16));
        lemma_be_injective(p1 as nat, p2 as nat, 16);
    }
    let y1 = generation_input(p1, c, v1);
    let y2 = generation_input(p1, c, v2);
    if v1 != v2 && y1 == y2 {
        assert(y1.subrange(y1.len() - 4, y1.len() as int) =~= be_bytes((v1 as u32) as nat, 4));
        assert(y2.subrange(y2.len() - 4, y2.len() as int) =~= be_bytes((v2 as u32) as nat, 4));
        lemma_be_injective((v1 as u32) as nat, (v2 as u32) as nat, 4);
        assert((v1 as u32) == (v2 as u32) ==> v1 == v2) by (bit_vector);
    }
}

} // verus!
