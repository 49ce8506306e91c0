//! A live subscription on the relay, seen as the messages it receives.
//!
//! The caller holds the socket; this module decides what each relay message
//! means for the subscription: only this subscription's events are passed
//! on, the end of stored events marks where live events begin, and a new
//! authentication challenge in the middle of a session ends the
//! subscription, since the gap it leaves could not be seen from above.

use vstd::prelude::*;

use crate::digest::{json_string, json_string_result, push_chars};
use crate::signers::OperatorError;
use crate::stream::Frame;
use crate::text::{chars_of, nat_chars, nat_text, string_from_chars, text_eq};

verus! {

/// The filter limit of one subscription request that the relay declares.
pub const MAX_FILTERS_PER_REQ: usize = 10;

/// The refusal of a filter count outside `1..=10`.
pub open spec fn filter_count_message(n: nat) -> Seq<char> {
    "单个 REQ 的 filter 数必须在 1..=10，得到 "@ + nat_text(n)
}

/// Checks the number of filters of one request: cutting the list would
/// silently drop part of what the caller asked for, so it is refused.
pub fn filters_acceptable(n: usize) -> (r: Result<(), OperatorError>)
    ensures
        1 <= n <= 10 ==> r is Ok,
        !(1 <= n <= 10) ==> (r matches Err(OperatorError::Sign(m)) && m@ == filter_count_message(n as nat)),
{
    if n >= 1 && n <= MAX_FILTERS_PER_REQ {
        return Ok(());
    }
    let mut m: Vec<char> = Vec::new();
    let a = chars_of("单个 REQ 的 filter 数必须在 1..=10，得到 ");
    push_chars(&mut m, a.as_slice());
    let d = nat_chars(n as u64);
    push_chars(&mut m, d.as_slice());
    Err(OperatorError::Sign(string_from_chars(m.as_slice())))
}

/// One element of a relay message array: a JSON string, or any other JSON
/// value as its serialized text.
#[derive(Debug, Clone, PartialEq, Eq)]
pub enum Part {
    Text(String),
    Json(String),
}

/// The text of an element that is a JSON string.
pub open spec fn text_of(p: Part) -> Option<Seq<char>> {
    match p {
        Part::Text(s) => Some(s@),
        Part::Json(_) => None,
    }
}

/// The element at `i` as text, if there is one and it is a string.
pub open spec fn text_at(parts: Seq<Part>, i: int) -> Option<Seq<char>> {
    if 0 <= i < parts.len() {
        text_of(parts[i])
    } else {
        None
    }
}

/// The serialized JSON of an element.
pub open spec fn json_of(p: Part) -> Seq<char> {
    match p {
        Part::Text(s) => json_string_result(s@),
        Part::Json(j) => j@,
    }
}

fn text_at_exec(parts: &[Part], i: usize) -> (r: Option<&str>)
    ensures
        (match text_at(parts@, i as int) {
            Some(t) => r matches Some(x) && x@ == t,
            None => r is None,
        }),
{
    if i < parts.len() {
        match &parts[i] {
            Part::Text(s) => Some(s.as_str()),
            Part::Json(_) => None,
        }
    } else {
        None
    }
}

/// The challenge of an `["AUTH", challenge]` message; other messages before
/// authentication are dropped.
pub fn challenge_of(parts: &[Part]) -> (r: Option<String>)
    ensures
        (match (text_at(parts@, 0), text_at(parts@, 1)) {
            (Some(k), Some(c)) => if k == "AUTH"@ {
                r matches Some(x) && x@ == c
            } else {
                r is None
            },
            _ => r is None,
        }),
{
    match (text_at_exec(parts, 0), text_at_exec(parts, 1)) {
        (Some(k), Some(c)) => if text_eq(k, "AUTH") {
            Some(c.to_owned())
        } else {
            None
        },
        _ => None,
    }
}

/// What one relay message means for the subscription.
#[derive(Debug, Clone, PartialEq, Eq)]
pub enum RelayStep {
    /// Pass this frame on.
    Forward(Frame),
    /// The subscription ends, with this reason.
    Close(String),
    /// Not this subscription's concern.
    Skip,
}

/// The reason given when the relay asks to authenticate again mid-session.
pub open spec fn reauth_reason() -> Seq<char> {
    "会话中途要求重新认证"@
}

/// The reason given when the relay closes without one.
pub open spec fn default_close_reason() -> Seq<char> {
    "订阅被关闭"@
}

/// How a relay message bears on one subscription.
#[derive(Debug, Clone, Copy, PartialEq, Eq, Structural)]
pub enum Bearing {
    /// An event of this subscription.
    OwnEvent,
    /// The end of this subscription's stored events.
    OwnEnd,
    /// A new authentication challenge: the session's authentication lapsed.
    Reauth,
    /// The relay closed a subscription.
    Closed,
    /// Anything else.
    Unrelated,
}

/// How a relay message bears on subscription `sub_id`.
pub open spec fn bearing(parts: Seq<Part>, sub_id: Seq<char>) -> Bearing {
    match text_at(parts, 0) {
        Some(k) => if k == "EVENT"@ && text_at(parts, 1) == Some(sub_id) && parts.len() > 2 {
            Bearing::OwnEvent
        } else if k == "EOSE"@ && text_at(parts, 1) == Some(sub_id) {
            Bearing::OwnEnd
        } else if k == "AUTH"@ {
            Bearing::Reauth
        } else if k == "CLOSED"@ {
            Bearing::Closed
        } else {
            Bearing::Unrelated
        },
        None => Bearing::Unrelated,
    }
}

/// The reason a `CLOSED` message carries, or the default one.
pub open spec fn closed_reason(parts: Seq<Part>) -> Seq<char> {
    match text_at(parts, 2) {
        Some(r) => if r.len() > 0 {
            r
        } else {
            default_close_reason()
        },
        None => default_close_reason(),
    }
}

/// Decides what a relay message means for subscription `sub_id`: its own
/// events and end of stored events are passed on, a challenge or a close ends
/// it, and everything else is skipped. A `CLOSED` with an empty reason gets a
/// default one: an empty reason would become a frame without data, which
/// browsers never deliver.
pub fn relay_step(parts: &[Part], sub_id: &str) -> (r: RelayStep)
    ensures
        (match bearing(parts@, sub_id@) {
            Bearing::OwnEvent => r matches RelayStep::Forward(Frame::Event(e)) && e@ == json_of(parts@[2]),
            Bearing::OwnEnd => r == RelayStep::Forward(Frame::EndOfStored),
            Bearing::Reauth => r matches RelayStep::Close(why) && why@ == reauth_reason(),
            Bearing::Closed => r matches RelayStep::Close(why) && why@ == closed_reason(parts@),
            Bearing::Unrelated => r == RelayStep::Skip,
        }),
{
    proof {
        reveal_strlit("EVENT");
        reveal_strlit("EOSE");
        reveal_strlit("AUTH");
        reveal_strlit("CLOSED");
        assert("EVENT"@.len() == 5 && "CLOSED"@.len() == 6);
        assert("EOSE"@[0] == 'E' && "AUTH"@[0] == 'A');
    }
    let kind = match text_at_exec(parts, 0) {
        Some(k) => k,
        None => return RelayStep::Skip,
    };
    if text_eq(kind, "EVENT") {
        let ours = match text_at_exec(parts, 1) {
            Some(s) => text_eq(s, sub_id),
            None => false,
        };
        if ours && parts.len() > 2 {
            let e = match &parts[2] {
                Part::Text(s) => json_string(s.as_str()),
                Part::Json(j) => j.as_str().to_owned(),
            };
            RelayStep::Forward(Frame::Event(e))
        } else {
            RelayStep::Skip
        }
    } else if text_eq(kind, "EOSE") {
        let ours = match text_at_exec(parts, 1) {
            Some(s) => text_eq(s, sub_id),
            None => false,
        };
        if ours {
            RelayStep::Forward(Frame::EndOfStored)
        } else {
            RelayStep::Skip
        }
    } else if text_eq(kind, "AUTH") {
        RelayStep::Close("会话中途要求重新认证".to_owned())
    } else if text_eq(kind, "CLOSED") {
        let why = match text_at_exec(parts, 2) {
            Some(w) => if w.unicode_len() > 0 {
                w.to_owned()
            } else {
                "订阅被关闭".to_owned()
            },
            None => "订阅被关闭".to_owned(),
        };
        RelayStep::Close(why)
    } else {
        RelayStep::Skip
    }
}

/// A subscription never ends with an empty reason: whatever the relay sends,
/// a closing step carries text.
pub proof fn lemma_close_reasons_are_never_empty(parts: Seq<Part>)
    ensures
        closed_reason(parts).len() > 0,
{
    reveal_strlit("订阅被关闭");
}

} // verus!
