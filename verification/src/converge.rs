//! The decisions of a roster convergence.
//!
//! A key is brought to a goal on a roster by reading the roster, sending an
//! admin event only when the goal is not met, and reading again. Success is
//! judged by the second reading, never by the relay's answer to the event: a
//! refusal is ambiguous (removing a key that is already gone is refused), so it
//! only joins the details of an unconverged result, while any other failure
//! ends the attempt. The caller performs the reads and the send.

use vstd::prelude::*;

use crate::buzz::{roster_satisfied, roster_view, satisfied, Presence, RosterEntry, Scope};
use crate::digest::push_chars;
use crate::signers::OperatorError;
use crate::text::{chars_of, debug_text, debug_text_of, nat_chars, nat_text, string_from_chars};

verus! {

/// The text of a relay refusal: `Relay 拒绝: HTTP`, the status and the body.
pub open spec fn rejected_text(status: u16, body: Seq<char>) -> Seq<char> {
    "Relay 拒绝: HTTP "@ + nat_text(status as nat) + " "@ + body
}

/// What the send leaves for the second reading: nothing when it went
/// through, the refusal's text when the relay refused, and any other failure
/// (signing, transport) ends the convergence as it is.
pub fn send_outcome(sent: Result<(), OperatorError>) -> (r: Result<Option<String>, OperatorError>)
    ensures
        (match sent {
            Ok(()) => r == Ok::<Option<String>, OperatorError>(None),
            Err(OperatorError::Rejected { status, body }) => r matches Ok(Some(t)) && t@ == rejected_text(
                status,
                body@,
            ),
            Err(e) => r == Err::<Option<String>, OperatorError>(e),
        }),
{
    match sent {
        Ok(()) => Ok(None),
        Err(OperatorError::Rejected { status, body }) => {
            let mut v: Vec<char> = Vec::new();
            let a = chars_of("Relay 拒绝: HTTP ");
            push_chars(&mut v, a.as_slice());
            let n = nat_chars(status as u64);
            push_chars(&mut v, n.as_slice());
            let b = chars_of(" ");
            push_chars(&mut v, b.as_slice());
            let c = chars_of(body.as_str());
            push_chars(&mut v, c.as_slice());
            Ok(Some(string_from_chars(v.as_slice())))
        },
        Err(e) => Err(e),
    }
}

/// How `{:?}` writes a scope.
pub open spec fn scope_text(scope: Scope) -> Seq<char> {
    match scope {
        Scope::Relay => "Relay"@,
        Scope::Channel(id) => "Channel("@ + debug_text_of(id@) + ")"@,
    }
}

/// How `{:?}` writes a goal.
pub open spec fn presence_text(want: Presence) -> Seq<char> {
    match want {
        Presence::Present => "Present"@,
        Presence::Absent => "Absent"@,
    }
}

/// The details of an unconverged result: the key, the scope, the goal, the
/// size of the roster read last, and the relay's refusal when there was one.
pub open spec fn unconverged_text(
    target: Seq<char>,
    scope: Scope,
    want: Presence,
    roster_len: nat,
    rejection: Option<Seq<char>>,
) -> Seq<char> {
    target + " 在 "@ + scope_text(scope) + " 上未达到 "@ + presence_text(want) + "，当前 roster "@ + nat_text(
        roster_len,
    ) + " 人"@ + match rejection {
        Some(r) => "；上游拒绝："@ + r,
        None => Seq::empty(),
    }
}

fn append(v: &mut Vec<char>, s: &str)
    ensures
        final(v)@ == old(v)@ + s@,
{
    let c = chars_of(s);
    push_chars(v, c.as_slice());
}

/// The end of a convergence, on the roster read after the send: done when
/// the goal holds for `target` (already lowercased), otherwise unconverged
/// with the details, the refusal among them. The outcome is then unknown and
/// the caller must retry, never count it as done.
pub fn converge_outcome(
    after: &[RosterEntry],
    target: &str,
    scope: Scope<'_>,
    want: Presence,
    rejection: Option<String>,
) -> (r: Result<(), OperatorError>)
    ensures
        satisfied(roster_view(after@), target@, want) ==> r is Ok,
        !satisfied(roster_view(after@), target@, want) ==> (r matches Err(OperatorError::NotConverged(m)) && m@
            == unconverged_text(
            target@,
            scope,
            want,
            after@.len(),
            match rejection {
                Some(t) => Some(t@),
                None => None,
            },
        )),
{
    if roster_satisfied(after, target, want) {
        return Ok(());
    }
    let mut v: Vec<char> = Vec::new();
    append(&mut v, target);
    append(&mut v, " 在 ");
    match scope {
        Scope::Relay => append(&mut v, "Relay"),
        Scope::Channel(id) => {
            append(&mut v, "Channel(");
            let d = debug_text(id);
            append(&mut v, d.as_str());
            append(&mut v, ")");
        },
    }
    append(&mut v, " 上未达到 ");
    match want {
        Presence::Present => append(&mut v, "Present"),
        Presence::Absent => append(&mut v, "Absent"),
    }
    append(&mut v, "，当前 roster ");
    let n = nat_chars(after.len() as u64);
    push_chars(&mut v, n.as_slice());
    append(&mut v, " 人");
    let ghost before = v@;
    match &rejection {
        Some(t) => {
            append(&mut v, "；上游拒绝：");
            append(&mut v, t.as_str());
        },
        None => {},
    }
    proof {
        let rj = match rejection {
            Some(t) => Some(t@),
            None => None,
        };
        assert(v@ =~= unconverged_text(target@, scope, want, after@.len(), rj));
    }
    Err(OperatorError::NotConverged(string_from_chars(v.as_slice())))
}

} // verus!
