//! The service's side of the Buzz relay: rosters, admin events and media
//! authorization, as plain decisions.
//!
//! Relay and channel rosters change only through admin events signed by the
//! tenant's control identity; convergence is judged by reading the roster
//! back. Roles on a roster are kept as the relay states them; the platform's
//! own roles are decided elsewhere.

use vstd::prelude::*;

use crate::client_keys::tag_texts;
use crate::roles::texts;
use crate::text::{chars_of, nat_chars, nat_text, string_from_chars, text_eq};

verus! {

/// Event kinds of the Buzz relay.
pub const KIND_RELAY_ADMIN_ADD: u16 = 9030;
pub const KIND_RELAY_ADMIN_REMOVE: u16 = 9031;
pub const KIND_RELAY_MEMBERSHIP_LIST: u16 = 13534;
pub const KIND_CHANNEL_ADD_USER: u16 = 9000;
pub const KIND_CHANNEL_REMOVE_USER: u16 = 9001;
pub const KIND_CHANNEL_MEMBERS: u16 = 39002;
/// The kind of a Blossom authorization event.
pub const KIND_BLOSSOM_AUTH: u16 = 24242;
/// How long a Blossom authorization that the service signs stays valid.
pub const BLOSSOM_AUTH_TTL_SECS: u64 = 600;

/// The two levels of roster: tenant members are projected to the relay
/// roster, workspace members to their channel's roster.
#[derive(Debug, Clone, Copy)]
pub enum Scope<'a> {
    Relay,
    Channel(&'a str),
}

/// The goal of a convergence: present on the roster or absent from it.
#[derive(Debug, Clone, Copy, PartialEq, Eq, Structural)]
pub enum Presence {
    Present,
    Absent,
}

/// One line of a roster snapshot; the role is kept as the relay states it.
#[derive(Debug, PartialEq, Eq)]
pub struct RosterEntry {
    pub pubkey: String,
    pub role: String,
}

/// Who holds a key. Only a server-held key can be used to sign on a
/// principal's behalf.
#[derive(Debug, Clone, Copy, PartialEq, Eq, Structural)]
pub enum Custody {
    Server,
    Client,
}

/// An uploaded media object as the relay describes it.
#[derive(Debug, PartialEq, Eq)]
pub struct MediaDescriptor {
    pub url: String,
    pub sha256: String,
    pub size: u64,
    pub mime_type: Option<String>,
}

/// Whether a key of this custody may be used by the service to sign: only a
/// server-held one.
pub fn can_sign(custody: Custody) -> (r: bool)
    ensures
        r == (custody == Custody::Server),
{
    custody == Custody::Server
}

/// ASCII lowercase of a character (`char::to_ascii_lowercase`).
pub open spec fn ascii_lower(c: char) -> char {
    if 'A' <= c && c <= 'Z' {
        ((c as u32) + 32) as char
    } else {
        c
    }
}

/// ASCII lowercase of a text (`str::to_ascii_lowercase`).
pub open spec fn ascii_lower_text(s: Seq<char>) -> Seq<char> {
    s.map_values(|c: char| ascii_lower(c))
}

/// The ASCII lowercase of a text.
pub fn to_ascii_lowercase(s: &str) -> (r: String)
    ensures
        r@ == ascii_lower_text(s@),
{
    let c = chars_of(s);
    let mut out: Vec<char> = Vec::new();
    let mut i: usize = 0;
    while i < c.len()
        invariant
            i <= c@.len(),
            c@ == s@,
            out@ == ascii_lower_text(c@.subrange(0, i as int)),
        decreases c.len() - i,
    {
        let x = c[i];
        let y = if 'A' <= x && x <= 'Z' {
            ((x as u8) + 32) as char
        } else {
            x
        };
        out.push(y);
        proof {
            assert(ascii_lower_text(c@.subrange(0, i + 1)) =~= ascii_lower_text(c@.subrange(0, i as int)).push(
                ascii_lower(x),
            ));
        }
        i = i + 1;
    }
    proof {
        assert(c@.subrange(0, c@.len() as int) =~= c@);
    }
    string_from_chars(out.as_slice())
}

/// The roster query of a scope: the snapshot kind and the tag that lists
/// members in it.
pub fn roster_query<'a>(scope: Scope<'a>) -> (r: (u16, &'static str))
    ensures
        (match scope {
            Scope::Relay => r.0 == KIND_RELAY_MEMBERSHIP_LIST && r.1@ == "member"@,
            Scope::Channel(_) => r.0 == KIND_CHANNEL_MEMBERS && r.1@ == "p"@,
        }),
{
    match scope {
        Scope::Relay => (KIND_RELAY_MEMBERSHIP_LIST, "member"),
        Scope::Channel(_) => (KIND_CHANNEL_MEMBERS, "p"),
    }
}

/// The roster lines of a snapshot's tags: each tag named `tag_name` with at
/// least three elements gives its key, lowercased, and its last element as the
/// role; other tags are skipped.
pub open spec fn roster_of(tags: Seq<Seq<Seq<char>>>, tag_name: Seq<char>) -> Seq<(Seq<char>, Seq<char>)>
    decreases tags.len(),
{
    if tags.len() == 0 {
        Seq::empty()
    } else {
        let t = tags.last();
        roster_of(tags.drop_last(), tag_name) + if t.len() >= 3 && t[0] == tag_name {
            seq![(ascii_lower_text(t[1]), t[t.len() - 1])]
        } else {
            Seq::empty()
        }
    }
}

/// The view of roster lines.
pub open spec fn roster_view(v: Seq<RosterEntry>) -> Seq<(Seq<char>, Seq<char>)> {
    v.map_values(|e: RosterEntry| (e.pubkey@, e.role@))
}

fn clone_text(s: &String) -> (r: String)
    ensures
        r@ == s@,
{
    s.as_str().to_owned()
}

/// Reads the roster lines from the tags of a snapshot's events, in order (see
/// `roster_of`).
pub fn roster_entries(tags: &[Vec<String>], tag_name: &str) -> (r: Vec<RosterEntry>)
    ensures
        roster_view(r@) == roster_of(tag_texts(tags@), tag_name@),
{
    let ghost all = tag_texts(tags@);
    let mut out: Vec<RosterEntry> = Vec::new();
    let mut i: usize = 0;
    while i < tags.len()
        invariant
            i <= tags@.len(),
            all == tag_texts(tags@),
            roster_view(out@) == roster_of(all.subrange(0, i as int), tag_name@),
        decreases tags.len() - i,
    {
        let t = &tags[i];
        let ghost before = out@;
        proof {
            assert(all.subrange(0, i + 1).drop_last() =~= all.subrange(0, i as int));
            assert(all.subrange(0, i + 1).last() == texts(t@));
        }
        if t.len() >= 3 && text_eq(t[0].as_str(), tag_name) {
            let pubkey = to_ascii_lowercase(t[1].as_str());
            let role = clone_text(&t[t.len() - 1]);
            out.push(RosterEntry { pubkey, role });
            proof {
                assert(roster_view(out@) =~= roster_view(before).push((pubkey@, role@)));
            }
        }
        proof {
            assert(roster_view(out@) =~= roster_of(all.subrange(0, i + 1), tag_name@));
        }
        i = i + 1;
    }
    proof {
        assert(all.subrange(0, tags@.len() as int) =~= all);
    }
    out
}

/// Whether a roster already meets the goal for a key (compared lowercased).
pub open spec fn satisfied(roster: Seq<(Seq<char>, Seq<char>)>, target: Seq<char>, want: Presence) -> bool {
    (exists|i: int| 0 <= i < roster.len() && roster[i].0 == target) == (want == Presence::Present)
}

/// Whether the roster meets the goal for `target` (already lowercased).
pub fn roster_satisfied(roster: &[RosterEntry], target: &str, want: Presence) -> (r: bool)
    ensures
        r == satisfied(roster_view(roster@), target@, want),
{
    let ghost v = roster_view(roster@);
    let mut present = false;
    let mut i: usize = 0;
    while i < roster.len()
        invariant
            i <= roster@.len(),
            v == roster_view(roster@),
            present == (exists|j: int| 0 <= j < i && v[j].0 == target@),
        decreases roster.len() - i,
    {
        if text_eq(roster[i].pubkey.as_str(), target) {
            present = true;
        }
        proof {
            assert(v[i as int].0 == roster@[i as int].pubkey@);
            if present {
                if v[i as int].0 == target@ {
                    assert(exists|j: int| 0 <= j < i + 1 && v[j].0 == target@);
                } else {
                    let j = choose|j: int| 0 <= j < i && v[j].0 == target@;
                    assert(0 <= j < i + 1 && v[j].0 == target@);
                }
            }
        }
        i = i + 1;
    }
    present == (want == Presence::Present)
}

/// The admin event that moves a key toward a goal: its kind and its tags. A
/// channel event names the channel (`h`) before the key (`p`).
pub open spec fn admin_event_of(scope: Scope, want: Presence, target: Seq<char>) -> (u16, Seq<Seq<Seq<char>>>) {
    match scope {
        Scope::Relay => (
            if want == Presence::Present {
                KIND_RELAY_ADMIN_ADD
            } else {
                KIND_RELAY_ADMIN_REMOVE
            },
            seq![seq!["p"@, target]],
        ),
        Scope::Channel(id) => (
            if want == Presence::Present {
                KIND_CHANNEL_ADD_USER
            } else {
                KIND_CHANNEL_REMOVE_USER
            },
            seq![seq!["h"@, id@], seq!["p"@, target]],
        ),
    }
}

fn pair(a: &str, b: &str) -> (r: Vec<String>)
    ensures
        texts(r@) == seq![a@, b@],
{
    let mut v: Vec<String> = Vec::new();
    v.push(a.to_owned());
    v.push(b.to_owned());
    assert(texts(v@) =~= seq![a@, b@]);
    v
}

/// Builds the admin event's kind and tags (see `admin_event_of`).
pub fn admin_event<'a>(scope: Scope<'a>, want: Presence, target: &str) -> (r: (u16, Vec<Vec<String>>))
    ensures
        (r.0, tag_texts(r.1@)) == admin_event_of(scope, want, target@),
{
    let kind = match scope {
        Scope::Relay => if want == Presence::Present {
            KIND_RELAY_ADMIN_ADD
        } else {
            KIND_RELAY_ADMIN_REMOVE
        },
        Scope::Channel(_) => if want == Presence::Present {
            KIND_CHANNEL_ADD_USER
        } else {
            KIND_CHANNEL_REMOVE_USER
        },
    };
    let mut tags: Vec<Vec<String>> = Vec::new();
    if let Scope::Channel(id) = scope {
        tags.push(pair("h", id));
    }
    tags.push(pair("p", target));
    proof {
        assert(tag_texts(tags@) =~= admin_event_of(scope, want, target@).1);
    }
    (kind, tags)
}

/// The event ID of an accepted write: only an answer that says it was
/// accepted and names an event ID counts.
pub fn accepted_event_id(accepted: Option<bool>, event_id: Option<String>) -> (r: Option<String>)
    ensures
        r == (if accepted == Some(true) {
            event_id
        } else {
            None
        }),
{
    if accepted == Some(true) {
        event_id
    } else {
        None
    }
}

/// Whether a media path stays inside the media namespace: it starts with
/// `/media/` and has no `..`. Opening it further would turn the relay's whole
/// HTTP surface into a proxy the service signs for.
pub open spec fn media_path_ok(p: Seq<char>) -> bool {
    p.len() >= 7 && p.subrange(0, 7) == "/media/"@ && !(exists|i: int| 0 <= i < p.len() - 1 && #[trigger] dots_at(p, i))
}

/// Whether `..` starts at position `i`.
pub open spec fn dots_at(p: Seq<char>, i: int) -> bool {
    p[i] == '.' && p[i + 1] == '.'
}

/// Checks a media path (see `media_path_ok`).
pub fn media_path_allowed(path: &str) -> (r: bool)
    ensures
        r == media_path_ok(path@),
{
    let c = chars_of(path);
    proof {
        reveal_strlit("/media/");
    }
    if c.len() < 7 {
        return false;
    }
    if !(c[0] == '/' && c[1] == 'm' && c[2] == 'e' && c[3] == 'd' && c[4] == 'i' && c[5] == 'a' && c[6] == '/') {
        proof {
            let t = path@.subrange(0, 7);
            if t == "/media/"@ {
                assert(t[0] == '/' && t[1] == 'm' && t[2] == 'e' && t[3] == 'd' && t[4] == 'i' && t[5] == 'a' && t[6]
                    == '/');
            }
        }
        return false;
    }
    proof {
        assert(path@.subrange(0, 7) =~= "/media/"@);
    }
    let mut i: usize = 0;
    while i + 1 < c.len()
        invariant
            c@ == path@,
            i + 1 <= c@.len() || i == 0,
            forall|j: int| 0 <= j < i ==> !#[trigger] dots_at(c@, j),
        decreases c.len() - i,
    {
        if c[i] == '.' && c[i + 1] == '.' {
            assert(dots_at(c@, i as int));
            return false;
        }
        i = i + 1;
    }
    true
}

/// The tags of a Blossom authorization: the action, the blob's hash when
/// there is one, the expiry (`now` plus the fixed validity) and the server.
pub open spec fn blossom_tags_of(action: Seq<char>, sha256: Option<Seq<char>>, now: u64, host: Seq<char>) -> Seq<
    Seq<Seq<char>>,
> {
    seq![seq!["t"@, action]] + (match sha256 {
        Some(x) => seq![seq!["x"@, x]],
        None => Seq::empty(),
    }) + seq![seq!["expiration"@, nat_text((now + BLOSSOM_AUTH_TTL_SECS) as nat)], seq!["server"@, host]]
}

/// Builds the tags of a Blossom authorization (see `blossom_tags_of`).
pub fn blossom_tags(action: &str, sha256: Option<&str>, now: u64, host: &str) -> (r: Vec<Vec<String>>)
    requires
        now + BLOSSOM_AUTH_TTL_SECS <= u64::MAX,
    ensures
        tag_texts(r@) == blossom_tags_of(
            action@,
            match sha256 {
                Some(x) => Some(x@),
                None => None,
            },
            now,
            host@,
        ),
{
    let mut tags: Vec<Vec<String>> = Vec::new();
    tags.push(pair("t", action));
    if let Some(x) = sha256 {
        tags.push(pair("x", x));
    }
    let e = nat_chars(now + BLOSSOM_AUTH_TTL_SECS);
    let expiration = string_from_chars(e.as_slice());
    tags.push(pair("expiration", expiration.as_str()));
    tags.push(pair("server", host));
    proof {
        let s = match sha256 {
            Some(x) => Some(x@),
            None => None,
        };
        assert(tag_texts(tags@) =~= blossom_tags_of(action@, s, now, host@));
    }
    tags
}

/// The tags of an HTTP-auth header: the signed URL, the method, a nonce and
/// the payload's hash.
pub fn nip98_tags(url: &str, method: &str, nonce: &str, payload_hash: &str) -> (r: Vec<Vec<String>>)
    ensures
        tag_texts(r@) == seq![
            seq!["u"@, url@],
            seq!["method"@, method@],
            seq!["nonce"@, nonce@],
            seq!["payload"@, payload_hash@],
        ],
{
    let mut tags: Vec<Vec<String>> = Vec::new();
    tags.push(pair("u", url));
    tags.push(pair("method", method));
    tags.push(pair("nonce", nonce));
    tags.push(pair("payload", payload_hash));
    proof {
        assert(tag_texts(tags@) =~= seq![
            seq!["u"@, url@],
            seq!["method"@, method@],
            seq!["nonce"@, nonce@],
            seq!["payload"@, payload_hash@],
        ]);
    }
    tags
}

/// An admin event always names the key it moves, in its last tag, and the
/// goal decides between the add and the remove kind.
pub proof fn lemma_admin_event_names_target(scope: Scope, want: Presence, target: Seq<char>)
    ensures
        admin_event_of(scope, want, target).1.last() == seq!["p"@, target],
        (admin_event_of(scope, want, target).0 == KIND_RELAY_ADMIN_ADD || admin_event_of(scope, want, target).0
            == KIND_CHANNEL_ADD_USER) <==> want == Presence::Present,
{
}

} // verus!
