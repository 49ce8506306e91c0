//! Digests, hex text, random credentials and the canonical parameter hash.

use vstd::prelude::*;

use crate::governance::{Params, Refusal};
use crate::ids::{hex_digit, hyphenated, uuid_text};
use crate::text::{chars_of, string_from_chars};

verus! {

/// The lowercase hex text of a byte sequence, two digits per byte.
pub open spec fn hex_text(bytes: Seq<u8>) -> Seq<char>
    decreases bytes.len(),
{
    if bytes.len() == 0 {
        Seq::empty()
    } else {
        hex_text(bytes.drop_last()) + seq![
            hex_digit((bytes.last() / 16) as nat),
            hex_digit((bytes.last() % 16) as nat),
        ]
    }
}

/// What `sha2::Sha256::digest` gives for a byte sequence.
pub uninterp spec fn sha256_result(data: Seq<u8>) -> Seq<u8>;

/// How `serde_json` writes one character inside a JSON string: the quote and
/// the backslash escaped, backspace, tab, line feed, form feed and carriage
/// return by their short escapes, every other control character below 0x20
/// as `\u00` and two lowercase hex digits, and anything else as it is.
pub open spec fn json_char(c: char) -> Seq<char> {
    if c == '"' {
        seq!['\\', '"']
    } else if c == '\\' {
        seq!['\\', '\\']
    } else if c == '\u{8}' {
        seq!['\\', 'b']
    } else if c == '\t' {
        seq!['\\', 't']
    } else if c == '\n' {
        seq!['\\', 'n']
    } else if c == '\u{c}' {
        seq!['\\', 'f']
    } else if c == '\r' {
        seq!['\\', 'r']
    } else if (c as u32) < 0x20 {
        seq!['\\', 'u', '0', '0', hex_digit(((c as u32) / 16) as nat), hex_digit(((c as u32) % 16) as nat)]
    } else {
        seq![c]
    }
}

/// The escaped characters of a JSON string's contents.
pub open spec fn json_escaped(s: Seq<char>) -> Seq<char>
    decreases s.len(),
{
    if s.len() == 0 {
        Seq::empty()
    } else {
        json_escaped(s.drop_last()) + json_char(s.last())
    }
}

/// What `serde_json` writes for a JSON string holding `s`: the escaped
/// contents between double quotes.
pub open spec fn json_string_result(s: Seq<char>) -> Seq<char> {
    seq!['"'] + json_escaped(s) + seq!['"']
}

/// The SHA-256 digest of `data` (`sha2::Sha256::digest`): 32 bytes.
#[verifier::external_body]
pub(crate) fn sha256(data: &[u8]) -> (r: Vec<u8>)
    ensures
        r@ == sha256_result(data@),
        r@.len() == 32,
{
    <sha2::Sha256 as sha2::Digest>::digest(data).to_vec()
}

fn hex_char(n: u8) -> (c: char)
    requires
        n < 16,
    ensures
        c == hex_digit(n as nat),
{
    if n < 10 {
        (48 + n) as char
    } else {
        (87 + n) as char
    }
}

/// Lowercase hex text of bytes, two digits per byte.
pub(crate) fn hex_encode(data: &[u8]) -> (r: String)
    ensures
        r@ == hex_text(data@),
{
    let mut v: Vec<char> = Vec::new();
    let mut i: usize = 0;
    while i < data.len()
        invariant
            i <= data@.len(),
            v@ == hex_text(data@.subrange(0, i as int)),
        decreases data.len() - i,
    {
        let b = data[i];
        proof {
            assert(data@.subrange(0, i + 1).drop_last() =~= data@.subrange(0, i as int));
        }
        v.push(hex_char(b / 16));
        v.push(hex_char(b % 16));
        i = i + 1;
    }
    assert(data@.subrange(0, data@.len() as int) =~= data@);
    string_from_chars(v.as_slice())
}

/// The JSON string literal of `s` as `serde_json` writes it.
#[verifier::external_body]
pub(crate) fn json_string(s: &str) -> (r: String)
    ensures
        r@ == json_string_result(s@),
{
    serde_json::Value::String(s.to_owned()).to_string()
}

/// `n` bytes from the system's random source (`getrandom::fill`); the
/// source's error text when it fails. Nothing is stated of the bytes' values.
#[verifier::external_body]
pub(crate) fn random_bytes(n: usize) -> (r: Result<Vec<u8>, String>)
    ensures
        r matches Ok(v) ==> v@.len() == n,
{
    let mut raw = vec![0u8; n];
    match getrandom::fill(&mut raw) {
        Ok(()) => Ok(raw),
        Err(e) => Err(e.to_string()),
    }
}

/// The refusal when the random source fails, with its error text.
pub open spec fn random_source_message(e: Seq<char>) -> Seq<char> {
    "系统随机源不可用: "@ + e
}

/// The refusal when the random source fails (see `random_source_message`).
pub(crate) fn random_source_refusal(e: &str) -> (r: Refusal)
    ensures
        r matches Refusal::Unavailable(m) && m@ == random_source_message(e@),
{
    let mut v: Vec<char> = Vec::new();
    let a = chars_of("系统随机源不可用: ");
    push_chars(&mut v, a.as_slice());
    let b = chars_of(e);
    push_chars(&mut v, b.as_slice());
    Refusal::Unavailable(string_from_chars(v.as_slice()))
}

/// A fresh one-time credential: 256 random bits as 64 lowercase hex digits.
/// When the random source fails, the refusal is `Unavailable`.
pub fn new_credential() -> (r: Result<String, Refusal>)
    ensures
        r matches Ok(c) ==> exists|b: Seq<u8>| b.len() == 32 && c@ == hex_text(b),
        r matches Err(e) ==> (e matches Refusal::Unavailable(m) && exists|t: Seq<char>| m@ == random_source_message(t)),
{
    match random_bytes(32) {
        Ok(raw) => Ok(hex_encode(raw.as_slice())),
        Err(e) => Err(random_source_refusal(e.as_str())),
    }
}

/// The stored digest of a credential: hex of SHA-256 of its UTF-8 bytes. Only
/// the digest is kept; redemption finds the invitation by it.
pub fn credential_digest(credential: &str) -> (r: String)
    ensures
        r@ == hex_text(sha256_result(crate::text::utf8_of(credential@))),
{
    let d = sha256(credential.as_bytes());
    hex_encode(d.as_slice())
}

/// Appends characters.
pub fn push_chars(r: &mut Vec<char>, t: &[char])
    ensures
        final(r)@ == old(r)@ + t@,
{
    let mut i: usize = 0;
    let ghost start = r@;
    while i < t.len()
        invariant
            r@ == start + t@.subrange(0, i as int),
            i <= t@.len(),
        decreases t.len() - i,
    {
        r.push(t[i]);
        i = i + 1;
        assert(r@ =~= start + t@.subrange(0, i as int));
    }
    assert(t@.subrange(0, t@.len() as int) =~= t@);
}

/// The view of text members.
pub open spec fn text_members(m: Seq<(String, String)>) -> Seq<(Seq<char>, Seq<char>)> {
    m.map_values(|e: (String, String)| (e.0@, e.1@))
}

/// The view of integer members.
pub open spec fn int_members(m: Seq<(String, i64)>) -> Seq<(Seq<char>, i64)> {
    m.map_values(|e: (String, i64)| (e.0@, e.1))
}

/// The view of members that are objects of text members.
pub open spec fn object_members(m: Seq<(String, Vec<(String, String)>)>) -> Seq<(Seq<char>, Seq<(Seq<char>, Seq<char>)>)> {
    m.map_values(|e: (String, Vec<(String, String)>)| (e.0@, text_members(e.1@)))
}

/// What `serde_json` writes for an object (`serde_json::Map`, then the
/// `Display` of `Value::Object`) of the given text, integer and object
/// members; an object member holds text members.
pub uninterp spec fn json_object_result(
    texts: Seq<(Seq<char>, Seq<char>)>,
    ints: Seq<(Seq<char>, i64)>,
    objects: Seq<(Seq<char>, Seq<(Seq<char>, Seq<char>)>)>,
) -> Seq<char>;

/// The JSON text of an object of text, integer and object members, as
/// `serde_json` writes it (its map orders the keys).
#[verifier::external_body]
pub(crate) fn json_object(
    texts: &[(String, String)],
    ints: &[(String, i64)],
    objects: &[(String, Vec<(String, String)>)],
) -> (r: String)
    ensures
        r@ == json_object_result(text_members(texts@), int_members(ints@), object_members(objects@)),
{
    let mut m = serde_json::Map::new();
    for (k, v) in texts {
        m.insert(k.clone(), serde_json::Value::String(v.clone()));
    }
    for (k, v) in ints {
        m.insert(k.clone(), serde_json::Value::from(*v));
    }
    for (k, o) in objects {
        let inner = o.iter().map(|(a, b)| (a.clone(), serde_json::Value::String(b.clone()))).collect();
        m.insert(k.clone(), serde_json::Value::Object(inner));
    }
    serde_json::Value::Object(m).to_string()
}

/// The members of normalized parameters: those present, identifiers as their
/// hyphenated text.
pub open spec fn params_members(p: Params) -> Seq<(Seq<char>, Seq<char>)> {
    (match p.invitation_id {
        Some(i) => seq![("invitationId"@, hyphenated(i))],
        None => Seq::empty(),
    }) + (match p.name {
        Some(n) => seq![("name"@, n@)],
        None => Seq::empty(),
    }) + (match p.principal_id {
        Some(i) => seq![("principalId"@, hyphenated(i))],
        None => Seq::empty(),
    }) + (match p.slug {
        Some(s) => seq![("slug"@, s@)],
        None => Seq::empty(),
    }) + (match p.workspace_id {
        Some(i) => seq![("workspaceId"@, hyphenated(i))],
        None => Seq::empty(),
    })
}

fn push_member(v: &mut Vec<(String, String)>, key: &str, value: String)
    ensures
        text_members(final(v)@) == text_members(old(v)@).push((key@, value@)),
{
    v.push((key.to_owned(), value));
    assert(text_members(v@) =~= text_members(old(v)@).push((key@, value@)));
}

fn params_entries(p: &Params) -> (r: Vec<(String, String)>)
    ensures
        text_members(r@) == params_members(*p),
{
    let mut r: Vec<(String, String)> = Vec::new();
    if let Some(i) = p.invitation_id {
        push_member(&mut r, "invitationId", uuid_text(i));
    }
    let ghost s1 = text_members(r@);
    if let Some(n) = &p.name {
        push_member(&mut r, "name", n.clone());
    }
    let ghost s2 = text_members(r@);
    if let Some(i) = p.principal_id {
        push_member(&mut r, "principalId", uuid_text(i));
    }
    let ghost s3 = text_members(r@);
    if let Some(s) = &p.slug {
        push_member(&mut r, "slug", s.clone());
    }
    let ghost s4 = text_members(r@);
    if let Some(i) = p.workspace_id {
        push_member(&mut r, "workspaceId", uuid_text(i));
    }
    assert(text_members(r@) =~= params_members(*p));
    r
}

/// The canonical JSON that the parameter hash binds: action key, exact
/// version, target and normalized parameters.
pub open spec fn canonical_command(action_key: Seq<char>, version: i32, target: u128, p: Params) -> Seq<char> {
    json_object_result(
        seq![("actionKey"@, action_key), ("targetId"@, hyphenated(target))],
        seq![("actionVersion"@, version as i64)],
        seq![("params"@, params_members(p))],
    )
}

/// The parameter hash: hex of SHA-256 of the canonical JSON binding action,
/// exact version, target and parameters. An approval is valid for exactly this
/// hash; the same parameters always give the same one.
pub fn parameter_hash(action_key: &str, version: i32, target: u128, params: &Params) -> (r: String)
    ensures
        r@ == hex_text(sha256_result(crate::text::utf8_of(canonical_command(action_key@, version, target, *params)))),
{
    let mut texts: Vec<(String, String)> = Vec::new();
    push_member(&mut texts, "actionKey", action_key.to_owned());
    push_member(&mut texts, "targetId", uuid_text(target));
    let mut ints: Vec<(String, i64)> = Vec::new();
    ints.push(("actionVersion".to_owned(), version as i64));
    let mut objects: Vec<(String, Vec<(String, String)>)> = Vec::new();
    objects.push(("params".to_owned(), params_entries(params)));
    proof {
        assert(text_members(texts@) =~= seq![("actionKey"@, action_key@), ("targetId"@, hyphenated(target))]);
        assert(int_members(ints@) =~= seq![("actionVersion"@, version as i64)]);
        assert(object_members(objects@) =~= seq![("params"@, params_members(*params))]);
    }
    let text = json_object(texts.as_slice(), ints.as_slice(), objects.as_slice());
    let d = sha256(text.as_str().as_bytes());
    hex_encode(d.as_slice())
}

} // verus!
