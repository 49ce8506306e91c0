//! Fixed workflow IDs, the start and observation of component task workflows,
//! and the evidence that a terminated workflow may be re-run.
//!
//! A business workflow's ID is `kailo:<kind>:<tenant>:<entity>:<version>`: the
//! same version of the same fact always maps to the same ID, so an uncertain
//! start can only converge under it.

use vstd::prelude::*;

use crate::contracts::TaskStatus;
use crate::ids::{hyphenated, lemma_hyphenated_chars, parse_uuid, uuid_parse_result, uuid_text};
use crate::text::{
    chars_eq, chars_of, int_chars, int_text, lemma_int_text_parses, lemma_nat_text, parse_i32,
    parse_i32_result, string_from_chars, text_eq,
};

verus! {

/// HTTP 409: a definite conflict.
pub const HTTP_CONFLICT: u16 = 409;

/// HTTP 503: the outcome is not known.
pub const HTTP_UNAVAILABLE: u16 = 503;

/// The fixed first segment of every workflow ID.
pub open spec fn id_prefix() -> Seq<char> {
    seq!['k', 'a', 'i', 'l', 'o']
}

/// Whether `c` occurs in `s`.
pub open spec fn has_char(s: Seq<char>, c: char) -> bool {
    exists|i: int| 0 <= i < s.len() && s[i] == c
}

/// `a:b`.
pub open spec fn colon_join(a: Seq<char>, b: Seq<char>) -> Seq<char> {
    a + seq![':'] + b
}

/// The fixed workflow ID of one version of one entity.
pub open spec fn workflow_id_text(kind: Seq<char>, tenant: u128, entity: Seq<char>, version: int) -> Seq<char> {
    colon_join(
        colon_join(colon_join(colon_join(id_prefix(), kind), hyphenated(tenant)), entity),
        int_text(version),
    )
}

/// The segments of `s` between occurrences of `c` (std `str::split`).
pub open spec fn split_on(s: Seq<char>, c: char) -> Seq<Seq<char>>
    decreases s.len(),
{
    if s.len() == 0 {
        seq![Seq::<char>::empty()]
    } else {
        let init = split_on(s.drop_last(), c);
        if s.last() == c {
            init.push(Seq::<char>::empty())
        } else {
            init.update(init.len() - 1, init.last().push(s.last()))
        }
    }
}

/// The entity and version encoded in a workflow ID of the given kind and tenant.
pub open spec fn parse_workflow_id_result(id: Seq<char>, kind: Seq<char>, tenant: u128) -> Option<(u128, i32)> {
    let parts = split_on(id, ':');
    if parts.len() == 5 && parts[0] == id_prefix() && parts[1] == kind && parts[2] == hyphenated(tenant) {
        match (uuid_parse_result(parts[3]), parse_i32_result(parts[4])) {
            (Some(e), Some(v)) => Some((e, v)),
            _ => None,
        }
    } else {
        None
    }
}

/// Appends the characters of `t` to `r`.
fn push_all(r: &mut Vec<char>, t: &[char])
    ensures
        final(r)@ == old(r)@ + t@,
{
    let mut i: usize = 0;
    let ghost start = r@;
    while i < t.len()
        invariant
            r@ == start + t@.subrange(0, i as int),
            i <= t@.len(),
        decreases t.len() - i,
    {
        r.push(t[i]);
        i = i + 1;
        assert(r@ =~= start + t@.subrange(0, i as int));
    }
    assert(t@.subrange(0, t@.len() as int) =~= t@);
}

/// The fixed workflow ID `kailo:<kind>:<tenant_id>:<entity>:<version>`.
pub fn workflow_id(kind: &str, tenant_id: u128, entity: &str, version: i32) -> (r: String)
    ensures
        r@ == workflow_id_text(kind@, tenant_id, entity@, version as int),
{
    let mut r: Vec<char> = Vec::new();
    r.push('k');
    r.push('a');
    r.push('i');
    r.push('l');
    r.push('o');
    r.push(':');
    let k = chars_of(kind);
    push_all(&mut r, k.as_slice());
    r.push(':');
    let t = chars_of(uuid_text(tenant_id).as_str());
    push_all(&mut r, t.as_slice());
    r.push(':');
    let e = chars_of(entity);
    push_all(&mut r, e.as_slice());
    r.push(':');
    let v = int_chars(version);
    push_all(&mut r, v.as_slice());
    assert(r@ =~= workflow_id_text(kind@, tenant_id, entity@, version as int));
    string_from_chars(r.as_slice())
}

/// The views of a list of character vectors.
pub open spec fn views(parts: Seq<Vec<char>>) -> Seq<Seq<char>> {
    parts.map_values(|v: Vec<char>| v@)
}

/// The segments of `s` between occurrences of `c`.
pub fn split_chars(s: &[char], c: char) -> (r: Vec<Vec<char>>)
    ensures
        views(r@) == split_on(s@, c),
{
    let mut parts: Vec<Vec<char>> = Vec::new();
    let mut cur: Vec<char> = Vec::new();
    let mut i: usize = 0;
    assert(s@.subrange(0, 0) =~= Seq::<char>::empty());
    assert(views(parts@).push(cur@) =~= seq![Seq::<char>::empty()]);
    while i < s.len()
        invariant
            i <= s@.len(),
            views(parts@).push(cur@) == split_on(s@.subrange(0, i as int), c),
        decreases s.len() - i,
    {
        let ghost before = s@.subrange(0, i as int);
        let ghost after = s@.subrange(0, i + 1);
        assert(after.drop_last() =~= before);
        assert(after.last() == s@[i as int]);
        if s[i] == c {
            let done = cur;
            parts.push(done);
            cur = Vec::new();
            assert(views(parts@).push(cur@) =~= split_on(before, c).push(Seq::<char>::empty()));
        } else {
            cur.push(s[i]);
            let ghost init = split_on(before, c);
            assert(views(parts@).push(cur@) =~= init.update(init.len() - 1, init.last().push(s@[i as int])));
        }
        i = i + 1;
    }
    assert(s@.subrange(0, s@.len() as int) =~= s@);
    parts.push(cur);
    assert(views(parts@) =~= split_on(s@, c));
    parts
}

/// The entity and version of a workflow ID, provided its first three segments
/// are `kailo`, the given kind and the given tenant; `None` otherwise.
pub fn parse_workflow_id(id: &str, kind: &str, tenant: u128) -> (r: Option<(u128, i32)>)
    ensures
        r == parse_workflow_id_result(id@, kind@, tenant),
{
    let cs = chars_of(id);
    let parts = split_chars(cs.as_slice(), ':');
    proof {
        assert(parts@.len() == split_on(cs@, ':').len());
    }
    if parts.len() != 5 {
        return None;
    }
    let ghost pv = views(parts@);
    assert(pv[0] == parts@[0]@);
    let mut prefix: Vec<char> = Vec::new();
    prefix.push('k');
    prefix.push('a');
    prefix.push('i');
    prefix.push('l');
    prefix.push('o');
    assert(prefix@ =~= id_prefix());
    if !chars_eq(parts[0].as_slice(), prefix.as_slice()) {
        return None;
    }
    let k = chars_of(kind);
    if !chars_eq(parts[1].as_slice(), k.as_slice()) {
        return None;
    }
    let t = chars_of(uuid_text(tenant).as_str());
    if !chars_eq(parts[2].as_slice(), t.as_slice()) {
        return None;
    }
    let entity_text = string_from_chars(parts[3].as_slice());
    let entity = parse_uuid(entity_text.as_str());
    let version = parse_i32(parts[4].as_slice());
    match (entity, version) {
        (Some(e), Some(v)) => Some((e, v)),
        _ => None,
    }
}

/// The entity text and version of a workflow ID whose entity segment is not
/// an identifier (a public key), for the given kind and tenant.
pub open spec fn parse_keyed_workflow_id_result(id: Seq<char>, kind: Seq<char>, tenant: u128) -> Option<(Seq<char>, i32)> {
    let parts = split_on(id, ':');
    if parts.len() == 5 && parts[0] == id_prefix() && parts[1] == kind && parts[2] == hyphenated(tenant) {
        match parse_i32_result(parts[4]) {
            Some(v) => Some((parts[3], v)),
            None => None,
        }
    } else {
        None
    }
}

/// Reads the entity text and version of a workflow ID (see
/// `parse_keyed_workflow_id_result`).
pub fn parse_keyed_workflow_id(id: &str, kind: &str, tenant: u128) -> (r: Option<(String, i32)>)
    ensures
        (match parse_keyed_workflow_id_result(id@, kind@, tenant) {
            None => r is None,
            Some((e, v)) => r matches Some((re, rv)) && re@ == e && rv == v,
        }),
{
    let cs = chars_of(id);
    let parts = split_chars(cs.as_slice(), ':');
    proof {
        assert(parts@.len() == split_on(cs@, ':').len());
    }
    if parts.len() != 5 {
        return None;
    }
    let ghost pv = views(parts@);
    assert(pv[0] == parts@[0]@);
    let mut prefix: Vec<char> = Vec::new();
    prefix.push('k');
    prefix.push('a');
    prefix.push('i');
    prefix.push('l');
    prefix.push('o');
    assert(prefix@ =~= id_prefix());
    if !chars_eq(parts[0].as_slice(), prefix.as_slice()) {
        return None;
    }
    let k = chars_of(kind);
    if !chars_eq(parts[1].as_slice(), k.as_slice()) {
        return None;
    }
    let t = chars_of(uuid_text(tenant).as_str());
    if !chars_eq(parts[2].as_slice(), t.as_slice()) {
        return None;
    }
    match parse_i32(parts[4].as_slice()) {
        Some(v) => Some((string_from_chars(parts[3].as_slice()), v)),
        None => None,
    }
}

/// Splitting text without the separator gives the text itself.
pub proof fn lemma_split_without_separator(s: Seq<char>, c: char)
    requires
        !has_char(s, c),
    ensures
        split_on(s, c) == seq![s],
    decreases s.len(),
{
    if s.len() > 0 {
        assert(!has_char(s.drop_last(), c)) by {
            if has_char(s.drop_last(), c) {
                let i = choose|i: int| 0 <= i < s.drop_last().len() && s.drop_last()[i] == c;
                assert(s[i] == c);
            }
        }
        lemma_split_without_separator(s.drop_last(), c);
        assert(s.last() != c) by {
            assert(s[s.len() - 1] == s.last());
        }
        assert(s.drop_last().push(s.last()) =~= s);
        assert(split_on(s, c) =~= seq![s]);
    } else {
        assert(s =~= Seq::<char>::empty());
    }
}

/// Splitting always yields at least one segment.
pub proof fn lemma_split_nonempty(s: Seq<char>, c: char)
    ensures
        split_on(s, c).len() >= 1,
    decreases s.len(),
{
    if s.len() > 0 {
        lemma_split_nonempty(s.drop_last(), c);
    }
}

/// Splitting `a c b` splits `a` and `b` separately.
pub proof fn lemma_split_join(a: Seq<char>, b: Seq<char>, c: char)
    ensures
        split_on(a + seq![c] + b, c) == split_on(a, c) + split_on(b, c),
    decreases b.len(),
{
    let ac = a + seq![c];
    if b.len() == 0 {
        assert(ac + b =~= ac);
        assert(ac.drop_last() =~= a);
        assert(split_on(b, c) =~= seq![Seq::<char>::empty()]);
        assert(split_on(ac, c) =~= split_on(a, c) + split_on(b, c));
    } else {
        let s = ac + b;
        lemma_split_join(a, b.drop_last(), c);
        lemma_split_nonempty(b.drop_last(), c);
        lemma_split_nonempty(a, c);
        assert(s.drop_last() =~= ac + b.drop_last());
        assert(s.last() == b.last());
        let x = split_on(a, c);
        let y = split_on(b.drop_last(), c);
        if b.last() == c {
            assert((x + y).push(Seq::<char>::empty()) =~= x + y.push(Seq::<char>::empty()));
        } else {
            assert((x + y).update((x + y).len() - 1, (x + y).last().push(b.last())) =~= x + y.update(
                y.len() - 1,
                y.last().push(b.last()),
            ));
        }
    }
}

/// A hyphenated UUID holds no colon.
pub proof fn lemma_hyphenated_has_no_colon(id: u128)
    ensures
        !has_char(hyphenated(id), ':'),
{
    if has_char(hyphenated(id), ':') {
        let i = choose|i: int| 0 <= i < hyphenated(id).len() && hyphenated(id)[i] == ':';
        lemma_hyphenated_chars(id, i);
    }
}

/// The decimal text of an integer holds no colon.
pub proof fn lemma_int_text_has_no_colon(v: int)
    ensures
        !has_char(int_text(v), ':'),
{
    let m: nat = if v < 0 {
        (-v) as nat
    } else {
        v as nat
    };
    lemma_nat_text(m);
    if has_char(int_text(v), ':') {
        let i = choose|i: int| 0 <= i < int_text(v).len() && int_text(v)[i] == ':';
        if v < 0 {
            assert(int_text(v)[i] == nat_text_at(m, i - 1));
        } else {
            assert(int_text(v)[i] == nat_text_at(m, i));
        }
    }
}

/// The `i`-th character of the decimal text of `m`.
pub open spec fn nat_text_at(m: nat, i: int) -> char {
    crate::text::nat_text(m)[i]
}

/// The workflow ID of an entity's version reads back, under the same kind and
/// tenant, to that entity and version.
pub proof fn lemma_workflow_id_roundtrip(kind: Seq<char>, tenant: u128, entity: u128, version: i32)
    requires
        !has_char(kind, ':'),
        uuid_parse_result(hyphenated(entity)) == Some(entity),
    ensures
        parse_workflow_id_result(workflow_id_text(kind, tenant, hyphenated(entity), version as int), kind, tenant)
            == Some((entity, version)),
{
    let p = id_prefix();
    let t = hyphenated(tenant);
    let e = hyphenated(entity);
    let v = int_text(version as int);
    assert(!has_char(p, ':')) by {
        if has_char(p, ':') {
            let i = choose|i: int| 0 <= i < p.len() && p[i] == ':';
            assert(0 <= i < 5);
        }
    }
    lemma_hyphenated_has_no_colon(tenant);
    lemma_hyphenated_has_no_colon(entity);
    lemma_int_text_has_no_colon(version as int);
    lemma_split_without_separator(p, ':');
    lemma_split_without_separator(kind, ':');
    lemma_split_without_separator(t, ':');
    lemma_split_without_separator(e, ':');
    lemma_split_without_separator(v, ':');
    let a1 = colon_join(p, kind);
    let a2 = colon_join(a1, t);
    let a3 = colon_join(a2, e);
    lemma_split_join(p, kind, ':');
    lemma_split_join(a1, t, ':');
    lemma_split_join(a2, e, ':');
    lemma_split_join(a3, v, ':');
    let parts = split_on(workflow_id_text(kind, tenant, e, version as int), ':');
    assert(parts =~= seq![p, kind, t, e, v]);
    lemma_int_text_parses(version);
}

/// Whether a close status is terminal: every status but RUNNING.
pub fn is_terminal(status: &TaskStatus) -> (r: bool)
    ensures
        r == (*status != TaskStatus::Running),
{
    !matches!(status, TaskStatus::Running)
}

} // verus!
