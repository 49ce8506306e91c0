//! Reading a page of relay events.
//!
//! A query answers with events whose tags are arrays of JSON values. The
//! service reads them as text: a part that is no string is dropped where a
//! roster line is read, and does not match where a channel is looked for. A
//! page here is the events in order, each event its tags, each tag its parts,
//! a part `None` where the relay sent something other than a string.

use vstd::prelude::*;

use crate::buzz::{roster_entries, roster_of, roster_view, RosterEntry};
use crate::client_keys::tag_texts;
use crate::roles::texts;
use crate::text::{chars_of, text_eq};

verus! {

/// A tag's parts as values: a string part by its text.
pub open spec fn parts_view(parts: Seq<Option<String>>) -> Seq<Option<Seq<char>>> {
    parts.map_values(|p: Option<String>| match p {
        Some(s) => Some(s@),
        None => None,
    })
}

/// A page as values: events, tags, parts.
pub open spec fn page_view(page: Seq<Vec<Vec<Option<String>>>>) -> Seq<Seq<Seq<Option<Seq<char>>>>> {
    page.map_values(|e: Vec<Vec<Option<String>>>| e@.map_values(|t: Vec<Option<String>>| parts_view(t@)))
}

/// The string parts of a tag, in order.
pub open spec fn string_parts(parts: Seq<Option<Seq<char>>>) -> Seq<Seq<char>>
    decreases parts.len(),
{
    if parts.len() == 0 {
        Seq::empty()
    } else {
        string_parts(parts.drop_last()) + match parts.last() {
            Some(s) => seq![s],
            None => Seq::empty(),
        }
    }
}

/// All tags of a page, event after event, each cut to its string parts.
pub open spec fn page_tags(events: Seq<Seq<Seq<Option<Seq<char>>>>>) -> Seq<Seq<Seq<char>>>
    decreases events.len(),
{
    if events.len() == 0 {
        Seq::empty()
    } else {
        page_tags(events.drop_last()) + events.last().map_values(|t: Seq<Option<Seq<char>>>| string_parts(t))
    }
}

/// Keeps the string parts of a tag (see `string_parts`).
fn strings_of(parts: &Vec<Option<String>>) -> (r: Vec<String>)
    ensures
        texts(r@) == string_parts(parts_view(parts@)),
{
    let ghost pv = parts_view(parts@);
    let mut out: Vec<String> = Vec::new();
    let mut i: usize = 0;
    while i < parts.len()
        invariant
            i <= parts@.len(),
            pv == parts_view(parts@),
            texts(out@) == string_parts(pv.subrange(0, i as int)),
        decreases parts.len() - i,
    {
        proof {
            assert(pv.subrange(0, i + 1).drop_last() =~= pv.subrange(0, i as int));
        }
        let ghost before = out@;
        match &parts[i] {
            Some(s) => {
                let x = s.as_str().to_owned();
                out.push(x);
                proof {
                    assert(out@ == before.push(x));
                    assert(texts(out@) =~= texts(before) + seq![x@]);
                }
            },
            None => {
                proof {
                    assert(texts(out@) =~= texts(before) + Seq::<Seq<char>>::empty());
                }
            },
        }
        i = i + 1;
    }
    proof {
        assert(pv.subrange(0, parts@.len() as int) =~= pv);
    }
    out
}

/// The tags of a page with only their string parts, in order (see
/// `page_tags`).
pub fn string_tags(page: &[Vec<Vec<Option<String>>>]) -> (r: Vec<Vec<String>>)
    ensures
        tag_texts(r@) == page_tags(page_view(page@)),
{
    let ghost pv = page_view(page@);
    let mut out: Vec<Vec<String>> = Vec::new();
    let mut i: usize = 0;
    while i < page.len()
        invariant
            i <= page@.len(),
            pv == page_view(page@),
            tag_texts(out@) == page_tags(pv.subrange(0, i as int)),
        decreases page.len() - i,
    {
        let event = &page[i];
        let ghost ev = pv[i as int];
        let ghost start = tag_texts(out@);
        proof {
            assert(pv.subrange(0, i + 1).drop_last() =~= pv.subrange(0, i as int));
            assert(ev =~= event@.map_values(|t: Vec<Option<String>>| parts_view(t@)));
        }
        let mut j: usize = 0;
        while j < event.len()
            invariant
                j <= event@.len(),
                ev == event@.map_values(|t: Vec<Option<String>>| parts_view(t@)),
                tag_texts(out@) == start + ev.subrange(0, j as int).map_values(
                    |t: Seq<Option<Seq<char>>>| string_parts(t),
                ),
            decreases event.len() - j,
        {
            let ghost before = out@;
            let x = strings_of(&event[j]);
            out.push(x);
            proof {
                assert(out@ == before.push(x));
                assert(tag_texts(out@) =~= tag_texts(before).push(texts(x@)));
                assert(ev.subrange(0, j + 1) =~= ev.subrange(0, j as int).push(ev[j as int]));
                assert(ev.subrange(0, j + 1).map_values(|t: Seq<Option<Seq<char>>>| string_parts(t)) =~= ev.subrange(
                    0,
                    j as int,
                ).map_values(|t: Seq<Option<Seq<char>>>| string_parts(t)).push(string_parts(ev[j as int])));
            }
            j = j + 1;
        }
        proof {
            assert(ev.subrange(0, ev.len() as int) =~= ev);
        }
        i = i + 1;
    }
    proof {
        assert(pv.subrange(0, page@.len() as int) =~= pv);
    }
    out
}

/// The roster lines of a snapshot page: its tags cut to their string parts,
/// then read as `roster_entries` reads them.
pub fn roster_page(page: &[Vec<Vec<Option<String>>>], tag_name: &str) -> (r: Vec<RosterEntry>)
    ensures
        roster_view(r@) == roster_of(page_tags(page_view(page@)), tag_name@),
{
    let tags = string_tags(page);
    roster_entries(tags.as_slice(), tag_name)
}

/// The channel a membership tag names: a tag whose first part is the string
/// `d` names the channel in its second part, when that is a string.
pub open spec fn channel_of_tag(parts: Seq<Option<Seq<char>>>) -> Option<Seq<char>> {
    if parts.len() >= 2 && parts[0] == Some("d"@) && parts[1] is Some {
        parts[1]
    } else {
        None
    }
}

/// The channels named in a page's tags, in order, repeats kept.
pub open spec fn page_channels(events: Seq<Seq<Seq<Option<Seq<char>>>>>) -> Seq<Seq<char>>
    decreases events.len(),
{
    if events.len() == 0 {
        Seq::empty()
    } else {
        page_channels(events.drop_last()) + tags_channels(events.last())
    }
}

/// The channels named in an event's tags, in order.
pub open spec fn tags_channels(tags: Seq<Seq<Option<Seq<char>>>>) -> Seq<Seq<char>>
    decreases tags.len(),
{
    if tags.len() == 0 {
        Seq::empty()
    } else {
        tags_channels(tags.drop_last()) + match channel_of_tag(tags.last()) {
            Some(c) => seq![c],
            None => Seq::empty(),
        }
    }
}

/// The channel a tag names (see `channel_of_tag`).
fn tag_channel(parts: &Vec<Option<String>>) -> (r: Option<String>)
    ensures
        (match r {
            Some(s) => Some(s@),
            None => None,
        }) == channel_of_tag(parts_view(parts@)),
{
    proof {
        reveal_strlit("d");
    }
    if parts.len() < 2 {
        return None;
    }
    let is_d = match &parts[0] {
        Some(s) => text_eq(s.as_str(), "d"),
        None => false,
    };
    if !is_d {
        return None;
    }
    match &parts[1] {
        Some(s) => Some(s.as_str().to_owned()),
        None => None,
    }
}

/// The channels named in a page's tags, in order, repeats kept (see
/// `page_channels`).
pub fn page_channel_ids(page: &[Vec<Vec<Option<String>>>]) -> (r: Vec<String>)
    ensures
        texts(r@) == page_channels(page_view(page@)),
{
    let ghost pv = page_view(page@);
    let mut out: Vec<String> = Vec::new();
    let mut i: usize = 0;
    while i < page.len()
        invariant
            i <= page@.len(),
            pv == page_view(page@),
            texts(out@) == page_channels(pv.subrange(0, i as int)),
        decreases page.len() - i,
    {
        let event = &page[i];
        let ghost ev = pv[i as int];
        let ghost start = texts(out@);
        proof {
            assert(pv.subrange(0, i + 1).drop_last() =~= pv.subrange(0, i as int));
            assert(ev =~= event@.map_values(|t: Vec<Option<String>>| parts_view(t@)));
        }
        let mut j: usize = 0;
        while j < event.len()
            invariant
                j <= event@.len(),
                ev == event@.map_values(|t: Vec<Option<String>>| parts_view(t@)),
                texts(out@) == start + tags_channels(ev.subrange(0, j as int)),
            decreases event.len() - j,
        {
            let ghost before = out@;
            proof {
                assert(ev.subrange(0, j + 1).drop_last() =~= ev.subrange(0, j as int));
            }
            match tag_channel(&event[j]) {
                Some(c) => {
                    out.push(c);
                    proof {
                        assert(out@ == before.push(c));
                        assert(texts(out@) =~= texts(before) + seq![c@]);
                    }
                },
                None => {
                    proof {
                        assert(texts(out@) =~= texts(before) + Seq::<Seq<char>>::empty());
                    }
                },
            }
            j = j + 1;
        }
        proof {
            assert(ev.subrange(0, ev.len() as int) =~= ev);
        }
        i = i + 1;
    }
    proof {
        assert(pv.subrange(0, page@.len() as int) =~= pv);
    }
    out
}

} // verus!

verus! {

/// Whether `a` sorts before `b` as strings do: by the first character where
/// they differ, or `a` is a proper prefix of `b`.
pub open spec fn text_less(a: Seq<char>, b: Seq<char>) -> bool
    decreases a.len(),
{
    if b.len() == 0 {
        false
    } else if a.len() == 0 {
        true
    } else if a[0] != b[0] {
        (a[0] as u32) < (b[0] as u32)
    } else {
        text_less(a.drop_first(), b.drop_first())
    }
}

/// Whether texts are in strictly increasing order, so none occurs twice.
pub open spec fn strictly_sorted(s: Seq<Seq<char>>) -> bool {
    forall|i: int, j: int| 0 <= i < j < s.len() ==> text_less(#[trigger] s[i], #[trigger] s[j])
}

/// No text sorts before itself.
pub proof fn lemma_text_less_irreflexive(a: Seq<char>)
    ensures
        !text_less(a, a),
    decreases a.len(),
{
    if a.len() > 0 {
        lemma_text_less_irreflexive(a.drop_first());
    }
}

/// Of two different texts, one sorts before the other, and not both.
pub proof fn lemma_text_less_total(a: Seq<char>, b: Seq<char>)
    ensures
        a != b ==> (text_less(a, b) || text_less(b, a)),
        !(text_less(a, b) && text_less(b, a)),
    decreases a.len(),
{
    if a.len() > 0 && b.len() > 0 {
        vstd::utf8::char_u32_cast(a[0], a[0] as u32);
        vstd::utf8::char_u32_cast(b[0], b[0] as u32);
    }
    if a.len() > 0 && b.len() > 0 && a[0] == b[0] {
        lemma_text_less_total(a.drop_first(), b.drop_first());
        if a.drop_first() == b.drop_first() {
            assert(a =~= seq![a[0]] + a.drop_first());
            assert(b =~= seq![b[0]] + b.drop_first());
        }
    }
    if a.len() == 0 && b.len() == 0 {
        assert(a =~= b);
    }
}

/// Sorting before is transitive.
pub proof fn lemma_text_less_transitive(a: Seq<char>, b: Seq<char>, c: Seq<char>)
    requires
        text_less(a, b),
        text_less(b, c),
    ensures
        text_less(a, c),
    decreases a.len(),
{
    if a.len() > 0 && a[0] == b[0] && b[0] == c[0] {
        lemma_text_less_transitive(a.drop_first(), b.drop_first(), c.drop_first());
    }
}

/// Compares two texts (see `text_less`).
pub fn text_before(a: &str, b: &str) -> (r: bool)
    ensures
        r == text_less(a@, b@),
{
    let x = chars_of(a);
    let y = chars_of(b);
    let mut i: usize = 0;
    proof {
        assert(x@.skip(0) =~= x@);
        assert(y@.skip(0) =~= y@);
    }
    while i < x.len() && i < y.len() && x[i] == y[i]
        invariant
            i <= x@.len(),
            i <= y@.len(),
            text_less(x@, y@) == text_less(x@.skip(i as int), y@.skip(i as int)),
        decreases x.len() - i,
    {
        proof {
            let (p, q) = (x@.skip(i as int), y@.skip(i as int));
            assert(p.drop_first() =~= x@.skip(i + 1));
            assert(q.drop_first() =~= y@.skip(i + 1));
        }
        i = i + 1;
    }
    let ghost (p, q) = (x@.skip(i as int), y@.skip(i as int));
    if i == y.len() {
        assert(q.len() == 0);
        false
    } else if i == x.len() {
        assert(p.len() == 0 && q.len() > 0);
        true
    } else {
        let (c, d) = (x[i], y[i]);
        assert(p[0] == c && q[0] == d && c != d);
        (c as u32) < (d as u32)
    }
}

/// Puts a text into a strictly sorted list, unless it is there already.
fn insert_sorted(v: &mut Vec<String>, x: String)
    requires
        strictly_sorted(texts(old(v)@)),
    ensures
        strictly_sorted(texts(final(v)@)),
        forall|t: Seq<char>| texts(final(v)@).contains(t) <==> (texts(old(v)@).contains(t) || t == x@),
{
    let ghost s = texts(v@);
    let mut p: usize = 0;
    while p < v.len() && text_before(v[p].as_str(), x.as_str())
        invariant
            p <= v@.len(),
            s == texts(v@),
            strictly_sorted(s),
            forall|i: int| 0 <= i < p ==> text_less(#[trigger] s[i], x@),
        decreases v.len() - p,
    {
        p = p + 1;
    }
    if p < v.len() && text_eq(v[p].as_str(), x.as_str()) {
        proof {
            assert(s[p as int] == x@);
        }
        return;
    }
    let ghost xv = x@;
    v.insert(p, x);
    proof {
        let n = texts(v@);
        assert(n =~= s.insert(p as int, xv));
        if p < s.len() {
            lemma_text_less_total(s[p as int], xv);
        }
        assert forall|i: int, j: int| 0 <= i < j < n.len() implies text_less(#[trigger] n[i], #[trigger] n[j]) by {
            if j < p {
            } else if j == p {
            } else if i < p {
                if j > p + 1 {
                    lemma_text_less_transitive(xv, s[p as int], s[j - 1]);
                }
                lemma_text_less_transitive(n[i], xv, n[j]);
            } else if i == p {
                if j > p + 1 {
                    lemma_text_less_transitive(xv, s[p as int], s[j - 1]);
                }
            } else {
            }
        }
        assert forall|t: Seq<char>| n.contains(t) <==> (s.contains(t) || t == xv) by {
            if n.contains(t) {
                let k = choose|k: int| 0 <= k < n.len() && n[k] == t;
                if k < p {
                    assert(s[k] == t);
                } else if k > p {
                    assert(s[k - 1] == t);
                }
            }
            if s.contains(t) {
                let k = choose|k: int| 0 <= k < s.len() && s[k] == t;
                if k < p {
                    assert(n[k] == t);
                } else {
                    assert(n[k + 1] == t);
                }
            }
            if t == xv {
                assert(n[p as int] == t);
            }
        }
    }
}

/// The distinct texts of a list in increasing order.
pub fn sorted_unique(items: &[String]) -> (r: Vec<String>)
    ensures
        strictly_sorted(texts(r@)),
        forall|t: Seq<char>| texts(r@).contains(t) <==> texts(items@).contains(t),
{
    let mut out: Vec<String> = Vec::new();
    let mut i: usize = 0;
    while i < items.len()
        invariant
            i <= items@.len(),
            strictly_sorted(texts(out@)),
            forall|t: Seq<char>| texts(out@).contains(t) <==> texts(items@.subrange(0, i as int)).contains(t),
        decreases items.len() - i,
    {
        let ghost before = texts(out@);
        insert_sorted(&mut out, items[i].as_str().to_owned());
        proof {
            let pre = texts(items@.subrange(0, i as int));
            let post = texts(items@.subrange(0, i + 1));
            assert(post =~= pre.push(items@[i as int]@));
            assert forall|t: Seq<char>| post.contains(t) <==> (pre.contains(t) || t == items@[i as int]@) by {
                if post.contains(t) {
                    let k = choose|k: int| 0 <= k < post.len() && post[k] == t;
                    if k < pre.len() {
                        assert(pre[k] == t);
                    }
                }
                if pre.contains(t) {
                    let k = choose|k: int| 0 <= k < pre.len() && pre[k] == t;
                    assert(post[k] == t);
                }
                if t == items@[i as int]@ {
                    assert(post[i as int] == t);
                }
            }
        }
        i = i + 1;
    }
    proof {
        assert(items@.subrange(0, items@.len() as int) =~= items@);
    }
    out
}

/// The channels a membership page names, each once, in increasing order.
pub fn member_channel_ids(page: &[Vec<Vec<Option<String>>>]) -> (r: Vec<String>)
    ensures
        strictly_sorted(texts(r@)),
        forall|t: Seq<char>| texts(r@).contains(t) <==> page_channels(page_view(page@)).contains(t),
{
    let ids = page_channel_ids(page);
    sorted_unique(ids.as_slice())
}

} // verus!
