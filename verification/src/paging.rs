//! Bounded pages of the management views.
//!
//! A page asks the store for one row more than it shows; the extra row only
//! says whether another page follows. Cursors expose an offset or the last
//! shown ID, never an ID the viewer may not see.

use vstd::prelude::*;

verus! {

/// The status of a malformed page request.
pub const HTTP_BAD_REQUEST: u16 = 400;

/// The query of the role-management workspace list.
#[derive(Debug, Clone, PartialEq, Eq)]
pub struct RoleWorkspaceQuery {
    pub offset: Option<i64>,
}

/// The number of rows to fetch for a page: one more than it shows; `None`
/// when that does not fit.
pub fn fetch_limit(page: i64) -> (r: Option<i64>)
    ensures
        r == (if page + 1 <= i64::MAX {
            Some((page + 1) as i64)
        } else {
            None::<i64>
        }),
{
    page.checked_add(1)
}

/// How many fetched rows a page shows: at most `page` (a negative page
/// truncates nothing).
pub open spec fn shown(len: nat, page: i64) -> nat {
    if page >= 0 && page < len {
        page as nat
    } else {
        len
    }
}

/// Cuts fetched rows to a page: the rows shown, and whether more rows exist.
pub fn page_rows<T>(rows: Vec<T>, page: i64) -> (r: (Vec<T>, bool))
    ensures
        r.1 == (rows@.len() > page),
        r.0@ == rows@.subrange(0, shown(rows@.len(), page) as int),
{
    let mut rows = rows;
    let len = rows.len();
    let more = if page < 0 {
        true
    } else {
        (len as u64) > (page as u64)
    };
    if page >= 0 && (page as u64) < (len as u64) {
        rows.truncate(page as usize);
    } else {
        proof {
            assert(rows@.subrange(0, rows@.len() as int) =~= rows@);
        }
    }
    (rows, more)
}

/// The offset of a role workspace page: absent means zero; a negative one is
/// a bad request.
pub fn requested_offset(q: &RoleWorkspaceQuery) -> (r: Result<i64, u16>)
    ensures
        r == (match q.offset {
            None => Ok::<i64, u16>(0),
            Some(o) => if o < 0 {
                Err(HTTP_BAD_REQUEST)
            } else {
                Ok(o)
            },
        }),
{
    match q.offset {
        None => Ok(0),
        Some(o) => if o < 0 {
            Err(HTTP_BAD_REQUEST)
        } else {
            Ok(o)
        },
    }
}

/// The offset of the next page when more rows exist; an offset that does not
/// fit is a bad request.
pub fn next_offset(offset: i64, shown_rows: usize, more: bool) -> (r: Result<Option<i64>, u16>)
    requires
        shown_rows <= i64::MAX,
    ensures
        !more ==> r == Ok::<Option<i64>, u16>(None),
        more && offset + shown_rows <= i64::MAX ==> r == Ok::<Option<i64>, u16>(Some((offset + shown_rows) as i64)),
        more && offset + shown_rows > i64::MAX ==> r == Err::<Option<i64>, u16>(HTTP_BAD_REQUEST),
{
    if !more {
        return Ok(None);
    }
    match offset.checked_add(shown_rows as i64) {
        Some(n) => Ok(Some(n)),
        None => Err(HTTP_BAD_REQUEST),
    }
}

/// The cursor of the next member page: the last shown ID when more rows
/// exist.
pub fn next_cursor(shown_ids: &[u128], more: bool) -> (r: Option<u128>)
    ensures
        r == (if more && shown_ids@.len() > 0 {
            Some(shown_ids@.last())
        } else {
            None::<u128>
        }),
{
    if more && shown_ids.len() > 0 {
        Some(shown_ids[shown_ids.len() - 1])
    } else {
        None
    }
}

/// Membership in `allowed`, as a predicate.
pub open spec fn allowed_in(allowed: Seq<u128>) -> spec_fn(u128) -> bool {
    |i: u128| allowed.contains(i)
}

/// Keeps the IDs the viewer may manage, in order.
pub fn keep_allowed(ids: &[u128], allowed: &[u128]) -> (r: Vec<u128>)
    ensures
        r@ == ids@.filter(allowed_in(allowed@)),
{
    let mut out: Vec<u128> = Vec::new();
    let mut i: usize = 0;
    while i < ids.len()
        invariant
            i <= ids@.len(),
            out@ == ids@.subrange(0, i as int).filter(allowed_in(allowed@)),
        decreases ids.len() - i,
    {
        let x = ids[i];
        let ok = crate::roles::contains_id(allowed, x);
        proof {
            let s = ids@.subrange(0, i + 1);
            assert(s.drop_last() =~= ids@.subrange(0, i as int));
            assert(s.last() == x);
            reveal(Seq::filter);
        }
        if ok {
            out.push(x);
        }
        i = i + 1;
    }
    proof {
        assert(ids@.subrange(0, ids@.len() as int) =~= ids@);
    }
    out
}

/// A page never shows more rows than asked for, and says "more" exactly when
/// rows were left out.
pub proof fn lemma_page_bounds(len: nat, page: i64)
    requires
        page >= 0,
    ensures
        shown(len, page) <= page,
        shown(len, page) < len <==> len > page,
{
}

} // verus!
