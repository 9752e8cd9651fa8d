//! The pager: computes listing-page URLs from a base URL and a page index,
//! and the inclusive page range that a run walks.

use vstd::prelude::*;
use crate::text::{push_decimal, spec_decimal};

verus! {

/// The number of posts per listing page: each page index advances the
/// query offset by this much.
pub const PAGE_SIZE: usize = 42;

/// The listing URL for page `page`: the base URL with `&pid={page * 42}`
/// appended. The caller supplies a base URL that tolerates a blind `&`
/// append (one already carrying a query string).
pub fn next_page(url: &String, page: usize) -> (r: String)
    requires
        page * PAGE_SIZE <= usize::MAX,
    ensures
        r@ == url@ + "&pid="@ + spec_decimal((page * PAGE_SIZE) as nat),
{
    let mut r = url.clone();
    r.append("&pid=");
    push_decimal(&mut r, page * PAGE_SIZE);
    r
}

/// Pagination offsets grow strictly with the page index: a later page
/// never repeats or precedes an earlier page's offset.
pub proof fn lemma_offsets_increase(n1: usize, n2: usize)
    requires
        n1 < n2,
    ensures
        n1 * PAGE_SIZE < n2 * PAGE_SIZE,
{
}

/// The page indices of a run over `[start, last]` inclusive, in order; an
/// inverted range yields no page at all.
pub fn page_range(start: usize, last: usize) -> (r: Vec<usize>)
    ensures
        start > last ==> r@.len() == 0,
        start <= last ==> r@.len() == last - start + 1,
        forall|i: int| 0 <= i < r@.len() ==> r@[i] == start + i,
{
    let mut r: Vec<usize> = Vec::new();
    if start > last {
        return r;
    }
    let mut p = start;
    loop
        invariant_except_break
            start <= p <= last,
            r@.len() == p - start,
            forall|i: int| 0 <= i < r@.len() ==> r@[i] == start + i,
        ensures
            r@.len() == last - start + 1,
            forall|i: int| 0 <= i < r@.len() ==> r@[i] == start + i,
        decreases last - p,
    {
        r.push(p);
        if p == last {
            break;
        }
        p += 1;
    }
    r
}

} // verus!
