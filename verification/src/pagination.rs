//! Resolving a page query and counting pages.

use vstd::prelude::*;
use crate::models::PaginationQuery;

verus! {

/// The page asked for, 1 when absent.
pub open spec fn requested_page(q: PaginationQuery) -> u64 {
    match q.page {
        Some(p) => p,
        None => 1,
    }
}

/// The page size asked for, 10 when absent.
pub open spec fn requested_size(q: PaginationQuery) -> u64 {
    match q.size {
        Some(s) => s,
        None => 10,
    }
}

/// The page query can be served: a page of at least 1, a size of at least
/// 1, and an offset of the first row that fits in 64 bits.
pub open spec fn serviceable(q: PaginationQuery) -> bool {
    &&& requested_page(q) >= 1
    &&& requested_size(q) >= 1
    &&& (requested_page(q) - 1) * requested_size(q) <= u64::MAX
}

/// Pages needed for `total` rows at `size` rows a page (the ceiling of
/// their quotient).
pub open spec fn pages_for(total: int, size: int) -> int {
    if total % size == 0 {
        total / size
    } else {
        total / size + 1
    }
}

/// A resolved page request.
#[derive(Clone, Copy, Debug, PartialEq, Eq)]
pub struct PageRequest {
    /// The 1-based page number.
    pub page: u64,
    /// Rows per page.
    pub size: u64,
    /// The 0-based page index handed to the store.
    pub index: u64,
}

/// Resolves a page query: defaults of page 1 and size 10, and the 0-based
/// index of the page.
pub fn resolve_page(q: &PaginationQuery) -> (r: PageRequest)
    requires
        serviceable(*q),
    ensures
        r.page == requested_page(*q),
        r.size == requested_size(*q),
        r.index == r.page - 1,
        q.page matches Some(p) ==> r.page == p && r.index == p - 1,
        q.page is None ==> r.page == 1 && r.index == 0,
        q.size matches Some(s) ==> r.size == s,
        q.size is None ==> r.size == 10,
        r.index * r.size <= u64::MAX,
{
    let page = match q.page {
        Some(p) => p,
        None => 1,
    };
    let size = match q.size {
        Some(s) => s,
        None => 10,
    };
    PageRequest { page, size, index: page - 1 }
}

/// The number of pages for `total` rows at `size` rows a page.
pub fn total_pages(total: u64, size: u64) -> (n: u64)
    requires
        size > 0,
    ensures
        n == pages_for(total as int, size as int),
{
    let q = total / size;
    if total % size == 0 {
        q
    } else {
        assert(q < total) by (nonlinear_arith)
            requires
                q == total / size,
                size > 0,
                total % size != 0,
        {
        }
        q + 1
    }
}

/// A page and size asked for are used as given; absent ones default to
/// page 1 and size 10.
pub proof fn lemma_requested_as_given(q: PaginationQuery)
    ensures
        q.page matches Some(p) ==> requested_page(q) == p,
        q.page is None ==> requested_page(q) == 1,
        q.size matches Some(s) ==> requested_size(q) == s,
        q.size is None ==> requested_size(q) == 10,
{
}

/// The page count covers every row and leaves no empty page at the end:
/// for a positive size, `(pages - 1) * size < total <= pages * size` when
/// there are rows, and no pages when there are none.
pub proof fn lemma_pages_cover_rows(total: nat, size: nat)
    requires
        size > 0,
    ensures
        total <= pages_for(total as int, size as int) * size,
        total > 0 ==> (pages_for(total as int, size as int) - 1) * size < total,
        total == 0 ==> pages_for(total as int, size as int) == 0,
{
    let q = total / size;
    let r = total % size;
    assert(total == q * size + r && 0 <= r < size) by (nonlinear_arith)
        requires
            q == total / size,
            r == total % size,
            size > 0,
    {
    }
    if r == 0 {
        assert(pages_for(total as int, size as int) == q);
        assert(total > 0 ==> (q - 1) * size < total) by (nonlinear_arith)
            requires
                total == q * size,
                size > 0,
        {
        }
        assert(total == 0 ==> q == 0) by (nonlinear_arith)
            requires
                total == q * size,
                size > 0,
        {
        }
    } else {
        assert(pages_for(total as int, size as int) == q + 1);
        assert(total <= (q + 1) * size) by (nonlinear_arith)
            requires
                total == q * size + r,
                r < size,
        {
        }
        assert(q * size < total);
    }
}

} // verus!
