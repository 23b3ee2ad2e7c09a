//! Plain-value store types: one page of query results, and the page
//! arithmetic that splits a result set into pages. The database itself
//! is driven from outside the library.

use vstd::prelude::*;

verus! {

/// One page of query results: its index, the page and item totals, and
/// the items of this page.
#[derive(Debug, PartialEq, Eq)]
pub struct PageChunk<T> {
    pub page: usize,
    pub total_pages: usize,
    pub total_items: usize,
    pub items: Vec<T>,
}

/// How many pages `total_items` items fill at `per_page` items a page:
/// the quotient, rounded up, and zero pages for zero items.
pub open spec fn spec_page_count(total_items: int, per_page: int) -> int
    recommends
        per_page > 0,
{
    if total_items == 0 {
        0
    } else {
        (total_items + per_page - 1) / per_page
    }
}

/// Computes the page count, as `spec_page_count` describes.
pub fn page_count(total_items: usize, per_page: usize) -> (r: usize)
    requires
        per_page > 0,
    ensures
        r == spec_page_count(total_items as int, per_page as int),
{
    if total_items == 0 {
        0
    } else {
        let r = (total_items - 1) / per_page + 1;
        proof {
            assert(r == spec_page_count(total_items as int, per_page as int)) by (nonlinear_arith)
                requires
                    per_page > 0,
                    total_items > 0,
                    r == (total_items - 1) as int / (per_page as int) + 1,
            ;
        }
        r
    }
}

/// A full page holds exactly `per_page` items: the items before the last
/// page cover `(pages - 1) * per_page` and the last page is never empty.
pub proof fn lemma_page_count_bounds(total_items: int, per_page: int)
    requires
        per_page > 0,
        total_items >= 0,
    ensures
        spec_page_count(total_items, per_page) * per_page >= total_items,
        total_items > 0 ==> (spec_page_count(total_items, per_page) - 1) * per_page < total_items,
{
    if total_items > 0 {
        let p = spec_page_count(total_items, per_page);
        assert(p * per_page >= total_items && (p - 1) * per_page < total_items)
            by (nonlinear_arith)
            requires
                per_page > 0,
                total_items > 0,
                p == (total_items + per_page - 1) / per_page,
        ;
    }
}

} // verus!
