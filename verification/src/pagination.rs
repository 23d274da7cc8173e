//! Pagination resolver: turns the optional page/limit query parameters into
//! the limit and offset handed verbatim to the store's LIMIT/OFFSET clause.

use vstd::prelude::*;
use crate::model::FilterOptions;

verus! {

/// The limit actually used: the given one, or 10 when absent.
pub open spec fn spec_limit(opts: FilterOptions) -> int {
    match opts.limit {
        Some(l) => l as int,
        None => 10,
    }
}

/// The page actually used: the given one, or 1 when absent.  Pages are
/// 1-based.
pub open spec fn spec_page(opts: FilterOptions) -> int {
    match opts.page {
        Some(p) => p as int,
        None => 1,
    }
}

/// The offset of the first row of the requested page.
pub open spec fn spec_offset(opts: FilterOptions) -> int {
    (spec_page(opts) - 1) * spec_limit(opts)
}

/// Resolves the optional query parameters into `(limit, offset)`.
///
/// Callers must supply a page of at least 1 when they supply one: the
/// resolver does not clamp the page number, so a zero page would otherwise
/// drive the offset negative.
pub fn resolve_page_request(opts: &FilterOptions) -> (r: (usize, usize))
    requires
        opts.page matches Some(p) ==> p >= 1,
        spec_offset(*opts) <= usize::MAX,
    ensures
        r.0 == spec_limit(*opts),
        r.1 == spec_offset(*opts),
{
    let limit: usize = match opts.limit {
        Some(l) => l,
        None => 10,
    };
    let page: usize = match opts.page {
        Some(p) => p,
        None => 1,
    };
    let offset: usize = (page - 1) * limit;
    (limit, offset)
}

/// A request with no query parameters resolves exactly as the explicit
/// request `page=1&limit=10` does.
pub proof fn lemma_absent_params_same_as_first_page(a: FilterOptions, b: FilterOptions)
    requires
        a.page is None,
        a.limit is None,
        b.page == Some(1usize),
        b.limit == Some(10usize),
    ensures
        spec_limit(a) == spec_limit(b),
        spec_offset(a) == spec_offset(b),
{
}

} // verus!
