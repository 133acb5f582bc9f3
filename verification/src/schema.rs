//! Request payloads: what callers may send to create, update, or list
//! cases, and how the paging options resolve to a window.

use vstd::prelude::*;

verus! {

/// Paging options of a list request; both fields may be left out.
pub struct FilterOptions {
    pub page: Option<usize>,
    pub limit: Option<usize>,
}

/// A bare identifier parameter.
pub struct ParamOptions {
    pub id: String,
}

/// Fields of a creation request. `user_id` and `used` are accepted but
/// ignored: the owner is the authenticated caller and a new case is unused.
pub struct CreateCaseSchema {
    pub user_id: Option<String>,
    pub title: String,
    pub host: String,
    pub uri: String,
    pub method: String,
    pub request_body: String,
    pub expected_result: String,
    pub category: Option<String>,
    pub used: Option<bool>,
}

/// Fields of a partial update; whatever is left out keeps its stored value.
pub struct UpdateCaseSchema {
    pub user_id: Option<String>,
    pub title: Option<String>,
    pub host: Option<String>,
    pub uri: Option<String>,
    pub method: Option<String>,
    pub request_body: Option<String>,
    pub expected_result: Option<String>,
    pub category: Option<String>,
    pub response_code: Option<String>,
    pub response_body: Option<String>,
    pub used: Option<bool>,
}

/// The page a list request asks for, first page when unsaid.
pub open spec fn eff_page(opts: FilterOptions) -> int {
    match opts.page {
        Some(p) => p as int,
        None => 1,
    }
}

/// The page size a list request asks for, ten when unsaid.
pub open spec fn eff_limit(opts: FilterOptions) -> int {
    match opts.limit {
        Some(l) => l as int,
        None => 10,
    }
}

/// How many records the window skips.
pub open spec fn eff_offset(opts: FilterOptions) -> int {
    (eff_page(opts) - 1) * eff_limit(opts)
}

/// Resolves paging options to a concrete `(limit, offset)` pair.
pub fn page_params(opts: &FilterOptions) -> (r: (usize, usize))
    requires
        eff_page(*opts) >= 1,
        eff_offset(*opts) <= usize::MAX,
    ensures
        r.0 == eff_limit(*opts),
        r.1 == eff_offset(*opts),
{
    let limit = match opts.limit {
        Some(l) => l,
        None => 10,
    };
    let page = match opts.page {
        Some(p) => p,
        None => 1,
    };
    let offset = (page - 1) * limit;
    (limit, offset)
}

} // verus!
