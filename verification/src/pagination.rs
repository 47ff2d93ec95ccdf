//! Pagination helpers for the HTTP layer: defaulted page and limit
//! parameters, an offset, and the page/limit/total bookkeeping with links to
//! the neighbouring pages.

use vstd::prelude::*;

use crate::decimal::{spec_decimal, u32_to_decimal};

verus! {

pub const DEFAULT_PAGE: u32 = 1;

pub const DEFAULT_LIMIT: u32 = 10;

/// The given value, or the default where none was given.
pub open spec fn spec_or_default(v: Option<u32>, d: u32) -> u32 {
    match v {
        Some(x) => x,
        None => d,
    }
}

/// Query parameters that may carry a page number and a page size.
pub trait Paginable {
    /// The page number the parameters carry, if any.
    spec fn spec_page(&self) -> Option<u32>;

    /// The page size the parameters carry, if any.
    spec fn spec_limit(&self) -> Option<u32>;

    fn page(&self) -> (r: Option<u32>)
        ensures
            r == self.spec_page(),
    ;

    fn limit(&self) -> (r: Option<u32>)
        ensures
            r == self.spec_limit(),
    ;

    /// The page number, defaulted.
    fn page_or_default(&self) -> (r: i64)
        ensures
            r == spec_or_default(self.spec_page(), DEFAULT_PAGE) as i64,
    {
        self.page().unwrap_or(DEFAULT_PAGE) as i64
    }

    /// The page size, defaulted.
    fn limit_or_default(&self) -> (r: i64)
        ensures
            r == spec_or_default(self.spec_limit(), DEFAULT_LIMIT) as i64,
    {
        self.limit().unwrap_or(DEFAULT_LIMIT) as i64
    }

    /// How many records precede the requested page.
    fn offset(&self) -> (r: i64)
        requires
            (spec_or_default(self.spec_page(), DEFAULT_PAGE) - 1) * spec_or_default(
                self.spec_limit(),
                DEFAULT_LIMIT,
            ) <= i64::MAX,
        ensures
            r == (spec_or_default(self.spec_page(), DEFAULT_PAGE) - 1) * spec_or_default(
                self.spec_limit(),
                DEFAULT_LIMIT,
            ),
    {
        proof {
            let p = spec_or_default(self.spec_page(), DEFAULT_PAGE) as int;
            let l = spec_or_default(self.spec_limit(), DEFAULT_LIMIT) as int;
            assert((p - 1) * l >= -l) by (nonlinear_arith)
                requires
                    p >= 0,
                    l >= 0,
            ;
        }
        (self.page_or_default() - 1) * self.limit_or_default()
    }
}

/// Plain page/limit query parameters.
pub struct PageParams {
    pub page: Option<u32>,
    pub limit: Option<u32>,
}

impl Paginable for PageParams {
    open spec fn spec_page(&self) -> Option<u32> {
        self.page
    }

    open spec fn spec_limit(&self) -> Option<u32> {
        self.limit
    }

    fn page(&self) -> (r: Option<u32>) {
        self.page
    }

    fn limit(&self) -> (r: Option<u32>) {
        self.limit
    }
}

/// How many pages a record count spans: the count divided by the page size,
/// rounded up, clamped into `u32`. A page size of zero yields the clamp
/// bound for a positive count and zero otherwise.
pub open spec fn spec_total_pages(count: int, limit: int) -> int {
    if limit <= 0 {
        if count > 0 {
            u32::MAX as int
        } else {
            0
        }
    } else if count <= 0 {
        0
    } else {
        let p = (count - 1) / limit + 1;
        if p > u32::MAX {
            u32::MAX as int
        } else {
            p
        }
    }
}

/// The link to one page of a listing.
pub open spec fn spec_page_link(base: Seq<char>, page: int, limit: int) -> Seq<char> {
    base + "?page="@ + spec_decimal(page) + "&limit="@ + spec_decimal(limit)
}

/// Builds the link to one page of a listing.
pub fn page_link(base_path: &str, page: u32, limit: u32) -> (r: String)
    ensures
        r@ == spec_page_link(base_path@, page as int, limit as int),
{
    let p = u32_to_decimal(page);
    let l = u32_to_decimal(limit);
    String::from_str(base_path).concat("?page=").concat(p.as_str()).concat("&limit=").concat(
        l.as_str(),
    )
}

/// Page bookkeeping for a paged response: the requested page and size, the
/// total page and record counts, and links to the neighbouring pages.
#[derive(Debug, Clone)]
pub struct Pagination {
    pub page: u32,
    pub limit: u32,
    pub pages: u32,
    pub records: i64,
    pub prev: Option<String>,
    pub next: Option<String>,
}

impl Pagination {
    /// Builds the bookkeeping for one page: defaulted page and size, the
    /// rounded-up page count, and previous/next links exactly where a
    /// previous or next page exists.
    pub fn new<P: Paginable>(params: &P, count: i64, base_path: &str) -> (r: Pagination)
        ensures
            r.page == spec_or_default(params.spec_page(), DEFAULT_PAGE),
            r.limit == spec_or_default(params.spec_limit(), DEFAULT_LIMIT),
            r.pages as int == spec_total_pages(count as int, r.limit as int),
            r.records == count,
            r.prev.deep_view() == (if r.page > 1 {
                Some(spec_page_link(base_path@, r.page - 1, r.limit as int))
            } else {
                None::<Seq<char>>
            }),
            r.next.deep_view() == (if r.page < r.pages {
                Some(spec_page_link(base_path@, r.page + 1, r.limit as int))
            } else {
                None::<Seq<char>>
            }),
    {
        let limit = params.limit().unwrap_or(DEFAULT_LIMIT);
        let page = params.page().unwrap_or(DEFAULT_PAGE);
        let total_pages = Self::total_pages(count, limit);
        let prev = if page > 1 {
            Some(page_link(base_path, page - 1, limit))
        } else {
            None
        };
        let next = if page < total_pages {
            Some(page_link(base_path, page + 1, limit))
        } else {
            None
        };
        Pagination { page, limit, pages: total_pages, records: count, prev, next }
    }

    /// The rounded-up page count, clamped into `u32`.
    fn total_pages(count: i64, limit: u32) -> (r: u32)
        ensures
            r as int == spec_total_pages(count as int, limit as int),
    {
        if limit == 0 {
            if count > 0 {
                u32::MAX
            } else {
                0
            }
        } else if count <= 0 {
            0
        } else {
            let p: i64 = (count - 1) / (limit as i64) + 1;
            if p > u32::MAX as i64 {
                u32::MAX
            } else {
                p as u32
            }
        }
    }
}

} // verus!
