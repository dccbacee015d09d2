//! Paging through the logged rows.

use vstd::prelude::*;

verus! {

/// Rows per page where the request names neither a count nor a time span.
pub const DEFAULT_PAGE_ROWS: i32 = 10;

/// Rows per page where the request names a time span but no count: in
/// effect the whole span on one page.
pub const DEFAULT_SPAN_ROWS: i32 = 10000000;

/// Seconds per averaging interval where the request names none.
pub const DEFAULT_INTERVAL_SECS: i32 = 300;

/// What a request says about paging. Each value may be missing.
#[derive(Clone, Copy, Debug, PartialEq, Eq)]
pub struct Pagination {
    /// The page, counted from one.
    pub page: Option<i32>,
    /// The rows per page.
    pub count: Option<i32>,
    /// The averaging interval in seconds.
    pub interval: Option<i32>,
    /// Whether the request names the start of a time span.
    pub has_start: bool,
    /// Whether the request names the end of a time span.
    pub has_end: bool,
}

/// The paging that a request comes down to, with every default filled in.
#[derive(Clone, Copy, Debug, PartialEq, Eq, Structural)]
pub struct PaginationResult {
    /// The page, counted from one.
    pub page: i32,
    /// The rows per page.
    pub count: i32,
    /// The averaging interval in seconds.
    pub interval: i32,
    /// The number of rows that precede the page.
    pub offset: i64,
}

impl Pagination {
    /// The paging with every default filled in.
    pub open spec fn spec_result(self) -> PaginationResult {
        let page = match self.page {
            Some(page) => page,
            None => 1,
        };
        let count = match self.count {
            Some(count) => count,
            None => if self.has_start && self.has_end {
                DEFAULT_SPAN_ROWS
            } else {
                DEFAULT_PAGE_ROWS
            },
        };
        let interval = match self.interval {
            Some(interval) => interval,
            None => DEFAULT_INTERVAL_SECS,
        };
        PaginationResult { page, count, interval, offset: ((page - 1) * count) as i64 }
    }

    /// Fills in the defaults: the first page; ten rows a page, or ten
    /// million where both ends of a time span are named; intervals of five
    /// minutes. The offset is the number of rows on the pages before.
    pub fn result(&self) -> (r: PaginationResult)
        ensures
            r == self.spec_result(),
            r.offset == (r.page - 1) * r.count,
    {
        let page: i32 = match self.page {
            Some(page) => page,
            None => 1,
        };
        let count: i32 = match self.count {
            Some(count) => count,
            None => if self.has_start && self.has_end {
                DEFAULT_SPAN_ROWS
            } else {
                DEFAULT_PAGE_ROWS
            },
        };
        let interval: i32 = match self.interval {
            Some(interval) => interval,
            None => DEFAULT_INTERVAL_SECS,
        };
        let before: i64 = page as i64 - 1;
        assert(-0x4000_0000_8000_0000 <= before * (count as i64) <= 0x4000_0000_8000_0000)
            by (nonlinear_arith)
            requires
                -0x8000_0001 <= before <= 0x7fff_fffe,
                -0x8000_0000 <= count as i64 <= 0x7fff_ffff,
        ;
        PaginationResult { page, count, interval, offset: before * (count as i64) }
    }
}

impl PaginationResult {
    /// The number of rows to ask the store for: one more than a page holds,
    /// so that the answer shows whether another page follows.
    pub fn fetch_limit(&self) -> (limit: i64)
        ensures
            limit == self.count + 1,
    {
        self.count as i64 + 1
    }

    /// Of `fetched` rows that the store returned, how many belong on the
    /// page, and whether another page follows. A page holds `count` rows;
    /// with a negative `count` every row is shown and no page follows.
    pub fn page_rows(&self, fetched: usize) -> (r: (usize, bool))
        ensures
            r.1 <==> 0 <= self.count < fetched,
            r.0 == if 0 <= self.count < fetched {
                self.count as usize
            } else {
                fetched
            },
            r.0 <= fetched,
    {
        if self.count >= 0 && (self.count as u64) < (fetched as u64) {
            (self.count as usize, true)
        } else {
            (fetched, false)
        }
    }
}

} // verus!
