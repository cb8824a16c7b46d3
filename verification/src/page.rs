//! The pagination engine: pages of a filtered listing, their arithmetic,
//! and the steps that produce one page.

use crate::aggregate::Step;
use crate::error::DatabaseError;
use crate::filter::{push_ordering, select_filtered, COUNT_FILTERED};
use crate::filter::{push_conditions, push_joins};
use crate::statement::{begin, draft_of, push_bind_int, push_bind_long, push_sql, Bind, Draft};
use crate::statement::Statement;
use crate::track::{TrackFull, TrackPaginationParams};
use vstd::prelude::*;

verus! {

/// One page of a listing, with the size of the whole listing.
#[derive(Debug, Clone, PartialEq, Eq)]
pub struct Page<T> {
    /// The items on this page.
    pub items: Vec<T>,
    /// The number of items in the whole listing.
    pub total_items: i64,
    /// The number of pages in the whole listing.
    pub total_page: i32,
    /// The number of this page, counted from 1.
    pub page_num: i32,
    /// The number of items on a full page.
    pub page_size: i32,
}

impl<T> Page<T> {
    /// Whether the page is page `page_num` of an empty listing in pages of
    /// `page_size`: it holds no item, the listing has no items and no
    /// pages, and the page says which page it is and how large.
    pub open spec fn is_empty_listing(self, page_num: i32, page_size: i32) -> bool {
        &&& self.items@.len() == 0
        &&& self.total_items == 0
        &&& self.total_page == 0
        &&& self.page_num == page_num
        &&& self.page_size == page_size
    }

    /// Page `page_num` of an empty listing in pages of `page_size`.
    pub fn empty(page_num: i32, page_size: i32) -> (page: Self)
        ensures
            page.is_empty_listing(page_num, page_size),
    {
        Page { items: Vec::new(), total_items: 0, total_page: 0, page_num, page_size }
    }
}

impl<T> Default for Page<T> {
    /// A page that no request has asked for: no item, and every number
    /// zero.
    fn default() -> (page: Self)
        ensures
            page.is_empty_listing(0, 0),
    {
        Page { items: Vec::new(), total_items: 0, total_page: 0, page_num: 0, page_size: 0 }
    }
}

/// The number of pages of `size` items that `total` items fill: `total`
/// divided by `size`, rounded up.
pub open spec fn pages(total: int, size: int) -> int
    recommends
        total >= 0,
        size >= 1,
{
    if total % size == 0 {
        total / size
    } else {
        total / size + 1
    }
}

/// [`pages`], held to what a page count can express.
pub open spec fn pages_capped(total: int, size: int) -> int
    recommends
        total >= 0,
        size >= 1,
{
    if pages(total, size) > i32::MAX {
        i32::MAX as int
    } else {
        pages(total, size)
    }
}

/// The number of items that come before page `page_num`.
pub open spec fn offset(page_num: int, page_size: int) -> int {
    (page_num - 1) * page_size
}

/// The number of pages that `total` items fill, held to `i32::MAX`.
pub fn page_count(total: i64, size: i32) -> (count: i32)
    requires
        total >= 0,
        size >= 1,
    ensures
        count == pages_capped(total as int, size as int),
        total == 0 ==> count == 0,
        total > 0 ==> count >= 1,
{
    let size = size as i64;
    let whole = total / size;
    let rest = total % size;
    proof {
        let t = total as int;
        let s = size as int;
        vstd::arithmetic::div_mod::lemma_fundamental_div_mod(t, s);
        vstd::arithmetic::div_mod::lemma_div_pos_is_pos(t, s);
        vstd::arithmetic::div_mod::lemma_mod_bound(t, s);
        assert(t / s <= t && (t % s != 0 ==> t / s < t) && (t > 0 && t % s == 0 ==> t / s >= 1))
            by (nonlinear_arith)
            requires
                t == s * (t / s) + t % s,
                0 <= t % s < s,
                0 <= t / s,
                s >= 1,
                t >= 0,
        ;
    }
    let count = if rest == 0 {
        whole
    } else {
        whole + 1
    };
    if count > i32::MAX as i64 {
        i32::MAX
    } else {
        count as i32
    }
}

impl TrackPaginationParams {
    /// Whether the request is within the accepted domain: pages are
    /// counted from 1, a page holds at least one item, and the filter is
    /// valid.
    pub open spec fn valid(self) -> bool {
        self.page_num >= 1 && self.page_size >= 1 && self.filter.valid()
    }

    /// The largest number of items on the page: the page size, or the
    /// filter's limit where that is smaller.
    pub open spec fn effective_limit(self) -> i32 {
        match self.filter.limit {
            Some(limit) if limit < self.page_size => limit,
            _ => self.page_size,
        }
    }

    /// The statement that reads the records of the page: the selection of
    /// the filter, ordered, limited to the effective page size and offset
    /// by the items of the pages before.
    pub open spec fn fetching(self) -> Draft {
        self.filter.ordered(self.filter.selection()).sql(" LIMIT "@).bind(
            Bind::Int(self.effective_limit()),
        ).sql(" OFFSET "@).bind(
            Bind::Long(offset(self.page_num as int, self.page_size as int) as i64),
        )
    }

    /// Whether the request is within the accepted domain.
    pub fn is_valid(&self) -> (yes: bool)
        ensures
            yes == self.valid(),
    {
        self.page_num >= 1 && self.page_size >= 1 && self.filter.is_valid()
    }
}

/// Why a page cannot be made from a request and a reported total, if it
/// cannot: the request is outside the accepted domain, or the store
/// reported a negative number of items.
pub open spec fn page_refusal(params: TrackPaginationParams, total: i64) -> Option<DatabaseError> {
    if !params.valid() {
        Some(DatabaseError::ValidationError)
    } else if total < 0 {
        Some(DatabaseError::DatabaseError)
    } else {
        None
    }
}

impl TrackFull {
    /// The first step towards a page: the statement that counts the tracks
    /// that the filter admits, regardless of order, limit and offset. A
    /// request outside the accepted domain is a validation error.
    pub fn page(params: &TrackPaginationParams) -> (r: Result<Statement, DatabaseError>)
        ensures
            match r {
                Ok(q) => params.valid() && draft_of(q) == params.filter.counting(),
                Err(e) => !params.valid() && e == DatabaseError::ValidationError,
            },
    {
        if !params.is_valid() {
            return Err(DatabaseError::ValidationError);
        }
        let mut q = begin(COUNT_FILTERED);
        push_joins(&mut q, &params.filter);
        push_conditions(&mut q, &params.filter);
        Ok(q)
    }

    /// The second step towards a page, once the store has counted `total`
    /// tracks. Of an empty listing the page is known at once: it is the
    /// page that was asked for, of the size that was asked for, with no
    /// items and no pages. Otherwise the records of the page are to be
    /// read.
    pub fn page_counted(params: &TrackPaginationParams, total: i64) -> (r: Result<
        Step<Page<TrackFull>>,
        DatabaseError,
    >)
        ensures
            match r {
                Ok(Step::Done(page)) => page_refusal(*params, total) is None && total == 0
                    && page.is_empty_listing(params.page_num, params.page_size),
                Ok(Step::Ask(q)) => page_refusal(*params, total) is None && total > 0 && draft_of(q)
                    == params.fetching(),
                Err(e) => page_refusal(*params, total) == Some(e),
            },
    {
        if !params.is_valid() {
            return Err(DatabaseError::ValidationError);
        }
        if total < 0 {
            return Err(DatabaseError::DatabaseError);
        }
        if total == 0 {
            return Ok(Step::Done(Page::empty(params.page_num, params.page_size)));
        }
        let mut q = select_filtered(&params.filter);
        push_ordering(&mut q, &params.filter);
        let limit = match params.filter.limit {
            Some(limit) => if limit < params.page_size {
                limit
            } else {
                params.page_size
            },
            None => params.page_size,
        };
        push_sql(&mut q, " LIMIT ");
        push_bind_int(&mut q, limit);
        let pages_before = params.page_num as i64 - 1;
        let page_size = params.page_size as i64;
        proof {
            assert(0 <= pages_before * page_size <= 0x7fff_ffff * 0x7fff_ffff) by (nonlinear_arith)
                requires
                    0 <= pages_before <= 0x7fff_ffff,
                    0 <= page_size <= 0x7fff_ffff,
            ;
        }
        let before = pages_before * page_size;
        push_sql(&mut q, " OFFSET ");
        push_bind_long(&mut q, before);
        Ok(Step::Ask(q))
    }

    /// The last step towards a page: the page that holds `items`, of a
    /// listing of `total` items. The number of pages is `total` divided by
    /// the page size, rounded up, and at most `i32::MAX`. The items may be
    /// none, as on a page beyond the last; the totals are reported all the
    /// same.
    pub fn page_of(params: &TrackPaginationParams, total: i64, items: Vec<TrackFull>) -> (r: Result<
        Page<TrackFull>,
        DatabaseError,
    >)
        ensures
            match r {
                Ok(page) => {
                    &&& page_refusal(*params, total) is None
                    &&& page.items == items
                    &&& page.total_items == total
                    &&& page.total_page == pages_capped(total as int, params.page_size as int)
                    &&& page.page_num == params.page_num
                    &&& page.page_size == params.page_size
                },
                Err(e) => page_refusal(*params, total) == Some(e),
            },
    {
        if !params.is_valid() {
            return Err(DatabaseError::ValidationError);
        }
        if total < 0 {
            return Err(DatabaseError::DatabaseError);
        }
        Ok(
            Page {
                items,
                total_items: total,
                total_page: page_count(total, params.page_size),
                page_num: params.page_num,
                page_size: params.page_size,
            },
        )
    }
}

} // verus!
