use vstd::prelude::*;
use vstd::string::{StrSliceExecFns, StringExecFns};

verus! {

/// The page size used when none is asked for.
pub const DEFAULT_PAGE_SIZE: usize = 10;

/// The longest description shown in a listing, in characters.
pub const DESCRIPTION_WIDTH: usize = 60;

/// Which part of a list of snippets is shown, and how it is numbered.
pub struct Page {
    /// Index of the first snippet shown.
    pub start: usize,
    /// Index one past the last snippet shown.
    pub end: usize,
    /// The page shown, counted from 1.
    pub page_index: usize,
    /// How many pages the list has at this page size.
    pub page_count: usize,
}

/// The page size: the one asked for, or the default, but never more than
/// the list holds.
pub open spec fn page_size(total: nat, number: Option<usize>) -> nat {
    let n: nat = match number {
        Some(k) => k as nat,
        None => DEFAULT_PAGE_SIZE as nat,
    };
    if n < total {
        n
    } else {
        total
    }
}

pub open spec fn min_nat(a: nat, b: nat) -> nat {
    if a < b {
        a
    } else {
        b
    }
}

/// What `paginate` owes: the whole list when `all` is set; else the slice of
/// page `page` (at least 1) at the page size, cut at the end of the list.
pub open spec fn paged(total: nat, number: Option<usize>, page: Option<usize>, all: bool, p: Page) -> bool {
    let size = page_size(total, number);
    let index: nat = match page {
        Some(k) => if k >= 1 {
            k as nat
        } else {
            1
        },
        None => 1,
    };
    &&& p.page_index == index
    &&& p.page_count == if size == 0 {
        0
    } else {
        ((total - 1) as nat) / size + 1
    }
    &&& if all {
        p.start == 0 && p.end == total
    } else {
        &&& p.start == min_nat(((index - 1) as nat) * size, total)
        &&& p.end == min_nat((p.start + size) as nat, total)
    }
}

/// Work out which snippets of a list of `total` a listing shows.
pub fn paginate(total: usize, number: Option<usize>, page: Option<usize>, all: bool) -> (r: Page)
    ensures
        paged(total as nat, number, page, all, r),
{
    let asked = match number {
        Some(k) => k,
        None => DEFAULT_PAGE_SIZE,
    };
    let size = if asked < total {
        asked
    } else {
        total
    };
    let index = match page {
        Some(k) => if k >= 1 {
            k
        } else {
            1
        },
        None => 1,
    };
    let page_count = if size == 0 {
        0
    } else {
        (total - 1) / size + 1
    };
    if all {
        return Page { start: 0, end: total, page_index: index, page_count };
    }
    let k = index - 1;
    let start = if size == 0 {
        0
    } else if k <= total / size {
        proof {
            assert(k as int * size as int <= (total as int / size as int) * size as int)
                by (nonlinear_arith)
                requires
                    k <= total as int / size as int,
                    size > 0,
            ;
            assert((total as int / size as int) * size as int <= total) by (nonlinear_arith)
                requires
                    size > 0,
            ;
        }
        k * size
    } else {
        proof {
            assert(k as int * size as int >= total) by (nonlinear_arith)
                requires
                    k >= total as int / size as int + 1,
                    size > 0,
            ;
        }
        total
    };
    let end = if size <= total - start {
        start + size
    } else {
        total
    };
    Page { start, end, page_index: index, page_count }
}

/// A description as a listing shows it: cut to its first sixty characters,
/// with an ellipsis, when it is longer.
pub fn truncate_description(d: &str) -> (r: String)
    ensures
        d@.len() > DESCRIPTION_WIDTH ==> r@ == d@.subrange(0, DESCRIPTION_WIDTH as int) + "…"@,
        d@.len() <= DESCRIPTION_WIDTH ==> r@ == d@,
{
    if d.unicode_len() > DESCRIPTION_WIDTH {
        let mut r = String::from_str(d.substring_char(0, DESCRIPTION_WIDTH));
        r.append("…");
        r
    } else {
        String::from_str(d)
    }
}

} // verus!
