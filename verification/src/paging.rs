//! Cutting a listing into pages: page numbers start at 1, pages hold 1 to 100
//! tasks (20 unless asked otherwise).
use vstd::prelude::*;

use crate::model::{PageFilter, PaginatedTasks, Task};

verus! {

/// The page that a listing shows: its number, its size and the number of
/// tasks before it.
#[derive(Clone, Copy, Debug, PartialEq, Eq, Structural)]
pub struct PageWindow {
    pub page: i64,
    pub page_size: i64,
    pub offset: i64,
}

/// The page number asked for (1 when none is).
pub open spec fn requested_page(pagination: Option<PageFilter>) -> int {
    match pagination {
        Some(f) => match f.page {
            Some(n) => n as int,
            None => 1,
        },
        None => 1,
    }
}

/// The page size asked for (20 when none is).
pub open spec fn requested_page_size(pagination: Option<PageFilter>) -> int {
    match pagination {
        Some(f) => match f.page_size {
            Some(n) => n as int,
            None => 20,
        },
        None => 20,
    }
}

/// The page shown: the one asked for, and at least the first.
pub open spec fn normalized_page(pagination: Option<PageFilter>) -> int {
    let p = requested_page(pagination);
    if p < 1 { 1 } else { p }
}

/// The page size used: the one asked for, brought into 1 to 100.
pub open spec fn normalized_page_size(pagination: Option<PageFilter>) -> int {
    let s = requested_page_size(pagination);
    if s < 1 {
        1
    } else if s > 100 {
        100
    } else {
        s
    }
}

/// The number of tasks before the page shown.
pub open spec fn page_offset(pagination: Option<PageFilter>) -> int {
    (normalized_page(pagination) - 1) * normalized_page_size(pagination)
}

/// The offset of the page asked for fits in an `i64`.
pub open spec fn window_fits(pagination: Option<PageFilter>) -> bool {
    page_offset(pagination) <= i64::MAX
}

/// The smallest number of pages of `page_size` tasks that hold `total` tasks.
pub open spec fn ceil_div(total: int, page_size: int) -> int {
    (total + page_size - 1) / page_size
}

/// The page number and page size that a request comes to.
fn normalize(pagination: &Option<PageFilter>) -> (r: (i64, i64))
    ensures
        r.0 == normalized_page(*pagination),
        r.1 == normalized_page_size(*pagination),
{
    let requested = match pagination {
        Some(f) => match f.page {
            Some(n) => n,
            None => 1,
        },
        None => 1,
    };
    let requested_size = match pagination {
        Some(f) => match f.page_size {
            Some(n) => n,
            None => 20,
        },
        None => 20,
    };
    let page = if requested < 1 { 1 } else { requested };
    let page_size = if requested_size < 1 {
        1
    } else if requested_size > 100 {
        100
    } else {
        requested_size
    };
    (page, page_size)
}

/// The page that a request shows.
pub fn page_window(pagination: &Option<PageFilter>) -> (w: PageWindow)
    requires
        window_fits(*pagination),
    ensures
        w.page == normalized_page(*pagination),
        w.page_size == normalized_page_size(*pagination),
        w.offset == page_offset(*pagination),
{
    let (page, page_size) = normalize(pagination);
    let offset = (page - 1) * page_size;
    PageWindow { page, page_size, offset }
}

/// The page that a request shows, or `None` when its offset overflows an
/// `i64`.
pub fn try_page_window(pagination: &Option<PageFilter>) -> (w: Option<PageWindow>)
    ensures
        w is None <==> !window_fits(*pagination),
        w matches Some(w) ==> {
            &&& w.page == normalized_page(*pagination)
            &&& w.page_size == normalized_page_size(*pagination)
            &&& w.offset == page_offset(*pagination)
        },
{
    let (page, page_size) = normalize(pagination);
    if page - 1 > i64::MAX / page_size {
        proof {
            assert((page - 1) * page_size > i64::MAX) by (nonlinear_arith)
                requires
                    page - 1 > i64::MAX / page_size,
                    1 <= page_size <= 100,
            ;
        }
        None
    } else {
        proof {
            assert((page - 1) * page_size <= i64::MAX) by (nonlinear_arith)
                requires
                    page - 1 <= i64::MAX / page_size,
                    0 <= page - 1,
                    1 <= page_size <= 100,
            ;
        }
        Some(page_window(pagination))
    }
}

/// The number of pages of `page_size` tasks that `total` tasks fill.
pub fn total_pages(total: i64, page_size: i64) -> (pages: i64)
    requires
        page_size >= 1,
    ensures
        pages == ceil_div(total as int, page_size as int),
{
    if total >= 0 {
        let q = total / page_size;
        let r = total % page_size;
        proof {
            assert(ceil_div(total as int, page_size as int) == q + (if r > 0 { 1int } else { 0 }))
                by (nonlinear_arith)
                requires
                    total >= 0,
                    page_size >= 1,
                    q == total / page_size,
                    r == total % page_size,
            ;
            assert(r > 0 ==> q + 1 <= total) by (nonlinear_arith)
                requires
                    total >= 0,
                    page_size >= 1,
                    q == total / page_size,
                    r == total % page_size,
            ;
        }
        if r > 0 {
            q + 1
        } else {
            q
        }
    } else {
        let m = (-(total as i128)) / (page_size as i128);
        proof {
            assert(ceil_div(total as int, page_size as int) == -m) by (nonlinear_arith)
                requires
                    total < 0,
                    page_size >= 1,
                    m == (-(total as int)) / (page_size as int),
            ;
            assert(0 <= m <= -(total as int)) by (nonlinear_arith)
                requires
                    total < 0,
                    page_size >= 1,
                    m == (-(total as int)) / (page_size as int),
            ;
        }
        (-m) as i64
    }
}

/// A page of tasks with its figures: the tasks of the page, the number of
/// tasks in the whole listing, the page shown and the number of pages.
pub fn paginate(tasks: Vec<Task>, total: i64, window: PageWindow) -> (p: PaginatedTasks)
    requires
        window.page_size >= 1,
    ensures
        p.tasks == tasks,
        p.total == total,
        p.page == window.page,
        p.page_size == window.page_size,
        p.total_pages == ceil_div(total as int, window.page_size as int),
{
    let pages = total_pages(total, window.page_size);
    PaginatedTasks { tasks, total, page: window.page, page_size: window.page_size, total_pages: pages }
}

} // verus!
