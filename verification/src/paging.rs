use vstd::prelude::*;

verus! {

/// The page of a message listing that a request asks for: the first page
/// unless a page of at least 1 is given.
pub open spec fn message_page(page: Option<i32>) -> int {
    match page {
        Some(p) => if p < 1 { 1 } else { p as int },
        None => 1,
    }
}

/// The size of a message page: 20 unless given, and held between 1 and 100.
pub open spec fn message_page_size(page_size: Option<i32>) -> int {
    let s: int = match page_size {
        Some(s) => s as int,
        None => 20,
    };
    if s < 1 {
        1
    } else if s > 100 {
        100
    } else {
        s
    }
}

/// Which slice of a listing a request reads.
#[derive(Clone, Copy, Debug, PartialEq, Eq, Structural)]
pub struct PageWindow {
    pub page: i32,
    pub page_size: i32,
    pub offset: i32,
}

/// The page, page size and row offset of a message listing. The offset is
/// the number of rows on the pages before the requested one; it must fit in
/// an `i32`.
pub fn message_page_window(page: Option<i32>, page_size: Option<i32>) -> (w: PageWindow)
    requires
        (message_page(page) - 1) * message_page_size(page_size) <= i32::MAX,
    ensures
        w.page == message_page(page),
        w.page_size == message_page_size(page_size),
        w.offset == (w.page - 1) * w.page_size,
{
    let p: i32 = match page {
        Some(p) => if p < 1 { 1 } else { p },
        None => 1,
    };
    let requested: i32 = match page_size {
        Some(s) => s,
        None => 20,
    };
    let s: i32 = if requested < 1 {
        1
    } else if requested > 100 {
        100
    } else {
        requested
    };
    assert(0 <= (p - 1) * s) by (nonlinear_arith)
        requires
            p >= 1,
            s >= 1,
    ;
    let offset: i32 = (p - 1) * s;
    PageWindow { page: p, page_size: s, offset }
}


/// The page of a price listing: the first unless given.
pub open spec fn price_page(page: Option<u32>) -> int {
    match page {
        Some(p) => p as int,
        None => 1,
    }
}

/// The size of a price listing page: 50 unless given.
pub open spec fn price_page_size(page_size: Option<u32>) -> int {
    match page_size {
        Some(s) => s as int,
        None => 50,
    }
}

/// Which slice of a price listing a request reads.
#[derive(Clone, Copy, Debug, PartialEq, Eq, Structural)]
pub struct PriceWindow {
    pub page: u32,
    pub page_size: u32,
    pub offset: u32,
}

/// The page, page size and row offset of a price listing. Pages count from 1,
/// and the offset must fit in a `u32`.
pub fn price_page_window(page: Option<u32>, page_size: Option<u32>) -> (w: PriceWindow)
    requires
        price_page(page) >= 1,
        (price_page(page) - 1) * price_page_size(page_size) <= u32::MAX,
    ensures
        w.page == price_page(page),
        w.page_size == price_page_size(page_size),
        w.offset == (w.page - 1) * w.page_size,
{
    let p: u32 = match page {
        Some(p) => p,
        None => 1,
    };
    let s: u32 = match page_size {
        Some(s) => s,
        None => 50,
    };
    assert(0 <= (p - 1) * s) by (nonlinear_arith)
        requires
            p >= 1,
    ;
    let offset: u32 = (p - 1) * s;
    PriceWindow { page: p, page_size: s, offset }
}

} // verus!
