//! Paging rules of the read queries over the projection.
use vstd::prelude::*;

verus! {

/// Page size when a query names none.
pub const DEFAULT_PAGE_SIZE: i64 = 50;

/// Largest page a query may ask for.
pub const MAX_PAGE_SIZE: i64 = 100;

/// The page size for a requested limit: the default when absent, never above
/// the largest page.
pub open spec fn page_size(requested: Option<i64>) -> i64 {
    match requested {
        None => DEFAULT_PAGE_SIZE,
        Some(n) => if n < MAX_PAGE_SIZE {
            n
        } else {
            MAX_PAGE_SIZE
        },
    }
}

pub fn page_limit(requested: Option<i64>) -> (r: i64)
    ensures
        r == page_size(requested),
        r <= MAX_PAGE_SIZE,
{
    match requested {
        None => DEFAULT_PAGE_SIZE,
        Some(n) => if n < MAX_PAGE_SIZE {
            n
        } else {
            MAX_PAGE_SIZE
        },
    }
}

/// The cursor for the next page: the creation time of the last row when the
/// page came back full, otherwise none.
pub open spec fn next_page_cursor(created: Seq<i64>, limit: i64) -> Option<i64> {
    if created.len() > 0 && created.len() == limit {
        Some(created.last())
    } else {
        None
    }
}

pub fn next_cursor(created: &Vec<i64>, limit: i64) -> (r: Option<i64>)
    ensures
        r == next_page_cursor(created@, limit),
{
    let n = created.len();
    if n > 0 && limit > 0 && n as u64 == limit as u64 {
        Some(created[n - 1])
    } else {
        None
    }
}

} // verus!
