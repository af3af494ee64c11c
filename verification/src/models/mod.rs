//! Envelopes around the data of a response.

pub mod response;

use vstd::prelude::*;

verus! {

/// One page of a longer list.
#[derive(Debug)]
pub struct PaginatedResponse<T> {
    /// The items of this page.
    pub data: Vec<T>,
    /// The number of items in the whole list.
    pub total: u64,
    /// The number of this page.
    pub page: u32,
    /// The largest number of items that a page holds.
    pub per_page: u32,
}

impl<T> PaginatedResponse<T> {
    /// The invariant of a page: it holds no more items than a page may, and
    /// no more than the whole list has.
    pub open spec fn wf(&self) -> bool {
        self.data@.len() <= self.per_page && self.data@.len() <= self.total
    }

    /// A page with the given items and counts.
    pub fn new(data: Vec<T>, total: u64, page: u32, per_page: u32) -> (r: Self)
        requires
            data@.len() <= per_page,
            data@.len() <= total,
        ensures
            r.data == data,
            r.total == total,
            r.page == page,
            r.per_page == per_page,
            r.wf(),
    {
        Self { data, total, page, per_page }
    }
}

} // verus!
