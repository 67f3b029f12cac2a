//! What is asked of the search service.

use crate::time::TimeRange;
use vstd::prelude::*;

verus! {

/// The order in which the service returns the records of a range.
#[derive(Clone, Copy, Debug, PartialEq, Eq, Hash, Structural)]
pub enum SortOrder {
    TimeAscending,
    TimeDescending,
}

/// One search: which logs, from which span of time, in which order, and how
/// many at most.
#[derive(Debug)]
pub struct SearchRequest {
    pub query: String,
    pub range: TimeRange,
    pub sort: SortOrder,
    pub limit: i32,
}

/// The contents of a [`SearchRequest`].
pub struct RequestModel {
    pub query: Seq<char>,
    pub range: TimeRange,
    pub sort: SortOrder,
    pub limit: i32,
}

impl View for SearchRequest {
    type V = RequestModel;

    open spec fn view(&self) -> RequestModel {
        RequestModel { query: self.query@, range: self.range, sort: self.sort, limit: self.limit }
    }
}

} // verus!
