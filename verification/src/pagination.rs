//! How many events were requested so far, and in which order.

use vstd::prelude::*;

verus! {

/// The state of the endless list of events.
#[derive(Debug)]
pub struct PaginationState {
    /// The number of events requested so far.
    pub current_limit: usize,
    /// Whether a request for more events is under way.
    pub is_fetching_more: bool,
    /// The field by which requested events are ordered.
    pub order_by: String,
    /// Whether requested events come smallest first.
    pub ascending: bool,
}

impl PaginationState {
    pub fn new(order_by: String, ascending: bool, initial_limit: usize) -> (r: Self)
        ensures
            r.current_limit == initial_limit,
            !r.is_fetching_more,
            r.order_by == order_by,
            r.ascending == ascending,
    {
        PaginationState { current_limit: initial_limit, is_fetching_more: false, order_by, ascending }
    }
}

} // verus!
