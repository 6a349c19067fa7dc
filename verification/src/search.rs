//! The search and the filter of the events list.

use vstd::prelude::*;
use crate::market::Event;

verus! {

/// How the events list is narrowed.
#[derive(Debug, Clone, Copy, PartialEq, Eq, Structural)]
pub enum SearchMode {
    /// Not at all.
    Off,
    /// By a search that the service answers.
    ApiSearch,
    /// By a filter over the events that are listed.
    LocalFilter,
}

/// The query, and the results of the last search.
#[derive(Debug)]
pub struct SearchState {
    pub mode: SearchMode,
    pub query: String,
    pub results: Vec<Event>,
    /// Whether a search is under way.
    pub is_searching: bool,
    /// The query that the results belong to.
    pub last_searched_query: String,
}

impl SearchState {
    pub fn new() -> (r: Self)
        ensures
            r.mode == SearchMode::Off,
            r.query@ == Seq::<char>::empty(),
            r.results@ == Seq::<Event>::empty(),
            !r.is_searching,
            r.last_searched_query@ == Seq::<char>::empty(),
    {
        SearchState {
            mode: SearchMode::Off,
            query: String::new(),
            results: Vec::new(),
            is_searching: false,
            last_searched_query: String::new(),
        }
    }

    /// Whether a search or a filter is on.
    pub fn is_active(&self) -> (r: bool)
        ensures
            r == (self.mode != SearchMode::Off),
    {
        match self.mode {
            SearchMode::Off => false,
            _ => true,
        }
    }
}

} // verus!
