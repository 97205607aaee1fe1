//! The watchlist service's single call, which answers every request with a
//! fixed task.

use vstd::prelude::*;
use vstd::string::*;

verus! {

/// The request of `fetch_watchlist`; it carries nothing.
pub struct FetchWatchlistInput {}

/// A task as the service reports it.
#[derive(Debug, Clone, PartialEq, Eq)]
pub struct TaskMessage {
    pub id: String,
}

pub struct FetchWatchlistOutput {
    pub tasks: Option<TaskMessage>,
}

#[derive(Default)]
pub struct ImplTaskService {}

impl ImplTaskService {
    /// Answers with the fixed task `wat`, whatever the request.
    pub fn fetch_watchlist(&self, request: &FetchWatchlistInput) -> (r: FetchWatchlistOutput)
        ensures
            r.tasks matches Some(t) && t.id@ == "wat"@,
    {
        FetchWatchlistOutput { tasks: Some(TaskMessage { id: String::from_str("wat") }) }
    }
}

/// The service.
pub fn new() -> (r: ImplTaskService) {
    ImplTaskService {}
}

} // verus!
