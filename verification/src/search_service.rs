//! The search collaborator, as the router sees it.

use vstd::prelude::*;

verus! {

/// One result of a search: read by the router, never cached on its own.
#[derive(Debug, Clone)]
pub struct SearchResult {
    pub title: String,
    pub url: String,
    pub snippet: String,
}

/// A search that failed upstream.
#[derive(Debug, Clone)]
pub struct SearchError {
    pub message: String,
}

/// The search that is built in: it knows no sources, so that every query
/// succeeds with no results.
#[derive(Debug, Clone, Copy)]
pub struct SearchService;

impl SearchService {
    pub fn new() -> (service: SearchService) {
        SearchService
    }

    /// Searches for `query`.
    pub fn search(&self, query: &str) -> (results: Result<Vec<SearchResult>, SearchError>)
        ensures
            results matches Ok(list) && list@.len() == 0,
    {
        Ok(Vec::new())
    }
}

} // verus!
