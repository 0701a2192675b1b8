use std::collections::HashMap;
use vstd::prelude::*;

verus! {

/// A link to a resource, canonical or alternate.
#[derive(Debug)]
pub struct Link {
    pub href: String,
}

/// The summary block of a feed item.
#[derive(Debug)]
pub struct Summary {
    pub content: Option<String>,
    pub author: Option<String>,
}

/// A feed item: an immutable snapshot of server state at fetch time.
#[derive(Debug)]
pub struct Item {
    pub id: String,
    pub crawl_time_msec: Option<String>,
    pub timestamp_usec: Option<String>,
    pub updated: Option<usize>,
    pub published: Option<usize>,
    pub title: String,
    pub canonical: Vec<Link>,
    pub alternate: Vec<Link>,
    pub categories: Vec<String>,
    pub origin: HashMap<String, String>,
    pub summary: Summary,
}

/// One page of the unread reading list. `continuation`, when present, is the
/// opaque cursor with which the next page is requested; its absence signals
/// that the unread set is exhausted.
#[derive(Debug)]
pub struct Response {
    pub id: String,
    pub items: Vec<Item>,
    pub updated: usize,
    pub continuation: Option<String>,
}

impl Response {
    /// A page without a continuation cursor is the last one: the caller
    /// stops paging exactly when this returns true.
    pub fn is_last_page(&self) -> (r: bool)
        ensures
            r <==> self.continuation is None,
    {
        self.continuation.is_none()
    }
}

} // verus!
