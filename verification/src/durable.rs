//! Options of a listing of durable object storage.

use vstd::prelude::*;

verus! {

/// Options of a storage listing; unset options are left out of the request.
#[derive(Debug, Clone, Copy)]
pub struct ListOptions<'a> {
    pub start: Option<&'a str>,
    pub end: Option<&'a str>,
    pub prefix: Option<&'a str>,
    pub reverse: Option<bool>,
    pub limit: Option<usize>,
}

impl<'a> ListOptions<'a> {
    /// Options with nothing set.
    pub fn new() -> (o: Self)
        ensures
            o.start is None && o.end is None && o.prefix is None,
            o.reverse is None && o.limit is None,
    {
        ListOptions { start: None, end: None, prefix: None, reverse: None, limit: None }
    }

    /// The key to start listing from (inclusive).
    pub fn start(self, val: &'a str) -> (o: Self)
        ensures
            o == (ListOptions { start: Some(val), ..self }),
    {
        ListOptions { start: Some(val), ..self }
    }

    /// The key to stop listing at (exclusive).
    pub fn end(self, val: &'a str) -> (o: Self)
        ensures
            o == (ListOptions { end: Some(val), ..self }),
    {
        ListOptions { end: Some(val), ..self }
    }

    /// Restricts the listing to keys starting with `val`.
    pub fn prefix(self, val: &'a str) -> (o: Self)
        ensures
            o == (ListOptions { prefix: Some(val), ..self }),
    {
        ListOptions { prefix: Some(val), ..self }
    }

    /// Lists in descending order.
    pub fn reverse(self, val: bool) -> (o: Self)
        ensures
            o == (ListOptions { reverse: Some(val), ..self }),
    {
        ListOptions { reverse: Some(val), ..self }
    }

    /// The maximum number of entries listed.
    pub fn limit(self, val: usize) -> (o: Self)
        ensures
            o == (ListOptions { limit: Some(val), ..self }),
    {
        ListOptions { limit: Some(val), ..self }
    }
}

} // verus!
