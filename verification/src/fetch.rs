//! What the embedding reports back from the external iterator.

use vstd::prelude::*;

verus! {

/// What one poll of the pending fetch reported.
#[derive(Debug, PartialEq, Eq)]
pub enum Fetch<V> {
    /// The fetch has not resolved yet.
    NotReady,
    /// The fetch resolved with the terminal signal: there are no more
    /// elements.
    Done,
    /// The fetch resolved with an element.
    Item(V),
    /// The fetch resolved with a failure.
    Failed,
}

/// What asking the external iterator for its next element came to.
#[derive(Clone, Copy, Debug, PartialEq, Eq, Structural)]
pub enum Request {
    /// The request was issued and its fetch is now outstanding.
    Issued,
    /// The external iterator refused the request.
    Failed,
}

} // verus!
