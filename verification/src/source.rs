//! A model of a well-behaved external iterator, for stating what the
//! adapters do over a whole run.

use crate::fetch::Fetch;
use vstd::prelude::*;

verus! {

/// A well-behaved external iterator as an adapter sees it. It accepts every
/// request, yields `items` in order, one for each request, and answers every
/// request after the last item with the terminal signal. When a fetch
/// resolves is not up to the iterator: each poll of the fetch is told whether
/// it finds the fetch resolved.
pub struct Source<V> {
    /// The elements that the iterator has to give.
    pub items: Seq<V>,
    /// How many of them have been handed out.
    pub resolved: nat,
}

impl<V> Source<V> {
    /// The iterator before it has handed out anything.
    pub open spec fn fresh(items: Seq<V>) -> Source<V> {
        Source { items, resolved: 0 }
    }

    /// What a poll of the fetch reports.
    pub open spec fn answer(self, ready: bool) -> Fetch<V> {
        if !ready {
            Fetch::NotReady
        } else if self.resolved < self.items.len() {
            Fetch::Item(self.items[self.resolved as int])
        } else {
            Fetch::Done
        }
    }

    /// The iterator after a poll of the fetch.
    pub open spec fn after_answer(self, ready: bool) -> Source<V> {
        if ready && self.resolved < self.items.len() {
            Source { items: self.items, resolved: self.resolved + 1 }
        } else {
            self
        }
    }
}

} // verus!
