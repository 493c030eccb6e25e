//! The typed item stream over an external iterator.
//!
//! A poll goes through up to three calls. [`JsStream::poll_next`] begins it.
//! The embedding then polls the outstanding fetch and reports with
//! [`JsStream::fetched`]; where the fetch resolved with an item, the stream
//! has the next element requested at once, which the embedding reports with
//! [`JsStream::requested`], and the item is the result of that same poll.
//!
//! Two things are settled here that could be had otherwise:
//!
//! - The end of the sequence and every failure are terminal: each later poll
//!   completes with the same result, and the iterator is not touched again.
//!   That holds of an element that is not of the item type too: the stream
//!   does not skip it and go on.
//! - A request that the iterator refuses does not take away the item that was
//!   just fetched. The item is handed out, and the failure shows with the
//!   next poll.

use crate::fetch::{Fetch, Request};
use vstd::prelude::*;

verus! {

/// Why the stream failed.
#[derive(Clone, Copy, Debug, PartialEq, Eq, Structural)]
pub enum StreamError {
    /// The external iterator refused a request, or a fetch resolved with a
    /// failure.
    Protocol,
    /// A yielded element is not of the item type.
    TypeMismatch,
}

/// Where the stream stands with the external iterator. This is also the
/// mathematical content of a [`JsStream`].
#[derive(Debug)]
pub enum StreamState<T> {
    /// One fetch is outstanding.
    Fetching,
    /// The last fetch resolved with this item, which is yet to be handed
    /// out, and the request for the next one is due. No fetch is outstanding.
    Requesting(T),
    /// The external iterator reported the end of its sequence.
    Done,
    /// The stream failed and will not touch the external iterator again.
    Failed(StreamError),
}

/// What the embedding does next on behalf of the stream.
#[derive(Debug, PartialEq, Eq)]
pub enum StreamStep<T> {
    /// Complete the poll with this result: an item, a failure, or the end of
    /// the stream.
    Ready(Option<Result<T, StreamError>>),
    /// Complete the poll as not ready. The outstanding fetch wakes the task.
    Pending,
    /// Poll the outstanding fetch and report with [`JsStream::fetched`].
    PollFetch,
    /// Ask the external iterator for its next element and report with
    /// [`JsStream::requested`].
    RequestNext,
}

impl<T> StreamState<T> {
    /// The stream will never again ask for outside work, nor yield an item.
    pub open spec fn terminal(self) -> bool {
        self is Done || self is Failed
    }

    /// The result of every poll of a stream that has ended or failed.
    pub open spec fn terminal_result(self) -> Option<Result<T, StreamError>> {
        match self {
            StreamState::Failed(error) => Some(Err(error)),
            _ => None,
        }
    }

    /// What the stream is waiting for.
    pub open spec fn demand(self) -> StreamStep<T> {
        match self {
            StreamState::Fetching => StreamStep::PollFetch,
            StreamState::Requesting(_) => StreamStep::RequestNext,
            StreamState::Done => StreamStep::Ready(None),
            StreamState::Failed(error) => StreamStep::Ready(Some(Err(error))),
        }
    }

    /// The stream after a report of the outstanding fetch. An item is `Some`
    /// where the yielded value is of the item type.
    pub open spec fn after_fetched(self, fetch: Fetch<Option<T>>) -> StreamState<T> {
        if !(self is Fetching) {
            self
        } else {
            match fetch {
                Fetch::NotReady => self,
                Fetch::Done => StreamState::Done,
                Fetch::Failed => StreamState::Failed(StreamError::Protocol),
                Fetch::Item(Some(item)) => StreamState::Requesting(item),
                Fetch::Item(None) => StreamState::Failed(StreamError::TypeMismatch),
            }
        }
    }

    /// The answer to a report of the outstanding fetch.
    pub open spec fn fetched_step(self, fetch: Fetch<Option<T>>) -> StreamStep<T> {
        if self is Fetching && fetch is NotReady {
            StreamStep::Pending
        } else {
            self.after_fetched(fetch).demand()
        }
    }

    /// The stream after a report of a request.
    pub open spec fn after_requested(self, outcome: Request) -> StreamState<T> {
        match self {
            StreamState::Requesting(_) => match outcome {
                Request::Issued => StreamState::Fetching,
                Request::Failed => StreamState::Failed(StreamError::Protocol),
            },
            _ => self,
        }
    }

    /// The answer to a report of a request: the item that was held back, and
    /// that whatever the request came to.
    pub open spec fn requested_step(self, outcome: Request) -> StreamStep<T> {
        match self {
            StreamState::Requesting(item) => StreamStep::Ready(Some(Ok(item))),
            _ => self.demand(),
        }
    }
}

/// Idempotent termination. A stream that has ended or failed stays as it
/// is whatever is reported to it, and answers every call with the same
/// result: the end of the stream, or the failure it met. It never asks for
/// outside work again.
pub proof fn lemma_terminal_stream_is_inert<T>(
    state: StreamState<T>,
    fetch: Fetch<Option<T>>,
    outcome: Request,
)
    requires
        state.terminal(),
    ensures
        state.demand() == StreamStep::Ready(state.terminal_result()),
        state.after_fetched(fetch) == state,
        state.fetched_step(fetch) == state.demand(),
        state.after_requested(outcome) == state,
        state.requested_step(outcome) == state.demand(),
{
}

/// A failure is terminal. Whenever the stream answers a report with a
/// failure, it has failed for good: a fetch that resolved with a failure
/// and an element that is not of the item type both end the stream, and no
/// request follows either.
pub proof fn lemma_stream_failure_is_terminal<T>(state: StreamState<T>, fetch: Fetch<Option<T>>)
    ensures
        state.fetched_step(fetch) matches StreamStep::Ready(Some(Err(error)))
            ==> state.after_fetched(fetch) == StreamState::<T>::Failed(error),
        state is Fetching && fetch == Fetch::<Option<T>>::Item(None) ==> state.fetched_step(fetch)
            == StreamStep::<T>::Ready(Some(Err(StreamError::TypeMismatch))),
        state is Fetching && fetch is Failed ==> state.fetched_step(fetch) == StreamStep::<
            T,
        >::Ready(Some(Err(StreamError::Protocol))),
{
}

/// Outside work goes by the phase. The stream asks for a poll of the fetch
/// only while a fetch is outstanding, and for a request only while none is:
/// the fetch before it has resolved with an item, which the stream holds.
/// A fetch becomes outstanding only by a request that the stream asked for.
pub proof fn lemma_stream_work_follows_phase<T>(
    state: StreamState<T>,
    fetch: Fetch<Option<T>>,
    outcome: Request,
)
    ensures
        state.demand() is PollFetch <==> state is Fetching,
        state.demand() is RequestNext <==> state is Requesting,
        state.fetched_step(fetch) is PollFetch ==> state.after_fetched(fetch) is Fetching,
        state.fetched_step(fetch) is RequestNext ==> state.after_fetched(fetch) is Requesting,
        state.requested_step(outcome) is PollFetch ==> state.after_requested(outcome) is Fetching,
        state.requested_step(outcome) is RequestNext ==> state.after_requested(outcome) is Requesting,
        state.after_fetched(fetch) is Fetching ==> state is Fetching,
        state.after_requested(outcome) is Fetching ==> state is Fetching || (state is Requesting
            && outcome == Request::Issued),
{
}

/// A stream of typed items over an external iterator.
///
/// The stream buffers nothing but the one item it is about to hand out, and
/// keeps at most one fetch outstanding. It performs no outside work: each
/// method answers with a [`StreamStep`] that tells the embedding what to do.
pub struct JsStream<T> {
    state: StreamState<T>,
}

impl<T> View for JsStream<T> {
    type V = StreamState<T>;

    closed spec fn view(&self) -> StreamState<T> {
        self.state
    }
}

impl<T> JsStream<T> {
    /// Starts a stream, given what the first request to the external iterator
    /// came to. A refused request is a failure of the construction.
    pub fn new(first: Request) -> (stream: Result<JsStream<T>, StreamError>)
        ensures
            first == Request::Issued ==> stream is Ok && stream->Ok_0@ == StreamState::<
                T,
            >::Fetching,
            first == Request::Failed ==> stream is Err && stream->Err_0 == StreamError::Protocol,
    {
        match first {
            Request::Issued => Ok(JsStream { state: StreamState::Fetching }),
            Request::Failed => Err(StreamError::Protocol),
        }
    }

    /// Begins a poll: answers with what the stream is waiting for, which for
    /// a stream that has ended or failed is the result of the poll.
    pub fn poll_next(&self) -> (step: StreamStep<T>)
        ensures
            step == self@.demand(),
    {
        match &self.state {
            StreamState::Fetching => StreamStep::PollFetch,
            StreamState::Requesting(_) => StreamStep::RequestNext,
            StreamState::Done => StreamStep::Ready(None),
            StreamState::Failed(error) => StreamStep::Ready(Some(Err(*error))),
        }
    }

    /// Takes the report of a poll of the outstanding fetch, in which an
    /// element is `Some` where the yielded value is of the item type and
    /// `None` where it is not. In turn only while a fetch is outstanding; out
    /// of turn the report is dropped and the stream says again what it is
    /// waiting for.
    pub fn fetched(&mut self, fetch: Fetch<Option<T>>) -> (step: StreamStep<T>)
        ensures
            final(self)@ == old(self)@.after_fetched(fetch),
            step == old(self)@.fetched_step(fetch),
    {
        match &self.state {
            StreamState::Fetching => {},
            _ => {
                return self.poll_next();
            },
        }
        match fetch {
            Fetch::NotReady => StreamStep::Pending,
            Fetch::Done => {
                self.state = StreamState::Done;
                StreamStep::Ready(None)
            },
            Fetch::Failed => {
                self.state = StreamState::Failed(StreamError::Protocol);
                StreamStep::Ready(Some(Err(StreamError::Protocol)))
            },
            Fetch::Item(Some(item)) => {
                self.state = StreamState::Requesting(item);
                StreamStep::RequestNext
            },
            Fetch::Item(None) => {
                self.state = StreamState::Failed(StreamError::TypeMismatch);
                StreamStep::Ready(Some(Err(StreamError::TypeMismatch)))
            },
        }
    }

    /// Takes the report of the request that the stream asked for and hands
    /// out the item that was held back. In turn only while that request is
    /// due; out of turn the report is dropped.
    pub fn requested(&mut self, outcome: Request) -> (step: StreamStep<T>)
        ensures
            final(self)@ == old(self)@.after_requested(outcome),
            step == old(self)@.requested_step(outcome),
    {
        let mut previous = match outcome {
            Request::Issued => StreamState::Fetching,
            Request::Failed => StreamState::Failed(StreamError::Protocol),
        };
        core::mem::swap(&mut self.state, &mut previous);
        match previous {
            StreamState::Requesting(item) => StreamStep::Ready(Some(Ok(item))),
            other => {
                self.state = other;
                self.poll_next()
            },
        }
    }
}

} // verus!
