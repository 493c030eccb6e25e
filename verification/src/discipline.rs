//! Turn-taking with an external iterator that may behave in any way: an
//! adapter never has a request made while the one before it is unresolved.

use crate::async_read::{ReadPhase, ReadStep, ReaderView};
use crate::element::Element;
use crate::fetch::{Fetch, Request};
use crate::stream::{StreamState, StreamStep};
use vstd::prelude::*;

verus! {

/// What the external iterator answers to the outside work of one poll: what
/// a poll of the fetch reports, should the adapter ask for one, and what a
/// request comes to, should the adapter ask for one. Nothing is assumed of
/// either.
pub struct Replies<V> {
    pub fetch: Fetch<V>,
    pub request: Request,
}

/// A stream, and whether the external iterator has a request of it that is
/// unresolved.
pub struct WatchedStream<T> {
    pub stream: StreamState<T>,
    pub outstanding: bool,
}

impl<T> WatchedStream<T> {
    /// A stream that was constructed on a first request that the iterator
    /// accepted.
    pub open spec fn start() -> WatchedStream<T> {
        WatchedStream { stream: StreamState::Fetching, outstanding: true }
    }

    /// The embedding does the piece of outside work that `step` asks for, if
    /// it asks for one, and reports to the stream. A fetch that resolves is
    /// outstanding no more; a request that the iterator accepts is.
    pub open spec fn act(self, step: StreamStep<T>, replies: Replies<Option<T>>) -> (
        WatchedStream<T>,
        StreamStep<T>,
    ) {
        match step {
            StreamStep::PollFetch => (
                WatchedStream {
                    stream: self.stream.after_fetched(replies.fetch),
                    outstanding: self.outstanding && replies.fetch is NotReady,
                },
                self.stream.fetched_step(replies.fetch),
            ),
            StreamStep::RequestNext => (
                WatchedStream {
                    stream: self.stream.after_requested(replies.request),
                    outstanding: self.outstanding || replies.request == Request::Issued,
                },
                self.stream.requested_step(replies.request),
            ),
            _ => (self, step),
        }
    }

    /// The piece of outside work that `step` asks for is in turn: a fetch is
    /// polled only while a request is unresolved, and a request is made only
    /// while none is.
    pub open spec fn in_turn(self, step: StreamStep<T>) -> bool {
        match step {
            StreamStep::PollFetch => self.outstanding,
            StreamStep::RequestNext => !self.outstanding,
            _ => true,
        }
    }

    /// One poll of the stream by the scheduler: the embedding asks the stream
    /// what it is waiting for and does up to two pieces of outside work.
    pub open spec fn poll(self, replies: Replies<Option<T>>) -> (WatchedStream<T>, StreamStep<T>) {
        let first = self.act(self.stream.demand(), replies);
        first.0.act(first.1, replies)
    }

    /// All the outside work of one poll is in turn.
    pub open spec fn poll_in_turn(self, replies: Replies<Option<T>>) -> bool {
        let first = self.act(self.stream.demand(), replies);
        self.in_turn(self.stream.demand()) && first.0.in_turn(first.1)
    }

    /// A run of polls, one for each entry of `schedule`.
    pub open spec fn run(self, schedule: Seq<Replies<Option<T>>>) -> WatchedStream<T>
        decreases schedule.len(),
    {
        if schedule.len() == 0 {
            self
        } else {
            self.run(schedule.drop_last()).poll(schedule.last()).0
        }
    }

    /// Between two polls, the stream takes a request for unresolved exactly
    /// when one is, and owes the iterator no request.
    pub open spec fn settled(self) -> bool {
        &&& self.stream is Fetching <==> self.outstanding
        &&& !(self.stream is Requesting)
    }
}

/// One poll of a settled stream does its outside work in turn, ends without
/// asking for more, and leaves the stream settled.
pub proof fn lemma_stream_poll_in_turn<T>(watched: WatchedStream<T>, replies: Replies<Option<T>>)
    requires
        watched.settled(),
    ensures
        watched.poll_in_turn(replies),
        watched.poll(replies).0.settled(),
        watched.poll(replies).1 is Ready || watched.poll(replies).1 is Pending,
{
}

/// One request at a time. Whatever the external iterator answers, and for as
/// long as the stream is polled, the stream has a request made only while
/// none is unresolved, and has the fetch polled only while one is.
pub proof fn theorem_stream_one_request_at_a_time<T>(
    schedule: Seq<Replies<Option<T>>>,
    replies: Replies<Option<T>>,
)
    ensures
        WatchedStream::<T>::start().run(schedule).settled(),
        WatchedStream::<T>::start().run(schedule).poll_in_turn(replies),
    decreases schedule.len(),
{
    let start = WatchedStream::<T>::start();
    if schedule.len() > 0 {
        theorem_stream_one_request_at_a_time(schedule.drop_last(), schedule.last());
        lemma_stream_poll_in_turn(start.run(schedule.drop_last()), schedule.last());
    }
    lemma_stream_poll_in_turn(start.run(schedule), replies);
}

/// A reader, and whether the external iterator has a request of it that is
/// unresolved.
pub struct WatchedReader {
    pub reader: ReaderView,
    pub outstanding: bool,
}

impl WatchedReader {
    /// A reader that was constructed on a first request that the iterator
    /// accepted.
    pub open spec fn start() -> WatchedReader {
        WatchedReader {
            reader: ReaderView { buffered: Seq::empty(), phase: ReadPhase::Fetching },
            outstanding: true,
        }
    }

    /// The embedding does the piece of outside work that `step` asks for, if
    /// it asks for one, and reports to the reader. A fetch that resolves is
    /// outstanding no more; a request that the iterator accepts is.
    pub open spec fn act(self, step: ReadStep, replies: Replies<Element>) -> (
        WatchedReader,
        ReadStep,
    ) {
        match step {
            ReadStep::PollFetch => (
                WatchedReader {
                    reader: self.reader.after_fetched(replies.fetch),
                    outstanding: self.outstanding && replies.fetch is NotReady,
                },
                self.reader.fetched_step(replies.fetch),
            ),
            ReadStep::RequestNext => (
                WatchedReader {
                    reader: self.reader.after_requested(replies.request),
                    outstanding: self.outstanding || replies.request == Request::Issued,
                },
                self.reader.requested_step(replies.request),
            ),
            _ => (self, step),
        }
    }

    /// The piece of outside work that `step` asks for is in turn: a fetch is
    /// polled only while a request is unresolved, and a request is made only
    /// while none is.
    pub open spec fn in_turn(self, step: ReadStep) -> bool {
        match step {
            ReadStep::PollFetch => self.outstanding,
            ReadStep::RequestNext => !self.outstanding,
            _ => true,
        }
    }

    /// The reader once it has begun a poll with a caller's buffer of
    /// `capacity` bytes.
    pub open spec fn polled(self, capacity: nat) -> WatchedReader {
        WatchedReader { reader: self.reader.after_poll(capacity), outstanding: self.outstanding }
    }

    /// One poll of the reader by the scheduler: the reader begins the poll,
    /// and the embedding does up to two pieces of outside work for it.
    pub open spec fn poll(self, capacity: nat, replies: Replies<Element>) -> (
        WatchedReader,
        ReadStep,
    ) {
        let first = self.polled(capacity).act(self.reader.poll_step(capacity), replies);
        first.0.act(first.1, replies)
    }

    /// All the outside work of one poll is in turn.
    pub open spec fn poll_in_turn(self, capacity: nat, replies: Replies<Element>) -> bool {
        let step = self.reader.poll_step(capacity);
        let first = self.polled(capacity).act(step, replies);
        self.polled(capacity).in_turn(step) && first.0.in_turn(first.1)
    }

    /// A run of polls, one for each entry of `schedule`, which gives the
    /// capacity of the caller's buffer and the iterator's answers.
    pub open spec fn run(self, schedule: Seq<(nat, Replies<Element>)>) -> WatchedReader
        decreases schedule.len(),
    {
        if schedule.len() == 0 {
            self
        } else {
            self.run(schedule.drop_last()).poll(schedule.last().0, schedule.last().1).0
        }
    }

    /// Between two polls, the reader takes a request for unresolved exactly
    /// when one is, and owes the iterator no request.
    pub open spec fn settled(self) -> bool {
        &&& self.reader.phase == ReadPhase::Fetching <==> self.outstanding
        &&& self.reader.phase != ReadPhase::Requesting
    }
}

/// One poll of a settled reader does its outside work in turn, ends without
/// asking for more, and leaves the reader settled.
pub proof fn lemma_reader_poll_in_turn(
    watched: WatchedReader,
    capacity: nat,
    replies: Replies<Element>,
)
    requires
        watched.settled(),
    ensures
        watched.poll_in_turn(capacity, replies),
        watched.poll(capacity, replies).0.settled(),
        watched.poll(capacity, replies).1 is Ready || watched.poll(capacity, replies).1 is Pending
            || watched.poll(capacity, replies).1 is Repoll,
{
}

/// One request at a time. Whatever the external iterator answers, and for as
/// long as the reader is polled, the reader has a request made only while
/// none is unresolved, and has the fetch polled only while one is.
pub proof fn theorem_reader_one_request_at_a_time(
    schedule: Seq<(nat, Replies<Element>)>,
    capacity: nat,
    replies: Replies<Element>,
)
    ensures
        WatchedReader::start().run(schedule).settled(),
        WatchedReader::start().run(schedule).poll_in_turn(capacity, replies),
    decreases schedule.len(),
{
    let start = WatchedReader::start();
    if schedule.len() > 0 {
        theorem_reader_one_request_at_a_time(
            schedule.drop_last(),
            schedule.last().0,
            schedule.last().1,
        );
        lemma_reader_poll_in_turn(
            start.run(schedule.drop_last()),
            schedule.last().0,
            schedule.last().1,
        );
    }
    lemma_reader_poll_in_turn(start.run(schedule), capacity, replies);
}

} // verus!
