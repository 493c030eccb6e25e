//! A stream driven against a well-behaved external iterator: what it yields
//! over a whole run.

use crate::fetch::{Fetch, Request};
use crate::source::Source;
use crate::stream::{StreamError, StreamState, StreamStep};
use vstd::prelude::*;

verus! {

/// A stream together with the external iterator that it reads from.
pub struct StreamSession<T> {
    pub stream: StreamState<T>,
    pub source: Source<T>,
}

/// The report of a fetch whose element, if it has one, is of the item type.
pub open spec fn typed<T>(fetch: Fetch<T>) -> Fetch<Option<T>> {
    match fetch {
        Fetch::NotReady => Fetch::NotReady,
        Fetch::Done => Fetch::Done,
        Fetch::Failed => Fetch::Failed,
        Fetch::Item(item) => Fetch::Item(Some(item)),
    }
}

/// What the `index`-th completed poll of a stream over `items` yields: the
/// items in order, and the end of the stream ever after.
pub open spec fn expected<T>(items: Seq<T>, index: int) -> Option<Result<T, StreamError>> {
    if 0 <= index < items.len() {
        Some(Ok(items[index]))
    } else {
        None
    }
}

impl<T> StreamSession<T> {
    /// The session after the stream was constructed on a first request that
    /// the iterator accepted.
    pub open spec fn start(items: Seq<T>) -> StreamSession<T> {
        StreamSession { stream: StreamState::Fetching, source: Source::fresh(items) }
    }

    /// The embedding does the piece of outside work that `step` asks for, if
    /// it asks for one, and reports to the stream.
    pub open spec fn act(self, step: StreamStep<T>, ready: bool) -> (
        StreamSession<T>,
        StreamStep<T>,
    ) {
        match step {
            StreamStep::PollFetch => {
                let fetch = typed(self.source.answer(ready));
                (
                    StreamSession {
                        stream: self.stream.after_fetched(fetch),
                        source: self.source.after_answer(ready),
                    },
                    self.stream.fetched_step(fetch),
                )
            },
            StreamStep::RequestNext => (
                StreamSession {
                    stream: self.stream.after_requested(Request::Issued),
                    source: self.source,
                },
                self.stream.requested_step(Request::Issued),
            ),
            _ => (self, step),
        }
    }

    /// One poll of the stream by the scheduler: the embedding asks the stream
    /// what it is waiting for and does up to two pieces of outside work.
    pub open spec fn poll(self, ready: bool) -> (StreamSession<T>, StreamStep<T>) {
        let first = self.act(self.stream.demand(), ready);
        first.0.act(first.1, ready)
    }

    /// A run of polls, one for each entry of `schedule`, which says whether
    /// that poll finds the fetch resolved. The result is the session after
    /// the run and what the completed polls yielded, in order.
    pub open spec fn run(self, schedule: Seq<bool>) -> (
        StreamSession<T>,
        Seq<Option<Result<T, StreamError>>>,
    )
        decreases schedule.len(),
    {
        if schedule.len() == 0 {
            (self, Seq::empty())
        } else {
            let before = self.run(schedule.drop_last());
            let polled = before.0.poll(schedule.last());
            (
                polled.0,
                match polled.1 {
                    StreamStep::Ready(result) => before.1.push(result),
                    _ => before.1,
                },
            )
        }
    }

    /// What holds of a session between two polls of a run, where `yielded`
    /// is what the run has yielded so far.
    pub open spec fn on_course(
        self,
        items: Seq<T>,
        yielded: Seq<Option<Result<T, StreamError>>>,
    ) -> bool {
        &&& self.source.items == items
        &&& forall|i: int| 0 <= i < yielded.len() ==> yielded[i] == expected(items, i)
        &&& match self.stream {
            StreamState::Fetching => {
                &&& self.source.resolved == yielded.len()
                &&& self.source.resolved <= items.len()
            },
            StreamState::Done => {
                &&& self.source.resolved == items.len()
                &&& yielded.len() > items.len()
            },
            _ => false,
        }
    }
}

/// One poll keeps a session on course. It ends without asking for more
/// outside work, and a poll that finds the fetch resolved, or the stream at
/// its end, yields exactly the next in order.
pub proof fn lemma_stream_poll_on_course<T>(
    session: StreamSession<T>,
    items: Seq<T>,
    yielded: Seq<Option<Result<T, StreamError>>>,
    ready: bool,
)
    requires
        session.on_course(items, yielded),
    ensures
        match session.poll(ready).1 {
            StreamStep::Ready(result) => {
                &&& result == expected(items, yielded.len() as int)
                &&& session.poll(ready).0.on_course(items, yielded.push(result))
                &&& ready || session.stream is Done
            },
            StreamStep::Pending => {
                &&& session.poll(ready).0 == session
                &&& !ready
                &&& session.stream is Fetching
            },
            _ => false,
        },
{
    let first = session.act(session.stream.demand(), ready);
    let second = first.0.act(first.1, ready);
    match second.1 {
        StreamStep::Ready(result) => {
            let after = yielded.push(result);
            assert forall|i: int| 0 <= i < after.len() implies after[i] == expected(items, i) by {
                if i < yielded.len() {
                    assert(after[i] == yielded[i]);
                }
            }
        },
        _ => {},
    }
}

/// Ordering. Over any run against an iterator that yields `items` and then
/// the terminal signal, the completed polls yield exactly the items, in
/// order, and after them the end of the stream, for as long as the stream is
/// polled. No poll that finds the fetch resolved goes without a result: the
/// next such poll yields the next in order.
pub proof fn theorem_stream_yields_in_order<T>(items: Seq<T>, schedule: Seq<bool>)
    ensures
        ({
            let (session, yielded) = StreamSession::start(items).run(schedule);
            &&& session.on_course(items, yielded)
            &&& forall|i: int| 0 <= i < yielded.len() ==> yielded[i] == expected(items, i)
            &&& session.poll(true).1 == StreamStep::Ready(expected(items, yielded.len() as int))
        }),
    decreases schedule.len(),
{
    let start = StreamSession::start(items);
    if schedule.len() == 0 {
        assert(start.on_course(items, Seq::empty()));
        lemma_stream_poll_on_course(start, items, Seq::empty(), true);
    } else {
        theorem_stream_yields_in_order(items, schedule.drop_last());
        let before = start.run(schedule.drop_last());
        lemma_stream_poll_on_course(before.0, items, before.1, schedule.last());
        let after = start.run(schedule);
        lemma_stream_poll_on_course(after.0, items, after.1, true);
    }
}

/// Idempotent termination. Once the stream has ended or failed, a run of
/// any length leaves the stream and the iterator as they are, so that no
/// outside work is done, and every poll of it yields the same result.
pub proof fn theorem_stream_stays_terminal<T>(session: StreamSession<T>, schedule: Seq<bool>)
    requires
        session.stream.terminal(),
    ensures
        session.run(schedule).0 == session,
        session.run(schedule).1 == Seq::new(
            schedule.len(),
            |i: int| session.stream.terminal_result(),
        ),
    decreases schedule.len(),
{
    if schedule.len() == 0 {
        assert(session.run(schedule).1 =~= Seq::new(
            0,
            |i: int| session.stream.terminal_result(),
        ));
    } else {
        theorem_stream_stays_terminal(session, schedule.drop_last());
        assert(session.run(schedule).1 =~= Seq::new(
            schedule.len(),
            |i: int| session.stream.terminal_result(),
        ));
    }
}

} // verus!
