//! A reader driven against a well-behaved external iterator: which bytes it
//! delivers over a whole run.

use crate::async_read::{delivery, ReadError, ReadPhase, ReadStep, ReaderView};
use crate::element::{decoded, Element};
use crate::fetch::Request;
use crate::source::Source;
use vstd::prelude::*;

verus! {

/// A reader together with the external iterator that it reads from.
pub struct ReadSession {
    pub reader: ReaderView,
    pub source: Source<Element>,
}

/// One poll of a reader by the scheduler: whether it finds the fetch
/// resolved, and how many bytes the caller's buffer takes.
pub struct ReadPoll {
    pub ready: bool,
    pub capacity: usize,
}

/// The bytes of the first `count` elements of `items`: their chunks, one
/// after the other. An element that stands for no chunk adds nothing.
pub open spec fn chunks(items: Seq<Element>, count: nat) -> Seq<u8>
    decreases count,
{
    if count == 0 {
        Seq::empty()
    } else {
        chunks(items, (count - 1) as nat) + match decoded(items[count - 1]) {
            Ok(bytes) => bytes,
            Err(_) => Seq::empty(),
        }
    }
}

impl ReadSession {
    /// The session after the reader was constructed on a first request that
    /// the iterator accepted.
    pub open spec fn start(items: Seq<Element>) -> ReadSession {
        ReadSession {
            reader: ReaderView { buffered: Seq::empty(), phase: ReadPhase::Fetching },
            source: Source::fresh(items),
        }
    }

    /// The embedding does the piece of outside work that `step` asks for, if
    /// it asks for one, and reports to the reader.
    pub open spec fn act(self, step: ReadStep, ready: bool) -> (ReadSession, ReadStep) {
        match step {
            ReadStep::PollFetch => {
                let fetch = self.source.answer(ready);
                (
                    ReadSession {
                        reader: self.reader.after_fetched(fetch),
                        source: self.source.after_answer(ready),
                    },
                    self.reader.fetched_step(fetch),
                )
            },
            ReadStep::RequestNext => (
                ReadSession {
                    reader: self.reader.after_requested(Request::Issued),
                    source: self.source,
                },
                self.reader.requested_step(Request::Issued),
            ),
            _ => (self, step),
        }
    }

    /// The session once the reader has begun the poll.
    pub open spec fn polled(self, poll: ReadPoll) -> ReadSession {
        ReadSession { reader: self.reader.after_poll(poll.capacity as nat), source: self.source }
    }

    /// One poll of the reader by the scheduler: the reader begins the poll,
    /// and the embedding does up to two pieces of outside work for it.
    pub open spec fn poll(self, poll: ReadPoll) -> (ReadSession, ReadStep) {
        let first = self.polled(poll).act(self.reader.poll_step(poll.capacity as nat), poll.ready);
        first.0.act(first.1, poll.ready)
    }

    /// The bytes that the poll copies to the caller's buffer.
    pub open spec fn delivers(self, poll: ReadPoll) -> Seq<u8> {
        self.reader.buffered.take(delivery(self.reader.buffered, poll.capacity as nat) as int)
    }

    /// A run of polls, one for each entry of `schedule`. The result is the
    /// session after the run and all the bytes that the polls delivered, in
    /// order.
    pub open spec fn run(self, schedule: Seq<ReadPoll>) -> (ReadSession, Seq<u8>)
        decreases schedule.len(),
    {
        if schedule.len() == 0 {
            (self, Seq::empty())
        } else {
            let before = self.run(schedule.drop_last());
            (before.0.poll(schedule.last()).0, before.1 + before.0.delivers(schedule.last()))
        }
    }

    /// What holds of a session between two polls of a run, where `delivered`
    /// is what the run has delivered so far.
    pub open spec fn on_course(self, items: Seq<Element>, delivered: Seq<u8>) -> bool {
        &&& self.source.items == items
        &&& self.source.resolved <= items.len()
        &&& delivered + self.reader.buffered == chunks(items, self.source.resolved)
        &&& match self.reader.phase {
            ReadPhase::Fetching => {
                &&& forall|i: int| 0 <= i < self.source.resolved ==> decoded(items[i]) is Ok
            },
            ReadPhase::Done => {
                &&& self.source.resolved == items.len()
                &&& forall|i: int| 0 <= i < items.len() ==> decoded(items[i]) is Ok
            },
            ReadPhase::Failed(ReadError::Decode(error)) => {
                &&& self.reader.buffered.len() == 0
                &&& self.source.resolved > 0
                &&& decoded(items[self.source.resolved - 1]) == Err::<Seq<u8>, _>(error)
                &&& forall|i: int| 0 <= i < self.source.resolved - 1 ==> decoded(items[i]) is Ok
            },
            _ => false,
        }
    }
}

/// One poll keeps a session on course and ends without asking for more
/// outside work. While bytes are buffered it delivers from them and touches
/// nothing else. A drained reader delivers nothing, and reports the end of
/// the data only once every element has been decoded and delivered.
pub proof fn lemma_reader_poll_on_course(
    session: ReadSession,
    items: Seq<Element>,
    delivered: Seq<u8>,
    poll: ReadPoll,
)
    requires
        session.on_course(items, delivered),
    ensures
        session.poll(poll).0.on_course(items, delivered + session.delivers(poll)),
        session.reader.buffered.len() > 0 ==> {
            &&& session.poll(poll).1 == ReadStep::Ready(
                Ok(delivery(session.reader.buffered, poll.capacity as nat) as usize),
            )
            &&& session.poll(poll).0 == session.polled(poll)
        },
        session.reader.buffered.len() == 0 ==> {
            &&& session.delivers(poll).len() == 0
            &&& match session.poll(poll).1 {
                ReadStep::Ready(Ok(n)) => {
                    &&& n == 0
                    &&& session.poll(poll).0.reader.phase == ReadPhase::Done
                    &&& delivered == chunks(items, items.len())
                },
                ReadStep::Ready(Err(error)) => session.poll(poll).0.reader.phase
                    == ReadPhase::Failed(error),
                ReadStep::Pending => !poll.ready && session.poll(poll).0 == session,
                ReadStep::Repoll => poll.ready && session.reader.phase == ReadPhase::Fetching,
                _ => false,
            }
        },
{
    let buffered = session.reader.buffered;
    let n = delivery(buffered, poll.capacity as nat) as int;
    let out = session.delivers(poll);
    let after = session.poll(poll).0;
    let resolved = session.source.resolved;
    if buffered.len() > 0 {
        assert((delivered + out) + buffered.skip(n) =~= delivered + buffered);
    } else {
        assert(delivered + out =~= delivered);
        assert(delivered + buffered =~= delivered);
        assert(session.polled(poll).reader.buffered =~= buffered);
        assert(session.polled(poll) == session);
        if session.reader.phase == ReadPhase::Fetching && poll.ready && resolved < items.len() {
            match decoded(items[resolved as int]) {
                Ok(bytes) => {
                    assert(after.reader.buffered == bytes);
                    assert(chunks(items, resolved + 1) =~= delivered + bytes);
                },
                Err(_) => {
                    assert(chunks(items, resolved + 1) =~= delivered);
                },
            }
        }
    }
}

/// Every byte once. Over any run against an iterator that yields `items`
/// and then the terminal signal, the bytes delivered so far, followed by the
/// bytes that the reader still holds, are exactly the bytes of the elements
/// handed out so far: none is dropped, repeated or moved. The reader reports
/// the end of the data only when it has delivered the bytes of every element.
pub proof fn theorem_reader_delivers_every_byte_once(items: Seq<Element>, schedule: Seq<ReadPoll>)
    ensures
        ({
            let (session, delivered) = ReadSession::start(items).run(schedule);
            &&& session.on_course(items, delivered)
            &&& delivered + session.reader.buffered == chunks(items, session.source.resolved)
            &&& session.reader.terminal() && session.reader.phase == ReadPhase::Done ==> delivered
                == chunks(items, items.len())
        }),
    decreases schedule.len(),
{
    let start = ReadSession::start(items);
    if schedule.len() == 0 {
        assert(Seq::<u8>::empty() + start.reader.buffered =~= chunks(items, 0));
    } else {
        theorem_reader_delivers_every_byte_once(items, schedule.drop_last());
        let before = start.run(schedule.drop_last());
        lemma_reader_poll_on_course(before.0, items, before.1, schedule.last());
    }
    let reached = start.run(schedule);
    if reached.0.reader.terminal() {
        assert(reached.1 + reached.0.reader.buffered =~= reached.1);
    }
}

/// Idempotent termination. Once the reader is drained and has met the end
/// of the data or a failure, a poll leaves the reader and the iterator as
/// they are, so that no outside work is done, and completes with the same
/// result; and so does a run of any length, which delivers no byte.
pub proof fn theorem_reader_stays_terminal(
    session: ReadSession,
    schedule: Seq<ReadPoll>,
    poll: ReadPoll,
)
    requires
        session.reader.terminal(),
    ensures
        session.poll(poll) == (session, ReadStep::Ready(session.reader.terminal_result())),
        session.delivers(poll) == Seq::<u8>::empty(),
        session.run(schedule) == (session, Seq::<u8>::empty()),
    decreases schedule.len(),
{
    assert(session.reader.buffered.skip(0) =~= session.reader.buffered);
    assert(session.polled(poll) == session);
    assert(session.delivers(poll) =~= Seq::<u8>::empty());
    if schedule.len() > 0 {
        theorem_reader_stays_terminal(session, schedule.drop_last(), schedule.last());
        assert(Seq::<u8>::empty() + Seq::<u8>::empty() =~= Seq::<u8>::empty());
    }
}

} // verus!
