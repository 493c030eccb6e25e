//! The buffered byte reader over an external iterator.
//!
//! A poll goes through up to three calls. [`JsAsyncRead::poll_read`] begins
//! it: while bytes of the current chunk are buffered it delivers from them,
//! and only a drained reader turns to the iterator. The embedding then polls
//! the outstanding fetch and reports with [`JsAsyncRead::fetched`]; where the
//! fetch resolved with an element that decodes, the reader buffers its bytes
//! and has the next element requested at once, which the embedding reports
//! with [`JsAsyncRead::requested`].
//!
//! Three things are settled here that could be had otherwise:
//!
//! - The poll that buffers a chunk does not deliver from it. It completes as
//!   not ready and has the task woken at once ([`ReadStep::Repoll`]), so that
//!   the very next poll delivers. The reader does not wait for the scheduler
//!   to come back by itself.
//! - The end of the data and every failure are terminal: each later poll
//!   completes with the same result, and the iterator is not touched again.
//! - A request that the iterator refuses does not take away the chunk that
//!   was just buffered. The failure shows once those bytes are delivered.

use crate::buffer::put_slice;
use crate::cursor::ChunkCursor;
use crate::element::{decode, decoded, DecodeError, Element};
use crate::fetch::{Fetch, Request};
use vstd::prelude::*;
use vstd::slice::slice_subrange;

verus! {

/// Why a read failed.
#[derive(Clone, Copy, Debug, PartialEq, Eq, Structural)]
pub enum ReadError {
    /// The external iterator refused a request, or a fetch resolved with a
    /// failure.
    Protocol,
    /// A yielded element could not be turned into bytes.
    Decode(DecodeError),
}

/// Where the reader stands with the external iterator.
#[derive(Clone, Copy, Debug, PartialEq, Eq, Structural)]
pub enum ReadPhase {
    /// One fetch is outstanding.
    Fetching,
    /// The last fetch resolved with an element and the request for the next
    /// one is due. No fetch is outstanding.
    Requesting,
    /// The external iterator reported the end of its sequence.
    Done,
    /// The reader failed and will not touch the external iterator again.
    Failed(ReadError),
}

/// What the embedding does next on behalf of the reader.
#[derive(Clone, Copy, Debug, PartialEq, Eq)]
pub enum ReadStep {
    /// Complete the poll with this result. `Ok(n)` says that `n` bytes were
    /// copied to the front of the caller's buffer.
    Ready(Result<usize, ReadError>),
    /// Complete the poll as not ready. The outstanding fetch wakes the task.
    Pending,
    /// Complete the poll as not ready and wake the task at once.
    Repoll,
    /// Poll the outstanding fetch and report with [`JsAsyncRead::fetched`].
    PollFetch,
    /// Ask the external iterator for its next element and report with
    /// [`JsAsyncRead::requested`].
    RequestNext,
}

/// The mathematical content of a [`JsAsyncRead`]: the bytes that are decoded
/// but not yet delivered, and the phase.
pub struct ReaderView {
    pub buffered: Seq<u8>,
    pub phase: ReadPhase,
}

/// How many bytes one poll delivers: as many as are buffered, up to the
/// capacity of the caller's buffer.
pub open spec fn delivery(buffered: Seq<u8>, capacity: nat) -> nat {
    if buffered.len() <= capacity {
        buffered.len()
    } else {
        capacity
    }
}

impl ReaderView {
    /// The reader holds no bytes and has a fetch outstanding: the one state
    /// in which a report of the fetch is in turn.
    pub open spec fn awaits_fetch(self) -> bool {
        self.buffered.len() == 0 && self.phase == ReadPhase::Fetching
    }

    /// The reader will never again ask for outside work, nor deliver a byte.
    pub open spec fn terminal(self) -> bool {
        self.buffered.len() == 0 && (self.phase == ReadPhase::Done
            || self.phase is Failed)
    }

    /// The result of every poll of a reader that is drained and has met the
    /// end of the data or a failure.
    pub open spec fn terminal_result(self) -> Result<usize, ReadError> {
        match self.phase {
            ReadPhase::Failed(error) => Err(error),
            _ => Ok(0),
        }
    }

    /// What the reader is waiting for: the request that is due; else a
    /// further poll while bytes are buffered; else what its phase calls for.
    pub open spec fn demand(self) -> ReadStep {
        match self.phase {
            ReadPhase::Requesting => ReadStep::RequestNext,
            _ if self.buffered.len() > 0 => ReadStep::Repoll,
            ReadPhase::Fetching => ReadStep::PollFetch,
            ReadPhase::Done => ReadStep::Ready(Ok(0)),
            ReadPhase::Failed(error) => ReadStep::Ready(Err(error)),
        }
    }

    /// The reader after a poll with a caller's buffer of `capacity` bytes.
    pub open spec fn after_poll(self, capacity: nat) -> ReaderView {
        ReaderView {
            buffered: self.buffered.skip(delivery(self.buffered, capacity) as int),
            phase: self.phase,
        }
    }

    /// The answer to a poll with a caller's buffer of `capacity` bytes.
    pub open spec fn poll_step(self, capacity: nat) -> ReadStep {
        if self.buffered.len() > 0 {
            ReadStep::Ready(Ok(delivery(self.buffered, capacity) as usize))
        } else {
            self.demand()
        }
    }

    /// The reader after a report of the outstanding fetch.
    pub open spec fn after_fetched(self, fetch: Fetch<Element>) -> ReaderView {
        if !self.awaits_fetch() {
            self
        } else {
            match fetch {
                Fetch::NotReady => self,
                Fetch::Done => ReaderView { buffered: self.buffered, phase: ReadPhase::Done },
                Fetch::Failed => ReaderView {
                    buffered: self.buffered,
                    phase: ReadPhase::Failed(ReadError::Protocol),
                },
                Fetch::Item(element) => match decoded(element) {
                    Ok(bytes) => ReaderView { buffered: bytes, phase: ReadPhase::Requesting },
                    Err(error) => ReaderView {
                        buffered: self.buffered,
                        phase: ReadPhase::Failed(ReadError::Decode(error)),
                    },
                },
            }
        }
    }

    /// The answer to a report of the outstanding fetch.
    pub open spec fn fetched_step(self, fetch: Fetch<Element>) -> ReadStep {
        if self.awaits_fetch() && fetch is NotReady {
            ReadStep::Pending
        } else {
            self.after_fetched(fetch).demand()
        }
    }

    /// The reader after a report of a request.
    pub open spec fn after_requested(self, outcome: Request) -> ReaderView {
        if self.phase == ReadPhase::Requesting {
            ReaderView {
                buffered: self.buffered,
                phase: match outcome {
                    Request::Issued => ReadPhase::Fetching,
                    Request::Failed => ReadPhase::Failed(ReadError::Protocol),
                },
            }
        } else {
            self
        }
    }

    /// The answer to a report of a request.
    pub open spec fn requested_step(self, outcome: Request) -> ReadStep {
        if self.phase == ReadPhase::Requesting {
            ReadStep::Repoll
        } else {
            self.demand()
        }
    }
}

/// Idempotent termination. A drained reader that has met the end of the
/// data or a failure stays as it is whatever is reported to it and however
/// often it is polled, and answers every call with the same result: no
/// bytes, or the failure it met. It never asks for outside work again.
pub proof fn lemma_terminal_reader_is_inert(
    reader: ReaderView,
    capacity: nat,
    fetch: Fetch<Element>,
    outcome: Request,
)
    requires
        reader.terminal(),
    ensures
        reader.demand() == ReadStep::Ready(reader.terminal_result()),
        reader.after_poll(capacity) == reader,
        reader.poll_step(capacity) == reader.demand(),
        reader.after_fetched(fetch) == reader,
        reader.fetched_step(fetch) == reader.demand(),
        reader.after_requested(outcome) == reader,
        reader.requested_step(outcome) == reader.demand(),
{
    assert(reader.buffered.skip(0) =~= reader.buffered);
}

/// A failure is terminal. Whenever the reader answers with a failure, it
/// holds no bytes and has failed for good. An element that stands for no
/// chunk and a fetch that resolved with a failure both end the reader, and
/// no request follows either.
pub proof fn lemma_reader_failure_is_terminal(
    reader: ReaderView,
    capacity: nat,
    fetch: Fetch<Element>,
    outcome: Request,
)
    ensures
        reader.poll_step(capacity) matches ReadStep::Ready(Err(error)) ==> reader.after_poll(
            capacity,
        ).terminal() && reader.after_poll(capacity).phase == ReadPhase::Failed(error),
        reader.fetched_step(fetch) matches ReadStep::Ready(Err(error)) ==> reader.after_fetched(
            fetch,
        ).terminal() && reader.after_fetched(fetch).phase == ReadPhase::Failed(error),
        reader.requested_step(outcome) matches ReadStep::Ready(Err(error))
            ==> reader.after_requested(outcome).terminal() && reader.after_requested(
            outcome,
        ).phase == ReadPhase::Failed(error),
        fetch matches Fetch::Item(element) ==> (decoded(element) matches Err(error)
            ==> reader.awaits_fetch() ==> reader.fetched_step(fetch) == ReadStep::Ready(
            Err(ReadError::Decode(error)),
        )),
        reader.awaits_fetch() && fetch is Failed ==> reader.fetched_step(fetch) == ReadStep::Ready(
            Err(ReadError::Protocol),
        ),
{
    assert(reader.buffered.len() == 0 ==> reader.buffered.skip(0) =~= reader.buffered);
}

/// Outside work goes by the phase. The reader asks for a poll of the fetch
/// only while a fetch is outstanding, and for a request only while none is:
/// the fetch before it has resolved with an element, whose bytes the reader
/// holds. A fetch becomes outstanding only by a request that the reader
/// asked for.
pub proof fn lemma_reader_work_follows_phase(
    reader: ReaderView,
    capacity: nat,
    fetch: Fetch<Element>,
    outcome: Request,
)
    ensures
        reader.demand() is PollFetch ==> reader.phase == ReadPhase::Fetching,
        reader.demand() is RequestNext <==> reader.phase == ReadPhase::Requesting,
        reader.poll_step(capacity) is PollFetch ==> reader.after_poll(capacity).phase
            == ReadPhase::Fetching,
        reader.poll_step(capacity) is RequestNext ==> reader.after_poll(capacity).phase
            == ReadPhase::Requesting,
        reader.fetched_step(fetch) is PollFetch ==> reader.after_fetched(fetch).phase
            == ReadPhase::Fetching,
        reader.fetched_step(fetch) is RequestNext ==> reader.after_fetched(fetch).phase
            == ReadPhase::Requesting,
        reader.requested_step(outcome) is PollFetch ==> reader.after_requested(outcome).phase
            == ReadPhase::Fetching,
        reader.requested_step(outcome) is RequestNext ==> reader.after_requested(outcome).phase
            == ReadPhase::Requesting,
        reader.after_poll(capacity).phase == reader.phase,
        reader.after_fetched(fetch).phase == ReadPhase::Fetching ==> reader.phase
            == ReadPhase::Fetching,
        reader.after_requested(outcome).phase == ReadPhase::Fetching ==> reader.phase
            == ReadPhase::Fetching || (reader.phase == ReadPhase::Requesting && outcome
            == Request::Issued),
{
}

/// A buffered byte reader over an external iterator that yields byte arrays
/// and text values.
///
/// The reader holds at most one decoded chunk and keeps at most one fetch
/// outstanding. It performs no outside work: each method answers with a
/// [`ReadStep`] that tells the embedding what to do.
pub struct JsAsyncRead {
    data: ChunkCursor,
    phase: ReadPhase,
}

impl View for JsAsyncRead {
    type V = ReaderView;

    closed spec fn view(&self) -> ReaderView {
        ReaderView { buffered: self.data@.remaining(), phase: self.phase }
    }
}

impl JsAsyncRead {
    /// Starts a reader, given what the first request to the external iterator
    /// came to. A refused request is a failure of the construction.
    pub fn new(first: Request) -> (reader: Result<JsAsyncRead, ReadError>)
        ensures
            first == Request::Issued ==> reader is Ok && reader->Ok_0@ == (ReaderView {
                buffered: Seq::<u8>::empty(),
                phase: ReadPhase::Fetching,
            }),
            first == Request::Failed ==> reader is Err && reader->Err_0 == ReadError::Protocol,
    {
        match first {
            Request::Issued => {
                let reader = JsAsyncRead { data: ChunkCursor::empty(), phase: ReadPhase::Fetching };
                assert(reader@.buffered =~= Seq::<u8>::empty());
                Ok(reader)
            },
            Request::Failed => Err(ReadError::Protocol),
        }
    }

    /// Begins a poll. While bytes are buffered, copies as many as fit to the
    /// front of `buf` and completes with their number, which is 0 where `buf`
    /// is empty. Otherwise leaves `buf` alone and answers with what the
    /// reader is waiting for.
    pub fn poll_read(&mut self, buf: &mut [u8]) -> (step: ReadStep)
        ensures
            final(self)@ == old(self)@.after_poll(old(buf)@.len()),
            step == old(self)@.poll_step(old(buf)@.len()),
            final(buf)@ == old(self)@.buffered.take(
                delivery(old(self)@.buffered, old(buf)@.len()) as int,
            ) + old(buf)@.skip(delivery(old(self)@.buffered, old(buf)@.len()) as int),
    {
        let available = self.data.remaining();
        if available.len() == 0 {
            assert(old(self)@.buffered.skip(0) =~= old(self)@.buffered);
            assert(old(buf)@.skip(0) =~= old(buf)@);
            return self.demand();
        }
        let amount: usize = if available.len() <= buf.len() {
            available.len()
        } else {
            buf.len()
        };
        put_slice(buf, slice_subrange(available, 0, amount));
        self.data.consume(amount);
        ReadStep::Ready(Ok(amount))
    }

    /// Takes the report of a poll of the outstanding fetch. In turn only
    /// while the reader holds no bytes and has a fetch outstanding; out of
    /// turn the report is dropped and the reader says again what it is
    /// waiting for.
    pub fn fetched(&mut self, fetch: Fetch<Element>) -> (step: ReadStep)
        ensures
            final(self)@ == old(self)@.after_fetched(fetch),
            step == old(self)@.fetched_step(fetch),
    {
        if !(self.data.is_drained() && matches!(self.phase, ReadPhase::Fetching)) {
            return self.demand();
        }
        match fetch {
            Fetch::NotReady => ReadStep::Pending,
            Fetch::Done => {
                self.phase = ReadPhase::Done;
                ReadStep::Ready(Ok(0))
            },
            Fetch::Failed => {
                self.phase = ReadPhase::Failed(ReadError::Protocol);
                ReadStep::Ready(Err(ReadError::Protocol))
            },
            Fetch::Item(element) => match decode(element) {
                Ok(chunk) => {
                    self.data.replace(chunk);
                    self.phase = ReadPhase::Requesting;
                    assert(self@.buffered =~= chunk@);
                    self.demand()
                },
                Err(error) => {
                    self.phase = ReadPhase::Failed(ReadError::Decode(error));
                    ReadStep::Ready(Err(ReadError::Decode(error)))
                },
            },
        }
    }

    /// Takes the report of the request that the reader asked for. In turn
    /// only while that request is due; out of turn the report is dropped.
    pub fn requested(&mut self, outcome: Request) -> (step: ReadStep)
        ensures
            final(self)@ == old(self)@.after_requested(outcome),
            step == old(self)@.requested_step(outcome),
    {
        match self.phase {
            ReadPhase::Requesting => {
                self.phase = match outcome {
                    Request::Issued => ReadPhase::Fetching,
                    Request::Failed => ReadPhase::Failed(ReadError::Protocol),
                };
                ReadStep::Repoll
            },
            _ => self.demand(),
        }
    }

    /// What the reader is waiting for.
    pub fn demand(&self) -> (step: ReadStep)
        ensures
            step == self@.demand(),
    {
        let drained = self.data.is_drained();
        match self.phase {
            ReadPhase::Requesting => ReadStep::RequestNext,
            _ if !drained => ReadStep::Repoll,
            ReadPhase::Fetching => ReadStep::PollFetch,
            ReadPhase::Done => ReadStep::Ready(Ok(0)),
            ReadPhase::Failed(error) => ReadStep::Ready(Err(error)),
        }
    }
}

} // verus!
