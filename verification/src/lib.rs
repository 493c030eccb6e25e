//! Adapters from a pull-based, promise-returning iteration protocol to
//! poll-based consumers: [`JsAsyncRead`], a buffered reader of bytes, and
//! [`JsStream`], a stream of typed items.
//!
//! The adapters are state machines that perform no outside work themselves.
//! The embedding drives them: it polls the pending fetch and issues requests
//! to the external iterator when an adapter asks for it, and reports what
//! came back. Every decision in between (what to buffer, what to deliver,
//! when to ask for the next element, when the sequence has ended) is taken
//! here, and is stated and proved here:
//!
//! - each method says exactly what it answers and how it leaves the adapter
//!   ([`async_read`], [`stream`]);
//! - driven against an iterator that yields its elements in order, a stream
//!   yields exactly those, in order ([`stream_session`]), and a reader
//!   delivers exactly their bytes ([`read_session`]);
//! - whatever the iterator does, an adapter has one request outstanding at
//!   most ([`discipline`]).
//!
//! One poll of a reader by the scheduler, as an embedding runs it:
//!
//! ```text
//! let mut step = reader.poll_read(buf);
//! loop {
//!     step = match step {
//!         ReadStep::Ready(result) => return Poll::Ready(result),
//!         ReadStep::Pending => return Poll::Pending,
//!         ReadStep::Repoll => {
//!             waker.wake_by_ref();
//!             return Poll::Pending;
//!         },
//!         ReadStep::PollFetch => reader.fetched(poll_the_pending_fetch()),
//!         ReadStep::RequestNext => reader.requested(request_the_next_element()),
//!     };
//! }
//! ```
//!
//! A stream is driven in the same way, with [`JsStream::poll_next`] first.

pub mod async_read;
mod buffer;
pub mod cursor;
pub mod discipline;
pub mod element;
pub mod fetch;
pub mod read_session;
pub mod source;
pub mod stream;
pub mod stream_session;

pub use async_read::JsAsyncRead;
pub use stream::JsStream;
