use js_sys_futures::fetch::{Fetch, Request};
use js_sys_futures::stream::{JsStream, StreamError, StreamStep};
use std::collections::VecDeque;

/// An external iterator that fails the test when it is used out of turn. An
/// element that is not of the item type is `None`.
struct ExternalIterator {
    items: VecDeque<Option<String>>,
    outstanding: bool,
    delay: usize,
    waiting: usize,
    requests: usize,
    fetch_polls: usize,
    refuse: Option<usize>,
    fail: Option<usize>,
}

impl ExternalIterator {
    fn new(items: Vec<Option<String>>) -> ExternalIterator {
        ExternalIterator {
            items: items.into(),
            outstanding: false,
            delay: 0,
            waiting: 0,
            requests: 0,
            fetch_polls: 0,
            refuse: None,
            fail: None,
        }
    }

    fn of(items: &[&str]) -> ExternalIterator {
        ExternalIterator::new(items.iter().map(|item| Some(item.to_string())).collect())
    }

    fn request_next(&mut self) -> Request {
        assert!(!self.outstanding, "a request was made while another is unresolved");
        self.requests += 1;
        if self.refuse == Some(self.requests) {
            return Request::Failed;
        }
        self.outstanding = true;
        self.waiting = self.delay;
        Request::Issued
    }

    fn poll_fetch(&mut self) -> Fetch<Option<String>> {
        assert!(self.outstanding, "the fetch was polled while no request is unresolved");
        self.fetch_polls += 1;
        if self.waiting > 0 {
            self.waiting -= 1;
            return Fetch::NotReady;
        }
        self.outstanding = false;
        if self.fail == Some(self.requests) {
            return Fetch::Failed;
        }
        match self.items.pop_front() {
            Some(item) => Fetch::Item(item),
            None => Fetch::Done,
        }
    }
}

fn open(iterator: &mut ExternalIterator) -> JsStream<String> {
    JsStream::new(iterator.request_next()).unwrap()
}

/// One poll by the scheduler. The outer `None` stands for a poll that is not
/// ready.
fn poll(
    stream: &mut JsStream<String>,
    iterator: &mut ExternalIterator,
) -> Option<Option<Result<String, StreamError>>> {
    let mut step = stream.poll_next();
    for _ in 0..4 {
        step = match step {
            StreamStep::Ready(result) => return Some(result),
            StreamStep::Pending => return None,
            StreamStep::PollFetch => stream.fetched(iterator.poll_fetch()),
            StreamStep::RequestNext => stream.requested(iterator.request_next()),
        };
    }
    panic!("the poll did not come to an end: {:?}", step);
}

/// Polls until the stream is ready, as a task that awaits the next item does.
fn next(stream: &mut JsStream<String>, iterator: &mut ExternalIterator) -> Option<Result<String, StreamError>> {
    for _ in 0..64 {
        if let Some(result) = poll(stream, iterator) {
            return result;
        }
    }
    panic!("the stream did not yield");
}

#[test]
fn stream() {
    let mut iterator = ExternalIterator::of(&["foo", "bar", "baz"]);
    let mut stream = open(&mut iterator);

    assert_eq!(next(&mut stream, &mut iterator), Some(Ok("foo".to_string())));
    assert_eq!(next(&mut stream, &mut iterator), Some(Ok("bar".to_string())));
    assert_eq!(next(&mut stream, &mut iterator), Some(Ok("baz".to_string())));
    assert_eq!(next(&mut stream, &mut iterator), None);
}

#[test]
fn stream_yields_in_order_whenever_the_fetches_resolve() {
    for delay in 0..4 {
        let mut iterator = ExternalIterator::of(&["a", "b", "c", "d", "e"]);
        iterator.delay = delay;
        let mut stream = open(&mut iterator);
        let mut yielded = Vec::new();
        let mut pending = 0;
        loop {
            match poll(&mut stream, &mut iterator) {
                None => pending += 1,
                Some(Some(item)) => yielded.push(item.unwrap()),
                Some(None) => break,
            }
        }
        assert_eq!(yielded, vec!["a", "b", "c", "d", "e"]);
        assert_eq!(pending, 6 * delay);
        for _ in 0..3 {
            assert_eq!(poll(&mut stream, &mut iterator), Some(None));
        }
        assert_eq!(iterator.requests, 6);
    }
}

#[test]
fn stream_item_comes_with_the_poll_that_finds_it() {
    let mut iterator = ExternalIterator::of(&["a"]);
    iterator.delay = 1;
    let mut stream = open(&mut iterator);
    assert_eq!(poll(&mut stream, &mut iterator), None);
    assert_eq!(iterator.requests, 1);
    // The item and the request for the next one come with the same poll.
    assert_eq!(poll(&mut stream, &mut iterator), Some(Some(Ok("a".to_string()))));
    assert_eq!(iterator.requests, 2);
    assert!(iterator.outstanding);
}

#[test]
fn stream_of_an_empty_sequence_ends_at_once() {
    let mut iterator = ExternalIterator::of(&[]);
    let mut stream = open(&mut iterator);
    assert_eq!(poll(&mut stream, &mut iterator), Some(None));
}

#[test]
fn stream_end_is_for_good() {
    let mut iterator = ExternalIterator::of(&["a"]);
    let mut stream = open(&mut iterator);
    assert_eq!(next(&mut stream, &mut iterator), Some(Ok("a".to_string())));
    assert_eq!(next(&mut stream, &mut iterator), None);
    let requests = iterator.requests;
    let fetch_polls = iterator.fetch_polls;
    for _ in 0..3 {
        assert_eq!(poll(&mut stream, &mut iterator), Some(None));
    }
    assert_eq!(iterator.requests, requests);
    assert_eq!(iterator.fetch_polls, fetch_polls);
    // Reports are dropped too.
    assert_eq!(stream.fetched(Fetch::Item(Some("b".to_string()))), StreamStep::Ready(None));
    assert_eq!(stream.requested(Request::Issued), StreamStep::Ready(None));
    assert_eq!(stream.poll_next(), StreamStep::Ready(None));
}

#[test]
fn stream_makes_one_request_at_a_time() {
    // The iterator fails the test when a request is made out of turn.
    let mut iterator = ExternalIterator::of(&["a", "b", "c"]);
    iterator.delay = 2;
    let mut stream = open(&mut iterator);
    let mut count = 0;
    while let Some(item) = next(&mut stream, &mut iterator) {
        item.unwrap();
        count += 1;
    }
    assert_eq!(count, 3);
    assert_eq!(iterator.requests, 4);
    assert!(!iterator.outstanding);
}

#[test]
fn stream_type_mismatch_fails_for_good() {
    let mut iterator = ExternalIterator::new(vec![Some("a".to_string()), None, Some("c".to_string())]);
    let mut stream = open(&mut iterator);
    assert_eq!(next(&mut stream, &mut iterator), Some(Ok("a".to_string())));
    assert_eq!(next(&mut stream, &mut iterator), Some(Err(StreamError::TypeMismatch)));
    // No request followed the element, and none follows.
    assert_eq!(iterator.requests, 2);
    let fetch_polls = iterator.fetch_polls;
    for _ in 0..3 {
        assert_eq!(poll(&mut stream, &mut iterator), Some(Some(Err(StreamError::TypeMismatch))));
    }
    assert_eq!(iterator.requests, 2);
    assert_eq!(iterator.fetch_polls, fetch_polls);
    assert_eq!(iterator.items.len(), 1);
}

#[test]
fn stream_refused_first_request_fails_the_construction() {
    assert!(matches!(JsStream::<String>::new(Request::Failed), Err(StreamError::Protocol)));
    assert!(JsStream::<String>::new(Request::Issued).is_ok());
}

#[test]
fn stream_failed_fetch_fails_for_good() {
    let mut iterator = ExternalIterator::of(&["a", "b"]);
    iterator.fail = Some(2);
    let mut stream = open(&mut iterator);
    assert_eq!(next(&mut stream, &mut iterator), Some(Ok("a".to_string())));
    assert_eq!(next(&mut stream, &mut iterator), Some(Err(StreamError::Protocol)));
    let requests = iterator.requests;
    for _ in 0..3 {
        assert_eq!(poll(&mut stream, &mut iterator), Some(Some(Err(StreamError::Protocol))));
    }
    assert_eq!(iterator.requests, requests);
}

#[test]
fn stream_refused_request_shows_after_the_item() {
    let mut iterator = ExternalIterator::of(&["a", "b"]);
    iterator.refuse = Some(2);
    let mut stream = open(&mut iterator);
    // The item that was fetched is still handed out.
    assert_eq!(poll(&mut stream, &mut iterator), Some(Some(Ok("a".to_string()))));
    assert_eq!(iterator.requests, 2);
    // The failure shows with the next poll, and for good.
    for _ in 0..3 {
        assert_eq!(poll(&mut stream, &mut iterator), Some(Some(Err(StreamError::Protocol))));
    }
    assert_eq!(iterator.requests, 2);
    assert_eq!(iterator.fetch_polls, 1);
}

#[test]
fn stream_reports_out_of_turn_are_dropped() {
    let mut stream = JsStream::<String>::new(Request::Issued).unwrap();
    // No request is due.
    assert_eq!(stream.requested(Request::Failed), StreamStep::PollFetch);
    assert_eq!(stream.poll_next(), StreamStep::PollFetch);
    assert_eq!(stream.fetched(Fetch::NotReady), StreamStep::Pending);
    // The fetch resolves: the request is due, and no fetch is outstanding.
    assert_eq!(stream.fetched(Fetch::Item(Some("a".to_string()))), StreamStep::RequestNext);
    assert_eq!(stream.poll_next(), StreamStep::RequestNext);
    assert_eq!(stream.fetched(Fetch::Item(Some("b".to_string()))), StreamStep::RequestNext);
    assert_eq!(stream.fetched(Fetch::Done), StreamStep::RequestNext);
    assert_eq!(
        stream.requested(Request::Issued),
        StreamStep::Ready(Some(Ok("a".to_string())))
    );
    assert_eq!(stream.poll_next(), StreamStep::PollFetch);
}
