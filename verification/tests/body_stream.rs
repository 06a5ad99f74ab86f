use std::collections::VecDeque;
use std::convert::Infallible;
use std::task::Context;
use std::task::Waker;

use actix_dispatch::body::any_body::AnyBody;
use actix_dispatch::body::body_stream::BodyStream;
use actix_dispatch::body::message_body::ChunkStream;
use actix_dispatch::body::message_body::MessageBody;
use actix_dispatch::body::message_body::Polled;
use actix_dispatch::body::size::BodySize;
use actix_dispatch::body::sized_stream::SizedStream;
use bytes::Bytes;

#[derive(Debug, PartialEq)]
struct StreamErr;

/// Polls a body to its end and joins its chunks, as a reader of the whole
/// body does.
fn to_bytes<B: MessageBody>(mut body: B) -> Result<Bytes, B::Failure> {
    let mut cx = Context::from_waker(Waker::noop());
    let mut all = Vec::new();
    loop {
        match body.poll_next(&mut cx) {
            Polled::Pending => {}
            Polled::Ready(None) => return Ok(Bytes::from(all)),
            Polled::Ready(Some(Ok(chunk))) => all.extend_from_slice(&chunk),
            Polled::Ready(Some(Err(err))) => return Err(err),
        }
    }
}

fn ready<T>(polled: Polled<T>) -> T {
    match polled {
        Polled::Ready(value) => value,
        Polled::Pending => panic!("not ready"),
    }
}

fn iter<E>(items: Vec<Result<Bytes, E>>) -> VecDeque<Result<Bytes, E>> {
    items.into_iter().collect()
}

/// Is not ready for its first two polls and fails at the third.
enum TimeDelayStream {
    Start,
    Sleep,
    Done,
}

impl ChunkStream for TimeDelayStream {
    type Failure = StreamErr;

    fn poll_next(&mut self, _: &mut Context<'_>) -> Polled<Option<Result<Bytes, StreamErr>>> {
        match self {
            TimeDelayStream::Start => {
                *self = TimeDelayStream::Sleep;
                Polled::Pending
            }
            TimeDelayStream::Sleep => {
                *self = TimeDelayStream::Done;
                Polled::Pending
            }
            TimeDelayStream::Done => Polled::Ready(Some(Err(StreamErr))),
        }
    }
}

#[test]
fn skips_empty_chunks() {
    let mut body = BodyStream::new(iter(
        ["1", "", "2"]
            .iter()
            .map(|&v| Ok::<_, Infallible>(Bytes::from(v)))
            .collect(),
    ));
    let mut cx = Context::from_waker(Waker::noop());

    assert_eq!(
        ready(body.poll_next(&mut cx)).unwrap().ok(),
        Some(Bytes::from("1")),
    );
    assert_eq!(
        ready(body.poll_next(&mut cx)).unwrap().ok(),
        Some(Bytes::from("2")),
    );
}

#[test]
fn read_to_bytes() {
    let body = BodyStream::new(iter(
        ["1", "", "2"]
            .iter()
            .map(|&v| Ok::<_, Infallible>(Bytes::from(v)))
            .collect(),
    ));

    assert_eq!(to_bytes(body).ok(), Some(Bytes::from("12")));
}

#[test]
fn stream_immediate_error() {
    let body = BodyStream::new(iter(vec![Err(StreamErr)]));
    assert!(matches!(to_bytes(body), Err(StreamErr)));
}

#[test]
fn stream_delayed_error() {
    let body = BodyStream::new(iter(vec![Ok(Bytes::from("1")), Err(StreamErr)]));
    assert!(matches!(to_bytes(body), Err(StreamErr)));

    let body = BodyStream::new(TimeDelayStream::Start);
    assert!(matches!(to_bytes(body), Err(StreamErr)));
}

#[test]
fn body_stream_declares_a_stream() {
    let body = BodyStream::new(iter(vec![Ok::<_, Infallible>(Bytes::from("1"))]));
    assert_eq!(body.size(), BodySize::Stream);
    // asking for the size does not consume anything
    assert_eq!(body.size(), BodySize::Stream);
    assert_eq!(to_bytes(body).ok(), Some(Bytes::from("1")));
}

#[test]
fn body_stream_ends_when_the_stream_ends() {
    let mut body = BodyStream::new(iter(Vec::<Result<Bytes, Infallible>>::new()));
    let mut cx = Context::from_waker(Waker::noop());
    assert!(ready(body.poll_next(&mut cx)).is_none());
    assert!(ready(body.poll_next(&mut cx)).is_none());
}

#[test]
fn body_stream_passes_a_pending_poll_on() {
    let mut body = BodyStream::new(TimeDelayStream::Start);
    let mut cx = Context::from_waker(Waker::noop());
    assert!(matches!(body.poll_next(&mut cx), Polled::Pending));
    assert!(matches!(body.poll_next(&mut cx), Polled::Pending));
    assert_eq!(ready(body.poll_next(&mut cx)), Some(Err(StreamErr)));
}

#[test]
fn body_stream_removes_exactly_the_empty_chunks() {
    let input: Vec<Result<Bytes, StreamErr>> = vec![
        Ok(Bytes::new()),
        Ok(Bytes::from("a")),
        Ok(Bytes::new()),
        Ok(Bytes::new()),
        Ok(Bytes::from("bc")),
        Err(StreamErr),
        Ok(Bytes::new()),
        Ok(Bytes::from("d")),
        Ok(Bytes::new()),
    ];
    let mut body = BodyStream::new(iter(input));
    let mut cx = Context::from_waker(Waker::noop());
    let mut seen = Vec::new();
    while let Some(item) = ready(body.poll_next(&mut cx)) {
        seen.push(item);
    }
    assert_eq!(
        seen,
        vec![
            Ok(Bytes::from("a")),
            Ok(Bytes::from("bc")),
            Err(StreamErr),
            Ok(Bytes::from("d")),
        ]
    );
}

#[test]
fn a_queue_yields_its_items_from_the_front() {
    let mut queue = iter(vec![Ok::<_, StreamErr>(Bytes::from("x")), Ok(Bytes::new())]);
    let mut cx = Context::from_waker(Waker::noop());
    assert_eq!(ready(queue.poll_next(&mut cx)), Some(Ok(Bytes::from("x"))));
    assert_eq!(ready(queue.poll_next(&mut cx)), Some(Ok(Bytes::new())));
    assert_eq!(ready(queue.poll_next(&mut cx)), None);
}

#[test]
fn unit_is_the_empty_body() {
    let mut body = ();
    let mut cx = Context::from_waker(Waker::noop());
    assert_eq!(MessageBody::size(&body), BodySize::Empty);
    assert!(ready(MessageBody::poll_next(&mut body, &mut cx)).is_none());
}

#[test]
fn a_buffer_is_a_body_of_its_length() {
    let mut body = Bytes::from("hello");
    let mut cx = Context::from_waker(Waker::noop());
    assert_eq!(MessageBody::size(&body), BodySize::Sized(5));
    assert_eq!(
        ready(MessageBody::poll_next(&mut body, &mut cx)),
        Some(Ok(Bytes::from("hello")))
    );
    assert_eq!(ready(MessageBody::poll_next(&mut body, &mut cx)), None);

    let mut empty = Bytes::new();
    assert_eq!(MessageBody::size(&empty), BodySize::Sized(0));
    assert_eq!(ready(MessageBody::poll_next(&mut empty, &mut cx)), None);
}

#[test]
fn sizes_that_end_the_response_with_its_head() {
    assert!(BodySize::NoBody.is_eof());
    assert!(BodySize::Empty.is_eof());
    assert!(BodySize::Sized(0).is_eof());
    assert!(!BodySize::Sized(1).is_eof());
    assert!(!BodySize::Sized(u64::MAX).is_eof());
    assert!(!BodySize::Stream.is_eof());
}

#[test]
fn a_sized_stream_declares_its_length_and_skips_empty_chunks() {
    let body = SizedStream::new(
        3,
        iter(vec![
            Ok::<_, StreamErr>(Bytes::new()),
            Ok(Bytes::from("ab")),
            Ok(Bytes::new()),
            Ok(Bytes::from("c")),
        ]),
    );
    assert_eq!(body.size(), BodySize::Sized(3));
    assert_eq!(to_bytes(body), Ok(Bytes::from("abc")));

    let failing = SizedStream::new(1, iter(vec![Err(StreamErr), Ok(Bytes::from("a"))]));
    assert_eq!(to_bytes(failing), Err(StreamErr));
}

#[test]
fn any_body_is_one_of_three() {
    type Queue = VecDeque<Result<Bytes, StreamErr>>;
    let mut cx = Context::from_waker(Waker::noop());

    let mut empty: AnyBody<Queue> = AnyBody::Empty;
    assert_eq!(empty.size(), BodySize::Empty);
    assert_eq!(ready(empty.poll_next(&mut cx)), None);

    let mut buffer: AnyBody<Queue> = AnyBody::Buffer(Bytes::from("hello"));
    assert_eq!(buffer.size(), BodySize::Sized(5));
    assert_eq!(
        ready(buffer.poll_next(&mut cx)),
        Some(Ok(Bytes::from("hello")))
    );
    assert_eq!(ready(buffer.poll_next(&mut cx)), None);

    let mut stream = AnyBody::Stream(BodyStream::new(iter(vec![
        Ok(Bytes::new()),
        Ok(Bytes::from("x")),
        Err(StreamErr),
    ])));
    assert_eq!(stream.size(), BodySize::Stream);
    assert_eq!(ready(stream.poll_next(&mut cx)), Some(Ok(Bytes::from("x"))));
    assert_eq!(ready(stream.poll_next(&mut cx)), Some(Err(StreamErr)));
    assert_eq!(ready(stream.poll_next(&mut cx)), None);
}

#[test]
fn only_a_chunk_without_bytes_is_passed_over() {
    type Body = BodyStream<VecDeque<Result<Bytes, StreamErr>>>;
    assert!(!Body::hands_on(&Polled::Ready(Some(Ok(Bytes::new())))));
    assert!(Body::hands_on(&Polled::Ready(Some(Ok(Bytes::from("a"))))));
    assert!(Body::hands_on(&Polled::Ready(Some(Err(StreamErr)))));
    assert!(Body::hands_on(&Polled::Ready(None)));
    assert!(Body::hands_on(&Polled::Pending));
}
