use std::collections::VecDeque;
use std::task::Context;
use std::task::Waker;

use actix_dispatch::body::message_body::MessageBody;
use actix_dispatch::body::message_body::Polled;
use actix_dispatch::dispatch::accept::on_pipeline_end;
use actix_dispatch::dispatch::accept::Dispatcher;
use actix_dispatch::dispatch::accept::LoopAction;
use actix_dispatch::dispatch::connect::on_ready;
use actix_dispatch::dispatch::connect::Connecting;
use actix_dispatch::dispatch::connect::ConnectionError;
use actix_dispatch::dispatch::error::DispatchError;
use actix_dispatch::dispatch::error::Level;
use actix_dispatch::dispatch::payload::Payload;
use actix_dispatch::dispatch::payload::Received;
use actix_dispatch::dispatch::pipeline::Action;
use actix_dispatch::dispatch::pipeline::Event;
use actix_dispatch::dispatch::pipeline::Pipeline;
use actix_dispatch::message::ResponseHead;
use actix_dispatch::message::ServiceConfig;
use actix_dispatch::message::StatusCode;
use actix_dispatch::message::Version;
use bytes::Bytes;
use http::header::HeaderValue;

#[derive(Debug, PartialEq)]
struct AcceptErr;

#[derive(Debug, PartialEq)]
struct BodyErr;

#[derive(Debug, PartialEq)]
struct WireErr;

fn config() -> ServiceConfig {
    ServiceConfig::new(HeaderValue::from_static("Sun, 06 Nov 1994 08:49:37 GMT"))
}

fn dispatcher() -> Dispatcher<&'static str, u8, u16, u32> {
    Dispatcher::new("service", 1, 2, config(), Some(3))
}

/// The body of one stream: its chunks, the last of which may be a failure.
struct Body(VecDeque<Result<Bytes, BodyErr>>);

impl MessageBody for Body {
    type Failure = BodyErr;

    fn size(&self) -> actix_dispatch::body::size::BodySize {
        actix_dispatch::body::size::BodySize::Stream
    }

    fn poll_next(&mut self, _: &mut Context<'_>) -> Polled<Option<Result<Bytes, BodyErr>>> {
        Polled::Ready(self.0.pop_front())
    }
}

/// Runs the pipeline of one stream over a transport that takes everything,
/// and gives back the bytes that were sent with the outcome.
fn respond(mut body: Body) -> (Vec<u8>, Result<(), DispatchError<WireErr, BodyErr>>) {
    let mut cx = Context::from_waker(Waker::noop());
    let head = ResponseHead {
        status: StatusCode::from_u16(200).unwrap(),
        headers: Vec::new(),
    };
    let mut pipeline = Pipeline::start(&config(), Version::Http2, &head, &body)
        .unwrap()
        .pipeline;
    let mut sent = Vec::new();
    let mut event = Event::HeadSent(Ok(()));
    loop {
        match pipeline.step(event) {
            Action::PollBody => match body.poll_next(&mut cx) {
                Polled::Ready(item) => event = Event::BodyPolled(item),
                Polled::Pending => panic!("the body is always ready"),
            },
            Action::AwaitCapacity { reserve } => event = Event::Capacity(Some(Ok(reserve))),
            Action::SendData { data, .. } => {
                sent.extend_from_slice(&data);
                event = Event::DataSent(Ok(()));
            }
            Action::Finish(outcome) => return (sent, outcome),
        }
    }
}

#[test]
fn a_new_dispatcher_accepts_and_holds_what_it_was_given() {
    let dispatcher = dispatcher();
    assert!(dispatcher.is_accepting());
    assert_eq!(dispatcher.flow, "service");
    assert_eq!(dispatcher.connection, 1);
    assert_eq!(dispatcher.on_connect_data, 2);
    assert_eq!(dispatcher.peer_addr, Some(3));
    assert_eq!(
        dispatcher.config.date_header().as_bytes(),
        b"Sun, 06 Nov 1994 08:49:37 GMT"
    );
}

#[test]
fn an_accepted_stream_is_spawned_and_the_loop_goes_on() {
    let mut dispatcher = dispatcher();
    for stream in 0..3u8 {
        let action = dispatcher.on_accept::<u8, AcceptErr>(Some(Ok(stream)));
        assert!(matches!(action, LoopAction::Spawn(s) if s == stream));
        assert!(dispatcher.is_accepting());
    }
    assert_eq!(dispatcher.peer_addr, Some(3));
}

#[test]
fn the_end_of_the_streams_ends_the_loop() {
    let mut dispatcher = dispatcher();
    let action = dispatcher.on_accept::<u8, AcceptErr>(None);
    assert!(matches!(action, LoopAction::Stop(Ok(()))));
    assert!(!dispatcher.is_accepting());
}

#[test]
fn a_failure_to_accept_ends_the_loop_with_it() {
    let mut dispatcher = dispatcher();
    let action = dispatcher.on_accept::<u8, AcceptErr>(Some(Err(AcceptErr)));
    assert!(matches!(action, LoopAction::Stop(Err(AcceptErr))));
    assert!(!dispatcher.is_accepting());
}

#[test]
fn a_failed_stream_does_not_stop_the_loop() {
    let mut dispatcher = dispatcher();

    let failing = Body(
        vec![Ok(Bytes::from("a")), Err(BodyErr)]
            .into_iter()
            .collect(),
    );
    let succeeding = Body(vec![Ok(Bytes::from("b"))].into_iter().collect());

    let first = match dispatcher.on_accept::<Body, AcceptErr>(Some(Ok(failing))) {
        LoopAction::Spawn(stream) => stream,
        LoopAction::Stop(_) => panic!("the loop stopped"),
    };
    let second = match dispatcher.on_accept::<Body, AcceptErr>(Some(Ok(succeeding))) {
        LoopAction::Spawn(stream) => stream,
        LoopAction::Stop(_) => panic!("the loop stopped"),
    };

    // the second stream completes before the first one fails
    let (sent, outcome) = respond(second);
    assert_eq!(sent, b"b".to_vec());
    assert!(outcome.is_ok());
    assert_eq!(on_pipeline_end(&outcome), None);

    let (sent, outcome) = respond(first);
    assert_eq!(sent, b"a".to_vec());
    assert!(matches!(outcome, Err(DispatchError::ResponseBody(BodyErr))));
    assert_eq!(on_pipeline_end(&outcome), Some(Level::Error));

    // and the loop still accepts
    assert!(dispatcher.is_accepting());
    let third = Body(vec![Ok(Bytes::from("c"))].into_iter().collect());
    match dispatcher.on_accept::<Body, AcceptErr>(Some(Ok(third))) {
        LoopAction::Spawn(stream) => {
            let (sent, outcome) = respond(stream);
            assert_eq!(sent, b"c".to_vec());
            assert!(outcome.is_ok());
        }
        LoopAction::Stop(_) => panic!("the loop stopped"),
    }
    assert!(matches!(
        dispatcher.on_accept::<Body, AcceptErr>(None),
        LoopAction::Stop(Ok(()))
    ));
}

#[test]
fn the_outcome_of_a_pipeline_is_logged_by_its_kind() {
    let ok: Result<(), DispatchError<WireErr, BodyErr>> = Ok(());
    assert_eq!(on_pipeline_end(&ok), None);
    assert_eq!(
        on_pipeline_end::<WireErr, BodyErr>(&Err(DispatchError::SendResponse(WireErr))),
        Some(Level::Trace)
    );
    assert_eq!(
        on_pipeline_end::<WireErr, BodyErr>(&Err(DispatchError::SendData(WireErr))),
        Some(Level::Warn)
    );
    assert_eq!(
        on_pipeline_end::<WireErr, BodyErr>(&Err(DispatchError::ResponseBody(BodyErr))),
        Some(Level::Error)
    );
}

#[test]
fn a_connection_comes_up_in_two_steps() {
    let connecting = Connecting::new("service", config(), Some(7u32), "gathered");
    let (handshaking, transport) = connecting
        .on_connected::<&str, (), &str, &str>(Ok("transport"))
        .ok()
        .unwrap();
    assert_eq!(transport, "transport");
    let dispatcher = handshaking
        .on_handshake::<&str, (), &str, &str>(Ok("connection"))
        .ok()
        .unwrap();
    assert!(dispatcher.is_accepting());
    assert_eq!(dispatcher.flow, "service");
    assert_eq!(dispatcher.connection, "connection");
    assert_eq!(dispatcher.on_connect_data, "gathered");
    assert_eq!(dispatcher.peer_addr, Some(7));
    assert_eq!(
        dispatcher.config.date_header().as_bytes(),
        b"Sun, 06 Nov 1994 08:49:37 GMT"
    );
}

#[test]
fn a_connection_fails_with_the_step_that_failed() {
    let connecting = Connecting::new("service", config(), Some(7u32), "gathered");
    let failed = connecting.on_connected::<&str, (), &str, &str>(Err("no route"));
    assert!(matches!(
        failed,
        Err(ConnectionError::H3Connection("no route"))
    ));

    let connecting = Connecting::new("service", config(), None::<u32>, "gathered");
    let (handshaking, _) = connecting
        .on_connected::<&str, (), &str, &str>(Ok("transport"))
        .ok()
        .unwrap();
    let failed = handshaking.on_handshake::<&str, (), &str, &str>(Err("bad settings"));
    assert!(matches!(failed, Err(ConnectionError::H3("bad settings"))));
}

#[test]
fn a_service_that_is_not_ready_fails_the_connection() {
    assert!(matches!(
        on_ready::<&str, (), ()>(Err("busy")),
        Err(ConnectionError::Service("busy"))
    ));
    assert!(matches!(on_ready::<&str, (), ()>(Ok(())), Ok(())));
}

#[test]
fn a_chunk_of_a_payload_releases_its_length() {
    match Payload::<()>::on_data::<WireErr>(Some(Ok(Bytes::from("hello")))) {
        Received::Release { chunk, len } => {
            assert_eq!(chunk, Bytes::from("hello"));
            assert_eq!(len, 5);
            assert_eq!(
                Payload::<()>::on_release::<WireErr>(chunk, Ok(())),
                Some(Ok(Bytes::from("hello")))
            );
        }
        Received::Yield(_) => panic!("the capacity is to be released first"),
    }
    assert_eq!(
        Payload::<()>::on_release(Bytes::from("hello"), Err(WireErr)),
        Some(Err(WireErr))
    );
}

#[test]
fn the_end_and_a_failure_of_a_payload_are_handed_on() {
    assert!(matches!(
        Payload::<()>::on_data::<WireErr>(None),
        Received::Yield(None)
    ));
    assert!(matches!(
        Payload::<()>::on_data(Some(Err(WireErr))),
        Received::Yield(Some(Err(WireErr)))
    ));
    assert_eq!(Payload::new(5u8).stream, 5);
}
