use std::cell::RefCell;
use std::sync::mpsc::Receiver;
use std::sync::{Arc, Mutex};

use bep_publish::model::{
    BuildEventEnvelope, BuildEventKind, EventPayload, HandlerError, OrderedBuildEvent,
    ProtocolViolation, PublishBuildToolEventStreamRequest, PublishError,
    PublishLifecycleEventRequest, StreamId, Timestamp, TransportError,
};
use bep_publish::service::{EventHandler, EventServer};

const TOOL: i32 = 2;

fn sid(build: &str, invocation: &str, component: i32) -> StreamId {
    StreamId {
        build_id: build.to_string(),
        invocation_id: invocation.to_string(),
        component,
    }
}

fn tool_event() -> BuildEventKind {
    BuildEventKind::BazelEvent(EventPayload {
        type_url: "type.googleapis.com/build_event_stream.BuildEvent".to_string(),
        value: vec![1, 2, 3],
    })
}

fn lifecycle_request(
    stream_id: Option<StreamId>,
    sequence_number: i64,
    event_time: Option<Timestamp>,
    event: Option<BuildEventKind>,
) -> PublishLifecycleEventRequest {
    PublishLifecycleEventRequest {
        build_event: Some(OrderedBuildEvent {
            stream_id,
            sequence_number,
            event: Some(BuildEventEnvelope { event_time, event }),
        }),
    }
}

fn stream_request(
    stream_id: Option<StreamId>,
    sequence_number: i64,
    event: Option<BuildEventKind>,
) -> PublishBuildToolEventStreamRequest {
    PublishBuildToolEventStreamRequest {
        ordered_build_event: Some(OrderedBuildEvent {
            stream_id,
            sequence_number,
            event: Some(BuildEventEnvelope {
                event_time: None,
                event,
            }),
        }),
    }
}

/// Records every invocation and echoes the supplied stream id.
struct Recorder {
    calls: RefCell<Vec<(StreamId, i64, Option<Timestamp>, BuildEventKind)>>,
}

impl Recorder {
    fn new() -> Recorder {
        Recorder {
            calls: RefCell::new(Vec::new()),
        }
    }
}

impl EventHandler for Recorder {
    fn on_event(
        &self,
        stream_id: StreamId,
        sequence_number: i64,
        event_time: Option<Timestamp>,
        event: BuildEventKind,
    ) -> Result<StreamId, HandlerError> {
        self.calls.borrow_mut().push((
            stream_id.clone(),
            sequence_number,
            event_time,
            event,
        ));
        Ok(stream_id)
    }
}

/// Fails every event whose sequence number matches, echoes the rest.
struct FailOn {
    bad_sequence: i64,
}

impl EventHandler for FailOn {
    fn on_event(
        &self,
        stream_id: StreamId,
        sequence_number: i64,
        _event_time: Option<Timestamp>,
        _event: BuildEventKind,
    ) -> Result<StreamId, HandlerError> {
        if sequence_number == self.bad_sequence {
            Err(HandlerError {
                code: 13,
                message: "rejected".to_string(),
            })
        } else {
            Ok(stream_id)
        }
    }
}

/// Returns a fixed stream id of its own, whatever the client supplied.
struct Rewriter {
    out: StreamId,
}

impl EventHandler for Rewriter {
    fn on_event(
        &self,
        _stream_id: StreamId,
        _sequence_number: i64,
        _event_time: Option<Timestamp>,
        _event: BuildEventKind,
    ) -> Result<StreamId, HandlerError> {
        Ok(self.out.clone())
    }
}

#[test]
fn lifecycle_invokes_handler_once_with_exact_fields() {
    let server = EventServer::new(Recorder::new());
    let time = Timestamp {
        seconds: 77,
        nanos: 5,
    };
    let req = lifecycle_request(
        Some(sid("b1", "i1", 1)),
        42,
        Some(time),
        Some(BuildEventKind::BuildEnqueued),
    );
    let r = server.publish_lifecycle_event(req);
    assert_eq!(r, Ok(()));
    let calls = server.handler.calls.borrow();
    assert_eq!(calls.len(), 1);
    assert_eq!(
        calls[0],
        (
            sid("b1", "i1", 1),
            42,
            Some(time),
            BuildEventKind::BuildEnqueued
        )
    );
}

#[test]
fn lifecycle_without_build_event_is_empty_success() {
    let server = EventServer::new(Recorder::new());
    let r = server.publish_lifecycle_event(PublishLifecycleEventRequest { build_event: None });
    assert_eq!(r, Ok(()));
    assert_eq!(server.handler.calls.borrow().len(), 0);
}

#[test]
fn lifecycle_without_event_kind_is_empty_success() {
    let server = EventServer::new(Recorder::new());
    let time = Timestamp {
        seconds: 1,
        nanos: 0,
    };
    let r = server.publish_lifecycle_event(lifecycle_request(
        Some(sid("b", "i", 0)),
        1,
        Some(time),
        None,
    ));
    assert_eq!(r, Ok(()));
    let r = server.publish_lifecycle_event(PublishLifecycleEventRequest {
        build_event: Some(OrderedBuildEvent {
            stream_id: Some(sid("b", "i", 0)),
            sequence_number: 1,
            event: None,
        }),
    });
    assert_eq!(r, Ok(()));
    assert_eq!(server.handler.calls.borrow().len(), 0);
}

#[test]
fn lifecycle_missing_stream_id_is_protocol_violation() {
    let server = EventServer::new(Recorder::new());
    let time = Timestamp {
        seconds: 1,
        nanos: 0,
    };
    let r = server.publish_lifecycle_event(lifecycle_request(
        None,
        1,
        Some(time),
        Some(BuildEventKind::BuildEnqueued),
    ));
    assert_eq!(
        r,
        Err(PublishError::Violation(ProtocolViolation::MissingStreamId))
    );
    assert_eq!(server.handler.calls.borrow().len(), 0);
}

#[test]
fn lifecycle_missing_event_time_is_protocol_violation() {
    let server = EventServer::new(Recorder::new());
    let r = server.publish_lifecycle_event(lifecycle_request(
        Some(sid("b", "i", 1)),
        1,
        None,
        Some(BuildEventKind::BuildFinalized { status: 0 }),
    ));
    assert_eq!(
        r,
        Err(PublishError::Violation(ProtocolViolation::MissingEventTime))
    );
    assert_eq!(server.handler.calls.borrow().len(), 0);
}

#[test]
fn lifecycle_handler_failure_surfaces_verbatim() {
    let server = EventServer::new(FailOn { bad_sequence: 9 });
    let time = Timestamp {
        seconds: 0,
        nanos: 0,
    };
    let r = server.publish_lifecycle_event(lifecycle_request(
        Some(sid("b", "i", 1)),
        9,
        Some(time),
        Some(BuildEventKind::BuildEnqueued),
    ));
    let expected = HandlerError {
        code: 13,
        message: "rejected".to_string(),
    };
    assert_eq!(r, Err(PublishError::Handler(expected.clone())));
    assert_eq!(PublishError::Handler(expected).status_code(), 13);
}

#[test]
fn streaming_three_events_acknowledged_in_order() {
    let server = EventServer::new(Recorder::new());
    let id = sid("b1", "i1", TOOL);
    let inbound = vec![
        stream_request(Some(id.clone()), 1, Some(tool_event())),
        stream_request(Some(id.clone()), 2, Some(tool_event())),
        stream_request(Some(id.clone()), 3, Some(tool_event())),
    ];
    let out = server.process_stream(inbound);
    assert_eq!(out.len(), 3);
    for (k, ack) in out.iter().enumerate() {
        let resp = ack.as_ref().expect("acknowledgment expected");
        assert_eq!(resp.stream_id, Some(id.clone()));
        assert_eq!(resp.sequence_number, k as i64 + 1);
    }
    assert_eq!(server.handler.calls.borrow().len(), 3);
}

#[test]
fn streaming_failed_event_does_not_abort_the_stream() {
    let server = EventServer::new(FailOn { bad_sequence: 2 });
    let id = sid("b1", "i1", TOOL);
    let inbound = vec![
        stream_request(Some(id.clone()), 1, Some(tool_event())),
        stream_request(Some(id.clone()), 2, Some(tool_event())),
        stream_request(Some(id.clone()), 3, Some(tool_event())),
    ];
    let out = server.process_stream(inbound);
    assert_eq!(out.len(), 3);
    assert!(out[0].is_ok());
    assert_eq!(
        out[1],
        Err(PublishError::Handler(HandlerError {
            code: 13,
            message: "rejected".to_string(),
        }))
    );
    let third = out[2].as_ref().expect("later event still acknowledged");
    assert_eq!(third.sequence_number, 3);
}

#[test]
fn streaming_acknowledgment_carries_handler_chosen_stream_id() {
    let rewritten = sid("other-build", "other-invocation", 1);
    let server = EventServer::new(Rewriter {
        out: rewritten.clone(),
    });
    let out = server.process_stream(vec![stream_request(
        Some(sid("b1", "i1", TOOL)),
        5,
        Some(tool_event()),
    )]);
    assert_eq!(out.len(), 1);
    let resp = out[0].as_ref().expect("acknowledgment expected");
    assert_eq!(resp.stream_id, Some(rewritten));
    assert_eq!(resp.sequence_number, 5);
}

#[test]
fn streaming_missing_fields_are_protocol_violations() {
    let server = EventServer::new(Recorder::new());
    let r = server.handle_stream_item(PublishBuildToolEventStreamRequest {
        ordered_build_event: None,
    });
    assert_eq!(
        r,
        Err(PublishError::Violation(
            ProtocolViolation::MissingOrderedEvent
        ))
    );
    let r = server.handle_stream_item(stream_request(None, 1, Some(tool_event())));
    assert_eq!(
        r,
        Err(PublishError::Violation(ProtocolViolation::MissingStreamId))
    );
    let r = server.handle_stream_item(stream_request(Some(sid("b", "i", TOOL)), 1, None));
    assert_eq!(
        r,
        Err(PublishError::Violation(ProtocolViolation::MissingEvent))
    );
    let r = server.handle_stream_item(PublishBuildToolEventStreamRequest {
        ordered_build_event: Some(OrderedBuildEvent {
            stream_id: Some(sid("b", "i", TOOL)),
            sequence_number: 1,
            event: None,
        }),
    });
    assert_eq!(
        r,
        Err(PublishError::Violation(ProtocolViolation::MissingEvent))
    );
    assert_eq!(server.handler.calls.borrow().len(), 0);
}

#[test]
fn streaming_stops_at_first_transport_error() {
    let server = EventServer::new(Recorder::new());
    let id = sid("b1", "i1", TOOL);
    let broken = TransportError {
        code: 14,
        message: "connection reset".to_string(),
    };
    let inbound = vec![
        Ok(stream_request(Some(id.clone()), 1, Some(tool_event()))),
        Ok(stream_request(Some(id.clone()), 2, Some(tool_event()))),
        Err(broken),
        Ok(stream_request(Some(id.clone()), 3, Some(tool_event()))),
    ];
    let out = server.process_stream_until_error(inbound);
    assert_eq!(out.len(), 2);
    for (k, ack) in out.iter().enumerate() {
        let resp = ack.as_ref().expect("acknowledgment expected");
        assert_eq!(resp.sequence_number, k as i64 + 1);
    }
    assert_eq!(server.handler.calls.borrow().len(), 2);
}

#[test]
fn streaming_empty_inbound_yields_empty_outbound() {
    let server = EventServer::new(Recorder::new());
    let out = server.process_stream(Vec::new());
    assert!(out.is_empty());
}

/// Echoes every stream id, but blocks forever on streams of one build:
/// stands in for a handler that never returns.
#[derive(Clone)]
struct StallOn {
    build: String,
    latch: Arc<Mutex<Receiver<()>>>,
}

impl EventHandler for StallOn {
    fn on_event(
        &self,
        stream_id: StreamId,
        _sequence_number: i64,
        _event_time: Option<Timestamp>,
        _event: BuildEventKind,
    ) -> Result<StreamId, HandlerError> {
        if stream_id.build_id == self.build {
            // No message ever arrives here, so the receive blocks forever.
            let latch = self.latch.lock().unwrap();
            let _ = latch.recv();
        }
        Ok(stream_id)
    }
}

#[test]
fn stalled_call_does_not_block_a_concurrent_call() {
    let (keep_alive, latch) = std::sync::mpsc::channel::<()>();
    let server = EventServer::new(StallOn {
        build: "stuck".to_string(),
        latch: Arc::new(Mutex::new(latch)),
    });
    let runtime = tokio::runtime::Builder::new_multi_thread()
        .worker_threads(2)
        .build()
        .unwrap();
    let stalled_server = server.clone();
    let stalled = runtime.spawn(async move {
        stalled_server.process_stream(vec![stream_request(
            Some(sid("stuck", "i1", TOOL)),
            1,
            Some(tool_event()),
        )])
    });
    let live_server = server.clone();
    let live = runtime.spawn(async move {
        live_server.process_stream(vec![stream_request(
            Some(sid("b1", "i1", TOOL)),
            1,
            Some(tool_event()),
        )])
    });
    let out = runtime.block_on(live).unwrap();
    assert_eq!(out.len(), 1);
    let resp = out[0].as_ref().expect("acknowledgment expected");
    assert_eq!(resp.stream_id, Some(sid("b1", "i1", TOOL)));
    assert!(!stalled.is_finished());
    runtime.shutdown_background();
    drop(keep_alive);
}

#[test]
fn violation_and_decode_errors_are_client_errors() {
    assert_eq!(
        PublishError::Violation(ProtocolViolation::MissingStreamId).status_code(),
        3
    );
    assert_eq!(PublishError::Decode.status_code(), 3);
}
