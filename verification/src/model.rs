//! Data model of the publish service: stream identity, sequencing, event
//! envelopes and the error taxonomy.
//!
//! Every message is held as plain values, so that contracts can speak of a
//! request field-for-field. A value of these types is built per request from
//! the decoded wire envelope and dropped once the response is out.

use vstd::prelude::*;

verus! {

/// Identifies one logical ordered channel of events. Two stream ids denote
/// the same channel exactly when all three fields match. Acknowledgments are
/// correlated to inbound events through this key.
#[derive(Clone, Debug, PartialEq, Eq)]
pub struct StreamId {
    /// Identifier of the build this stream belongs to.
    pub build_id: String,
    /// Identifier of the invocation within the build.
    pub invocation_id: String,
    /// Which component reports on this stream (controller, tool, ...),
    /// carried as the wire enum's numeric value.
    pub component: i32,
}

/// A point in time, as whole seconds and a nanosecond remainder.
#[derive(Clone, Copy, Debug, PartialEq, Eq)]
pub struct Timestamp {
    pub seconds: i64,
    pub nanos: i32,
}

/// A typed-and-tagged opaque byte blob: the carrier of a tool-reported build
/// event before it is decoded against the build-event schema.
#[derive(Clone, Debug, PartialEq, Eq)]
pub struct EventPayload {
    /// Names the schema type of `value`.
    pub type_url: String,
    /// The encoded message body.
    pub value: Vec<u8>,
}

/// The kind discriminator of a build event: either one of the lifecycle
/// transitions of the build as a whole, or an opaque tool-reported payload.
/// This layer never interprets the payload; it only routes it.
#[derive(Clone, Debug, PartialEq, Eq)]
pub enum BuildEventKind {
    /// The build was put on the queue.
    BuildEnqueued,
    /// An attempt at running the invocation began.
    InvocationAttemptStarted { attempt_number: i64 },
    /// An attempt at running the invocation ended with the given exit code.
    InvocationAttemptFinished { exit_code: i32 },
    /// The build as a whole ended with the given status code.
    BuildFinalized { status: i32 },
    /// One component finished writing its event stream.
    ComponentStreamFinished,
    /// An opaque, schema-typed payload reported by the build tool.
    BazelEvent(EventPayload),
}

/// A build event together with the time it happened. Both fields arrive
/// optional on the wire.
#[derive(Clone, Debug, PartialEq, Eq)]
pub struct BuildEventEnvelope {
    pub event_time: Option<Timestamp>,
    pub event: Option<BuildEventKind>,
}

/// An event placed within its stream: the stream it belongs to and its
/// position there. The protocol does not enforce monotonicity of
/// `sequence_number` at this layer; the handler is trusted to validate
/// ordering.
#[derive(Clone, Debug, PartialEq, Eq)]
pub struct OrderedBuildEvent {
    pub stream_id: Option<StreamId>,
    pub sequence_number: i64,
    pub event: Option<BuildEventEnvelope>,
}

/// Request of the unary lifecycle call.
#[derive(Clone, Debug, PartialEq, Eq)]
pub struct PublishLifecycleEventRequest {
    pub build_event: Option<OrderedBuildEvent>,
}

/// One inbound item of the bidirectional streaming call.
#[derive(Clone, Debug, PartialEq, Eq)]
pub struct PublishBuildToolEventStreamRequest {
    pub ordered_build_event: Option<OrderedBuildEvent>,
}

/// One outbound acknowledgment of the streaming call: echoes the stream id
/// chosen by the handler and the acknowledged event's original sequence
/// number.
#[derive(Clone, Debug, PartialEq, Eq)]
pub struct PublishBuildToolEventStreamResponse {
    pub stream_id: Option<StreamId>,
    pub sequence_number: i64,
}

/// Which required field a malformed request left absent.
#[derive(Clone, Copy, Debug, PartialEq, Eq)]
pub enum ProtocolViolation {
    /// A streaming item carried no ordered build event at all.
    MissingOrderedEvent,
    /// An event was populated but carried no stream id.
    MissingStreamId,
    /// A populated lifecycle event carried no event time.
    MissingEventTime,
    /// A streaming item's ordered event carried no event, or an event with
    /// no kind.
    MissingEvent,
}

/// Failure reported by the injected handler. `code` is the gRPC status code
/// the failure surfaces as; `message` is its human-readable detail.
#[derive(Clone, Debug, PartialEq, Eq)]
pub struct HandlerError {
    pub code: u32,
    pub message: String,
}

/// Transport-level failure while reading the inbound stream of a streaming
/// call. It terminates that call's worker; acknowledgments already produced
/// are still delivered.
#[derive(Clone, Debug, PartialEq, Eq)]
pub struct TransportError {
    pub code: u32,
    pub message: String,
}

/// Everything that can go wrong while publishing one event. Each error is
/// local to the request or stream item that caused it.
#[derive(Clone, Debug, PartialEq, Eq)]
pub enum PublishError {
    /// A required field was absent in the decoded request.
    Violation(ProtocolViolation),
    /// The opaque event byte blob does not parse against the expected
    /// schema.
    Decode,
    /// The injected handler rejected the event.
    Handler(HandlerError),
}

impl PublishError {
    /// The gRPC status code this error surfaces to the client as: protocol
    /// violations and decode failures are client errors; a handler failure
    /// keeps the code the handler chose.
    pub open spec fn status_code_spec(self) -> u32 {
        match self {
            PublishError::Violation(_) => crate::INVALID_ARGUMENT,
            PublishError::Decode => crate::INVALID_ARGUMENT,
            PublishError::Handler(h) => h.code,
        }
    }

    /// Returns the gRPC status code of this error.
    pub fn status_code(&self) -> (r: u32)
        ensures
            r == self.status_code_spec(),
    {
        match self {
            PublishError::Violation(_) => crate::INVALID_ARGUMENT,
            PublishError::Decode => crate::INVALID_ARGUMENT,
            PublishError::Handler(h) => h.code,
        }
    }
}

} // verus!
