//! The two RPC surfaces of the publish service.
//!
//! Each surface is split into a pure decision step (what the envelope asks
//! for: skip, reject, or invoke the handler with exactly which fields) and an
//! outcome step (how a handler result maps to the response). The transport
//! loop outside the crate drives these per request or per stream item.

use vstd::prelude::*;
use crate::model::{
    BuildEventEnvelope, BuildEventKind, HandlerError, OrderedBuildEvent, ProtocolViolation,
    PublishBuildToolEventStreamRequest, PublishBuildToolEventStreamResponse, PublishError,
    PublishLifecycleEventRequest, StreamId, Timestamp, TransportError,
};

verus! {

/// The capability the service forwards events to. Implementations interpret
/// decoded events; this layer only routes them. On success the handler
/// returns the stream id to echo in the acknowledgment, which may differ
/// from the id supplied by the client. Implementations must be safe for
/// concurrent use by many simultaneous calls.
pub trait EventHandler {
    /// Receives one decoded event together with its stream position.
    fn on_event(
        &self,
        stream_id: StreamId,
        sequence_number: i64,
        event_time: Option<Timestamp>,
        event: BuildEventKind,
    ) -> Result<StreamId, HandlerError>;
}

/// What one lifecycle request asks the service to do.
#[derive(Clone, Debug, PartialEq, Eq)]
pub enum LifecycleAction {
    /// The request carried no populated event: succeed without touching the
    /// handler. Tolerating such envelopes is deliberate.
    Skip,
    /// The request carried an event but left a required field absent.
    Reject(ProtocolViolation),
    /// The request is well formed: invoke the handler once with exactly
    /// these fields.
    Invoke {
        stream_id: StreamId,
        sequence_number: i64,
        event_time: Timestamp,
        event: BuildEventKind,
    },
}

/// The decision a lifecycle request resolves to: skip when the event, its
/// envelope or its kind is absent; reject when a populated event misses its
/// stream id or its time; invoke the handler otherwise.
pub open spec fn lifecycle_action_spec(req: PublishLifecycleEventRequest) -> LifecycleAction {
    match req.build_event {
        None => LifecycleAction::Skip,
        Some(ordered) => match ordered.event {
            None => LifecycleAction::Skip,
            Some(envelope) => match envelope.event {
                None => LifecycleAction::Skip,
                Some(kind) => match (ordered.stream_id, envelope.event_time) {
                    (None, _) => LifecycleAction::Reject(ProtocolViolation::MissingStreamId),
                    (Some(_), None) => LifecycleAction::Reject(ProtocolViolation::MissingEventTime),
                    (Some(sid), Some(time)) => LifecycleAction::Invoke {
                        stream_id: sid,
                        sequence_number: ordered.sequence_number,
                        event_time: time,
                        event: kind,
                    },
                },
            },
        },
    }
}

/// Resolves one lifecycle request to its action.
pub fn lifecycle_action(req: PublishLifecycleEventRequest) -> (r: LifecycleAction)
    ensures
        r == lifecycle_action_spec(req),
{
    match req.build_event {
        None => LifecycleAction::Skip,
        Some(ordered) => match ordered.event {
            None => LifecycleAction::Skip,
            Some(envelope) => match envelope.event {
                None => LifecycleAction::Skip,
                Some(kind) => match (ordered.stream_id, envelope.event_time) {
                    (None, _) => LifecycleAction::Reject(ProtocolViolation::MissingStreamId),
                    (Some(_), None) => LifecycleAction::Reject(ProtocolViolation::MissingEventTime),
                    (Some(sid), Some(time)) => LifecycleAction::Invoke {
                        stream_id: sid,
                        sequence_number: ordered.sequence_number,
                        event_time: time,
                        event: kind,
                    },
                },
            },
        },
    }
}

/// What one streaming item asks the service to do: reject when the ordered
/// event, its stream id, or its event kind is absent; invoke the handler
/// otherwise. Streamed tool events carry no timestamp at this layer.
#[derive(Clone, Debug, PartialEq, Eq)]
pub enum StreamAction {
    /// The item left a required field absent.
    Reject(ProtocolViolation),
    /// The item is well formed: invoke the handler once with these fields
    /// and no timestamp.
    Invoke { stream_id: StreamId, sequence_number: i64, event: BuildEventKind },
}

/// The decision a streaming item resolves to. Unlike the lifecycle surface,
/// an absent event here is a protocol violation, not a tolerated no-op: every
/// inbound item must be answered by exactly one outbound item.
pub open spec fn stream_item_action_spec(req: PublishBuildToolEventStreamRequest) -> StreamAction {
    match req.ordered_build_event {
        None => StreamAction::Reject(ProtocolViolation::MissingOrderedEvent),
        Some(ordered) => match ordered.stream_id {
            None => StreamAction::Reject(ProtocolViolation::MissingStreamId),
            Some(sid) => match ordered.event {
                None => StreamAction::Reject(ProtocolViolation::MissingEvent),
                Some(envelope) => match envelope.event {
                    None => StreamAction::Reject(ProtocolViolation::MissingEvent),
                    Some(kind) => StreamAction::Invoke {
                        stream_id: sid,
                        sequence_number: ordered.sequence_number,
                        event: kind,
                    },
                },
            },
        },
    }
}

/// Resolves one streaming item to its action.
pub fn stream_item_action(req: PublishBuildToolEventStreamRequest) -> (r: StreamAction)
    ensures
        r == stream_item_action_spec(req),
{
    match req.ordered_build_event {
        None => StreamAction::Reject(ProtocolViolation::MissingOrderedEvent),
        Some(ordered) => match ordered.stream_id {
            None => StreamAction::Reject(ProtocolViolation::MissingStreamId),
            Some(sid) => match ordered.event {
                None => StreamAction::Reject(ProtocolViolation::MissingEvent),
                Some(envelope) => match envelope.event {
                    None => StreamAction::Reject(ProtocolViolation::MissingEvent),
                    Some(kind) => StreamAction::Invoke {
                        stream_id: sid,
                        sequence_number: ordered.sequence_number,
                        event: kind,
                    },
                },
            },
        },
    }
}

/// The lifecycle response a handler result maps to: success is the empty
/// response, whichever stream id the handler chose; failure carries the
/// handler's error verbatim.
pub open spec fn lifecycle_outcome_spec(hres: Result<StreamId, HandlerError>) -> Result<
    (),
    PublishError,
> {
    match hres {
        Ok(_) => Ok(()),
        Err(e) => Err(PublishError::Handler(e)),
    }
}

/// Maps one handler result to the unary call's response.
pub fn lifecycle_outcome(hres: Result<StreamId, HandlerError>) -> (r: Result<(), PublishError>)
    ensures
        r == lifecycle_outcome_spec(hres),
{
    match hres {
        Ok(_) => Ok(()),
        Err(e) => Err(PublishError::Handler(e)),
    }
}

/// The acknowledgment a handler result maps to: success pairs the
/// handler-returned stream id with the acknowledged event's original
/// sequence number; failure carries the handler's error verbatim.
pub open spec fn ack_spec(
    hres: Result<StreamId, HandlerError>,
    sequence_number: i64,
) -> Result<PublishBuildToolEventStreamResponse, PublishError> {
    match hres {
        Ok(id) => Ok(PublishBuildToolEventStreamResponse {
            stream_id: Some(id),
            sequence_number: sequence_number,
        }),
        Err(e) => Err(PublishError::Handler(e)),
    }
}

/// Maps one handler result to the outbound acknowledgment for the event at
/// `sequence_number`.
pub fn stream_ack(
    hres: Result<StreamId, HandlerError>,
    sequence_number: i64,
) -> (r: Result<PublishBuildToolEventStreamResponse, PublishError>)
    ensures
        r == ack_spec(hres, sequence_number),
{
    match hres {
        Ok(id) => Ok(PublishBuildToolEventStreamResponse {
            stream_id: Some(id),
            sequence_number: sequence_number,
        }),
        Err(e) => Err(PublishError::Handler(e)),
    }
}

/// Holds of the outbound item answering one inbound streaming item: a
/// malformed item is answered by exactly its protocol violation, and a well
/// formed one by the acknowledgment mapping of some handler result, carrying
/// the item's original sequence number. The relation mentions only this one
/// item, so one item's outcome never depends on its neighbours.
pub open spec fn item_acknowledged(
    req: PublishBuildToolEventStreamRequest,
    out: Result<PublishBuildToolEventStreamResponse, PublishError>,
) -> bool {
    match stream_item_action_spec(req) {
        StreamAction::Reject(v) => out == Err::<PublishBuildToolEventStreamResponse, PublishError>(
            PublishError::Violation(v),
        ),
        StreamAction::Invoke { stream_id, sequence_number, event } => exists|hres:
            Result<StreamId, HandlerError>|
            out == #[trigger] ack_spec(hres, sequence_number),
    }
}

/// A well-formed lifecycle request with a populated event resolves to
/// exactly one handler invocation, carrying exactly the stream id, sequence
/// number, timestamp and event kind the request supplied — never a rewritten
/// or defaulted field.
pub proof fn lemma_lifecycle_invokes_exact(
    req: PublishLifecycleEventRequest,
    ordered: OrderedBuildEvent,
    envelope: BuildEventEnvelope,
    kind: BuildEventKind,
    sid: StreamId,
    time: Timestamp,
)
    requires
        req.build_event == Some(ordered),
        ordered.event == Some(envelope),
        envelope.event == Some(kind),
        ordered.stream_id == Some(sid),
        envelope.event_time == Some(time),
    ensures
        lifecycle_action_spec(req) == (LifecycleAction::Invoke {
            stream_id: sid,
            sequence_number: ordered.sequence_number,
            event_time: time,
            event: kind,
        }),
{
}

/// A lifecycle request with an absent event, an absent envelope or an absent
/// event kind resolves to a skip: the call succeeds with an empty response
/// and the handler is never asked to run.
pub proof fn lemma_lifecycle_empty_skips(req: PublishLifecycleEventRequest)
    requires
        match req.build_event {
            None => true,
            Some(ordered) => match ordered.event {
                None => true,
                Some(envelope) => envelope.event is None,
            },
        },
    ensures
        lifecycle_action_spec(req) == LifecycleAction::Skip,
{
}

/// Binds one concrete handler to the two RPC surfaces. Holds no state beyond
/// the handler; the transport duplicates the server once per streaming call
/// so each call's worker owns its own handle.
#[derive(Clone, Debug)]
pub struct EventServer<H: EventHandler> {
    pub handler: H,
}

impl<H: EventHandler> EventServer<H> {
    /// Wraps a handler as a publish service.
    pub fn new(handler: H) -> (r: Self)
        ensures
            r.handler == handler,
    {
        EventServer { handler }
    }

    /// Processes one unary lifecycle request. An unpopulated request
    /// succeeds without invoking the handler; a populated but malformed one
    /// is rejected as a protocol violation; a well formed one invokes the
    /// handler exactly once, and its failure surfaces verbatim.
    pub fn publish_lifecycle_event(&self, req: PublishLifecycleEventRequest) -> (r: Result<
        (),
        PublishError,
    >)
        ensures
            lifecycle_action_spec(req) == LifecycleAction::Skip ==> r == Ok::<(), PublishError>(()),
            lifecycle_action_spec(req) matches LifecycleAction::Reject(v) ==> r == Err::<
                (),
                PublishError,
            >(PublishError::Violation(v)),
            lifecycle_action_spec(req) matches LifecycleAction::Invoke { .. } ==> exists|
                hres: Result<StreamId, HandlerError>,
            | r == #[trigger] lifecycle_outcome_spec(hres),
    {
        match lifecycle_action(req) {
            LifecycleAction::Skip => Ok(()),
            LifecycleAction::Reject(v) => Err(PublishError::Violation(v)),
            LifecycleAction::Invoke { stream_id, sequence_number, event_time, event } => {
                let hres = self.handler.on_event(stream_id, sequence_number, Some(event_time), event);
                let ghost ghres = hres;
                let r = lifecycle_outcome(hres);
                proof {
                    assert(r == lifecycle_outcome_spec(ghres));
                }
                r
            },
        }
    }

    /// Processes one inbound item of the streaming call and produces the one
    /// outbound item answering it.
    pub fn handle_stream_item(&self, req: PublishBuildToolEventStreamRequest) -> (r: Result<
        PublishBuildToolEventStreamResponse,
        PublishError,
    >)
        ensures
            item_acknowledged(req, r),
    {
        match stream_item_action(req) {
            StreamAction::Reject(v) => Err(PublishError::Violation(v)),
            StreamAction::Invoke { stream_id, sequence_number, event } => {
                let hres = self.handler.on_event(stream_id, sequence_number, None, event);
                let ghost ghres = hres;
                let r = stream_ack(hres, sequence_number);
                proof {
                    assert(r == ack_spec(ghres, sequence_number));
                }
                r
            },
        }
    }

    /// Processes a whole inbound sequence in order: every inbound item is
    /// answered by exactly one outbound item at the same position, and each
    /// answer depends only on its own item (and the handler), so one item's
    /// failure never aborts the rest of the stream.
    pub fn process_stream(&self, inbound: Vec<PublishBuildToolEventStreamRequest>) -> (r: Vec<
        Result<PublishBuildToolEventStreamResponse, PublishError>,
    >)
        ensures
            r@.len() == inbound@.len(),
            forall|k: int|
                0 <= k < inbound@.len() ==> item_acknowledged(inbound@[k], #[trigger] r@[k]),
    {
        let ghost inbound0 = inbound@;
        let mut rest = inbound;
        let mut out: Vec<Result<PublishBuildToolEventStreamResponse, PublishError>> = Vec::new();
        while rest.len() > 0
            invariant
                out@.len() + rest@.len() == inbound0.len(),
                rest@ == inbound0.subrange(out@.len() as int, inbound0.len() as int),
                forall|k: int|
                    0 <= k < out@.len() ==> item_acknowledged(inbound0[k], #[trigger] out@[k]),
            decreases rest@.len(),
        {
            let item = rest.remove(0);
            proof {
                assert(item == inbound0[out@.len() as int]);
                assert(rest@ =~= inbound0.subrange(out@.len() as int + 1, inbound0.len() as int));
            }
            let ack = self.handle_stream_item(item);
            out.push(ack);
        }
        out
    }

    /// Processes an inbound stream as the per-call worker consumes it: items
    /// are answered in order until the stream ends or yields a transport
    /// error; nothing after the first transport error is processed, and the
    /// acknowledgments produced before it are all kept.
    #[verifier::loop_isolation(false)]
    pub fn process_stream_until_error(
        &self,
        inbound: Vec<Result<PublishBuildToolEventStreamRequest, TransportError>>,
    ) -> (r: Vec<Result<PublishBuildToolEventStreamResponse, PublishError>>)
        ensures
            r@.len() == ok_prefix_len(inbound@),
            forall|k: int| 0 <= k < r@.len() ==> (#[trigger] inbound@[k]) is Ok,
            forall|k: int|
                0 <= k < r@.len() ==> item_acknowledged(inbound@[k]->Ok_0, #[trigger] r@[k]),
    {
        let ghost inbound0 = inbound@;
        let mut rest = inbound;
        let mut out: Vec<Result<PublishBuildToolEventStreamResponse, PublishError>> = Vec::new();
        while rest.len() > 0
            invariant
                out@.len() + rest@.len() == inbound0.len(),
                rest@ == inbound0.subrange(out@.len() as int, inbound0.len() as int),
                forall|k: int| 0 <= k < out@.len() ==> (#[trigger] inbound0[k]) is Ok,
                forall|k: int|
                    0 <= k < out@.len() ==> item_acknowledged(
                        inbound0[k]->Ok_0,
                        #[trigger] out@[k],
                    ),
            decreases rest@.len(),
        {
            let item = rest.remove(0);
            let ghost gidx = out@.len() as int;
            proof {
                assert(item == inbound0[gidx]);
                assert(rest@ =~= inbound0.subrange(gidx + 1, inbound0.len() as int));
            }
            match item {
                Err(_) => {
                    proof {
                        lemma_ok_prefix_len(inbound0, gidx);
                    }
                    return out;
                },
                Ok(req) => {
                    let ghost greq = req;
                    let ack = self.handle_stream_item(req);
                    proof {
                        assert(inbound0[gidx] == Ok::<
                            PublishBuildToolEventStreamRequest,
                            TransportError,
                        >(greq));
                    }
                    out.push(ack);
                },
            }
        }
        proof {
            lemma_ok_prefix_len(inbound0, out@.len() as int);
        }
        out
    }
}

/// How many items the worker of a streaming call consumes: the whole stream
/// when no transport error occurs, and everything before the first
/// transport error otherwise.
pub open spec fn ok_prefix_len(
    inbound: Seq<Result<PublishBuildToolEventStreamRequest, TransportError>>,
) -> int
    decreases inbound.len(),
{
    if inbound.len() == 0 {
        0
    } else if inbound[0] is Err {
        0
    } else {
        1 + ok_prefix_len(inbound.drop_first())
    }
}

/// `ok_prefix_len` names the position of the first transport error, or the
/// stream's length when there is none.
proof fn lemma_ok_prefix_len(
    inbound: Seq<Result<PublishBuildToolEventStreamRequest, TransportError>>,
    k: int,
)
    requires
        0 <= k <= inbound.len(),
        forall|j: int| 0 <= j < k ==> inbound[j] is Ok,
        k == inbound.len() || inbound[k] is Err,
    ensures
        ok_prefix_len(inbound) == k,
    decreases k,
{
    if k == 0 {
    } else {
        assert(inbound[0] is Ok);
        lemma_ok_prefix_len(inbound.drop_first(), k - 1);
    }
}

} // verus!
