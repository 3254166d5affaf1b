//! Server-side core of Bazel's Build Event Protocol publish service.
//!
//! Build clients stream structured build-lifecycle events to this service;
//! each event is forwarded to an injected handler and acknowledged in order.
//! This crate holds the verified core: the stream-identity and sequencing
//! model, the envelope validation rules for both RPC surfaces, the payload
//! codec, and the per-item decision logic of the streaming pipeline. The
//! transport (gRPC framing, task spawning, channels) lives outside it.

use vstd::prelude::*;

pub mod codec;
pub mod model;
pub mod service;

verus! {

/// gRPC status code for a request the client formed incorrectly.
pub const INVALID_ARGUMENT: u32 = 3;

} // verus!
