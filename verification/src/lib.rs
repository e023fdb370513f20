//! Wire-level mechanics for speaking gRPC over HTTP/2 behind a generic
//! request/response framework: a length-delimited frame codec, a response
//! body with one-shot trailing metadata, per-request context state, and the
//! fixed mapping from application outcomes to protocol status codes.

pub mod codec;
pub mod digits;
pub mod headers;
pub mod body;
pub mod context;
pub mod status;
pub mod error;
pub mod server;
