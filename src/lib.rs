//! Framing and session engine for a remotely driven car: a fixed-capacity ring
//! buffer with contiguous-window access, the binary command codec, the telemetry
//! record and its snapshots, and the per-connection read/dispatch/respond decisions.

pub mod buffer;
pub mod client;
pub mod command;
pub mod session;
pub mod telemetry;

pub use telemetry::{
    Climate, CommandType, Response, ResponseType, Statistics, REQUEST_HEADER_LEN, RESPONSE_HEADER_LEN,
};
