//! Client-side implementation of a lattice control protocol: subject
//! addressing, a deterministic envelope codec, signed invocations, and the
//! decision logic of single-reply and scatter-gather bus conversations.
use vstd::prelude::*;

pub mod broker;
pub mod client;
pub mod codec;
pub mod inv;
pub mod keys;
pub mod rpc;
pub mod types;

pub use crate::client::Client;
pub use crate::codec::deserialize;
pub use crate::codec::serialize;

verus! {

/// Failures surfaced by the control protocol, each carrying a short
/// human-readable message.
#[derive(Debug)]
pub enum ControlError {
    /// The bus refused the publish or request operation itself.
    TransportError(String),
    /// No reply arrived within the configured deadline.
    Timeout(String),
    /// A value could not be serialized for the wire.
    EncodingError(String),
    /// A reply could not be parsed into the expected type.
    DecodingError(String),
}

} // verus!
