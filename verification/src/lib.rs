//! Client-side engine for the X Input Method protocol: the registry of input
//! contexts, the queue of creation requests and the routing of server
//! callbacks, written without I/O.
//!
//! Every operation works on plain values and hands back the requests that its
//! caller has to put on the wire.

pub mod context;
pub mod ime;
pub mod inner;
pub mod laws;
pub mod model;
pub mod modifiers;
pub mod protocol;
