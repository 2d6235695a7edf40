//! A client/server engine for a message-bus style RPC protocol: request/reply
//! correlation by serial, publish/subscribe signal filtering, and a generic
//! method/property dispatch framework over a tree of addressable objects.
//!
//! Wire-level encoding and the socket layer are outside the engine: a
//! [`channel::Channel`] models the transport as queues of [`message::Message`]
//! values, and an external reactor drains them.

pub mod cells;
pub mod channel;
pub mod connection;
pub mod crossroads;
pub mod err;
pub mod filters;
pub mod handlers;
pub mod laws;
pub mod message;
pub mod proxy;
pub mod reply;
pub mod rule;
pub mod search;
pub mod table;

pub use err::Error;
pub mod nonblock;
