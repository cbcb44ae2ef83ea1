//! Client side of a virtual input-method protocol.
//!
//! The crate holds the decisions of an input-method client: which globals of
//! the compositor can be bound, how staged text and content hints are gathered
//! into one outgoing batch, how the session follows the compositor's
//! activation events, and how one pass over the pending messages is routed to
//! the session and to the host's callbacks. Reading from and writing to the
//! wire is left to the program that embeds the crate: it hands incoming
//! messages in as plain values and takes the outgoing batches out.

pub mod connection;
pub mod error;
pub mod hint;
pub mod host;
pub mod laws;
pub mod queue;
pub mod registry;
pub mod session;
pub mod setup;
