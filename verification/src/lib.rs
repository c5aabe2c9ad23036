//! Client half of a message-passing layer over QUIC.
//!
//! The crate holds what a client decides: the state of the client driver and
//! the events it raises, what a caller is answered when a queue is full or
//! closed, the wiring of the queues between the synchronous client and its
//! connection task, and the steps of the connection task itself. Opening
//! sockets, awaiting streams and parsing socket addresses is left to the
//! program around it.

pub mod address;
pub mod certificate;
pub mod channel;
pub mod client;
pub mod connection;
pub mod error;
pub mod laws;
pub mod streams;
