//! Verified core logic for a pair of local-socket echo services.
//!
//! The crate holds the decision and message-construction logic of a
//! stream (connection-oriented) echo service and a datagram echo
//! service: classifying receive results, driving partial-send retries,
//! planning address setup, and building replies. The blocking socket
//! calls themselves live outside the library and hand it plain values.
pub mod config;
pub mod datagram;
pub mod responder;
pub mod setup;
pub mod stream;
pub mod text;
