//! Lifecycle control for a request-serving process: a cooperative cancellation
//! flag shared by every thread of a server, the decisions of the server's
//! accept, connection and supervisor loops that poll it, and random
//! identifiers for requests.
//!
//! The library neither opens sockets nor starts threads. Its loops are state
//! machines: the caller does the outside work that a step asks for and reports
//! how it ended.

pub mod cancellation;
pub mod error;
pub mod server;
pub mod utils;
