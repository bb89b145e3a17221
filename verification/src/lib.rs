//! A request/response exchange over an encrypted, multiplexed transport,
//! reduced to its decisions.
//!
//! The crate holds everything such a server and its client decide: which
//! body answers which path, what is written to a request stream and in what
//! order, how a connection and the listening endpoint react to what the
//! transport reports, how the client walks its list of requests, and how the
//! security configuration of both roles is put together. Sockets, streams
//! and tasks belong to the program around it, which performs each action the
//! state machines here hand out and reports back what happened.

pub mod acceptor;
pub mod client;
pub mod exchange;
pub mod identity;
pub mod isolation;
pub mod message;
pub mod routes;
pub mod security;
pub mod session;
pub mod settings;
pub mod text;
pub mod tls;
