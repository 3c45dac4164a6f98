//! A minimal static-content responder, verified with Verus.
//!
//! The crate holds the logic of a small single-host file server: the
//! line-oriented request protocol (parsing, method dispatch, resource
//! resolution with traversal rejection, response framing) and the
//! decision core of a fixed-size worker pool. All I/O — accepting
//! connections, reading sockets, touching the filesystem — lives
//! outside the library, which works on plain byte sequences.

pub mod bytes;
pub mod config;
pub mod request;
pub mod resolve;
pub mod response;
pub mod handler;
pub mod pool;
