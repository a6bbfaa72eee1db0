//! A command dispatch protocol for the control plane of a CXL fabric.
//!
//! Peers exchange short commands over a connection, one request line and one
//! response line each. The library holds the vocabulary of commands, the
//! catalog that maps their identifiers to handlers, the line codec, and the
//! decisions of the three parties to an exchange: the requester, the
//! responder and the acceptor that hands connections to it. It performs no
//! input or output itself: a driver reads and writes, and reports what
//! happened.

pub mod acceptor;
pub mod catalog;
pub mod options;
pub mod requester;
pub mod responder;
pub mod response;
pub mod roles;
pub mod subcommands;
pub mod vocabulary;
pub mod wire;
