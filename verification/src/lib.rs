//! A minimal line-oriented record store: requests are parsed into typed
//! commands, record payloads travel hex-encoded over the wire, records are
//! stored as individual files grouped into named piles, and a linear scan
//! answers field-equality queries.
//!
//! This crate holds the verified core: the hex codec, the identifier
//! generator, the request parser, the response encoder, the storage planner
//! and the per-connection session discipline.  The surrounding process
//! (sockets, the filesystem, configuration) drives these functions from an
//! unverified front end.

pub mod handler;
pub mod hex;
pub mod protocol;
pub mod session;
pub mod storage;
pub mod text;
pub mod uuid;
