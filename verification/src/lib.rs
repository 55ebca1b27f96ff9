//! Outbound wire-encoding layer of a length-delimited streaming RPC protocol.
//!
//! The library turns a finite sequence of already-serialized application
//! messages into a stream of wire frames (a five-byte header followed by an
//! optionally compressed payload), drives that encoding lazily as the
//! consumer pulls, and exposes the result as a body with an end-of-stream
//! flag and a one-shot status trailer.

pub mod body;
pub mod config;
pub mod encode;
pub mod frame;
pub mod jsonrpc;
pub mod status;
