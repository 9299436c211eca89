//! A local log-forwarding agent: accepts log text from a per-user local
//! channel or from a one-shot standard-input stream, and relays each chunk
//! to a remote HTTPS logging endpoint identified by host and key.
//!
//! This crate holds the verified core: resolving the local channel address,
//! composing the remote endpoint URL, the per-connection reader state
//! machine, the pipe-mode message assembly, and the server lifecycle
//! decisions. The surrounding process (argument handling, the socket and
//! HTTP I/O, signal delivery) drives these functions from outside.

pub mod config;
pub mod endpoint;
pub mod pipe;
pub mod reader;
pub mod resolver;
pub mod server;
pub mod sink;
