//! Decision core of a host-bridge networking facade.
//!
//! A single-threaded host drives endpoints, connections and streams that live
//! on a background executor. Every operation of the facade is cut at its
//! suspension points: the step before a suspension inspects the facade and
//! names the transport work to do, the step after it takes what the transport
//! reported and produces the object, the error, or the message for the host.
//! The steps are plain functions on plain values, so the caller decides where
//! locks are taken and where tasks run, and none of the steps ever holds a
//! facade across network I/O.

pub mod bridge;
pub mod connection;
pub mod endpoint;
pub mod error;
pub mod gossip;
pub mod handle;
pub mod packaging;
pub mod peer;
pub mod router;
pub mod runtime;
pub mod streams;
