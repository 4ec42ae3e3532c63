//! Core of a source that turns object-change notifications from a queue into
//! decoded, individually acknowledged event batches.
//!
//! Every decision of the pull, fetch, decode, deliver and acknowledge loop is a
//! function from plain values to plain values here; the code that talks to the
//! queue, the object store, the identity provider and the downstream pipeline
//! calls these functions and performs what they return.

pub mod backoff;
pub mod config;
pub mod credential;
pub mod decode;
pub mod endpoint;
pub mod fetch;
pub mod framing;
pub mod inflight;
pub mod notification;
pub mod puller;
pub mod sink;
pub mod tracker;
