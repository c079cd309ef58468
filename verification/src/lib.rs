//! Verified core of a distributed media-processing job queue.
//!
//! Tasks move through a fixed lifecycle (pending, processing, and the
//! terminal states completed, failed and cancelled), are distributed to
//! workers through per-type FIFO queues, and can be cancelled either before
//! dispatch (by scrubbing the queue) or in flight (by a broadcast signal).
//! The durable record store, the queues and the metrics counters are modelled
//! in memory here; the thin driver binary wires the same decision logic to
//! real document-store and key/value-store connections.

pub mod clock;
pub mod dto;
pub mod engine;
pub mod error;
pub mod ident;
pub mod laws;
pub mod media;
pub mod metrics;
pub mod model;
pub mod numeric;
pub mod processors;
pub mod pubsub;
pub mod queue;
pub mod service;
pub mod store;
pub mod strutil;
pub mod task;
