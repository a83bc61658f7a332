//! Core of a message-driven data-processing node.
//!
//! The node receives loosely typed envelopes over a publish/subscribe
//! transport, recovers a strongly typed payload variant from each one,
//! processes it, keeps running counters, and assembles an acknowledgment
//! envelope.  This crate holds the verified pipeline: the structured-value
//! model, the flexible decoder, the variant processor, the metrics
//! aggregator, and the response builder.  Transport, randomness, and wire
//! serialization live outside.

pub mod decode;
pub mod encode;
pub mod metrics;
pub mod numfmt;
pub mod packet;
pub mod payload;
pub mod process;
pub mod response;
pub mod time;
pub mod value;
