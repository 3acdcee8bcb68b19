//! Core of an ingestion pipeline for a desktop music-library manager.
//!
//! A batch of local audio files with finalized metadata is admitted into a
//! bounded FIFO queue. A single drain pass runs each item through a linear
//! state machine: transcode to a compressed sibling, upload the original and
//! the compressed artifact to an object store, insert track and album
//! documents into a document store, and compensate (delete what was
//! committed) on failure or cancellation. Progress is reported per item
//! through an ordered event log.
//!
//! The pipeline itself performs no I/O. Every external effect is requested
//! as an [`pipeline::Action`] and its result is reported back as an
//! [`pipeline::Outcome`]; a thin driver (the application) performs the calls.
//! The verified contracts pin down the order of effects, the progress events,
//! and what must have been cleaned up when an item reaches a terminal state.

pub mod status;
pub mod strings;
pub mod paths;
pub mod mime;
pub mod error;
pub mod metadata;
pub mod progress;
pub mod item;
pub mod pipeline;
pub mod laws;
pub mod transcoding;
pub mod model;
