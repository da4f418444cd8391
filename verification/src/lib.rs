//! Streaming adapter for backup progress events.
//!
//! The library reads one JSON line at a time, classifies it by its
//! `message_type` discriminant, normalizes it into a typed record
//! (filling documented defaults for optional fields), throttles the
//! high-frequency status kind, and turns the record into a timestamped
//! metric point for a time-series sink. Reading lines and writing
//! points belong to the surrounding program; everything that decides
//! or computes lives here.

pub mod clock;
pub mod emit;
pub mod json;
pub mod normalize;
pub mod pipeline;
pub mod record;
pub mod sampler;
