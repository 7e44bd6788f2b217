//! Core logic for a small aquarium-visualization service: weekly activity
//! counters fetched from a social-network instance are remapped onto bounded
//! visual attributes, and the result is framed as a JSON HTTP response.
//!
//! Attribute values are carried as integers in thousandths, so that the
//! affine remapping and the JSON framing can be stated and proved exactly.

pub mod activity;
pub mod errors;
pub mod fetch;
pub mod json_read;
pub mod json_write;
pub mod mapper;
pub mod response;
pub mod school;
