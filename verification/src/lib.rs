//! Client-side model of the Amtrak train-tracking service: the addresses of
//! its endpoints, the records it returns, and the decoding of its JSON
//! replies into those records.
//!
//! A reply is decoded in two steps. [`reader::parse`] reads the body into a
//! [`json::Json`] document; [`responses::TrainResponse::from_json`] and
//! [`responses::StationResponse::from_json`] turn the document into
//! records. `from_slice` on either type does both.

pub mod client;
pub mod errors;
pub mod fields;
pub mod json;
pub mod names;
pub mod reader;
pub mod reply;
pub mod responses;
pub mod station;
pub mod text_map;
pub mod time;
pub mod train;

pub use client::Client;
