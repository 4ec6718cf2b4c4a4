//! Decoding and replay of a public-transit vehicle-position feed.
//!
//! - `session`: what the streaming session sends and when it reconnects.
//! - `json`, `codec`, `response_messages`: the envelope of each logged
//!   message, decoded from a JSON document and encoded back.
//! - `fields`, `records`, `color`: typed extraction of trajectory properties
//!   into trains (statistics) and records (replay).
//! - `counter`, `history`, `analysis`: frequency counts, per-vehicle
//!   timelines and frame-indexed replay, and the pass over the log.

pub mod analysis;
pub mod codec;
pub mod color;
pub mod counter;
pub mod fields;
pub mod history;
pub mod json;
pub mod records;
pub mod response_messages;
pub mod session;
pub mod text;
