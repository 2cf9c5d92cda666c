//! Assembles a board of images into a hosted sticker set whose stickers carry emoji tags.
//!
//! The crate holds the decisions of that pipeline as verified functions on plain values:
//! the throttle in front of the tagging service, the scanner that turns the service's reply
//! into tags, the sticker encoder, the naming of the set and the state machine that drives
//! a run. Network, file system and clock stay with the caller.

pub mod error;
pub mod history;
pub mod job;
pub mod json;
pub mod limiter;
pub mod orchestrator;
pub mod pinterest;
pub mod stickers;
pub mod tagger;
pub mod text;
