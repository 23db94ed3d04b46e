//! Offline proof verifier and on-chain submitter core.
//!
//! The library recomputes the expected output hash of a claimed
//! AI-inference proof record, derives the canonical proof identifier with
//! the same packed byte encoding as the verifying contract, decides
//! between offline and on-chain mode from the configured credentials, and
//! models the submission flow as an explicit state machine.

pub mod dashboard;
pub mod errors;
pub mod hashing;
pub mod hex_codec;
pub mod mode;
pub mod record;
pub mod submitter;
