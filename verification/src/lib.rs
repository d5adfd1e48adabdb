//! A proof-of-work search library.
//!
//! The hash engine (`hashing`, `difficulty`) computes double-SHA-256 digests
//! and tests them against a leading-zero-bits difficulty target.  The
//! `session` module drives the nonce search as an explicit state machine so
//! that a caller can poll statistics and request cancellation between
//! batches.  `encoding` holds the textual representations the search commits
//! to: the decimal nonce suffix of a candidate and the hex form of a digest.

pub mod difficulty;
pub mod encoding;
pub mod hashing;
pub mod session;
