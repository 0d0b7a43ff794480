//! Weight model for a cross-chain message lane.
//!
//! A message lane charges three kinds of transaction — sending a message,
//! delivering a batch of message proofs, and confirming delivery — by their
//! execution cost ("weight"). This crate decomposes a small set of
//! empirically benchmarked worst-case costs into fixed per-transaction,
//! per-message, per-relayer and per-kilobyte overheads, and checks that the
//! derived figures are non-degenerate and stay within caller-declared
//! ceilings.

pub mod weights;
pub mod weights_ext;
