//! Decoder plugins for an automatic decoding tool.
//!
//! Each plugin takes an opaque string, tries to read it as one encoding
//! scheme, throws away results that make no progress, and hands what is left
//! to a plaintext checker. The outcome of one attempt is a [`CrackResult`].
//!
//! [`CrackResult`]: decoders::crack_results::CrackResult

pub mod checkers;
pub mod decoders;
