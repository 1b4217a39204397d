//! The decoder plugins, the interface they share and the record they return.

pub mod base32_decoder;
pub mod base58_ripple_decoder;
pub mod base64_decoder;
pub mod crack_results;
pub mod interface;
pub mod plausibility;
pub mod text;
