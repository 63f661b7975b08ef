//! Serialization support for compiled regular expressions.
//!
//! A compiled pattern cannot be written out as it is: what travels is its
//! source text, and reading it back means compiling that text again. This
//! crate holds the logic of that exchange for single patterns, pattern sets,
//! optional values, sequences and key-to-pattern mappings, with each step
//! stated as a contract and proved.
pub mod carrier;
pub mod codec;
pub mod kinds;
pub mod laws;

pub use carrier::Serde;
pub use codec::{DecodeError, Decode, Encode, deserialize, serialize};
pub use kinds::{Pattern, PatternSet};
