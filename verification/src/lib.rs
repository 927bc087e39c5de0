//! Configuration-resolution core of a batch audio-conversion utility.
//!
//! The crate gathers user-supplied options into a [`flags::Flags`] value,
//! validates them, and derives the normalized [`flags::EncodingOptions`]
//! configuration that the conversion pipeline consumes. All decision logic
//! lives here; argument parsing, filesystem queries and logging are left to
//! the surrounding binary.

pub mod error;
pub mod flags;
pub mod format;
