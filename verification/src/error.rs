//! Failure kinds of the configuration core.

use vstd::prelude::*;

verus! {

/// Everything that can go wrong while building or validating a configuration.
///
/// Each failure is fatal to the run: the caller reports it once and stops
/// before any conversion work begins.
#[derive(Clone, Debug, PartialEq, Eq)]
pub enum ConfigError {
    /// The mutually exclusive verbosity flags were both requested.
    ConflictingFlags,
    /// The declared source path does not exist or is not a directory.
    NotADirectory { path: String },
    /// The codec identifier matches no entry of the format registry.
    UnknownFormat { value: String },
}

} // verus!
