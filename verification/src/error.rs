//! Why settings are refused.

use vstd::prelude::*;

verus! {

/// Why a configuration was refused.
#[derive(Clone, Copy, Debug, PartialEq, Eq, Structural)]
pub enum ConfigError {
    /// The timeout is not a decimal number that fits 64 bits.
    InvalidTimeout,
    /// No project was named.
    MissingProjectId,
    /// No dataset was named.
    MissingDataset,
    /// No table was named.
    MissingTable,
}

} // verus!
