//! Errors surfaced while building a store. All of them arise at resolution
//! time; queries on a built store never fail.

use vstd::prelude::*;

verus! {

/// Why a store could not be built. The loader-side kinds
/// (`InvalidConfigDir`, `IOError`) are propagated by the surrounding loader;
/// resolution itself produces the remaining kinds, each naming the offending
/// profile's label or id.
#[derive(Debug, PartialEq, Eq)]
pub enum ConfigStoreError {
    /// The external loader could not establish a usable config location.
    InvalidConfigDir,
    /// No default profile definition was supplied.
    MissingDefault,
    /// An underlying filesystem failure, described by the loader.
    IOError(String),
    /// Two profiles (default included) share an id.
    DuplicateId { id: i32 },
    /// An override carries a filter with no present component, or the
    /// default carries a filter.
    InvalidFilter { label: String },
    /// A field violates its constraints: an empty or duplicate label, or a
    /// numeric field that is negative or too large.
    InvalidField { label: String },
}

} // verus!
