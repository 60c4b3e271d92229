//! Facility records, animal-summary derivation, and the dataset loader behind
//! a set of read-only map endpoints.
//!
//! The heart of the crate is the derivation logic that turns sparse
//! per-species flag and count columns into human-readable summary strings,
//! together with a loader that reads partitioned tabular data into fully
//! derived response records.

use vstd::prelude::*;

pub mod datasets;
pub mod laws;
pub mod loader;
pub mod numeric;
pub mod records;
pub mod strutil;
pub mod summary;
pub mod table;

pub use records::Location;

verus! {

/// Optional query parameter accepted by the locations endpoint: a partition
/// key naming the country whose records are wanted.
pub struct LocationParams {
    pub country_code: Option<String>,
}

} // verus!
