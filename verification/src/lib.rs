//! Sphinx packet headers: fixed-size, layered, per-hop authenticated routing
//! headers for mix networks.
//!
//! A sender builds a header for a route with [`header::SphinxHeader::new`]; each
//! mix node peels one layer with [`header::SphinxHeader::process`]. Curve
//! arithmetic, the keyed hash, the key-derivation function and the stream cipher
//! are taken from their crates and appear in contracts only by name.
use vstd::prelude::*;

pub mod constants;
pub mod utils;
pub mod crypto;
pub mod route;
pub mod header;

verus! {

/// Why a byte string could not be read as a header.
#[derive(Debug, Clone, Copy, PartialEq, Eq, Structural)]
pub enum ProcessingError {
    /// The input is not exactly `HEADER_SIZE` bytes long.
    InvalidHeaderLengthError,
    /// The routing part of the input has the wrong size.
    InvalidRoutingInformationLengthError,
}

} // verus!
