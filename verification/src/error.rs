//! The failures a draw can end in.

use vstd::prelude::*;

verus! {

/// Why a draw failed.
///
/// Only `PathConstruction` arises in this library itself. The other two are
/// raised by the collaborators of a draw and handed on unchanged.
#[derive(Clone, Debug, PartialEq, Eq)]
pub enum Error {
    /// No outline could be built from the given shape or coordinates.
    PathConstruction,
    /// A coordinate could not be projected to a pixel position.
    Projection(String),
    /// The external image renderer failed.
    ExternalImage(String),
}

} // verus!
