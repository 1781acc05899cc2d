//! The ways in which rasterizing and packing can fail.

use vstd::prelude::*;

verus! {

/// Why a glyph or an atlas could not be produced. None of these is retried:
/// the same input fails in the same way.
#[derive(Clone, Copy, Debug, PartialEq, Eq, Structural)]
pub enum RasterError {
    /// The face could not load an outline for the codepoint.
    GlyphNotFound,
    /// The outline could not be stroked.
    StrokeFailed,
    /// The engine could not turn an outline into a coverage bitmap.
    RasterFailed,
    /// The layers handed to the compositor do not fit together, or a
    /// coordinate of the result cannot be represented.
    CompositeFailed,
    /// The atlas image could not be encoded.
    EncodeFailed,
    /// The descriptor could not be written.
    IoFailed,
}

} // verus!
