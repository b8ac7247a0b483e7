//! The failures of a conversion request.

use vstd::prelude::*;

verus! {

/// Why a request produced no mesh. Every failure ends the request: nothing is
/// retried and no other glyph is put in the place of the one asked for.
#[derive(Clone, Copy, Debug, PartialEq, Eq, Structural)]
pub enum MeshError {
    /// The bytes are not a font that the engine can parse.
    MalformedFont,
    /// The requested value is not a Unicode scalar value.
    InvalidCodepoint,
    /// The font maps no glyph to the requested scalar value.
    GlyphNotFound,
    /// A contour has fewer than three points, or crosses itself in a way the
    /// triangulation cannot resolve.
    DegenerateOutline,
    /// The triangulation broke down, or its answer is not a usable mesh.
    TriangulationFailed,
}

/// The status that stands for success at the boundary.
pub const STATUS_OK: u32 = 0;

impl MeshError {
    /// The status that reports this failure at the boundary.
    pub open spec fn spec_code(self) -> u32 {
        match self {
            MeshError::MalformedFont => 1,
            MeshError::InvalidCodepoint => 2,
            MeshError::GlyphNotFound => 3,
            MeshError::DegenerateOutline => 4,
            MeshError::TriangulationFailed => 5,
        }
    }

    /// The status that reports this failure at the boundary.
    pub fn code(self) -> (code: u32)
        ensures
            code == self.spec_code(),
    {
        match self {
            MeshError::MalformedFont => 1,
            MeshError::InvalidCodepoint => 2,
            MeshError::GlyphNotFound => 3,
            MeshError::DegenerateOutline => 4,
            MeshError::TriangulationFailed => 5,
        }
    }

    /// A status tells the caller which failure occurred: no failure is
    /// reported as success, and two failures never share a status.
    pub proof fn lemma_code_identifies_error(self, other: MeshError)
        ensures
            self.spec_code() != STATUS_OK,
            self.spec_code() == other.spec_code() ==> self == other,
    {
    }
}

} // verus!
