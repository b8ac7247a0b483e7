//! Glyph outlines: the closed contours that bound a glyph's filled regions
//! and its holes.

use vstd::prelude::*;
use crate::error::MeshError;
use crate::vector::Vector2;

verus! {

/// The fewest points that bound a region: a contour is closed by joining its
/// last point to its first, so two points bound nothing.
pub const MIN_CONTOUR_POINTS: usize = 3;

/// The contours held by a vector of point vectors, in order.
pub open spec fn contours_of(contours: Vec<Vec<Vector2>>) -> Seq<Seq<Vector2>> {
    Seq::new(contours@.len(), |i: int| contours@[i]@)
}

/// Whether every contour has enough points to bound a region.
pub open spec fn contours_closed(contours: Seq<Seq<Vector2>>) -> bool {
    forall|i: int|
        0 <= i < contours.len() ==> (#[trigger] contours[i]).len() >= MIN_CONTOUR_POINTS
}

/// A glyph outline: closed contours in font design units, each with at least
/// three points. An outline without contours is that of a glyph with nothing
/// to draw, such as the space.
#[derive(Debug)]
pub struct Outline {
    contours: Vec<Vec<Vector2>>,
}

impl View for Outline {
    type V = Seq<Seq<Vector2>>;

    closed spec fn view(&self) -> Seq<Seq<Vector2>> {
        contours_of(self.contours)
    }
}

impl Outline {
    #[verifier::type_invariant]
    spec fn closed_contours(self) -> bool {
        contours_closed(self@)
    }

    /// Takes the contours that the font engine found for a glyph.
    ///
    /// They make an outline if and only if each has at least three points;
    /// the outline then holds them unchanged and in order.
    pub fn from_contours(contours: Vec<Vec<Vector2>>) -> (outline: Result<Outline, MeshError>)
        ensures
            contours_closed(contours_of(contours)) ==> (outline matches Ok(o) && o@
                == contours_of(contours)),
            !contours_closed(contours_of(contours)) ==> (outline matches Err(e) && e
                == MeshError::DegenerateOutline),
    {
        let mut i: usize = 0;
        while i < contours.len()
            invariant
                i <= contours.len(),
                forall|j: int| 0 <= j < i ==> contours@[j]@.len() >= MIN_CONTOUR_POINTS,
            decreases contours.len() - i,
        {
            if contours[i].len() < MIN_CONTOUR_POINTS {
                assert(contours_of(contours)[i as int].len() < MIN_CONTOUR_POINTS);
                return Err(MeshError::DegenerateOutline);
            }
            i += 1;
        }
        Ok(Outline { contours })
    }

    /// The number of contours.
    pub fn contour_count(&self) -> (count: usize)
        ensures
            count == self@.len(),
    {
        self.contours.len()
    }

    /// Whether the glyph has nothing to draw.
    pub fn is_empty(&self) -> (empty: bool)
        ensures
            empty == (self@.len() == 0),
    {
        self.contours.len() == 0
    }

    /// The points of one contour, in order. There are at least three.
    pub fn contour(&self, index: usize) -> (points: &Vec<Vector2>)
        requires
            index < self@.len(),
        ensures
            points@ == self@[index as int],
            points@.len() >= MIN_CONTOUR_POINTS,
    {
        proof {
            use_type_invariant(self);
        }
        &self.contours[index]
    }
}

} // verus!
