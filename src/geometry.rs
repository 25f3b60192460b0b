use vstd::prelude::*;

verus! {

/// Sub-pixels in one screen pixel.
pub const SUBPIXELS_PER_PIXEL: i64 = 1_000_000_000_000;

/// Width of the visible screen, in pixels.
pub const SCREEN_WIDTH: i64 = 800;

/// Height of the visible screen, in pixels.
pub const SCREEN_HEIGHT: i64 = 600;

/// An axis-aligned rectangle in sub-pixel screen coordinates.
///
/// Callers are expected to build it with `x1 <= x2` and `y1 <= y2`; the
/// overlap test itself does not rely on that.
#[derive(Clone, Copy, Debug, PartialEq, Eq, Structural)]
pub struct BoxCollision {
    pub x1: i128,
    pub y1: i128,
    pub x2: i128,
    pub y2: i128,
}

/// Two boxes overlap when their intersection has positive area.
pub open spec fn overlaps(a: BoxCollision, b: BoxCollision) -> bool {
    a.x1 < b.x2 && a.x2 > b.x1 && a.y1 < b.y2 && a.y2 > b.y1
}

/// `n` pixels expressed in sub-pixels.
pub open spec fn px(n: int) -> int {
    n * SUBPIXELS_PER_PIXEL
}

impl BoxCollision {
    /// True iff `self` and `object` have an intersection of positive area;
    /// boxes that only touch along an edge do not collide.
    pub fn check(&self, object: BoxCollision) -> (r: bool)
        ensures
            r == overlaps(*self, object),
    {
        self.x1 < object.x2 && self.x2 > object.x1 && self.y1 < object.y2 && self.y2 > object.y1
    }
}

/// Overlap does not depend on the order of the two boxes.
pub proof fn lemma_overlap_symmetric(a: BoxCollision, b: BoxCollision)
    ensures
        overlaps(a, b) == overlaps(b, a),
{
}

/// Two boxes that share a boundary line (the right edge of one is the left
/// edge of the other, or the bottom edge of one is the top edge of the other)
/// never overlap.
pub proof fn lemma_shared_edge_no_overlap(a: BoxCollision, b: BoxCollision)
    requires
        a.x2 == b.x1 || b.x2 == a.x1 || a.y2 == b.y1 || b.y2 == a.y1,
    ensures
        !overlaps(a, b),
{
}

/// A rectangle in whole pixels.
#[derive(Clone, Copy, Debug, PartialEq, Eq, Structural)]
pub struct PixelRect {
    pub x: i128,
    pub y: i128,
    pub w: i128,
    pub h: i128,
}

/// One textured copy: a region of the sprite sheet drawn to a region of the
/// screen.
#[derive(Clone, Copy, Debug, PartialEq, Eq, Structural)]
pub struct SpriteBlit {
    pub source: PixelRect,
    pub dest: PixelRect,
}

/// Pixel rectangle with the given corner and size.
pub open spec fn rect(x: int, y: int, w: int, h: int) -> PixelRect {
    PixelRect { x: x as i128, y: y as i128, w: w as i128, h: h as i128 }
}

} // verus!
