//! Geometry carried through the library. Coordinates are glam vectors of
//! floats: the library stores and moves them but never computes with them.
use vstd::prelude::*;

verus! {

/// glam's two-component float vector, held opaquely.
#[verifier::external_type_specification]
#[verifier::external_body]
pub struct ExVec2(glam::Vec2);

/// glam's `Vec2::ZERO`. Nothing is stated of its value: its components are
/// floats, which the library does not reason about.
#[verifier::external_body]
pub(crate) fn vec2_zero() -> (r: glam::Vec2) {
    glam::Vec2::ZERO
}

/// A rectangle given by its top-left position and its size.
#[derive(Clone, Copy, Debug)]
pub struct Rect {
    pub pos: glam::Vec2,
    pub size: glam::Vec2,
}

impl Rect {
    /// A rectangle at `pos` with extent `size`.
    pub fn from_pos_size(pos: glam::Vec2, size: glam::Vec2) -> (r: Rect)
        ensures
            r.pos == pos,
            r.size == size,
    {
        Rect { pos, size }
    }

    /// The top-left position.
    pub fn pos(&self) -> (r: glam::Vec2)
        ensures
            r == self.pos,
    {
        self.pos
    }

    /// The extent.
    pub fn size(&self) -> (r: glam::Vec2)
        ensures
            r == self.size,
    {
        self.size
    }

    /// Moves the rectangle to `pos`, keeping its size.
    pub fn set_pos(&mut self, pos: glam::Vec2)
        ensures
            final(self).pos == pos,
            final(self).size == old(self).size,
    {
        self.pos = pos;
    }
}

/// Where in a region a point is anchored, as a fraction of the region's size
/// per axis (0 is the top or left edge, 1 the bottom or right edge).
#[derive(Clone, Copy, Debug)]
pub struct Alignment(pub glam::Vec2);

impl Alignment {
    /// The alignment with the given fractions.
    pub fn new(v: glam::Vec2) -> (r: Alignment)
        ensures
            r.0 == v,
    {
        Alignment(v)
    }

    /// The anchor as a vector of fractions.
    pub fn as_vec2(&self) -> (r: glam::Vec2)
        ensures
            r == self.0,
    {
        self.0
    }
}

/// Which point of a widget is placed at its anchor, as a fraction of the
/// widget's size per axis.
#[derive(Clone, Copy, Debug)]
pub struct Pivot(pub glam::Vec2);

impl Pivot {
    /// The pivot with the given fractions.
    pub fn new(v: glam::Vec2) -> (r: Pivot)
        ensures
            r.0 == v,
    {
        Pivot(v)
    }

    /// The pivot as a vector of fractions.
    pub fn as_vec2(&self) -> (r: glam::Vec2)
        ensures
            r == self.0,
    {
        self.0
    }
}

/// A two-dimensional length: per axis, a number of pixels plus a fraction of
/// the parent's extent.
#[derive(Clone, Copy, Debug)]
pub struct Dim2 {
    pub pixels: glam::Vec2,
    pub percent: glam::Vec2,
}

impl Dim2 {
    /// The length made of `pixels` plus `percent` of the parent.
    pub fn new(pixels: glam::Vec2, percent: glam::Vec2) -> (r: Dim2)
        ensures
            r.pixels == pixels,
            r.percent == percent,
    {
        Dim2 { pixels, percent }
    }
}

} // verus!
