//! Axis-aligned bounding boxes and their pairwise union.

use vstd::prelude::*;

verus! {

/// Planar extent of a geometry, in fixed-point coordinates.  An empty box
/// carries inverted sentinels so that a union with any real box yields
/// that box.
#[derive(Clone, Copy, PartialEq, Eq, Structural, Debug)]
pub struct Bbox {
    pub min_x: i64,
    pub min_y: i64,
    pub max_x: i64,
    pub max_y: i64,
}

/// The coordinate-wise min/max union of two boxes.
pub open spec fn bbox_union(a: Bbox, b: Bbox) -> Bbox {
    Bbox {
        min_x: if a.min_x <= b.min_x {
            a.min_x
        } else {
            b.min_x
        },
        min_y: if a.min_y <= b.min_y {
            a.min_y
        } else {
            b.min_y
        },
        max_x: if a.max_x >= b.max_x {
            a.max_x
        } else {
            b.max_x
        },
        max_y: if a.max_y >= b.max_y {
            a.max_y
        } else {
            b.max_y
        },
    }
}

impl Bbox {
    /// The union of no boxes: every coordinate is past its worst value.
    pub fn empty() -> (r: Bbox)
        ensures
            r == (Bbox { min_x: i64::MAX, min_y: i64::MAX, max_x: i64::MIN, max_y: i64::MIN }),
    {
        Bbox { min_x: i64::MAX, min_y: i64::MAX, max_x: i64::MIN, max_y: i64::MIN }
    }

    /// Grow this box to cover `other` as well.
    pub fn merge(&mut self, other: &Bbox)
        ensures
            *final(self) == bbox_union(*old(self), *other),
    {
        if other.min_x < self.min_x {
            self.min_x = other.min_x;
        }
        if other.min_y < self.min_y {
            self.min_y = other.min_y;
        }
        if other.max_x > self.max_x {
            self.max_x = other.max_x;
        }
        if other.max_y > self.max_y {
            self.max_y = other.max_y;
        }
    }

    /// The box as a `(min_x, min_y, max_x, max_y)` tuple for the store's
    /// extent metadata.
    pub fn to_tuple(&self) -> (r: (i64, i64, i64, i64))
        ensures
            r == (self.min_x, self.min_y, self.max_x, self.max_y),
    {
        (self.min_x, self.min_y, self.max_x, self.max_y)
    }
}

/// The union picks each coordinate from the better of its operands: each
/// bound of the union is the coordinate-wise minimum or maximum.
pub proof fn lemma_union_coords(a: Bbox, b: Bbox)
    ensures
        bbox_union(a, b).min_x == vstd::math::min(a.min_x as int, b.min_x as int),
        bbox_union(a, b).min_y == vstd::math::min(a.min_y as int, b.min_y as int),
        bbox_union(a, b).max_x == vstd::math::max(a.max_x as int, b.max_x as int),
        bbox_union(a, b).max_y == vstd::math::max(a.max_y as int, b.max_y as int),
{
}

} // verus!
