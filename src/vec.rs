//! Points and sizes on a character-cell grid.

use vstd::prelude::*;

verus! {

/// A pair of cell coordinates, used both for positions and for sizes.
#[derive(Clone, Copy, Debug, PartialEq, Eq, Hash)]
pub struct Vec2 {
    /// Column (horizontal axis).
    pub x: usize,
    /// Row (vertical axis).
    pub y: usize,
}

impl Vec2 {
    /// `self` is component-wise less than or equal to `other`.
    pub open spec fn le(self, other: Vec2) -> bool {
        self.x <= other.x && self.y <= other.y
    }

    /// `self` is strictly less than `other` on both axes.
    pub open spec fn lt(self, other: Vec2) -> bool {
        self.x < other.x && self.y < other.y
    }

    /// The origin.
    pub open spec fn zero_spec() -> Vec2 {
        Vec2 { x: 0, y: 0 }
    }

    /// Component-wise minimum.
    pub open spec fn spec_min(self, other: Vec2) -> Vec2 {
        Vec2 {
            x: if self.x <= other.x { self.x } else { other.x },
            y: if self.y <= other.y { self.y } else { other.y },
        }
    }

    /// Component-wise maximum.
    pub open spec fn spec_max(self, other: Vec2) -> Vec2 {
        Vec2 {
            x: if self.x >= other.x { self.x } else { other.x },
            y: if self.y >= other.y { self.y } else { other.y },
        }
    }

    /// Component-wise sum; both components must fit in `usize`.
    pub open spec fn spec_add(self, other: Vec2) -> Vec2 {
        Vec2 { x: (self.x + other.x) as usize, y: (self.y + other.y) as usize }
    }

    /// Component-wise difference; meaningful where `other.le(self)`.
    pub open spec fn spec_sub(self, other: Vec2) -> Vec2 {
        Vec2 { x: (self.x - other.x) as usize, y: (self.y - other.y) as usize }
    }

    /// Component-wise sum, saturating at `usize::MAX`.
    pub open spec fn spec_saturating_add(self, other: Vec2) -> Vec2 {
        Vec2 {
            x: if self.x + other.x > usize::MAX { usize::MAX } else { (self.x + other.x) as usize },
            y: if self.y + other.y > usize::MAX { usize::MAX } else { (self.y + other.y) as usize },
        }
    }

    /// Builds a vector from its two components.
    pub fn new(x: usize, y: usize) -> (r: Vec2)
        ensures
            r == (Vec2 { x, y }),
    {
        Vec2 { x, y }
    }

    /// The origin.
    pub fn zero() -> (r: Vec2)
        ensures
            r == (Vec2 { x: 0, y: 0 }),
    {
        Vec2 { x: 0, y: 0 }
    }

    /// Returns `true` if `other` is at least `self` on both axes.
    pub fn fits_in(&self, other: Vec2) -> (r: bool)
        ensures
            r == self.le(other),
    {
        self.x <= other.x && self.y <= other.y
    }

    /// Returns `true` if `self` is strictly below `other` on both axes.
    pub fn strictly_below(&self, other: Vec2) -> (r: bool)
        ensures
            r == self.lt(other),
    {
        self.x < other.x && self.y < other.y
    }

    /// Component-wise minimum.
    pub fn min(a: Vec2, b: Vec2) -> (r: Vec2)
        ensures
            r == a.spec_min(b),
    {
        Vec2 {
            x: if a.x <= b.x { a.x } else { b.x },
            y: if a.y <= b.y { a.y } else { b.y },
        }
    }

    /// Component-wise maximum.
    pub fn max(a: Vec2, b: Vec2) -> (r: Vec2)
        ensures
            r == a.spec_max(b),
    {
        Vec2 {
            x: if a.x >= b.x { a.x } else { b.x },
            y: if a.y >= b.y { a.y } else { b.y },
        }
    }

    /// Component-wise minimum of `self` and `other`.
    pub fn or_min(self, other: Vec2) -> (r: Vec2)
        ensures
            r == self.spec_min(other),
    {
        Vec2::min(self, other)
    }

    /// Component-wise sum.
    pub fn plus(self, other: Vec2) -> (r: Vec2)
        requires
            self.x + other.x <= usize::MAX,
            self.y + other.y <= usize::MAX,
        ensures
            r == self.spec_add(other),
    {
        Vec2 { x: self.x + other.x, y: self.y + other.y }
    }

    /// Component-wise difference.
    pub fn minus(self, other: Vec2) -> (r: Vec2)
        requires
            other.le(self),
        ensures
            r == self.spec_sub(other),
    {
        Vec2 { x: self.x - other.x, y: self.y - other.y }
    }

    /// Component-wise sum, saturating at `usize::MAX`.
    pub fn saturating_plus(self, other: Vec2) -> (r: Vec2)
        ensures
            r == self.spec_saturating_add(other),
    {
        Vec2 { x: self.x.saturating_add(other.x), y: self.y.saturating_add(other.y) }
    }
}

} // verus!
