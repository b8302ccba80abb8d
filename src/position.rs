//! Placement of a view inside the space available to it.

use vstd::prelude::*;
use crate::vec::Vec2;

verus! {

/// Where a view stands along one axis.
#[derive(Clone, Copy, Debug, PartialEq, Eq, Hash)]
pub enum Offset {
    /// Centered in the available space.
    Center,
    /// At this distance from the start of the available space.
    Absolute(usize),
    /// At this distance from where the previous layer stands.
    Parent(isize),
}

/// `v` clamped into `[0, hi]`.
pub open spec fn clamp(v: int, hi: int) -> int {
    if v < 0 {
        0
    } else if v > hi {
        hi
    } else {
        v
    }
}

impl Offset {
    /// The start, along this axis, of a view of length `size` in `available`
    /// cells, the previous layer starting at `parent`. The view is kept
    /// inside the available space; where it is longer, it starts at 0.
    pub open spec fn spec_offset(self, size: usize, available: usize, parent: usize) -> int {
        if size > available {
            0
        } else {
            match self {
                Offset::Center => (available - size) / 2,
                Offset::Absolute(o) => clamp(o as int, available - size),
                Offset::Parent(o) => clamp(parent + o, available - size),
            }
        }
    }

    /// Computes `spec_offset`.
    pub fn compute_offset(&self, size: usize, available: usize, parent: usize) -> (r: usize)
        ensures
            r == self.spec_offset(size, available, parent),
            size <= available ==> r + size <= available,
    {
        if size > available {
            return 0;
        }
        let room = available - size;
        match *self {
            Offset::Center => room / 2,
            Offset::Absolute(o) => if o > room {
                room
            } else {
                o
            },
            Offset::Parent(o) => {
                if o < 0 {
                    let back = (0 - (o as i128)) as u128;
                    if back >= parent as u128 {
                        0
                    } else {
                        let v = parent - back as usize;
                        if v > room {
                            room
                        } else {
                            v
                        }
                    }
                } else {
                    let fwd = o as usize;
                    if parent >= room || fwd >= room - parent {
                        room
                    } else {
                        parent + fwd
                    }
                }
            },
        }
    }
}

/// Where a view stands on both axes.
#[derive(Clone, Copy, Debug, PartialEq, Eq, Hash)]
pub struct Position {
    pub x: Offset,
    pub y: Offset,
}

impl Position {
    /// The top-left corner of a view of `size` in `available`, the previous
    /// layer standing at `parent`.
    pub open spec fn spec_offset(self, size: Vec2, available: Vec2, parent: Vec2) -> Vec2 {
        Vec2 {
            x: self.x.spec_offset(size.x, available.x, parent.x) as usize,
            y: self.y.spec_offset(size.y, available.y, parent.y) as usize,
        }
    }

    /// A position from its two axes.
    pub fn new(x: Offset, y: Offset) -> (r: Position)
        ensures
            r == (Position { x, y }),
    {
        Position { x, y }
    }

    /// Centered on both axes.
    pub fn center() -> (r: Position)
        ensures
            r == (Position { x: Offset::Center, y: Offset::Center }),
    {
        Position { x: Offset::Center, y: Offset::Center }
    }

    /// Computes `spec_offset`.
    pub fn compute_offset(&self, size: Vec2, available: Vec2, parent: Vec2) -> (r: Vec2)
        ensures
            r == self.spec_offset(size, available, parent),
    {
        Vec2 {
            x: self.x.compute_offset(size.x, available.x, parent.x),
            y: self.y.compute_offset(size.y, available.y, parent.y),
        }
    }
}

} // verus!
