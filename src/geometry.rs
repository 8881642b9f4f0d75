//! Rectangles, decoration parts and the outcome of a hit test.

use vstd::prelude::*;

verus! {

/// An axis-aligned rectangle whose origin may lie left of or above the
/// content area.
#[derive(Clone, Copy, Debug, PartialEq, Eq, Structural)]
pub struct Rect {
    pub x: i32,
    pub y: i32,
    pub width: u32,
    pub height: u32,
}

impl Default for Rect {
    fn default() -> (r: Self)
        ensures
            r == (Rect { x: 0, y: 0, width: 0, height: 0 }),
    {
        Rect { x: 0, y: 0, width: 0, height: 0 }
    }
}

/// One decorated area: the rectangle that is painted, and the rectangle that
/// reacts to the pointer.
#[derive(Clone, Copy, Debug, PartialEq, Eq, Structural)]
pub struct Part {
    /// Positioned relative to the main surface.
    pub rect: Rect,
    /// Positioned relative to `rect`.
    ///
    /// `None` if it fully covers `rect`.
    pub input_rect: Option<Rect>,
}

impl Part {
    /// The input area relative to `rect`: the explicit one if there is one,
    /// else the whole of `rect`.
    pub open spec fn effective_input(self) -> Rect {
        match self.input_rect {
            Some(r) => r,
            None => Rect { x: 0, y: 0, width: self.rect.width, height: self.rect.height },
        }
    }

    /// Positioned relative to `self.rect`.
    pub fn input_rect(&self) -> (r: Rect)
        ensures
            r == self.effective_input(),
    {
        match self.input_rect {
            Some(r) => r,
            None => Rect { width: self.rect.width, height: self.rect.height, ..Rect::default() },
        }
    }
}

/// Where a point falls among the decoration's parts.
#[derive(Clone, Copy, Debug, PartialEq, Eq, Structural)]
pub enum Location {
    /// In no part, or not on the decoration's surface at all.
    Outside,
    /// The header bar.
    Head,
    /// The top border strip.
    Top,
    /// The bottom border strip.
    Bottom,
    /// The left border strip.
    Left,
    /// The right border strip.
    Right,
}

/// A pointer position along one axis, given by the nearest whole coordinates
/// at or below it (`floor`) and at or above it (`ceil`).
///
/// A whole coordinate has `floor == ceil`; any other has `ceil == floor + 1`.
#[derive(Clone, Copy, Debug, PartialEq, Eq, Structural)]
pub struct Coord {
    pub floor: i64,
    pub ceil: i64,
}

impl Coord {
    /// Whether the position, moved by `shift`, lies in `[lo, hi]`, both
    /// bounds included.
    pub open spec fn shifted_within(self, shift: int, lo: int, hi: int) -> bool {
        lo <= self.floor + shift && self.ceil + shift <= hi
    }

    /// The whole coordinate `v`.
    pub fn exact(v: i64) -> (r: Coord)
        ensures
            r.floor == v,
            r.ceil == v,
    {
        Coord { floor: v, ceil: v }
    }
}

} // verus!
