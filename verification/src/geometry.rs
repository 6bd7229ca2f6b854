//! Geometry primitives: 2D vectors, optional-dimension sizes, rectangles,
//! and the one-axis extent type that can stand for an unconstrained axis.
//!
//! Coordinates are integers. Declared coordinates (positions, paddings,
//! explicit sizes, container bounds) are kept within `COORD_LIMIT`; the
//! quantities the layout passes derive from them then stay well inside the
//! machine range, which is what every arithmetic proof here rests on.

use vstd::prelude::*;

verus! {

/// Largest magnitude a declared coordinate may have. Derived coordinates
/// (measured sizes, placement rectangles) stay within small multiples of it.
pub const COORD_LIMIT: i64 = 0x2000_0000_0000;

/// A declared coordinate: position, padding, explicit size, container bound.
pub open spec fn coord_ok(v: int) -> bool {
    -COORD_LIMIT <= v <= COORD_LIMIT
}

/// A measured-size coordinate: position + size + padding on both sides.
pub open spec fn coord_measured(v: int) -> bool {
    -4 * (COORD_LIMIT as int) <= v <= 4 * (COORD_LIMIT as int)
}

/// A placement-rectangle coordinate produced by the arrange pass.
pub open spec fn coord_placed(v: int) -> bool {
    -8 * (COORD_LIMIT as int) <= v <= 8 * (COORD_LIMIT as int)
}

/// A finite 2D vector; used for positions, paddings and measured sizes.
#[derive(Debug, Clone, Copy, PartialEq, Eq, Structural)]
pub struct Vec2 {
    pub x: i64,
    pub y: i64,
}

impl Vec2 {
    /// Both components within the declared coordinate range.
    pub open spec fn wf(self) -> bool {
        coord_ok(self.x as int) && coord_ok(self.y as int)
    }

    /// The zero vector.
    pub fn zero() -> (r: Vec2)
        ensures
            r == (Vec2 { x: 0, y: 0 }),
    {
        Vec2 { x: 0, y: 0 }
    }
}

/// The extent of one axis: a finite length, or unconstrained.
#[derive(Debug, Clone, Copy, PartialEq, Eq, Structural)]
pub enum Dim {
    /// A finite extent.
    Finite(i64),
    /// No constraint on this axis.
    Infinite,
}

impl Dim {
    /// Whether the extent is finite.
    pub open spec fn is_fin(self) -> bool {
        self is Finite
    }

    /// The finite value; meaningful only when `is_fin` holds.
    pub open spec fn val(self) -> int {
        self->Finite_0 as int
    }

    /// A finite extent lies within the declared coordinate range.
    pub open spec fn wf(self) -> bool {
        self is Finite ==> coord_ok(self.val())
    }
}

/// A per-axis pair of extents: an available-size constraint, or what a
/// content measurement reported for each axis.
#[derive(Debug, Clone, Copy, PartialEq, Eq, Structural)]
pub struct Dim2 {
    pub x: Dim,
    pub y: Dim,
}

impl Dim2 {
    /// Each finite axis lies within the declared coordinate range.
    pub open spec fn wf(self) -> bool {
        self.x.wf() && self.y.wf()
    }

    /// Both axes zero.
    pub fn zero() -> (r: Dim2)
        ensures
            r == (Dim2 { x: Dim::Finite(0), y: Dim::Finite(0) }),
    {
        Dim2 { x: Dim::Finite(0), y: Dim::Finite(0) }
    }

    /// Both axes unconstrained; the state of an element never yet measured
    /// under any finite constraint.
    pub fn unconstrained() -> (r: Dim2)
        ensures
            r == (Dim2 { x: Dim::Infinite, y: Dim::Infinite }),
    {
        Dim2 { x: Dim::Infinite, y: Dim::Infinite }
    }

    /// Executable check of `wf`, for callers outside verified code.
    pub fn is_wf(&self) -> (r: bool)
        ensures
            r == self.wf(),
    {
        let x_ok = match self.x {
            Dim::Finite(v) => -COORD_LIMIT <= v && v <= COORD_LIMIT,
            Dim::Infinite => true,
        };
        let y_ok = match self.y {
            Dim::Finite(v) => -COORD_LIMIT <= v && v <= COORD_LIMIT,
            Dim::Infinite => true,
        };
        x_ok && y_ok
    }
}

/// A declared size: an explicit extent per axis, or auto-sizing (`None`),
/// where intrinsic content determines the axis.
#[derive(Debug, Clone, Copy, PartialEq, Eq)]
pub struct Size {
    pub width: Option<i64>,
    pub height: Option<i64>,
}

impl Size {
    /// Explicit extents lie within the declared coordinate range.
    pub open spec fn wf(self) -> bool {
        &&& (self.width is Some ==> coord_ok(self.width->0 as int))
        &&& (self.height is Some ==> coord_ok(self.height->0 as int))
    }

    /// Auto-sized on both axes.
    pub fn auto() -> (r: Size)
        ensures
            r == (Size { width: None, height: None }),
    {
        Size { width: None, height: None }
    }
}

/// An axis-aligned placement rectangle. Width and height are expected
/// non-negative in a well-formed layout, but the engine does not clamp:
/// a negative extent is a defect signal, not a silently corrected state.
#[derive(Debug, Clone, Copy, PartialEq, Eq, Structural)]
pub struct Rect {
    pub x: i64,
    pub y: i64,
    pub width: i64,
    pub height: i64,
}

impl Rect {
    /// All fields within the declared coordinate range; what the arrange
    /// pass asks of an incoming container.
    pub open spec fn wf(self) -> bool {
        coord_ok(self.x as int) && coord_ok(self.y as int) && coord_ok(self.width as int)
            && coord_ok(self.height as int)
    }

    /// All fields within the placement range; what the arrange pass
    /// guarantees of the rectangles it writes.
    pub open spec fn placed_wf(self) -> bool {
        coord_placed(self.x as int) && coord_placed(self.y as int) && coord_placed(
            self.width as int,
        ) && coord_placed(self.height as int)
    }

    /// The zero rectangle.
    pub fn zero() -> (r: Rect)
        ensures
            r == (Rect { x: 0, y: 0, width: 0, height: 0 }),
    {
        Rect { x: 0, y: 0, width: 0, height: 0 }
    }

    /// Executable check of `wf`, for callers outside verified code.
    pub fn is_wf(&self) -> (r: bool)
        ensures
            r == self.wf(),
    {
        -COORD_LIMIT <= self.x && self.x <= COORD_LIMIT && -COORD_LIMIT <= self.y && self.y
            <= COORD_LIMIT && -COORD_LIMIT <= self.width && self.width <= COORD_LIMIT
            && -COORD_LIMIT <= self.height && self.height <= COORD_LIMIT
    }
}

} // verus!
