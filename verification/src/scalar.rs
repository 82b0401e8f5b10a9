//! Opaque scalar payloads and the small geometric value types built from them.
//!
//! The engine core routes fractional quantities (positions, angles, matrix
//! cells) without ever computing with them; each is carried as the 32-bit bit
//! pattern of a single-precision value. The embedding application converts at
//! the boundary.

use vstd::prelude::*;

verus! {

/// Bit pattern of a single-precision value. The core treats it as an opaque
/// payload: it is stored, copied and compared, never interpreted numerically.
pub type Scalar = u32;

/// Payload of the value zero.
pub const SCALAR_ZERO: Scalar = 0;

/// Payload of the value one.
pub const SCALAR_ONE: Scalar = 0x3F80_0000;

/// A point in target space, as two scalar payloads.
#[derive(Clone, Copy, PartialEq, Eq, Structural, Debug)]
pub struct Point {
    pub x: Scalar,
    pub y: Scalar,
}

impl Point {
    /// Builds a point from its two coordinates.
    pub fn new(x: Scalar, y: Scalar) -> (p: Point)
        ensures
            p == (Point { x, y }),
    {
        Point { x, y }
    }
}

/// An axis-aligned rectangle given by two corner points.
#[derive(Clone, Copy, PartialEq, Eq, Structural, Debug)]
pub struct Rect {
    /// Top-left corner.
    pub min: Point,
    /// Bottom-right corner.
    pub max: Point,
}

impl Rect {
    /// Builds a rectangle from its two corner points.
    pub fn new(min: Point, max: Point) -> (r: Rect)
        ensures
            r == (Rect { min, max }),
    {
        Rect { min, max }
    }

    /// Top-left corner.
    pub fn top_left(&self) -> (p: Point)
        ensures
            p == self.min,
    {
        self.min
    }

    /// Top-right corner.
    pub fn top_right(&self) -> (p: Point)
        ensures
            p == (Point { x: self.max.x, y: self.min.y }),
    {
        Point { x: self.max.x, y: self.min.y }
    }

    /// Bottom-left corner.
    pub fn bottom_left(&self) -> (p: Point)
        ensures
            p == (Point { x: self.min.x, y: self.max.y }),
    {
        Point { x: self.min.x, y: self.max.y }
    }

    /// Bottom-right corner.
    pub fn bottom_right(&self) -> (p: Point)
        ensures
            p == self.max,
    {
        self.max
    }
}

/// A 4x4 transformation matrix, sixteen scalar payloads in row-major order.
#[derive(Clone, Copy, PartialEq, Eq, Debug)]
pub struct Mat4 {
    pub cells: [Scalar; 16],
}

/// The cells of the identity matrix.
pub open spec fn spec_identity_cells() -> [Scalar; 16] {
    [
        SCALAR_ONE, SCALAR_ZERO, SCALAR_ZERO, SCALAR_ZERO,
        SCALAR_ZERO, SCALAR_ONE, SCALAR_ZERO, SCALAR_ZERO,
        SCALAR_ZERO, SCALAR_ZERO, SCALAR_ONE, SCALAR_ZERO,
        SCALAR_ZERO, SCALAR_ZERO, SCALAR_ZERO, SCALAR_ONE,
    ]
}

impl Mat4 {
    /// The identity transformation.
    pub fn identity() -> (m: Mat4)
        ensures
            m.cells == spec_identity_cells(),
    {
        Mat4 {
            cells: [
                SCALAR_ONE, SCALAR_ZERO, SCALAR_ZERO, SCALAR_ZERO,
                SCALAR_ZERO, SCALAR_ONE, SCALAR_ZERO, SCALAR_ZERO,
                SCALAR_ZERO, SCALAR_ZERO, SCALAR_ONE, SCALAR_ZERO,
                SCALAR_ZERO, SCALAR_ZERO, SCALAR_ZERO, SCALAR_ONE,
            ],
        }
    }
}

} // verus!
