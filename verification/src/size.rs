//! Length and position types, in fixed-point printable points.
//!
//! A [`Size`] stores a length as a signed count of ten-thousandths of a
//! point, so every representable length has an exact decimal rendering
//! with four fractional digits. This keeps positions and font sizes
//! exactly representable and totally ordered; there is no non-finite
//! value a caller could smuggle in.

use vstd::prelude::*;

verus! {

/// How many units make one printable point.
pub const UNITS_PER_PT: i64 = 10000;

/// A length, stored as ten-thousandths of a point.
#[derive(Clone, Copy, PartialEq, Eq, Structural, Debug)]
pub struct Size {
    /// Ten-thousandths of a point.
    pub units: i64,
}

impl View for Size {
    type V = int;

    open spec fn view(&self) -> int {
        self.units as int
    }
}

/// Whether a mathematical integer fits into the machine representation
/// of a length.
pub open spec fn fits_units(v: int) -> bool {
    i64::MIN <= v <= i64::MAX
}

impl Size {
    /// The zero length.
    pub fn zero() -> (r: Size)
        ensures
            r@ == 0,
    {
        Size { units: 0 }
    }

    /// A length given directly in ten-thousandths of a point.
    pub fn from_units(units: i64) -> (r: Size)
        ensures
            r@ == units as int,
    {
        Size { units }
    }

    /// A whole number of points.
    pub fn pt(points: i64) -> (r: Size)
        requires
            fits_units(points * UNITS_PER_PT as int),
        ensures
            r@ == points * UNITS_PER_PT as int,
    {
        Size { units: points * UNITS_PER_PT }
    }
}

/// A two-dimensional position or extent.
#[derive(Clone, Copy, PartialEq, Eq, Structural, Debug)]
pub struct Size2D {
    /// Horizontal component.
    pub x: Size,
    /// Vertical component.
    pub y: Size,
}

impl View for Size2D {
    type V = (int, int);

    open spec fn view(&self) -> (int, int) {
        (self.x.units as int, self.y.units as int)
    }
}

impl Size2D {
    /// The origin of the default coordinate frame.
    pub fn zero() -> (r: Size2D)
        ensures
            r@ == (0int, 0int),
    {
        Size2D { x: Size::zero(), y: Size::zero() }
    }

    /// A position from its two components.
    pub fn new(x: Size, y: Size) -> (r: Size2D)
        ensures
            r@ == (x@, y@),
    {
        Size2D { x, y }
    }

    /// This position translated by `other`, componentwise.
    pub fn offset(self, other: Size2D) -> (r: Size2D)
        requires
            fits_units(self@.0 + other@.0),
            fits_units(self@.1 + other@.1),
        ensures
            r@ == (self@.0 + other@.0, self@.1 + other@.1),
    {
        Size2D { x: Size { units: self.x.units + other.x.units }, y: Size { units: self.y.units + other.y.units } }
    }
}

} // verus!
