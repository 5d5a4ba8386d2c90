use vstd::prelude::*;

verus! {

/// Millionths in one unit: `Fixed(FIXED_SCALE)` stands for `1.0`.
pub const FIXED_SCALE: i64 = 1_000_000;

/// A decimal fixed-point number, stored as its value times `FIXED_SCALE`.
///
/// Lengths (points) and colour channels are both carried this way; no range
/// is imposed, so negative paddings or channels above `1.0` pass through.
#[derive(Clone, Copy, Debug, PartialEq, Eq, Structural)]
pub struct Fixed(pub i64);

/// `0.0`.
pub open spec fn zero() -> Fixed {
    Fixed(0)
}

/// `1.0`.
pub open spec fn one() -> Fixed {
    Fixed(FIXED_SCALE)
}

/// An RGB colour with three independent channels, nominally in `[0, 1]`.
#[derive(Clone, Copy, Debug, PartialEq, Eq, Structural)]
pub struct Color {
    pub r: Fixed,
    pub g: Fixed,
    pub b: Fixed,
}

/// Black: every channel `0.0`.
pub open spec fn black() -> Color {
    Color { r: zero(), g: zero(), b: zero() }
}

impl Color {
    pub fn new(r: Fixed, g: Fixed, b: Fixed) -> (c: Color)
        ensures
            c == (Color { r, g, b }),
    {
        Color { r, g, b }
    }
}

} // verus!
