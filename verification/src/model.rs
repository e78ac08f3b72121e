//! Fixed-point numeric model and the small value types that filter primitives
//! carry: colors, clamped numbers, opacities and angles.

use vstd::prelude::*;

verus! {

/// Fixed-point units in one whole amount: an amount of `1.0` is `AMOUNT_SCALE`
/// units. Amounts, table samples, lengths and standard deviations all use this
/// scale.
pub const AMOUNT_SCALE: i64 = 10_000;

/// Fixed-point units in one degree. Finer than `AMOUNT_SCALE` so that the
/// gradian-to-degree ratio of nine tenths stays exact.
pub const DEGREE_SCALE: i64 = 100_000;

/// Fixed-point units in one whole matrix or transfer coefficient:
/// `AMOUNT_SCALE * AMOUNT_SCALE`, so that a product of an amount and a
/// four-decimal constant is exact.
pub const COEFF_SCALE: i64 = 100_000_000;

/// Largest magnitude, in `AMOUNT_SCALE` units, that an amount, angle number or
/// resolved length may have: one hundred million wholes. The bound keeps every
/// coefficient the converters compute inside the machine word.
pub const AMOUNT_LIMIT: i64 = 1_000_000_000_000;

/// An RGB color with eight-bit channels.
#[derive(Clone, Copy, Debug, PartialEq, Eq, Structural)]
pub struct Color {
    pub red: u8,
    pub green: u8,
    pub blue: u8,
}

impl Color {
    /// Opaque black, the final fallback for a drop shadow's color.
    pub fn black() -> (c: Color)
        ensures
            c == (Color { red: 0, green: 0, blue: 0 }),
    {
        Color { red: 0, green: 0, blue: 0 }
    }
}

/// A fixed-point number that is never negative, used for saturation amounts
/// and blur standard deviations.
#[derive(Clone, Copy, Debug, PartialEq, Eq, Structural)]
pub struct PositiveNumber {
    value: i64,
}

impl PositiveNumber {
    /// The number's value in `AMOUNT_SCALE` units.
    pub closed spec fn spec_value(self) -> int {
        self.value as int
    }

    #[verifier::type_invariant]
    spec fn wf(self) -> bool {
        self.value >= 0
    }

    pub fn new(value: i64) -> (r: PositiveNumber)
        requires
            value >= 0,
        ensures
            r.spec_value() == value,
    {
        PositiveNumber { value }
    }

    pub fn get(&self) -> (v: i64)
        ensures
            v as int == self.spec_value(),
            v >= 0,
    {
        proof {
            use_type_invariant(&*self);
        }
        self.value
    }
}

/// A fixed-point opacity, held between zero and one whole (`AMOUNT_SCALE`).
#[derive(Clone, Copy, Debug, PartialEq, Eq, Structural)]
pub struct Opacity {
    value: i64,
}

impl Opacity {
    /// The opacity's value in `AMOUNT_SCALE` units.
    pub closed spec fn spec_value(self) -> int {
        self.value as int
    }

    #[verifier::type_invariant]
    spec fn wf(self) -> bool {
        0 <= self.value <= AMOUNT_SCALE
    }

    pub fn new(value: i64) -> (r: Opacity)
        requires
            0 <= value <= AMOUNT_SCALE,
        ensures
            r.spec_value() == value,
    {
        Opacity { value }
    }

    pub fn get(&self) -> (v: i64)
        ensures
            v as int == self.spec_value(),
            0 <= v <= AMOUNT_SCALE,
    {
        proof {
            use_type_invariant(&*self);
        }
        self.value
    }
}

impl Default for Opacity {
    /// The default opacity is fully opaque.
    fn default() -> (r: Opacity)
        ensures
            r.spec_value() == AMOUNT_SCALE,
    {
        Opacity { value: AMOUNT_SCALE }
    }
}

/// An angle as a fixed-point number of degrees, gradians or whole turns, in
/// `AMOUNT_SCALE` units. A radian angle has no exact fixed-point degree value;
/// the caller resolves it to degrees before building an `Angle`.
#[derive(Clone, Copy, Debug, PartialEq, Eq, Structural)]
pub enum Angle {
    Degrees(i64),
    Gradians(i64),
    Turns(i64),
}

impl Angle {
    /// The angle's raw fixed-point number, whatever its unit.
    pub open spec fn spec_number(self) -> int {
        match self {
            Angle::Degrees(n) => n as int,
            Angle::Gradians(n) => n as int,
            Angle::Turns(n) => n as int,
        }
    }

    /// The angle in `DEGREE_SCALE` units: one gradian is nine tenths of a
    /// degree, one turn is three hundred sixty degrees.
    pub open spec fn spec_degrees(self) -> int {
        match self {
            Angle::Degrees(n) => 10 * n as int,
            Angle::Gradians(n) => 9 * n as int,
            Angle::Turns(n) => 3600 * n as int,
        }
    }
}

} // verus!
