//! The normalized filter primitives that the converters return, together with
//! the spec predicates that pin a primitive's exact shape and contents.

use vstd::prelude::*;

use crate::model::{Color, Opacity, PositiveNumber};

verus! {

/// The upstream image a primitive reads. Every converter targets the
/// element's own rendered content.
#[derive(Clone, Copy, Debug, PartialEq, Eq, Structural)]
pub enum FilterInput {
    SourceGraphic,
}

/// How a color-matrix primitive transforms pixels: a full row-major 4x5
/// coefficient matrix in `COEFF_SCALE` units, a saturation amount in
/// `AMOUNT_SCALE` units, or a hue rotation in `DEGREE_SCALE` units.
#[derive(Clone, Debug, PartialEq)]
pub enum FeColorMatrixKind {
    Matrix(Vec<i64>),
    Saturate(PositiveNumber),
    HueRotate(i64),
}

/// A color-matrix primitive.
#[derive(Clone, Debug, PartialEq)]
pub struct FeColorMatrix {
    pub input: FilterInput,
    pub kind: FeColorMatrixKind,
}

/// A per-channel remapping curve: pass-through, a piecewise-linear table
/// sampled over the unit interval (entries in `AMOUNT_SCALE` units), or the
/// line `slope * x + intercept` (both in `COEFF_SCALE` units).
#[derive(Clone, Debug, PartialEq)]
pub enum TransferFunction {
    Identity,
    Table(Vec<i64>),
    Linear { slope: i64, intercept: i64 },
}

/// A component-transfer primitive: one curve per channel.
#[derive(Clone, Debug, PartialEq)]
pub struct FeComponentTransfer {
    pub input: FilterInput,
    pub func_r: TransferFunction,
    pub func_g: TransferFunction,
    pub func_b: TransferFunction,
    pub func_a: TransferFunction,
}

/// A Gaussian-blur primitive; the standard deviations are in `AMOUNT_SCALE`
/// units and never negative.
#[derive(Clone, Copy, Debug, PartialEq, Eq, Structural)]
pub struct FeGaussianBlur {
    pub input: FilterInput,
    pub std_dev_x: PositiveNumber,
    pub std_dev_y: PositiveNumber,
}

/// A drop-shadow primitive; offsets and standard deviations are in
/// `AMOUNT_SCALE` units, and the standard deviations are never negative.
#[derive(Clone, Copy, Debug, PartialEq, Eq, Structural)]
pub struct FeDropShadow {
    pub input: FilterInput,
    pub dx: i64,
    pub dy: i64,
    pub std_dev_x: PositiveNumber,
    pub std_dev_y: PositiveNumber,
    pub color: Color,
    pub opacity: Opacity,
}

/// One filter primitive, the value every converter returns.
#[derive(Clone, Debug, PartialEq)]
pub enum FilterKind {
    FeColorMatrix(FeColorMatrix),
    FeComponentTransfer(FeComponentTransfer),
    FeGaussianBlur(FeGaussianBlur),
    FeDropShadow(FeDropShadow),
}

/// The mathematical contents of a coefficient vector.
pub open spec fn coeffs_of(v: Vec<i64>) -> Seq<int> {
    v@.map_values(|c: i64| c as int)
}

/// `k` is a color-matrix primitive over the source graphic whose full matrix
/// holds exactly `coeffs`.
pub open spec fn is_matrix_primitive(k: FilterKind, coeffs: Seq<int>) -> bool {
    &&& k matches FilterKind::FeColorMatrix(m)
    &&& m.input == FilterInput::SourceGraphic
    &&& m.kind matches FeColorMatrixKind::Matrix(v)
    &&& coeffs_of(v) == coeffs
}

/// `f` is a table curve holding exactly `entries`.
pub open spec fn is_table(f: TransferFunction, entries: Seq<int>) -> bool {
    &&& f matches TransferFunction::Table(v)
    &&& coeffs_of(v) == entries
}

/// `f` is a linear curve with exactly this slope and intercept.
pub open spec fn is_linear(f: TransferFunction, slope: int, intercept: int) -> bool {
    &&& f matches TransferFunction::Linear { slope: s, intercept: i }
    &&& s as int == slope
    &&& i as int == intercept
}

/// `k` is a component-transfer primitive over the source graphic whose R, G
/// and B channels all carry the same table and whose alpha channel passes
/// through.
pub open spec fn is_rgb_table_primitive(k: FilterKind, entries: Seq<int>) -> bool {
    &&& k matches FilterKind::FeComponentTransfer(t)
    &&& t.input == FilterInput::SourceGraphic
    &&& is_table(t.func_r, entries)
    &&& is_table(t.func_g, entries)
    &&& is_table(t.func_b, entries)
    &&& t.func_a == TransferFunction::Identity
}

/// `k` is a component-transfer primitive over the source graphic whose R, G
/// and B channels all carry the same linear curve and whose alpha channel
/// passes through.
pub open spec fn is_rgb_linear_primitive(k: FilterKind, slope: int, intercept: int) -> bool {
    &&& k matches FilterKind::FeComponentTransfer(t)
    &&& t.input == FilterInput::SourceGraphic
    &&& is_linear(t.func_r, slope, intercept)
    &&& is_linear(t.func_g, slope, intercept)
    &&& is_linear(t.func_b, slope, intercept)
    &&& t.func_a == TransferFunction::Identity
}

} // verus!
