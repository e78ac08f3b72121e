//! The filter-function converters. Each one maps a filter function's typed
//! arguments to exactly one primitive; out-of-range arguments are clamped, in
//! the direction the filter-effects specification fixes for that function,
//! never rejected.

use vstd::prelude::*;

use crate::model::{Angle, Color, Opacity, PositiveNumber, AMOUNT_LIMIT, AMOUNT_SCALE, COEFF_SCALE};
use crate::primitive::{
    is_matrix_primitive, is_rgb_linear_primitive, is_rgb_table_primitive, is_table, FeColorMatrix,
    FeColorMatrixKind, FeComponentTransfer, FeDropShadow, FeGaussianBlur, FilterInput, FilterKind,
    TransferFunction,
};

verus! {

/// `a`, cut down to at most `hi`.
pub open spec fn clamp_high(a: int, hi: int) -> int {
    if a > hi {
        hi
    } else {
        a
    }
}

/// `a`, raised to at least `lo`.
pub open spec fn clamp_low(a: int, lo: int) -> int {
    if a < lo {
        lo
    } else {
        a
    }
}

/// One matrix entry of a color-interpolation matrix, in `COEFF_SCALE` units:
/// the real value `base + delta * (1 - amount)`, with `base` and `delta` in
/// `AMOUNT_SCALE` units and `amount` an already-clamped amount in
/// `AMOUNT_SCALE` units.
pub open spec fn matrix_coeff(base: int, delta: int, amount: int) -> int {
    (AMOUNT_SCALE as int) * base + delta * ((AMOUNT_SCALE as int) - amount)
}

/// The 20 row-major 4x5 matrix entries of `grayscale(amount)` for an
/// already-clamped `amount`: a linear interpolation between the identity and
/// full desaturation to the standard luminance weights, alpha untouched.
pub open spec fn grayscale_coeffs(amount: int) -> Seq<int> {
    seq![
        matrix_coeff(2126, 7874, amount),
        matrix_coeff(7152, -7152, amount),
        matrix_coeff(722, -722, amount),
        0,
        0,
        matrix_coeff(2126, -2126, amount),
        matrix_coeff(7152, 2848, amount),
        matrix_coeff(722, -722, amount),
        0,
        0,
        matrix_coeff(2126, -2126, amount),
        matrix_coeff(7152, -7152, amount),
        matrix_coeff(722, 9278, amount),
        0,
        0,
        0,
        0,
        0,
        COEFF_SCALE as int,
        0,
    ]
}

/// The 20 row-major 4x5 matrix entries of `sepia(amount)` for an
/// already-clamped `amount`: a linear interpolation between the identity and
/// the standard sepia coefficient set, alpha untouched.
pub open spec fn sepia_coeffs(amount: int) -> Seq<int> {
    seq![
        matrix_coeff(3930, 6070, amount),
        matrix_coeff(7690, -7690, amount),
        matrix_coeff(1890, -1890, amount),
        0,
        0,
        matrix_coeff(3490, -3490, amount),
        matrix_coeff(6860, 3140, amount),
        matrix_coeff(1680, -1680, amount),
        0,
        0,
        matrix_coeff(2720, -2720, amount),
        matrix_coeff(5340, -5340, amount),
        matrix_coeff(1310, 8690, amount),
        0,
        0,
        0,
        0,
        0,
        COEFF_SCALE as int,
        0,
    ]
}

/// `k` is exactly the primitive `grayscale(amount)` yields: the amount is
/// clamped to at most one whole (negative amounts pass through), and the
/// result is the grayscale interpolation matrix over the source graphic.
pub open spec fn grayscale_spec(k: FilterKind, amount: int) -> bool {
    is_matrix_primitive(k, grayscale_coeffs(clamp_high(amount, AMOUNT_SCALE as int)))
}

/// `k` is exactly the primitive `sepia(amount)` yields; the clamp policy is
/// the same as for grayscale.
pub open spec fn sepia_spec(k: FilterKind, amount: int) -> bool {
    is_matrix_primitive(k, sepia_coeffs(clamp_high(amount, AMOUNT_SCALE as int)))
}

/// Convert `grayscale(amount)`; `amount` is in `AMOUNT_SCALE` units.
pub fn convert_grayscale(amount: i64) -> (k: FilterKind)
    requires
        amount >= -AMOUNT_LIMIT,
    ensures
        grayscale_spec(k, amount as int),
{
    let a: i64 = if amount > AMOUNT_SCALE {
        AMOUNT_SCALE
    } else {
        amount
    };
    let mut m: Vec<i64> = Vec::new();
    m.push(2126 * AMOUNT_SCALE + 7874 * (AMOUNT_SCALE - a));
    m.push(7152 * AMOUNT_SCALE + -7152 * (AMOUNT_SCALE - a));
    m.push(722 * AMOUNT_SCALE + -722 * (AMOUNT_SCALE - a));
    m.push(0);
    m.push(0);
    m.push(2126 * AMOUNT_SCALE + -2126 * (AMOUNT_SCALE - a));
    m.push(7152 * AMOUNT_SCALE + 2848 * (AMOUNT_SCALE - a));
    m.push(722 * AMOUNT_SCALE + -722 * (AMOUNT_SCALE - a));
    m.push(0);
    m.push(0);
    m.push(2126 * AMOUNT_SCALE + -2126 * (AMOUNT_SCALE - a));
    m.push(7152 * AMOUNT_SCALE + -7152 * (AMOUNT_SCALE - a));
    m.push(722 * AMOUNT_SCALE + 9278 * (AMOUNT_SCALE - a));
    m.push(0);
    m.push(0);
    m.push(0);
    m.push(0);
    m.push(0);
    m.push(COEFF_SCALE);
    m.push(0);
    proof {
        assert(crate::primitive::coeffs_of(m) =~= grayscale_coeffs(
            clamp_high(amount as int, AMOUNT_SCALE as int),
        ));
    }
    FilterKind::FeColorMatrix(
        FeColorMatrix { input: FilterInput::SourceGraphic, kind: FeColorMatrixKind::Matrix(m) },
    )
}

/// Convert `sepia(amount)`; `amount` is in `AMOUNT_SCALE` units.
pub fn convert_sepia(amount: i64) -> (k: FilterKind)
    requires
        amount >= -AMOUNT_LIMIT,
    ensures
        sepia_spec(k, amount as int),
{
    let a: i64 = if amount > AMOUNT_SCALE {
        AMOUNT_SCALE
    } else {
        amount
    };
    let mut m: Vec<i64> = Vec::new();
    m.push(3930 * AMOUNT_SCALE + 6070 * (AMOUNT_SCALE - a));
    m.push(7690 * AMOUNT_SCALE + -7690 * (AMOUNT_SCALE - a));
    m.push(1890 * AMOUNT_SCALE + -1890 * (AMOUNT_SCALE - a));
    m.push(0);
    m.push(0);
    m.push(3490 * AMOUNT_SCALE + -3490 * (AMOUNT_SCALE - a));
    m.push(6860 * AMOUNT_SCALE + 3140 * (AMOUNT_SCALE - a));
    m.push(1680 * AMOUNT_SCALE + -1680 * (AMOUNT_SCALE - a));
    m.push(0);
    m.push(0);
    m.push(2720 * AMOUNT_SCALE + -2720 * (AMOUNT_SCALE - a));
    m.push(5340 * AMOUNT_SCALE + -5340 * (AMOUNT_SCALE - a));
    m.push(1310 * AMOUNT_SCALE + 8690 * (AMOUNT_SCALE - a));
    m.push(0);
    m.push(0);
    m.push(0);
    m.push(0);
    m.push(0);
    m.push(COEFF_SCALE);
    m.push(0);
    proof {
        assert(crate::primitive::coeffs_of(m) =~= sepia_coeffs(
            clamp_high(amount as int, AMOUNT_SCALE as int),
        ));
    }
    FilterKind::FeColorMatrix(
        FeColorMatrix { input: FilterInput::SourceGraphic, kind: FeColorMatrixKind::Matrix(m) },
    )
}

/// `k` is exactly the primitive `saturate(amount)` yields: the amount is
/// raised to at least zero (no upper clamp) and carried as the dedicated
/// saturation kind, left for the renderer to expand.
pub open spec fn saturate_spec(k: FilterKind, amount: int) -> bool {
    &&& k matches FilterKind::FeColorMatrix(m)
    &&& m.input == FilterInput::SourceGraphic
    &&& m.kind matches FeColorMatrixKind::Saturate(p)
    &&& p.spec_value() == clamp_low(amount, 0)
}

/// Convert `saturate(amount)`; `amount` is in `AMOUNT_SCALE` units.
pub fn convert_saturate(amount: i64) -> (k: FilterKind)
    ensures
        saturate_spec(k, amount as int),
{
    let clamped: i64 = if amount < 0 {
        0
    } else {
        amount
    };
    FilterKind::FeColorMatrix(
        FeColorMatrix {
            input: FilterInput::SourceGraphic,
            kind: FeColorMatrixKind::Saturate(PositiveNumber::new(clamped)),
        },
    )
}

/// `k` is exactly the primitive `hue-rotate(angle)` yields: the angle
/// converted to degrees, unclamped and unnormalized, so negative and
/// larger-than-one-turn angles keep their numeric value.
pub open spec fn hue_rotate_spec(k: FilterKind, angle: Angle) -> bool {
    &&& k matches FilterKind::FeColorMatrix(m)
    &&& m.input == FilterInput::SourceGraphic
    &&& m.kind matches FeColorMatrixKind::HueRotate(d)
    &&& d as int == angle.spec_degrees()
}

/// Convert `hue-rotate(angle)`.
pub fn convert_hue_rotate(angle: Angle) -> (k: FilterKind)
    requires
        -AMOUNT_LIMIT <= angle.spec_number() <= AMOUNT_LIMIT,
    ensures
        hue_rotate_spec(k, angle),
{
    let degrees: i64 = match angle {
        Angle::Degrees(n) => 10 * n,
        Angle::Gradians(n) => 9 * n,
        Angle::Turns(n) => 3600 * n,
    };
    FilterKind::FeColorMatrix(
        FeColorMatrix {
            input: FilterInput::SourceGraphic,
            kind: FeColorMatrixKind::HueRotate(degrees),
        },
    )
}

/// `k` is exactly the primitive `invert(amount)` yields: the amount is
/// clamped to at most one whole, and R, G and B each map through the
/// two-point table `[amount, 1 - amount]` while alpha passes through.
pub open spec fn invert_spec(k: FilterKind, amount: int) -> bool {
    let a = clamp_high(amount, AMOUNT_SCALE as int);
    is_rgb_table_primitive(k, seq![a, (AMOUNT_SCALE as int) - a])
}

/// Convert `invert(amount)`; `amount` is in `AMOUNT_SCALE` units.
pub fn convert_invert(amount: i64) -> (k: FilterKind)
    requires
        amount >= -AMOUNT_LIMIT,
    ensures
        invert_spec(k, amount as int),
{
    let a: i64 = if amount > AMOUNT_SCALE {
        AMOUNT_SCALE
    } else {
        amount
    };
    let mut table_r: Vec<i64> = Vec::new();
    table_r.push(a);
    table_r.push(AMOUNT_SCALE - a);
    let mut table_g: Vec<i64> = Vec::new();
    table_g.push(a);
    table_g.push(AMOUNT_SCALE - a);
    let mut table_b: Vec<i64> = Vec::new();
    table_b.push(a);
    table_b.push(AMOUNT_SCALE - a);
    proof {
        let entries = seq![
            clamp_high(amount as int, AMOUNT_SCALE as int),
            (AMOUNT_SCALE as int) - clamp_high(amount as int, AMOUNT_SCALE as int),
        ];
        assert(crate::primitive::coeffs_of(table_r) =~= entries);
        assert(crate::primitive::coeffs_of(table_g) =~= entries);
        assert(crate::primitive::coeffs_of(table_b) =~= entries);
    }
    FilterKind::FeComponentTransfer(
        FeComponentTransfer {
            input: FilterInput::SourceGraphic,
            func_r: TransferFunction::Table(table_r),
            func_g: TransferFunction::Table(table_g),
            func_b: TransferFunction::Table(table_b),
            func_a: TransferFunction::Identity,
        },
    )
}

/// `k` is exactly the primitive `opacity(amount)` yields: the amount is
/// clamped to at most one whole, R, G and B pass through, and alpha maps
/// through the two-point table `[0, amount]`.
pub open spec fn opacity_spec(k: FilterKind, amount: int) -> bool {
    let a = clamp_high(amount, AMOUNT_SCALE as int);
    &&& k matches FilterKind::FeComponentTransfer(t)
    &&& t.input == FilterInput::SourceGraphic
    &&& t.func_r == TransferFunction::Identity
    &&& t.func_g == TransferFunction::Identity
    &&& t.func_b == TransferFunction::Identity
    &&& is_table(t.func_a, seq![0, a])
}

/// Convert `opacity(amount)`; `amount` is in `AMOUNT_SCALE` units.
pub fn convert_opacity(amount: i64) -> (k: FilterKind)
    ensures
        opacity_spec(k, amount as int),
{
    let a: i64 = if amount > AMOUNT_SCALE {
        AMOUNT_SCALE
    } else {
        amount
    };
    let mut table_a: Vec<i64> = Vec::new();
    table_a.push(0);
    table_a.push(a);
    proof {
        assert(crate::primitive::coeffs_of(table_a) =~= seq![
            0int,
            clamp_high(amount as int, AMOUNT_SCALE as int),
        ]);
    }
    FilterKind::FeComponentTransfer(
        FeComponentTransfer {
            input: FilterInput::SourceGraphic,
            func_r: TransferFunction::Identity,
            func_g: TransferFunction::Identity,
            func_b: TransferFunction::Identity,
            func_a: TransferFunction::Table(table_a),
        },
    )
}

/// `k` is exactly the primitive `brightness(amount)` yields: no clamping;
/// R, G and B each scale linearly by the amount with no offset, alpha passes
/// through.
pub open spec fn brightness_spec(k: FilterKind, amount: int) -> bool {
    is_rgb_linear_primitive(k, amount * (AMOUNT_SCALE as int), 0)
}

/// Convert `brightness(amount)`; `amount` is in `AMOUNT_SCALE` units.
pub fn convert_brightness(amount: i64) -> (k: FilterKind)
    requires
        -AMOUNT_LIMIT <= amount <= AMOUNT_LIMIT,
    ensures
        brightness_spec(k, amount as int),
{
    let slope: i64 = amount * AMOUNT_SCALE;
    FilterKind::FeComponentTransfer(
        FeComponentTransfer {
            input: FilterInput::SourceGraphic,
            func_r: TransferFunction::Linear { slope, intercept: 0 },
            func_g: TransferFunction::Linear { slope, intercept: 0 },
            func_b: TransferFunction::Linear { slope, intercept: 0 },
            func_a: TransferFunction::Identity,
        },
    )
}

/// `k` is exactly the primitive `contrast(amount)` yields: no clamping;
/// R, G and B each map through the line with slope `amount` and intercept
/// `0.5 * (1 - amount)`, alpha passes through.
pub open spec fn contrast_spec(k: FilterKind, amount: int) -> bool {
    is_rgb_linear_primitive(
        k,
        amount * (AMOUNT_SCALE as int),
        5000 * ((AMOUNT_SCALE as int) - amount),
    )
}

/// Convert `contrast(amount)`; `amount` is in `AMOUNT_SCALE` units.
pub fn convert_contrast(amount: i64) -> (k: FilterKind)
    requires
        -AMOUNT_LIMIT <= amount <= AMOUNT_LIMIT,
    ensures
        contrast_spec(k, amount as int),
{
    let slope: i64 = amount * AMOUNT_SCALE;
    let intercept: i64 = 5000 * (AMOUNT_SCALE - amount);
    FilterKind::FeComponentTransfer(
        FeComponentTransfer {
            input: FilterInput::SourceGraphic,
            func_r: TransferFunction::Linear { slope, intercept },
            func_g: TransferFunction::Linear { slope, intercept },
            func_b: TransferFunction::Linear { slope, intercept },
            func_a: TransferFunction::Identity,
        },
    )
}

/// `k` is exactly the primitive `blur(std_dev)` yields: the resolved
/// standard deviation, raised to at least zero, on both axes.
pub open spec fn blur_spec(k: FilterKind, std_dev: int) -> bool {
    &&& k matches FilterKind::FeGaussianBlur(b)
    &&& b.input == FilterInput::SourceGraphic
    &&& b.std_dev_x.spec_value() == clamp_low(std_dev, 0)
    &&& b.std_dev_y.spec_value() == clamp_low(std_dev, 0)
}

/// Convert `blur(std_dev)`; `std_dev` is the length argument already
/// resolved to user-space units at `AMOUNT_SCALE`, and may be negative.
pub fn convert_blur(std_dev: i64) -> (k: FilterKind)
    ensures
        blur_spec(k, std_dev as int),
{
    let clamped: i64 = if std_dev < 0 {
        0
    } else {
        std_dev
    };
    FilterKind::FeGaussianBlur(
        FeGaussianBlur {
            input: FilterInput::SourceGraphic,
            std_dev_x: PositiveNumber::new(clamped),
            std_dev_y: PositiveNumber::new(clamped),
        },
    )
}

/// The color a drop shadow takes: the explicit color argument if one was
/// given, else the ambient current color found in the document tree, else
/// opaque black.
pub open spec fn shadow_color(explicit: Option<Color>, ambient: Option<Color>) -> Color {
    match explicit {
        Some(c) => c,
        None => match ambient {
            Some(c) => c,
            None => Color { red: 0, green: 0, blue: 0 },
        },
    }
}

/// `k` is exactly the primitive `drop-shadow(color?, dx, dy, std_dev)`
/// yields: the resolved offsets unchanged, the resolved standard deviation
/// raised to at least zero on both axes, the color resolved by
/// [`shadow_color`], and a fully opaque default opacity.
pub open spec fn drop_shadow_spec(
    k: FilterKind,
    explicit: Option<Color>,
    ambient: Option<Color>,
    dx: int,
    dy: int,
    std_dev: int,
) -> bool {
    &&& k matches FilterKind::FeDropShadow(s)
    &&& s.input == FilterInput::SourceGraphic
    &&& s.dx as int == dx
    &&& s.dy as int == dy
    &&& s.std_dev_x.spec_value() == clamp_low(std_dev, 0)
    &&& s.std_dev_y.spec_value() == clamp_low(std_dev, 0)
    &&& s.color == shadow_color(explicit, ambient)
    &&& s.opacity.spec_value() == AMOUNT_SCALE as int
}

/// Convert `drop-shadow(color?, dx, dy, std_dev)`. The offsets and standard
/// deviation are the length arguments already resolved to user-space units at
/// `AMOUNT_SCALE`; `ambient_color` is the inherited current color the
/// document-tree context found for the invoking node, if any.
pub fn convert_drop_shadow(
    color: Option<Color>,
    ambient_color: Option<Color>,
    dx: i64,
    dy: i64,
    std_dev: i64,
) -> (k: FilterKind)
    ensures
        drop_shadow_spec(k, color, ambient_color, dx as int, dy as int, std_dev as int),
{
    let clamped: i64 = if std_dev < 0 {
        0
    } else {
        std_dev
    };
    let resolved: Color = match color {
        Some(c) => c,
        None => match ambient_color {
            Some(c) => c,
            None => Color::black(),
        },
    };
    FilterKind::FeDropShadow(
        FeDropShadow {
            input: FilterInput::SourceGraphic,
            dx,
            dy,
            std_dev_x: PositiveNumber::new(clamped),
            std_dev_y: PositiveNumber::new(clamped),
            color: resolved,
            opacity: Opacity::default(),
        },
    )
}

} // verus!
