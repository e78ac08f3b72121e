//! Laws that relate the converters' contracts to one another: the clamp
//! policies and the guarantees that hold of every primitive the converters
//! can return.

use vstd::prelude::*;

use crate::funcs::{
    blur_spec, drop_shadow_spec, grayscale_spec, saturate_spec, sepia_spec,
};
use crate::model::{Color, AMOUNT_SCALE};
use crate::primitive::FilterKind;

verus! {

/// For every amount of at least one whole, `grayscale` yields exactly the
/// primitive it yields at one whole: the upper clamp holds.
pub proof fn lemma_grayscale_upper_clamp(k: FilterKind, amount: int)
    requires
        amount >= AMOUNT_SCALE,
    ensures
        grayscale_spec(k, amount) == grayscale_spec(k, AMOUNT_SCALE as int),
{
}

/// For every amount of at least one whole, `sepia` yields exactly the
/// primitive it yields at one whole: the upper clamp holds.
pub proof fn lemma_sepia_upper_clamp(k: FilterKind, amount: int)
    requires
        amount >= AMOUNT_SCALE,
    ensures
        sepia_spec(k, amount) == sepia_spec(k, AMOUNT_SCALE as int),
{
}

/// For every negative amount, `saturate` yields exactly the primitive it
/// yields at zero: the lower clamp holds.
pub proof fn lemma_saturate_lower_clamp(k: FilterKind, amount: int)
    requires
        amount < 0,
    ensures
        saturate_spec(k, amount) == saturate_spec(k, 0),
{
}

/// Whatever the resolved length, even a negative one, a blur primitive's
/// standard deviations are never negative.
pub proof fn lemma_blur_std_dev_nonnegative(k: FilterKind, std_dev: int)
    requires
        blur_spec(k, std_dev),
    ensures
        k matches FilterKind::FeGaussianBlur(b) && b.std_dev_x.spec_value() >= 0
            && b.std_dev_y.spec_value() >= 0,
{
}

/// Whatever the resolved lengths, even negative ones, a drop-shadow
/// primitive's standard deviations are never negative.
pub proof fn lemma_drop_shadow_std_dev_nonnegative(
    k: FilterKind,
    explicit: Option<Color>,
    ambient: Option<Color>,
    dx: int,
    dy: int,
    std_dev: int,
)
    requires
        drop_shadow_spec(k, explicit, ambient, dx, dy, std_dev),
    ensures
        k matches FilterKind::FeDropShadow(s) && s.std_dev_x.spec_value() >= 0
            && s.std_dev_y.spec_value() >= 0,
{
}

/// A drop shadow with no explicit color and no ambient current color is
/// opaque black.
pub proof fn lemma_drop_shadow_default_color(k: FilterKind, dx: int, dy: int, std_dev: int)
    requires
        drop_shadow_spec(k, None, None, dx, dy, std_dev),
    ensures
        k matches FilterKind::FeDropShadow(s) && s.color == (Color {
            red: 0,
            green: 0,
            blue: 0,
        }),
{
}

} // verus!
