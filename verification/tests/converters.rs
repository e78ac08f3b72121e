use filter_funcs::funcs::{
    convert_blur, convert_brightness, convert_contrast, convert_drop_shadow, convert_grayscale,
    convert_hue_rotate, convert_invert, convert_opacity, convert_saturate, convert_sepia,
};
use filter_funcs::model::{Angle, Color, AMOUNT_SCALE, DEGREE_SCALE};
use filter_funcs::primitive::{FeColorMatrixKind, FilterInput, FilterKind, TransferFunction};

fn matrix_of(k: FilterKind) -> Vec<i64> {
    match k {
        FilterKind::FeColorMatrix(m) => {
            assert_eq!(m.input, FilterInput::SourceGraphic);
            match m.kind {
                FeColorMatrixKind::Matrix(v) => v,
                other => panic!("expected a full matrix, got {:?}", other),
            }
        }
        other => panic!("expected a color matrix, got {:?}", other),
    }
}

fn transfer_of(k: FilterKind) -> (TransferFunction, TransferFunction, TransferFunction, TransferFunction) {
    match k {
        FilterKind::FeComponentTransfer(t) => {
            assert_eq!(t.input, FilterInput::SourceGraphic);
            (t.func_r, t.func_g, t.func_b, t.func_a)
        }
        other => panic!("expected a component transfer, got {:?}", other),
    }
}

#[test]
fn grayscale_at_zero_is_identity_matrix() {
    let expected: Vec<i64> = vec![
        100_000_000, 0, 0, 0, 0,
        0, 100_000_000, 0, 0, 0,
        0, 0, 100_000_000, 0, 0,
        0, 0, 0, 100_000_000, 0,
    ];
    assert_eq!(matrix_of(convert_grayscale(0)), expected);
}

#[test]
fn grayscale_at_one_is_luminance_weights() {
    let expected: Vec<i64> = vec![
        21_260_000, 71_520_000, 7_220_000, 0, 0,
        21_260_000, 71_520_000, 7_220_000, 0, 0,
        21_260_000, 71_520_000, 7_220_000, 0, 0,
        0, 0, 0, 100_000_000, 0,
    ];
    assert_eq!(matrix_of(convert_grayscale(10_000)), expected);
}

#[test]
fn grayscale_at_half_interpolates() {
    let m = matrix_of(convert_grayscale(5_000));
    assert_eq!(m[0], 60_630_000);
    assert_eq!(m[1], 35_760_000);
    assert_eq!(m[2], 3_610_000);
    assert_eq!(m[6], 85_760_000);
    assert_eq!(m[12], 53_610_000);
    assert_eq!(m[18], 100_000_000);
}

#[test]
fn grayscale_negative_amount_passes_through() {
    let m = matrix_of(convert_grayscale(-10_000));
    assert_eq!(m[0], 178_740_000);
    assert_eq!(m[1], -71_520_000);
}

#[test]
fn grayscale_above_one_clamps_to_one() {
    assert_eq!(convert_grayscale(20_000), convert_grayscale(10_000));
    assert_eq!(convert_grayscale(10_001), convert_grayscale(10_000));
}

#[test]
fn sepia_at_one_is_sepia_weights() {
    let expected: Vec<i64> = vec![
        39_300_000, 76_900_000, 18_900_000, 0, 0,
        34_900_000, 68_600_000, 16_800_000, 0, 0,
        27_200_000, 53_400_000, 13_100_000, 0, 0,
        0, 0, 0, 100_000_000, 0,
    ];
    assert_eq!(matrix_of(convert_sepia(10_000)), expected);
}

#[test]
fn sepia_at_zero_is_identity_matrix() {
    let expected: Vec<i64> = vec![
        100_000_000, 0, 0, 0, 0,
        0, 100_000_000, 0, 0, 0,
        0, 0, 100_000_000, 0, 0,
        0, 0, 0, 100_000_000, 0,
    ];
    assert_eq!(matrix_of(convert_sepia(0)), expected);
}

#[test]
fn sepia_above_one_clamps_to_one() {
    assert_eq!(convert_sepia(35_000), convert_sepia(10_000));
}

#[test]
fn saturate_keeps_nonnegative_amount() {
    match convert_saturate(25_000) {
        FilterKind::FeColorMatrix(m) => match m.kind {
            FeColorMatrixKind::Saturate(p) => assert_eq!(p.get(), 25_000),
            other => panic!("expected saturate, got {:?}", other),
        },
        other => panic!("expected a color matrix, got {:?}", other),
    }
}

#[test]
fn saturate_negative_amount_equals_zero() {
    assert_eq!(convert_saturate(-5), convert_saturate(0));
    match convert_saturate(-12_345) {
        FilterKind::FeColorMatrix(m) => match m.kind {
            FeColorMatrixKind::Saturate(p) => assert_eq!(p.get(), 0),
            other => panic!("expected saturate, got {:?}", other),
        },
        other => panic!("expected a color matrix, got {:?}", other),
    }
}

#[test]
fn hue_rotate_full_turn_keeps_its_degrees() {
    // 360 degrees in, 360 degrees out: no normalization to [0, 360).
    match convert_hue_rotate(Angle::Degrees(360 * AMOUNT_SCALE)) {
        FilterKind::FeColorMatrix(m) => {
            assert_eq!(m.kind, FeColorMatrixKind::HueRotate(360 * DEGREE_SCALE));
        }
        other => panic!("expected a color matrix, got {:?}", other),
    }
}

#[test]
fn hue_rotate_converts_units_to_degrees() {
    // 100 gradians are 90 degrees; a quarter turn is 90 degrees; negative
    // angles keep their sign.
    let gradians = match convert_hue_rotate(Angle::Gradians(100 * AMOUNT_SCALE)) {
        FilterKind::FeColorMatrix(m) => m.kind,
        other => panic!("expected a color matrix, got {:?}", other),
    };
    assert_eq!(gradians, FeColorMatrixKind::HueRotate(90 * DEGREE_SCALE));
    let turns = match convert_hue_rotate(Angle::Turns(AMOUNT_SCALE / 4)) {
        FilterKind::FeColorMatrix(m) => m.kind,
        other => panic!("expected a color matrix, got {:?}", other),
    };
    assert_eq!(turns, FeColorMatrixKind::HueRotate(90 * DEGREE_SCALE));
    let negative = match convert_hue_rotate(Angle::Degrees(-45 * AMOUNT_SCALE)) {
        FilterKind::FeColorMatrix(m) => m.kind,
        other => panic!("expected a color matrix, got {:?}", other),
    };
    assert_eq!(negative, FeColorMatrixKind::HueRotate(-45 * DEGREE_SCALE));
}

#[test]
fn invert_at_zero_and_one() {
    let (r, g, b, a) = transfer_of(convert_invert(0));
    assert_eq!(r, TransferFunction::Table(vec![0, 10_000]));
    assert_eq!(g, TransferFunction::Table(vec![0, 10_000]));
    assert_eq!(b, TransferFunction::Table(vec![0, 10_000]));
    assert_eq!(a, TransferFunction::Identity);

    let (r, g, b, a) = transfer_of(convert_invert(10_000));
    assert_eq!(r, TransferFunction::Table(vec![10_000, 0]));
    assert_eq!(g, TransferFunction::Table(vec![10_000, 0]));
    assert_eq!(b, TransferFunction::Table(vec![10_000, 0]));
    assert_eq!(a, TransferFunction::Identity);
}

#[test]
fn invert_clamps_above_one() {
    assert_eq!(convert_invert(99_999), convert_invert(10_000));
}

#[test]
fn opacity_at_one_and_zero() {
    let (r, g, b, a) = transfer_of(convert_opacity(10_000));
    assert_eq!(r, TransferFunction::Identity);
    assert_eq!(g, TransferFunction::Identity);
    assert_eq!(b, TransferFunction::Identity);
    assert_eq!(a, TransferFunction::Table(vec![0, 10_000]));

    let (_, _, _, a) = transfer_of(convert_opacity(0));
    assert_eq!(a, TransferFunction::Table(vec![0, 0]));
}

#[test]
fn opacity_clamps_above_one_only() {
    assert_eq!(convert_opacity(10_500), convert_opacity(10_000));
    let (_, _, _, a) = transfer_of(convert_opacity(-5_000));
    assert_eq!(a, TransferFunction::Table(vec![0, -5_000]));
}

#[test]
fn brightness_is_a_pure_slope() {
    let (r, g, b, a) = transfer_of(convert_brightness(15_000));
    let expected = TransferFunction::Linear { slope: 150_000_000, intercept: 0 };
    assert_eq!(r, expected);
    assert_eq!(g, expected);
    assert_eq!(b, expected);
    assert_eq!(a, TransferFunction::Identity);
}

#[test]
fn contrast_at_one_is_identity_line() {
    let (r, g, b, a) = transfer_of(convert_contrast(10_000));
    let expected = TransferFunction::Linear { slope: 100_000_000, intercept: 0 };
    assert_eq!(r, expected);
    assert_eq!(g, expected);
    assert_eq!(b, expected);
    assert_eq!(a, TransferFunction::Identity);
}

#[test]
fn contrast_at_two_has_negative_half_intercept() {
    let (r, _, _, _) = transfer_of(convert_contrast(20_000));
    assert_eq!(r, TransferFunction::Linear { slope: 200_000_000, intercept: -50_000_000 });
}

#[test]
fn blur_keeps_resolved_length() {
    match convert_blur(42) {
        FilterKind::FeGaussianBlur(b) => {
            assert_eq!(b.input, FilterInput::SourceGraphic);
            assert_eq!(b.std_dev_x.get(), 42);
            assert_eq!(b.std_dev_y.get(), 42);
        }
        other => panic!("expected a Gaussian blur, got {:?}", other),
    }
}

#[test]
fn blur_negative_length_clamps_to_zero() {
    match convert_blur(-3) {
        FilterKind::FeGaussianBlur(b) => {
            assert_eq!(b.std_dev_x.get(), 0);
            assert_eq!(b.std_dev_y.get(), 0);
        }
        other => panic!("expected a Gaussian blur, got {:?}", other),
    }
}

#[test]
fn drop_shadow_keeps_offsets_and_clamps_std_dev() {
    let teal = Color { red: 0, green: 128, blue: 128 };
    match convert_drop_shadow(Some(teal), None, 30_000, -20_000, -7) {
        FilterKind::FeDropShadow(s) => {
            assert_eq!(s.input, FilterInput::SourceGraphic);
            assert_eq!(s.dx, 30_000);
            assert_eq!(s.dy, -20_000);
            assert_eq!(s.std_dev_x.get(), 0);
            assert_eq!(s.std_dev_y.get(), 0);
            assert_eq!(s.color, teal);
            assert_eq!(s.opacity.get(), 10_000);
        }
        other => panic!("expected a drop shadow, got {:?}", other),
    }
}

#[test]
fn drop_shadow_explicit_color_wins_over_ambient() {
    let red = Color { red: 255, green: 0, blue: 0 };
    let green = Color { red: 0, green: 255, blue: 0 };
    match convert_drop_shadow(Some(red), Some(green), 0, 0, 10_000) {
        FilterKind::FeDropShadow(s) => {
            assert_eq!(s.color, red);
            assert_eq!(s.std_dev_x.get(), 10_000);
        }
        other => panic!("expected a drop shadow, got {:?}", other),
    }
}

#[test]
fn drop_shadow_falls_back_to_ambient_color() {
    let green = Color { red: 0, green: 255, blue: 0 };
    match convert_drop_shadow(None, Some(green), 0, 0, 5_000) {
        FilterKind::FeDropShadow(s) => assert_eq!(s.color, green),
        other => panic!("expected a drop shadow, got {:?}", other),
    }
}

#[test]
fn drop_shadow_without_any_color_is_opaque_black() {
    match convert_drop_shadow(None, None, 10_000, 10_000, 20_000) {
        FilterKind::FeDropShadow(s) => {
            assert_eq!(s.color, Color { red: 0, green: 0, blue: 0 });
            assert_eq!(s.opacity.get(), 10_000);
        }
        other => panic!("expected a drop shadow, got {:?}", other),
    }
}
