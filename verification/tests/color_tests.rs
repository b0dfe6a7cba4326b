use huecycle::color::{hsv_add, ColorBase, Hsv};
use palette::FromColor;

#[test]
fn base_hsv_constants() {
    assert_eq!(
        ColorBase::Black.to_hsv(),
        Hsv { hue_num: 0, hue_den: 1, sat_num: 0, sat_den: 1, val_num: 0, val_den: 1 }
    );
    assert_eq!(
        ColorBase::White.to_hsv(),
        Hsv { hue_num: 0, hue_den: 1, sat_num: 0, sat_den: 1, val_num: 1, val_den: 1 }
    );
    assert_eq!(
        ColorBase::Red.to_hsv(),
        Hsv { hue_num: 0, hue_den: 1, sat_num: 1, sat_den: 1, val_num: 1, val_den: 1 }
    );
    assert_eq!(
        ColorBase::Green.to_hsv(),
        Hsv { hue_num: 120, hue_den: 1, sat_num: 1, sat_den: 1, val_num: 1, val_den: 1 }
    );
    assert_eq!(
        ColorBase::Blue.to_hsv(),
        Hsv { hue_num: 240, hue_den: 1, sat_num: 1, sat_den: 1, val_num: 1, val_den: 1 }
    );
}

#[test]
fn successor_cycles() {
    // the red/green/blue cycle closes after three steps
    assert_eq!(ColorBase::Red.successor(), ColorBase::Green);
    assert_eq!(ColorBase::Green.successor(), ColorBase::Blue);
    assert_eq!(ColorBase::Blue.successor(), ColorBase::Red);
    assert_eq!(
        ColorBase::Red.successor().successor().successor(),
        ColorBase::Red
    );
    // the white/black cycle closes after two and never joins the other
    assert_eq!(ColorBase::White.successor(), ColorBase::Black);
    assert_eq!(ColorBase::Black.successor(), ColorBase::White);
    assert_eq!(ColorBase::White.successor().successor(), ColorBase::White);
}

#[test]
fn add_applies_hue_offset_to_base() {
    // a green base plus two degrees of drift accumulated at 60 fps
    let offset = Hsv { hue_num: 120, hue_den: 60, sat_num: 0, sat_den: 1, val_num: 0, val_den: 1 };
    let sum = hsv_add(ColorBase::Green.to_hsv(), offset);
    assert_eq!(sum.hue_num, 120 * 60 + 120);
    assert_eq!(sum.hue_den, 60);
    assert_eq!(sum.sat_num, 1);
    assert_eq!(sum.sat_den, 1);
    assert_eq!(sum.val_num, 1);
    assert_eq!(sum.val_den, 1);
}

#[test]
fn add_same_denominator_accumulates() {
    let offset = Hsv { hue_num: 540, hue_den: 60, sat_num: 0, sat_den: 1, val_num: 0, val_den: 1 };
    let delta = Hsv { hue_num: 60, hue_den: 60, sat_num: 0, sat_den: 1, val_num: 0, val_den: 1 };
    let sum = hsv_add(offset, delta);
    assert_eq!(sum.hue_num, 600);
    assert_eq!(sum.hue_den, 60);
}

#[test]
fn add_hue_wraps_at_64_bits() {
    let offset = Hsv { hue_num: u64::MAX, hue_den: 1, sat_num: 0, sat_den: 1, val_num: 0, val_den: 1 };
    let delta = Hsv { hue_num: 1, hue_den: 1, sat_num: 0, sat_den: 1, val_num: 0, val_den: 1 };
    let sum = hsv_add(offset, delta);
    assert_eq!(sum.hue_num, 0);
}

// The HSV-to-RGBA conversion at the output edge: floating-point work
// through palette, outside the verified library.
fn to_rgba(hsv: Hsv) -> (u8, u8, u8, u8) {
    let h = hsv.hue_num as f32 / hsv.hue_den as f32;
    let s = hsv.sat_num as f32 / hsv.sat_den as f32;
    let v = hsv.val_num as f32 / hsv.val_den as f32;
    let rgb = palette::Srgb::from_color(palette::Hsv::new(h, s, v)).into_linear();
    (
        (255.0 * rgb.red) as u8,
        (255.0 * rgb.green) as u8,
        (255.0 * rgb.blue) as u8,
        255,
    )
}

#[test]
fn conversion_is_idempotent() {
    // converting the same HSV value twice yields identical RGBA bytes
    let drifted = Hsv { hue_num: 7320, hue_den: 60, sat_num: 1, sat_den: 1, val_num: 1, val_den: 1 };
    for c in [
        ColorBase::Black.to_hsv(),
        ColorBase::White.to_hsv(),
        ColorBase::Red.to_hsv(),
        ColorBase::Green.to_hsv(),
        ColorBase::Blue.to_hsv(),
        drifted,
    ] {
        assert_eq!(to_rgba(c), to_rgba(c));
    }
}

#[test]
fn conversion_of_pure_colors() {
    // hue and gamma leave the channel extremes 0 and 1 fixed, so the pure
    // base colors convert to exact bytes
    assert_eq!(to_rgba(ColorBase::Black.to_hsv()), (0, 0, 0, 255));
    assert_eq!(to_rgba(ColorBase::White.to_hsv()), (255, 255, 255, 255));
    assert_eq!(to_rgba(ColorBase::Red.to_hsv()), (255, 0, 0, 255));
    assert_eq!(to_rgba(ColorBase::Green.to_hsv()), (0, 255, 0, 255));
    assert_eq!(to_rgba(ColorBase::Blue.to_hsv()), (0, 0, 255, 255));
}

#[test]
fn add_does_not_clamp_saturation_or_value() {
    let a = Hsv { hue_num: 0, hue_den: 1, sat_num: 1, sat_den: 1, val_num: 1, val_den: 1 };
    let b = Hsv { hue_num: 0, hue_den: 1, sat_num: 1, sat_den: 1, val_num: 1, val_den: 1 };
    let sum = hsv_add(a, b);
    assert_eq!(sum.sat_num, 2);
    assert_eq!(sum.val_num, 2);
}
