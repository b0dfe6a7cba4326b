use vstd::prelude::*;

verus! {

/// A color in hue/saturation/value form.
///
/// Every component is an exact rational number: the hue is
/// `hue_num / hue_den` degrees, the saturation `sat_num / sat_den` and the
/// value `val_num / val_den` as unit fractions. Rationals keep the per-frame
/// hue drift exact: adding `60 / fps` degrees `fps` times yields exactly 60
/// degrees. The hue numerator is allowed to grow without bound (the drift
/// accumulator is never wrapped into `[0, 360)`) and wraps only at the 64-bit
/// boundary.
#[derive(Clone, Copy, PartialEq, Eq, Structural, Debug)]
pub struct Hsv {
    pub hue_num: u64,
    pub hue_den: u32,
    pub sat_num: u32,
    pub sat_den: u32,
    pub val_num: u32,
    pub val_den: u32,
}

impl Hsv {
    /// All denominators are positive, so each component denotes a rational.
    pub open spec fn wf(self) -> bool {
        &&& self.hue_den >= 1
        &&& self.sat_den >= 1
        &&& self.val_den >= 1
    }
}

/// The five discrete background colors the animation cycles through.
#[derive(Clone, Copy, PartialEq, Eq, Structural, Debug)]
pub enum ColorBase {
    Black,
    White,
    Red,
    Green,
    Blue,
}

impl ColorBase {
    pub open spec fn successor_spec(self) -> ColorBase {
        match self {
            ColorBase::Red => ColorBase::Green,
            ColorBase::Green => ColorBase::Blue,
            ColorBase::Blue => ColorBase::Red,
            ColorBase::White => ColorBase::Black,
            ColorBase::Black => ColorBase::White,
        }
    }

    /// The next color in the cycle. Red, Green and Blue form a 3-cycle;
    /// White and Black form a separate 2-cycle; the two cycles never merge.
    pub fn successor(self) -> (r: ColorBase)
        ensures
            r == self.successor_spec(),
    {
        match self {
            ColorBase::Red => ColorBase::Green,
            ColorBase::Green => ColorBase::Blue,
            ColorBase::Blue => ColorBase::Red,
            ColorBase::White => ColorBase::Black,
            ColorBase::Black => ColorBase::White,
        }
    }

    /// Membership in the red/green/blue cycle; the other two colors form
    /// the white/black cycle.
    pub open spec fn in_rgb_cycle(self) -> bool {
        self is Red || self is Green || self is Blue
    }

    pub open spec fn to_hsv_spec(self) -> Hsv {
        match self {
            ColorBase::Black => hsv_unit(0, 0, 0),
            ColorBase::White => hsv_unit(0, 0, 1),
            ColorBase::Red => hsv_unit(0, 1, 1),
            ColorBase::Green => hsv_unit(120, 1, 1),
            ColorBase::Blue => hsv_unit(240, 1, 1),
        }
    }

    /// The canonical HSV constant of this color base.
    pub fn to_hsv(self) -> (r: Hsv)
        ensures
            r == self.to_hsv_spec(),
            r.wf(),
    {
        match self {
            ColorBase::Black => Hsv { hue_num: 0, hue_den: 1, sat_num: 0, sat_den: 1, val_num: 0, val_den: 1 },
            ColorBase::White => Hsv { hue_num: 0, hue_den: 1, sat_num: 0, sat_den: 1, val_num: 1, val_den: 1 },
            ColorBase::Red => Hsv { hue_num: 0, hue_den: 1, sat_num: 1, sat_den: 1, val_num: 1, val_den: 1 },
            ColorBase::Green => Hsv { hue_num: 120, hue_den: 1, sat_num: 1, sat_den: 1, val_num: 1, val_den: 1 },
            ColorBase::Blue => Hsv { hue_num: 240, hue_den: 1, sat_num: 1, sat_den: 1, val_num: 1, val_den: 1 },
        }
    }
}

/// An HSV constant with whole-number components.
pub open spec fn hsv_unit(hue: u64, sat: u32, val: u32) -> Hsv {
    Hsv { hue_num: hue, hue_den: 1, sat_num: sat, sat_den: 1, val_num: val, val_den: 1 }
}

/// Color-base successor cycle: starting at Red, three cycle triggers
/// return the base to Red; starting at White, one trigger reaches Black
/// and a second returns to White. The red/green/blue cycle and the
/// white/black cycle never merge: the successor keeps each color in the
/// cycle it started in.
pub proof fn lemma_color_base_cycles()
    ensures
        ColorBase::Red.successor_spec().successor_spec().successor_spec() == ColorBase::Red,
        ColorBase::White.successor_spec() == ColorBase::Black,
        ColorBase::White.successor_spec().successor_spec() == ColorBase::White,
        forall|c: ColorBase| (#[trigger] c.successor_spec()).in_rgb_cycle() == c.in_rgb_cycle(),
{
}

/// Componentwise sum of two colors, as the animation uses it: hue adds to
/// hue, saturation to saturation, value to value, with no wraparound into
/// `[0, 360)` and no clamping into `[0, 1]`. Each of the left operand's
/// denominators must divide the right's, so the sum is exact over the
/// right operand's denominators. The hue numerator wraps at the 64-bit
/// boundary; saturation and value must not overflow.
pub open spec fn hsv_add_spec(a: Hsv, b: Hsv) -> Hsv {
    Hsv {
        hue_num: vstd::wrapping::u64_specs::wrapping_add(
            vstd::wrapping::u64_specs::wrapping_mul(
                a.hue_num,
                (b.hue_den as int / a.hue_den as int) as u64,
            ),
            b.hue_num,
        ),
        hue_den: b.hue_den,
        sat_num: (a.sat_num * (b.sat_den as int / a.sat_den as int) + b.sat_num) as u32,
        sat_den: b.sat_den,
        val_num: (a.val_num * (b.val_den as int / a.val_den as int) + b.val_num) as u32,
        val_den: b.val_den,
    }
}

/// Componentwise sum of two colors; see `hsv_add_spec`.
pub fn hsv_add(a: Hsv, b: Hsv) -> (r: Hsv)
    requires
        a.wf(),
        b.wf(),
        b.hue_den as int % a.hue_den as int == 0,
        b.sat_den as int % a.sat_den as int == 0,
        b.val_den as int % a.val_den as int == 0,
        a.sat_num * (b.sat_den as int / a.sat_den as int) + b.sat_num <= u32::MAX,
        a.val_num * (b.val_den as int / a.val_den as int) + b.val_num <= u32::MAX,
    ensures
        r == hsv_add_spec(a, b),
        r.wf(),
{
    let hue_factor: u32 = b.hue_den / a.hue_den;
    let sat_factor: u32 = b.sat_den / a.sat_den;
    let val_factor: u32 = b.val_den / a.val_den;
    Hsv {
        hue_num: a.hue_num.wrapping_mul(hue_factor as u64).wrapping_add(b.hue_num),
        hue_den: b.hue_den,
        sat_num: a.sat_num * sat_factor + b.sat_num,
        sat_den: b.sat_den,
        val_num: a.val_num * val_factor + b.val_num,
        val_den: b.val_den,
    }
}

} // verus!
