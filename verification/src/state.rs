use vstd::prelude::*;
use crate::color::{ColorBase, Hsv, hsv_add, hsv_add_spec};
use vstd::arithmetic::div_mod::{
    lemma_div_basics,
    lemma_fundamental_div_mod,
    lemma_fundamental_div_mod_converse_mod,
    lemma_mod_multiples_vanish,
    lemma_small_mod,
};

verus! {

/// Default target frame rate, in frames per second.
pub const DEFAULT_FPS: u32 = 60;

/// Default flash interval, in seconds.
pub const DEFAULT_FLASH_INTERVAL: u32 = 7;

/// Default flash duration, in frames.
pub const DEFAULT_FLASH_DURATION: u32 = 1;

/// How often the animation reports a diagnostic frame, in seconds.
pub const DIAGNOSTIC_SECONDS: u32 = 60;

/// The animation state, advanced once per frame tick.
///
/// `background_color` is always derived from the base color, the hue drift
/// and the flash timing; it is never mutated independently. `frame`
/// increases once per call to `advance` and wraps at the 64-bit boundary.
/// The hue offset accumulator grows without bound (it is never reduced
/// into `[0, 360)` degrees).
#[derive(Clone, Copy, PartialEq, Eq, Structural, Debug)]
pub struct State {
    pub done: bool,
    pub fps: u32,
    pub frame: u64,
    pub background_color_base: ColorBase,
    pub hsv_delta: Hsv,
    pub hsv_offset: Hsv,
    pub background_color: Hsv,
    pub flash_interval: u32,
    pub flash_duration: u32,
}

impl State {
    /// The per-frame hue drift: `60 / fps` degrees, so that a second of
    /// frames drifts the hue by exactly 60 degrees.
    pub open spec fn delta_spec(fps: u32) -> Hsv {
        Hsv { hue_num: 60, hue_den: fps, sat_num: 0, sat_den: 1, val_num: 0, val_den: 1 }
    }

    /// The number of frames between two cycle triggers.
    pub open spec fn flash_period(self) -> int {
        self.flash_interval * self.fps
    }

    /// The position of the current frame within the flash period.
    pub open spec fn flash_timer(self) -> int {
        self.frame as int % self.flash_period()
    }

    /// The flash overrides the frame while the timer is under the duration.
    pub open spec fn flashing(self) -> bool {
        self.flash_timer() < self.flash_duration
    }

    /// Well-formedness: the rates are positive, their product fits the
    /// 32-bit range, the drift is the canonical `60 / fps` degrees per
    /// frame, and the offset accumulator is a pure hue over denominator
    /// `fps`.
    pub open spec fn wf(self) -> bool {
        &&& 1 <= self.fps
        &&& 1 <= self.flash_interval
        &&& self.flash_interval * self.fps <= u32::MAX
        &&& self.hsv_delta == State::delta_spec(self.fps)
        &&& self.hsv_offset.hue_den == self.fps
        &&& self.hsv_offset.sat_num == 0
        &&& self.hsv_offset.sat_den == 1
        &&& self.hsv_offset.val_num == 0
        &&& self.hsv_offset.val_den == 1
        &&& self.background_color.wf()
    }

    /// A fresh state with the given configuration: not done, at frame zero,
    /// on a red base, with no hue drift accumulated yet.
    pub open spec fn configured_spec(fps: u32, flash_interval: u32, flash_duration: u32) -> State {
        State {
            done: false,
            fps: fps,
            frame: 0,
            background_color_base: ColorBase::Red,
            hsv_delta: State::delta_spec(fps),
            hsv_offset: Hsv {
                hue_num: 0,
                hue_den: fps,
                sat_num: 0,
                sat_den: 1,
                val_num: 0,
                val_den: 1,
            },
            background_color: ColorBase::Red.to_hsv_spec(),
            flash_interval: flash_interval,
            flash_duration: flash_duration,
        }
    }

    /// The configuration values on which the animation is defined: positive
    /// rates whose product — the flash period in frames — fits in 32 bits.
    pub open spec fn valid_config(fps: u32, flash_interval: u32) -> bool {
        &&& 1 <= fps
        &&& 1 <= flash_interval
        &&& flash_interval * fps <= u32::MAX
    }

    /// A fresh state with the default configuration.
    pub fn new() -> (r: State)
        ensures
            r == State::configured_spec(DEFAULT_FPS, DEFAULT_FLASH_INTERVAL, DEFAULT_FLASH_DURATION),
            r.wf(),
    {
        State {
            done: false,
            fps: DEFAULT_FPS,
            frame: 0,
            background_color_base: ColorBase::Red,
            hsv_delta: Hsv {
                hue_num: 60,
                hue_den: DEFAULT_FPS,
                sat_num: 0,
                sat_den: 1,
                val_num: 0,
                val_den: 1,
            },
            hsv_offset: Hsv {
                hue_num: 0,
                hue_den: DEFAULT_FPS,
                sat_num: 0,
                sat_den: 1,
                val_num: 0,
                val_den: 1,
            },
            background_color: ColorBase::Red.to_hsv(),
            flash_interval: DEFAULT_FLASH_INTERVAL,
            flash_duration: DEFAULT_FLASH_DURATION,
        }
    }

    /// A fresh state with the given configuration, or `None` exactly when
    /// the configuration is invalid (a zero rate, or a flash period that
    /// does not fit in 32 bits).
    pub fn with_config(fps: u32, flash_interval: u32, flash_duration: u32) -> (r: Option<State>)
        ensures
            r is Some <==> State::valid_config(fps, flash_interval),
            r is Some ==> r->Some_0 == State::configured_spec(fps, flash_interval, flash_duration),
            r is Some ==> r->Some_0.wf(),
    {
        if 1 <= fps && 1 <= flash_interval && flash_interval.checked_mul(fps).is_some() {
            Some(State {
                done: false,
                fps: fps,
                frame: 0,
                background_color_base: ColorBase::Red,
                hsv_delta: Hsv {
                    hue_num: 60,
                    hue_den: fps,
                    sat_num: 0,
                    sat_den: 1,
                    val_num: 0,
                    val_den: 1,
                },
                hsv_offset: Hsv {
                    hue_num: 0,
                    hue_den: fps,
                    sat_num: 0,
                    sat_den: 1,
                    val_num: 0,
                    val_den: 1,
                },
                background_color: ColorBase::Red.to_hsv(),
                flash_interval: flash_interval,
                flash_duration: flash_duration,
            })
        } else {
            None
        }
    }

    /// Runtime check of well-formedness, for callers outside the verified
    /// world that reach the public fields directly.
    pub fn is_well_formed(&self) -> (r: bool)
        ensures
            r == self.wf(),
    {
        1 <= self.fps && 1 <= self.flash_interval
            && self.flash_interval.checked_mul(self.fps).is_some()
            && self.hsv_delta.hue_num == 60 && self.hsv_delta.hue_den == self.fps
            && self.hsv_delta.sat_num == 0 && self.hsv_delta.sat_den == 1
            && self.hsv_delta.val_num == 0 && self.hsv_delta.val_den == 1
            && self.hsv_offset.hue_den == self.fps && self.hsv_offset.sat_num == 0
            && self.hsv_offset.sat_den == 1 && self.hsv_offset.val_num == 0
            && self.hsv_offset.val_den == 1 && self.background_color.hue_den >= 1
            && self.background_color.sat_den >= 1 && self.background_color.val_den >= 1
    }

    /// The state after one frame tick. On a cycle boundary (timer zero) the
    /// base advances to its successor; the hue offset always grows by one
    /// delta; the displayed color is solid white while the flash is active
    /// and the drifted base color otherwise; the frame counter increments
    /// with wraparound at the 64-bit boundary.
    pub open spec fn step_spec(self) -> State {
        let base = if self.flash_timer() == 0 {
            self.background_color_base.successor_spec()
        } else {
            self.background_color_base
        };
        let offset = hsv_add_spec(self.hsv_offset, self.hsv_delta);
        let color = if self.flashing() {
            ColorBase::White.to_hsv_spec()
        } else {
            hsv_add_spec(base.to_hsv_spec(), offset)
        };
        State {
            done: self.done,
            fps: self.fps,
            frame: vstd::wrapping::u64_specs::wrapping_add(self.frame, 1),
            background_color_base: base,
            hsv_delta: self.hsv_delta,
            hsv_offset: offset,
            background_color: color,
            flash_interval: self.flash_interval,
            flash_duration: self.flash_duration,
        }
    }

    /// Advance the animation by one frame tick; see `step_spec`.
    pub fn advance(&mut self)
        requires
            old(self).wf(),
        ensures
            *final(self) == old(self).step_spec(),
            final(self).wf(),
    {
        proof {
            let ghost fi = old(self).flash_interval;
            let ghost fp = old(self).fps;
            assert(1 <= fi * fp) by (nonlinear_arith)
                requires
                    1 <= fi,
                    1 <= fp,
            ;
        }
        let period: u32 = self.flash_interval * self.fps;
        let flash_timer: u64 = self.frame % (period as u64);
        let flash: bool = flash_timer < (self.flash_duration as u64);
        if flash_timer == 0 {
            self.background_color_base = self.background_color_base.successor();
        }
        self.hsv_offset = hsv_add(self.hsv_offset, self.hsv_delta);
        self.background_color = if flash {
            ColorBase::White.to_hsv()
        } else {
            let base_hsv = self.background_color_base.to_hsv();
            proof {
                // the sums stay tiny: the base saturation and value are at
                // most one, the accumulated offset contributes zero
                assert(self.hsv_offset.sat_num == 0 && self.hsv_offset.val_num == 0);
                assert(base_hsv.sat_num * (self.hsv_offset.sat_den as int / base_hsv.sat_den as int)
                    + self.hsv_offset.sat_num <= u32::MAX);
                assert(base_hsv.val_num * (self.hsv_offset.val_den as int / base_hsv.val_den as int)
                    + self.hsv_offset.val_num <= u32::MAX);
            }
            hsv_add(base_hsv, self.hsv_offset)
        };
        self.frame = self.frame.wrapping_add(1);
    }

    /// True on the frames where the animation emits its periodic
    /// diagnostic observation: every `DIAGNOSTIC_SECONDS` worth of frames.
    pub fn diagnostic_due(&self) -> (r: bool)
        requires
            self.wf(),
        ensures
            r == (self.frame as int % (DIAGNOSTIC_SECONDS * self.fps as int) == 0),
    {
        self.frame % ((DIAGNOSTIC_SECONDS as u64) * (self.fps as u64)) == 0
    }
}

/// The state after `n` frame ticks.
pub open spec fn step_n(s: State, n: nat) -> State
    decreases n,
{
    if n == 0 {
        s
    } else {
        step_n(s, (n - 1) as nat).step_spec()
    }
}

/// One frame tick preserves well-formedness and leaves the configuration,
/// the done flag and the drift rate unchanged.
pub proof fn lemma_step_preserves_wf(s: State)
    requires
        s.wf(),
    ensures
        s.step_spec().wf(),
        s.step_spec().fps == s.fps,
        s.step_spec().flash_interval == s.flash_interval,
        s.step_spec().flash_duration == s.flash_duration,
        s.step_spec().hsv_delta == s.hsv_delta,
        s.step_spec().done == s.done,
{
}

/// The flash period is positive for a well-formed state.
pub proof fn lemma_period_positive(s: State)
    requires
        s.wf(),
    ensures
        1 <= s.flash_period(),
{
    let fi = s.flash_interval;
    let fp = s.fps;
    assert(1 <= fi * fp) by (nonlinear_arith)
        requires
            1 <= fi,
            1 <= fp,
    ;
}

/// The tick — counted from one — at which a run of ticks starting at `s`
/// crosses its first cycle boundary and advances the color base.
pub open spec fn boundary_tick(s: State) -> int {
    if s.flash_timer() == 0 {
        1
    } else {
        s.flash_period() - s.flash_timer() + 1
    }
}

/// Within one flash period started anywhere, the frame counter advances by
/// one per tick without wrapping, and the color base advances exactly at
/// the single boundary tick of the period.
proof fn lemma_phase_progress(s: State, k: nat)
    requires
        s.wf(),
        s.frame + s.flash_period() <= u64::MAX,
        1 <= k <= s.flash_period(),
    ensures
        step_n(s, k).wf(),
        step_n(s, k).fps == s.fps,
        step_n(s, k).flash_interval == s.flash_interval,
        step_n(s, k).flash_duration == s.flash_duration,
        step_n(s, k).frame == s.frame + k,
        step_n(s, k).background_color_base == (if k >= boundary_tick(s) {
            s.background_color_base.successor_spec()
        } else {
            s.background_color_base
        }),
    decreases k,
{
    lemma_period_positive(s);
    let p = s.flash_period();
    let t0 = s.flash_timer();
    lemma_fundamental_div_mod(s.frame as int, p);
    let q = s.frame as int / p;
    if k == 1 {
        lemma_step_preserves_wf(s);
        assert(step_n(s, 1) == s.step_spec());
    } else {
        lemma_phase_progress(s, (k - 1) as nat);
        let t = step_n(s, (k - 1) as nat);
        lemma_step_preserves_wf(t);
        assert(step_n(s, k) == t.step_spec());
        // the timer before this tick is `t0 + k - 1`, reduced by the
        // period; it is zero exactly at the boundary tick
        if t0 + k - 1 < p {
            lemma_mod_multiples_vanish(q, t0 + k - 1, p);
            lemma_small_mod((t0 + k - 1) as nat, p as nat);
            assert(t.flash_timer() == t0 + k - 1);
        } else {
            // `t0 + k - 1` is past one whole period: `p <= t0 + k - 1 < 2p`
            assert((q + 1) * p == q * p + p) by (nonlinear_arith);
            lemma_fundamental_div_mod_converse_mod(
                t.frame as int,
                p,
                q + 1,
                t0 + k - 1 - p,
            );
            assert(t.flash_timer() == t0 + k - 1 - p);
        }
    }
}

/// From any frame, one full flash period of ticks returns the flash timer
/// to its starting value and advances the color base to its successor
/// exactly once, at the single cycle boundary inside the period.
pub proof fn lemma_flash_cycle_from_any_phase(s: State)
    requires
        s.wf(),
        s.frame + s.flash_period() <= u64::MAX,
    ensures
        step_n(s, s.flash_period() as nat).flash_timer() == s.flash_timer(),
        step_n(s, s.flash_period() as nat).background_color_base
            == s.background_color_base.successor_spec(),
        forall|k: nat|
            boundary_tick(s) <= k <= s.flash_period()
                ==> #[trigger] step_n(s, k).background_color_base
                == s.background_color_base.successor_spec(),
        forall|k: nat|
            1 <= k < boundary_tick(s) ==> #[trigger] step_n(s, k).background_color_base
                == s.background_color_base,
{
    lemma_period_positive(s);
    let p = s.flash_period();
    assert forall|k: nat| 1 <= k <= p implies #[trigger] step_n(s, k).background_color_base
        == (if k >= boundary_tick(s) {
        s.background_color_base.successor_spec()
    } else {
        s.background_color_base
    }) by {
        lemma_phase_progress(s, k);
    }
    lemma_phase_progress(s, p as nat);
    lemma_fundamental_div_mod(s.frame as int, p);
    let q = s.frame as int / p;
    lemma_mod_multiples_vanish(q + 1, s.flash_timer(), p);
    lemma_small_mod(s.flash_timer() as nat, p as nat);
    assert(p * (q + 1) == p * q + p) by (nonlinear_arith);
    assert(step_n(s, p as nat).frame as int == p * (q + 1) + s.flash_timer());
}

/// After exactly `flash_interval * fps` calls to `advance` starting on a
/// cycle boundary, the flash timer is back at zero and the color base has
/// advanced to its successor exactly once per cycle: it moves at the
/// boundary tick and stays put for every later tick of the period.
pub proof fn lemma_flash_cycle(s: State)
    requires
        s.wf(),
        s.flash_timer() == 0,
        s.frame + s.flash_period() <= u64::MAX,
    ensures
        step_n(s, s.flash_period() as nat).flash_timer() == 0,
        step_n(s, s.flash_period() as nat).background_color_base
            == s.background_color_base.successor_spec(),
        forall|k: nat|
            1 <= k <= s.flash_period() ==> #[trigger] step_n(s, k).background_color_base
                == s.background_color_base.successor_spec(),
{
    lemma_flash_cycle_from_any_phase(s);
}

/// Each tick grows the hue offset accumulator by one delta: after `k`
/// ticks the numerator has grown by `60 * k` over the unchanged
/// denominator, as long as it does not reach the 64-bit boundary.
pub proof fn lemma_drift_progress(s: State, k: nat)
    requires
        s.wf(),
        s.hsv_offset.hue_num + 60 * k <= u64::MAX,
    ensures
        step_n(s, k).wf(),
        step_n(s, k).fps == s.fps,
        step_n(s, k).hsv_offset.hue_num == s.hsv_offset.hue_num + 60 * k,
        step_n(s, k).hsv_offset.hue_den == s.hsv_offset.hue_den,
    decreases k,
{
    if k > 0 {
        lemma_drift_progress(s, (k - 1) as nat);
        let t = step_n(s, (k - 1) as nat);
        lemma_step_preserves_wf(t);
        assert(step_n(s, k) == t.step_spec());
        lemma_div_basics(t.hsv_offset.hue_den as int);
        let o = t.hsv_offset.hue_num;
        let f = (t.hsv_delta.hue_den as int / t.hsv_offset.hue_den as int) as u64;
        assert(o as nat * f as nat == o as nat) by (nonlinear_arith)
            requires
                f == 1,
        ;
        lemma_small_mod(o as nat, 0x1_0000_0000_0000_0000);
    }
}

/// Hue drift: after exactly `fps` calls to `advance` the hue offset
/// accumulator has grown by `60 * fps` in its numerator over the unchanged
/// denominator `fps` — exactly 60 degrees per second of frames.
pub proof fn lemma_hue_drift_per_second(s: State)
    requires
        s.wf(),
        s.hsv_offset.hue_num + 60 * s.fps <= u64::MAX,
    ensures
        step_n(s, s.fps as nat).hsv_offset.hue_num == s.hsv_offset.hue_num + 60 * s.fps,
        step_n(s, s.fps as nat).hsv_offset.hue_den == s.hsv_offset.hue_den,
{
    lemma_drift_progress(s, s.fps as nat);
}

/// Flash property: whenever the flash timer is under the flash duration,
/// the tick paints the flash color — solid white — whatever the color base.
pub proof fn lemma_flash_overrides(s: State)
    requires
        s.wf(),
        s.flash_timer() < s.flash_duration,
    ensures
        s.step_spec().background_color == ColorBase::White.to_hsv_spec(),
{
}

/// Boundary: with a zero flash duration the flash never activates — the
/// flash timer is never negative, so it is never strictly under zero, and
/// the tick always paints the drifted base color.
pub proof fn lemma_zero_duration_never_flashes(s: State)
    requires
        s.wf(),
        s.flash_duration == 0,
    ensures
        !s.flashing(),
        s.step_spec().background_color == hsv_add_spec(
            s.step_spec().background_color_base.to_hsv_spec(),
            s.step_spec().hsv_offset,
        ),
{
    lemma_period_positive(s);
}

} // verus!
