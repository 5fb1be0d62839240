//! The animation evaluator: a pure map from a wave configuration and an
//! elapsed time to 16-bit channel values, written into the toggled channels
//! of every strip group in lockstep.
//!
//! All arithmetic is fixed-point over integers. Phase is measured in Q16
//! (65536ths): the wave argument is `elapsed_ms / interval_ms`, used
//! directly as a sine argument in radians — the phase period of the sine is
//! deliberately *not* one interval, a quirk kept from the product's
//! behaviour. The sine itself is the Bhaskara rational approximation,
//! exact-bounded within `[0, 65536]` in Q16.

use vstd::prelude::*;
use vstd::arithmetic::div_mod::{
    lemma_div_is_ordered, lemma_div_multiples_vanish, lemma_div_pos_is_pos,
    lemma_fundamental_div_mod, lemma_mod_bound,
};
use vstd::arithmetic::mul::{lemma_mul_inequality, lemma_mul_nonnegative, lemma_mul_upper_bound};
use crate::state::{AppView, Controller, SharedAppData, Strip, WaveType, DUTY_ONE};
use vstd::pervasive::VecAdditionalExecFns;

verus! {

/// The mathematical circle constant in Q16: `round(pi * 65536)`.
pub const PI_Q16: u64 = 205887;

/// One full turn in Q16: `round(2 * pi * 65536)`.
pub const TWO_PI_Q16: u64 = 411775;

/// Square wave: full brightness while the position within the period is
/// below the duty fraction, dark for the rest of the period. The
/// comparison `pos_mod < duty` is carried out exactly over integers:
/// `(elapsed mod interval) / interval < duty / 65536`.
pub open spec fn square_level_spec(elapsed_ms: int, interval_ms: int, duty: int) -> int {
    if (elapsed_ms % interval_ms) * 65536 < duty * interval_ms {
        65535
    } else {
        0
    }
}

/// Bhaskara's rational approximation of `sin` on `[0, pi]`, in Q16:
/// for an angle `xr` (Q16 radians, `0 <= xr <= PI_Q16`) the sine is
/// approximately `16 a / (5 pi^2 - 4 a)` with `a = xr (pi - xr)`.
/// The result lies in `[0, 65536]`, that is `[0, 1]` in Q16.
pub open spec fn half_sine_q16(xr: int) -> int {
    let a = xr * (205887 - xr);
    (16 * a * 65536) / (5 * 205887 * 205887 - 4 * a)
}

/// The wave argument reduced to one turn: `(elapsed / interval) mod 2 pi`,
/// in Q16 radians.
pub open spec fn sine_angle_q16(elapsed_ms: int, interval_ms: int) -> int {
    ((elapsed_ms * 65536) / interval_ms) % 411775
}

/// Sine wave level: `sin(pos) * 32767.5 + 32767.5` carried out in Q16
/// fixed point — the signed sine is mapped affinely from `[-1, 1]` onto
/// `[0, 65535]` and rounded down.
pub open spec fn sine_level_spec(elapsed_ms: int, interval_ms: int) -> int {
    let x = sine_angle_q16(elapsed_ms, interval_ms);
    let raw = if x < 205887 {
        65536 + half_sine_q16(x)
    } else {
        65536 - half_sine_q16(x - 205887)
    };
    (raw * 65535) / 131072
}

/// The Bhaskara ratio never leaves `[0, 1]` in Q16: its numerator `16 a`
/// stays below its denominator `5 pi^2 - 4 a` because `4 a <= pi^2` (the
/// square `(pi - 2 xr)^2` is nonnegative).
pub proof fn lemma_half_sine_bounds(xr: int)
    requires
        0 <= xr <= 205887,
    ensures
        0 <= half_sine_q16(xr) <= 65536,
{
    let a = xr * (205887 - xr);
    assert(0 <= xr * (205887 - xr) && 4 * (xr * (205887 - xr)) <= 205887 * 205887) by (nonlinear_arith)
        requires 0 <= xr <= 205887;
    let den = 5 * 205887 * 205887 - 4 * a;
    let num = 16 * a * 65536;
    assert(16 * a * 65536 <= 65536 * (5 * 205887 * 205887 - 4 * a)) by (nonlinear_arith)
        requires 0 <= a, 4 * a <= 205887 * 205887;
    lemma_mul_nonnegative(16 * a, 65536);
    lemma_div_pos_is_pos(num, den);
    lemma_div_is_ordered(num, 65536 * den, den);
    lemma_div_multiples_vanish(65536, den);
}

/// Bounds property of the sine evaluator: for any elapsed time and any
/// positive interval the computed level lies within `[0, 65535]`.
pub proof fn lemma_sine_level_bounds(elapsed_ms: int, interval_ms: int)
    requires
        elapsed_ms >= 0,
        interval_ms >= 1,
    ensures
        0 <= sine_level_spec(elapsed_ms, interval_ms) <= 65535,
{
    lemma_mul_nonnegative(elapsed_ms, 65536);
    lemma_div_pos_is_pos(elapsed_ms * 65536, interval_ms);
    lemma_mod_bound((elapsed_ms * 65536) / interval_ms, 411775);
    let x = sine_angle_q16(elapsed_ms, interval_ms);
    let raw = if x < 205887 {
        65536 + half_sine_q16(x)
    } else {
        65536 - half_sine_q16(x - 205887)
    };
    if x < 205887 {
        lemma_half_sine_bounds(x);
    } else {
        lemma_half_sine_bounds(x - 205887);
    }
    assert(0 <= raw <= 131072);
    lemma_mul_nonnegative(raw, 65535);
    lemma_div_pos_is_pos(raw * 65535, 131072);
    lemma_mul_inequality(raw, 131072, 65535);
    lemma_div_is_ordered(raw * 65535, 131072int * 65535, 131072);
    lemma_div_multiples_vanish(65535, 131072);
}

/// Duty-cycle property of the square evaluator: within every period the
/// output is 65535 on exactly the leading `high_len` phase positions and 0
/// on the remaining `interval_ms - high_len`, where `high_len` matches the
/// duty fraction of the period to within one position:
/// `duty * interval_ms <= 65536 * high_len < duty * interval_ms + 65536`.
pub proof fn lemma_square_duty_fraction(elapsed_ms: int, interval_ms: int, duty: int)
    requires
        elapsed_ms >= 0,
        interval_ms >= 1,
        0 <= duty <= DUTY_ONE,
    ensures
        ({
            let high_len = (duty * interval_ms + 65535) / 65536;
            &&& 0 <= high_len <= interval_ms
            &&& 65536 * high_len >= duty * interval_ms
            &&& 65536 * high_len < duty * interval_ms + 65536
            &&& square_level_spec(elapsed_ms, interval_ms, duty) == (
            if elapsed_ms % interval_ms < high_len {
                65535int
            } else {
                0int
            })
        }),
{
    let n = duty * interval_ms;
    lemma_mul_nonnegative(duty, interval_ms);
    lemma_mul_inequality(duty, 65536, interval_ms);
    let q = (n + 65535) / 65536;
    let r = (n + 65535) % 65536;
    lemma_fundamental_div_mod(n + 65535, 65536);
    lemma_mod_bound(n + 65535, 65536);
    lemma_div_pos_is_pos(n + 65535, 65536);
    let p = elapsed_ms % interval_ms;
    lemma_mod_bound(elapsed_ms, interval_ms);
    if p < q {
        assert(65536 * p <= 65536 * (q - 1)) by (nonlinear_arith)
            requires p <= q - 1;
        assert(p * 65536 < n);
    } else {
        assert(65536 * p >= 65536 * q) by (nonlinear_arith)
            requires p >= q;
        assert(!(p * 65536 < n));
    }
}

/// Square wave evaluator.
pub fn square_level(elapsed_ms: u64, interval_ms: u32, duty: u32) -> (v: u16)
    requires
        interval_ms >= 1,
        duty <= DUTY_ONE,
    ensures
        v == square_level_spec(elapsed_ms as int, interval_ms as int, duty as int),
{
    let e_mod: u64 = elapsed_ms % (interval_ms as u64);
    proof {
        lemma_mod_bound(elapsed_ms as int, interval_ms as int);
        lemma_mul_upper_bound(duty as int, 65536, interval_ms as int, 0xffff_ffff);
    }
    if e_mod * 65536 < (duty as u64) * (interval_ms as u64) {
        65535
    } else {
        0
    }
}

/// Bhaskara half-wave evaluator; see [`half_sine_q16`].
fn half_sine(xr: u64) -> (s: u64)
    requires
        xr <= 205887,
    ensures
        s == half_sine_q16(xr as int),
        s <= 65536,
{
    proof {
        lemma_half_sine_bounds(xr as int);
        assert(0 <= (xr as int) * (205887 - xr as int) <= 205887 * 205887) by (nonlinear_arith)
            requires 0 <= xr as int <= 205887;
    }
    let a: u64 = xr * (205887 - xr);
    let num: u64 = 16 * a * 65536;
    let den: u64 = 5 * 205887 * 205887 - 4 * a;
    num / den
}

/// Sine wave evaluator.
pub fn sine_level(elapsed_ms: u64, interval_ms: u32) -> (v: u16)
    requires
        interval_ms >= 1,
    ensures
        v == sine_level_spec(elapsed_ms as int, interval_ms as int),
{
    proof {
        lemma_sine_level_bounds(elapsed_ms as int, interval_ms as int);
    }
    let pos_q: u128 = (elapsed_ms as u128) * 65536 / (interval_ms as u128);
    let x: u64 = (pos_q % (TWO_PI_Q16 as u128)) as u64;
    proof {
        lemma_mod_bound(pos_q as int, 411775);
    }
    let raw: u64 = if x < PI_Q16 {
        65536 + half_sine(x)
    } else {
        65536 - half_sine(x - PI_Q16)
    };
    let val: u64 = raw * 65535 / 131072;
    val as u16
}

/// The value the wave writes this tick, as a function of the controller
/// configuration and the monotonic clock. Meaningful only in wave mode.
pub open spec fn wave_value_spec(c: Controller, now_mono_ms: int) -> int {
    match c {
        Controller::Manual => 0,
        Controller::Wave { started_at_ms, interval_ms, ty, .. } => {
            let elapsed = if now_mono_ms >= started_at_ms {
                now_mono_ms - started_at_ms
            } else {
                0
            };
            match ty {
                WaveType::Sine => sine_level_spec(elapsed, interval_ms as int),
                WaveType::Square { duty } => square_level_spec(
                    elapsed,
                    interval_ms as int,
                    duty as int,
                ),
            }
        },
    }
}

/// Strip levels after one evaluator pass: in manual mode they are left
/// alone; in wave mode the computed value lands in each toggled channel of
/// every group (the groups track in lockstep), the other channels keep
/// their operator-set values.
pub open spec fn strip_after_wave(s: Strip, c: Controller, now_mono_ms: int) -> Strip {
    match c {
        Controller::Manual => s,
        Controller::Wave { warm, cold, .. } => {
            let v = wave_value_spec(c, now_mono_ms) as u16;
            Strip {
                cold: if cold { v } else { s.cold },
                warm: if warm { v } else { s.warm },
            }
        },
    }
}

/// One evaluator pass over a whole strip list; see [`strip_after_wave`].
pub open spec fn strips_after_wave(strips: Seq<Strip>, c: Controller, now_mono_ms: int) -> Seq<
    Strip,
> {
    strips.map_values(|s: Strip| strip_after_wave(s, c, now_mono_ms))
}

/// One evaluator pass over the shared state. Writes only the strip values
/// selected by the channel toggles; touches no flags and nothing else.
pub fn evaluate_wave(dat: &mut SharedAppData, now_mono_ms: u64)
    requires
        old(dat)@.wf(),
    ensures
        final(dat)@ == (AppView {
            strips: strips_after_wave(old(dat)@.strips, old(dat)@.controller, now_mono_ms as int),
            ..old(dat)@
        }),
        final(dat)@.wf(),
{
    match dat.controller {
        Controller::Manual => {
            assert(dat@ =~= (AppView {
                strips: strips_after_wave(dat@.strips, dat@.controller, now_mono_ms as int),
                ..dat@
            }));
        },
        Controller::Wave { started_at_ms, interval_ms, warm, cold, ty } => {
            let elapsed: u64 = if now_mono_ms >= started_at_ms {
                now_mono_ms - started_at_ms
            } else {
                0
            };
            let v: u16 = match ty {
                WaveType::Sine => sine_level(elapsed, interval_ms),
                WaveType::Square { duty } => square_level(elapsed, interval_ms, duty),
            };
            let ghost target = strips_after_wave(
                old(dat)@.strips,
                old(dat)@.controller,
                now_mono_ms as int,
            );
            let n: usize = dat.strips.len();
            let mut i: usize = 0;
            while i < n
                invariant
                    i <= n,
                    n == old(dat)@.strips.len(),
                    dat.strips@.len() == n,
                    *dat == (SharedAppData { strips: dat.strips, ..*old(dat) }),
                    target == strips_after_wave(
                        old(dat)@.strips,
                        old(dat)@.controller,
                        now_mono_ms as int,
                    ),
                    target.len() == n,
                    forall|j: int| 0 <= j < i ==> dat.strips@[j] == target[j],
                    forall|j: int| i <= j < n ==> dat.strips@[j] == old(dat)@.strips[j],
                    v as int == wave_value_spec(old(dat)@.controller, now_mono_ms as int),
                    old(dat).controller == (Controller::Wave {
                        started_at_ms,
                        interval_ms,
                        warm,
                        cold,
                        ty,
                    }),
                decreases n - i,
            {
                let s = dat.strips[i];
                dat.strips.set(
                    i,
                    Strip {
                        cold: if cold { v } else { s.cold },
                        warm: if warm { v } else { s.warm },
                    },
                );
                proof {
                    assert(target[i as int] == strip_after_wave(
                        old(dat)@.strips[i as int],
                        old(dat)@.controller,
                        now_mono_ms as int,
                    ));
                }
                i = i + 1;
            }
            assert(dat.strips@ =~= target);
            assert(dat@ =~= (AppView { strips: target, ..old(dat)@ }));
        },
    }
}

} // verus!
