//! The synthetic monitor waveform: a deterministic, pure function of elapsed
//! time and the scan-active flag.
//!
//! The charts are cosmetic, so the signal does not measure anything; it is a
//! sine-shaped wave computed in fixed-point integer arithmetic (milliradians
//! in, milli-units out, chart values in centi-percent). While a scan is active
//! the wave is faster and sits in a high band (40..80 percent); otherwise it
//! is slow and sits in a low band (5..15 percent).

use vstd::arithmetic::div_mod::{
    lemma_div_is_ordered, lemma_div_multiples_vanish, lemma_div_pos_is_pos,
    lemma_mod_division_less_than_divisor, lemma_mod_pos_bound,
};
use vstd::prelude::*;

verus! {

/// Rational sine approximation on the first half-period (3142 milliradians,
/// an integer pi): for `x` in `[0, 3142]` this is close to
/// `1000 * sin(x / 1000)` and lies in `[0, 1000]`, peaking exactly at `1000`
/// in the middle.
pub open spec fn spec_half_sine_milli(x: int) -> int {
    let p = x * (3142 - x);
    16000 * p / (5 * 3142 * 3142 - 4 * p)
}

/// Full-period sine approximation: for `phase` in `[0, 6284)` this lies in
/// `[-1000, 1000]`, non-negative on the first half-period and non-positive
/// on the second.
pub open spec fn spec_sine_milli(phase: int) -> int {
    if phase <= 3142 {
        spec_half_sine_milli(phase)
    } else {
        -spec_half_sine_milli(phase - 3142)
    }
}

/// The CPU-like chart value in centi-percent. The phase advances ten times
/// faster while a scan is active (5 rad/s against 0.5 rad/s).
pub open spec fn spec_cpu_centi(now_ms: int, active: bool) -> int {
    if active {
        4000 + 2 * (1000 + spec_sine_milli((now_ms % 6284) * 5 % 6284))
    } else {
        500 + (1000 + spec_sine_milli((now_ms % 12568) / 2)) / 2
    }
}

/// The memory-like chart value in centi-percent: the CPU value scaled by
/// four fifths, shifted up twenty percent.
pub open spec fn spec_mem_centi(now_ms: int, active: bool) -> int {
    spec_cpu_centi(now_ms, active) * 4 / 5 + 2000
}

/// The half-period approximation stays in `[0, 1000]`.
proof fn lemma_half_sine_bounds(x: int)
    requires
        0 <= x <= 3142,
    ensures
        0 <= spec_half_sine_milli(x) <= 1000,
{
    let p = x * (3142 - x);
    assert((x - 1571) * (x - 1571) >= 0 && p == 1571 * 1571 - (x - 1571) * (x - 1571) && 0 <= p
        <= 1571 * 1571) by (nonlinear_arith)
        requires
            0 <= x <= 3142,
            p == x * (3142 - x),
    ;
    let den = 5 * 3142 * 3142 - 4 * p;
    assert(den > 0);
    lemma_div_pos_is_pos(16000 * p, den);
    assert(16000 * p <= 1000 * den) by (nonlinear_arith)
        requires
            0 <= p <= 1571 * 1571,
            den == 5 * 3142 * 3142 - 4 * p,
    ;
    lemma_div_is_ordered(16000 * p, 1000 * den, den);
    lemma_div_multiples_vanish(1000, den);
}

/// The full-period approximation stays in `[-1000, 1000]`.
proof fn lemma_sine_bounds(phase: int)
    requires
        0 <= phase < 6284,
    ensures
        -1000 <= spec_sine_milli(phase) <= 1000,
{
    if phase <= 3142 {
        lemma_half_sine_bounds(phase);
    } else {
        lemma_half_sine_bounds(phase - 3142);
    }
}

/// While no scan is active the signal stays within the low band
/// (5..15 percent); while one is active it stays within the high band
/// (40..80 percent). The memory-like value follows at four fifths plus
/// twenty percent.
pub proof fn lemma_signal_bounds(now_ms: int, active: bool)
    requires
        now_ms >= 0,
    ensures
        !active ==> 500 <= spec_cpu_centi(now_ms, active) <= 1500,
        active ==> 4000 <= spec_cpu_centi(now_ms, active) <= 8000,
        !active ==> 2400 <= spec_mem_centi(now_ms, active) <= 3200,
        active ==> 5200 <= spec_mem_centi(now_ms, active) <= 8400,
{
    if active {
        lemma_mod_pos_bound(now_ms, 6284);
        lemma_mod_pos_bound((now_ms % 6284) * 5, 6284);
        lemma_sine_bounds((now_ms % 6284) * 5 % 6284);
    } else {
        lemma_mod_pos_bound(now_ms, 12568);
        lemma_sine_bounds((now_ms % 12568) / 2);
    }
}

/// Evaluates the half-period approximation.
fn half_sine_milli(x: u64) -> (r: u64)
    requires
        x <= 3142,
    ensures
        r == spec_half_sine_milli(x as int),
        r <= 1000,
{
    proof {
        lemma_half_sine_bounds(x as int);
        assert((x - 1571) * (x - 1571) >= 0 && x * (3142 - x) == 1571 * 1571 - (x - 1571) * (x
            - 1571) && 0 <= x * (3142 - x) <= 1571 * 1571) by (nonlinear_arith)
            requires
                0 <= x <= 3142,
        ;
    }
    let p: u64 = x * (3142 - x);
    let num: u64 = 16000 * p;
    let den: u64 = 5 * 3142 * 3142 - 4 * p;
    num / den
}

/// Evaluates both chart values at `now_ms` milliseconds of elapsed time.
/// Returns the pair (CPU-like, memory-like), in centi-percent.
pub fn signal_centi(now_ms: u64, active: bool) -> (r: (u64, u64))
    ensures
        r.0 == spec_cpu_centi(now_ms as int, active),
        r.1 == spec_mem_centi(now_ms as int, active),
        !active ==> 500 <= r.0 <= 1500,
        active ==> 4000 <= r.0 <= 8000,
{
    proof {
        lemma_signal_bounds(now_ms as int, active);
    }
    let cpu: u64 = if active {
        let phase: u64 = (now_ms % 6284) * 5 % 6284;
        proof {
            lemma_sine_bounds(phase as int);
        }
        let level: u64 = if phase <= 3142 {
            1000 + half_sine_milli(phase)
        } else {
            1000 - half_sine_milli(phase - 3142)
        };
        4000 + 2 * level
    } else {
        let phase: u64 = (now_ms % 12568) / 2;
        proof {
            lemma_mod_division_less_than_divisor(now_ms as int, 12568);
            lemma_sine_bounds(phase as int);
        }
        let level: u64 = if phase <= 3142 {
            1000 + half_sine_milli(phase)
        } else {
            1000 - half_sine_milli(phase - 3142)
        };
        500 + level / 2
    };
    let mem: u64 = cpu * 4 / 5 + 2000;
    (cpu, mem)
}

} // verus!
