//! Forward simulation of the four envelope phases for both platforms.
//!
//! Every simulator works over integers.  Time-based phases yield the
//! number of hardware ticks the phase takes (`StepCount`); the caller
//! divides by the platform tick rate to obtain seconds.  Sustain yields
//! the fixed-point amplitude level; the caller turns it into decibels.

use vstd::prelude::*;
use vstd::arithmetic::div_mod::{
    lemma_fundamental_div_mod_converse, lemma_multiply_divide_lt,
};
use vstd::arithmetic::mul::{
    lemma_mul_inequality, lemma_mul_is_distributive_add_other_way, lemma_mul_strict_inequality,
};
use crate::tables::{
    attack_entry, decay_entry, sustain_entry, lemma_attack_entry_bounds, lemma_decay_entry_bounds,
    EnvelopeTables, ZERO_POINT_MAG,
};

verus! {

/// Length of a time-based envelope phase, in hardware ticks.
///
/// `Infinite` stands for a phase that never converges (the explicit
/// "infinite" physical value), which is a valid result, not an error.
#[derive(Clone, Copy, Debug, PartialEq, Eq, Structural)]
pub enum StepCount {
    Finite(u32),
    Infinite,
}

/// Ticks the NDS attack ramp needs to raise a velocity sitting `mag`
/// fixed-point units below the ceiling up to it, when each tick replaces
/// the deficit by `m/255` of itself (rounding towards zero).
pub open spec fn nds_attack_count(m: int, mag: int) -> nat
    decreases mag
        when 0 <= m <= 254
        via nds_attack_count_decreases
{
    if mag <= 0 {
        0
    } else {
        (1 + nds_attack_count(m, (m * mag) / 255)) as nat
    }
}

/// One NDS attack tick strictly shrinks a positive deficit.
pub proof fn lemma_attack_step_shrinks(m: int, mag: int)
    requires
        0 <= m <= 254,
        0 < mag,
    ensures
        0 <= (m * mag) / 255 < mag,
{
    lemma_mul_inequality(0, m, mag);
    lemma_mul_inequality(m, 254, mag);
    lemma_mul_strict_inequality(254, 255, mag);
    lemma_multiply_divide_lt(m * mag, 255, mag);
}

#[via_fn]
proof fn nds_attack_count_decreases(m: int, mag: int) {
    if mag > 0 {
        lemma_attack_step_shrinks(m, mag);
    }
}

/// The tick count never exceeds the starting deficit.
pub proof fn lemma_nds_attack_count_le(m: int, mag: int)
    requires
        0 <= m <= 254,
        0 <= mag,
    ensures
        nds_attack_count(m, mag) <= mag,
    decreases mag,
{
    if mag > 0 {
        lemma_attack_step_shrinks(m, mag);
        lemma_nds_attack_count_le(m, (m * mag) / 255);
    }
}

/// A larger starting deficit never takes fewer ticks.
pub proof fn lemma_nds_attack_count_mag_monotone(m: int, mag1: int, mag2: int)
    requires
        0 <= m <= 254,
        0 <= mag1 <= mag2,
    ensures
        nds_attack_count(m, mag1) <= nds_attack_count(m, mag2),
    decreases mag2,
{
    if mag1 > 0 {
        lemma_attack_step_shrinks(m, mag1);
        lemma_attack_step_shrinks(m, mag2);
        assert(m * mag1 <= m * mag2) by {
            lemma_mul_inequality(mag1, mag2, m);
            vstd::arithmetic::mul::lemma_mul_is_commutative(m, mag1);
            vstd::arithmetic::mul::lemma_mul_is_commutative(m, mag2);
        }
        vstd::arithmetic::div_mod::lemma_div_is_ordered(m * mag1, m * mag2, 255);
        lemma_nds_attack_count_mag_monotone(m, (m * mag1) / 255, (m * mag2) / 255);
    }
}

/// A smaller multiplier never takes more ticks: the ramp converges at
/// least as fast.
pub proof fn lemma_nds_attack_count_m_monotone(m1: int, m2: int, mag: int)
    requires
        0 <= m1 <= m2 <= 254,
        0 <= mag,
    ensures
        nds_attack_count(m1, mag) <= nds_attack_count(m2, mag),
    decreases mag,
{
    if mag > 0 {
        lemma_attack_step_shrinks(m1, mag);
        lemma_attack_step_shrinks(m2, mag);
        assert(m1 * mag <= m2 * mag) by {
            lemma_mul_inequality(m1, m2, mag);
        }
        vstd::arithmetic::div_mod::lemma_div_is_ordered(m1 * mag, m2 * mag, 255);
        lemma_nds_attack_count_mag_monotone(m1, (m1 * mag) / 255, (m2 * mag) / 255);
        lemma_nds_attack_count_m_monotone(m1, m2, (m2 * mag) / 255);
    }
}

/// Ticks of the NDS attack phase for register `reg`, counted over the
/// whole velocity range.
pub open spec fn nds_attack_steps_of(reg: int) -> int {
    nds_attack_count(attack_entry(reg) as int, ZERO_POINT_MAG as int) as int
}

/// NDS attack: starting from silence, the velocity deficit is multiplied
/// by `attack_table[reg]/255` each tick until it vanishes.  Register 0
/// holds the identity multiplier, so the phase never ends.
pub fn nds_attack_steps(tables: &EnvelopeTables, reg: u8) -> (r: StepCount)
    requires
        tables.wf(),
        reg <= 127,
    ensures
        reg == 0 ==> r == StepCount::Infinite,
        reg != 0 ==> r == StepCount::Finite(nds_attack_steps_of(reg as int) as u32),
{
    if reg == 0 {
        StepCount::Infinite
    } else {
        StepCount::Finite(nds_attack_run(tables, reg))
    }
}

/// The NDS attack loop itself, shared by the forward simulator and the
/// inverse search.
pub fn nds_attack_run(tables: &EnvelopeTables, reg: u8) -> (r: u32)
    requires
        tables.wf(),
        1 <= reg <= 127,
    ensures
        r == nds_attack_steps_of(reg as int),
        r <= ZERO_POINT_MAG,
{
    proof {
        lemma_attack_entry_bounds(reg as int);
    }
    let m: u32 = tables.attack[reg as usize] as u32;
    let ghost mi: int = m as int;
    let mut mag: u32 = ZERO_POINT_MAG;
    let mut steps: u32 = 0;
    proof {
        lemma_nds_attack_count_le(mi, ZERO_POINT_MAG as int);
    }
    while mag > 0
        invariant
            m <= 254,
            mag <= ZERO_POINT_MAG,
            steps + nds_attack_count(mi, mag as int) == nds_attack_count(
                mi,
                ZERO_POINT_MAG as int,
            ),
            nds_attack_count(mi, ZERO_POINT_MAG as int) <= ZERO_POINT_MAG,
            mi == m as int,
        decreases mag,
    {
        proof {
            lemma_attack_step_shrinks(mi, mag as int);
        }
        steps = steps + 1;
        mag = m * mag / 255;
    }
    steps
}

/// Ticks a velocity needs to fall from 0 to the zero point when each tick
/// subtracts `dec`: the decrement count rounded up.
pub open spec fn nds_decay_count(dec: int) -> int {
    (ZERO_POINT_MAG + dec - 1) / dec
}

/// NDS decay and release: the velocity drops by `decay_table[reg]` per
/// tick until it reaches the zero point.  The release phase uses the same
/// decay table, mirroring the hardware register class.
pub fn nds_decay_steps(tables: &EnvelopeTables, reg: u8) -> (r: u32)
    requires
        tables.wf(),
        reg <= 127,
    ensures
        r == nds_decay_count(decay_entry(reg as int) as int),
        1 <= r <= ZERO_POINT_MAG,
{
    proof {
        lemma_decay_entry_bounds(reg as int);
    }
    let dec: u32 = tables.decay[reg as usize] as u32;
    let ghost d: int = dec as int;
    let mut mag: u32 = 0;
    let mut steps: u32 = 0;
    while mag < ZERO_POINT_MAG
        invariant
            1 <= dec <= 65535,
            d == dec as int,
            mag == steps * d,
            steps >= 1 ==> (steps - 1) * d < ZERO_POINT_MAG,
            mag < ZERO_POINT_MAG + dec,
            steps <= mag,
        decreases ZERO_POINT_MAG + dec - mag,
    {
        proof {
            lemma_mul_is_distributive_add_other_way(d, steps as int, 1);
        }
        steps = steps + 1;
        mag = mag + dec;
    }
    proof {
        let s = steps as int;
        // steps is the least count whose total decrement reaches the
        // zero point; that is exactly the rounded-up quotient.
        if s == 0 {
            vstd::arithmetic::mul::lemma_mul_basics(d);
            assert(false);
        }
        assert(s - 1 <= (s - 1) * d) by {
            lemma_mul_inequality(1, d, s - 1);
            vstd::arithmetic::mul::lemma_mul_is_commutative(d, s - 1);
            vstd::arithmetic::mul::lemma_mul_basics(s - 1);
        }
        assert(s * d >= ZERO_POINT_MAG);
        assert((s - 1) * d < ZERO_POINT_MAG);
        let x = ZERO_POINT_MAG + d - 1;
        let r = x - (s - 1) * d;
        assert(x == (s - 1) * d + r);
        assert(r >= 1);
        assert(r < d + d) by {
            assert(s * d == (s - 1) * d + d) by {
                lemma_mul_is_distributive_add_other_way(d, s - 1, 1);
            }
        }
        if r >= d {
            assert(x == s * d + (r - d)) by {
                lemma_mul_is_distributive_add_other_way(d, s - 1, 1);
            }
            lemma_fundamental_div_mod_converse(x, d, s, r - d);
        } else {
            lemma_fundamental_div_mod_converse(x, d, s - 1, r);
            // the remainder form with quotient s - 1 would leave the
            // total decrement short of the zero point
            assert((s - 1) * d >= ZERO_POINT_MAG);
            assert(false);
        }
    }
    steps
}

/// Sustain amplitude level for NDS register `reg`: the table is indexed
/// by `127 - reg`, so larger registers mean less attenuation.
pub fn nds_sustain_level(tables: &EnvelopeTables, reg: u8) -> (r: i32)
    requires
        tables.wf(),
        1 <= reg <= 127,
    ensures
        r == sustain_entry(127 - reg as int),
        -92544 <= r <= -128,
{
    proof {
        crate::tables::lemma_sustain_entry_bounds(127 - reg as int);
    }
    tables.sustain[127 - reg as usize]
}

/// Ticks the GBA attack ramp needs to raise a volume from `reg` to 255 in
/// increments of `reg`.
pub open spec fn gba_attack_count(reg: int) -> int {
    254int / reg
}

/// GBA attack: the register is both the starting volume and the step
/// size.  Register 0 never moves, so the phase never ends.
pub fn gba_attack_steps(reg: u8) -> (r: StepCount)
    ensures
        reg == 0 ==> r == StepCount::Infinite,
        reg != 0 ==> r == StepCount::Finite(gba_attack_count(reg as int) as u32),
{
    if reg == 0 {
        StepCount::Infinite
    } else {
        StepCount::Finite(gba_attack_run(reg))
    }
}

/// The GBA attack loop itself, shared by the forward simulator and the
/// inverse search.
pub fn gba_attack_run(reg: u8) -> (r: u32)
    requires
        1 <= reg,
    ensures
        r == gba_attack_count(reg as int),
        r <= 254,
{
    let step: u16 = reg as u16;
    let ghost d: int = step as int;
    let mut vol: u16 = reg as u16;
    let mut steps: u32 = 0;
    proof {
        vstd::arithmetic::mul::lemma_mul_basics(d);
        assert(vol == (0 + 1) * d);
    }
    while vol < 255
        invariant
            1 <= step <= 255,
            d == step as int,
            vol == (steps + 1) * d,
            steps >= 1 ==> steps * d < 255,
            vol < 255 + step,
            steps <= 254,
        decreases 255 + step - vol,
    {
        proof {
            lemma_mul_is_distributive_add_other_way(d, steps as int + 1, 1);
            lemma_mul_inequality(1, d, steps as int + 1);
            vstd::arithmetic::mul::lemma_mul_is_commutative(d, steps as int + 1);
            vstd::arithmetic::mul::lemma_mul_basics(steps as int + 1);
        }
        steps = steps + 1;
        vol = vol + step;
    }
    proof {
        let s = steps as int;
        assert((s + 1) * d >= 255);
        assert(s == 0 || s * d < 255);
        if s >= 1 {
            let r = 254 - s * d;
            assert(254 == s * d + r);
            assert(0 <= r);
            assert(r < d) by {
                assert((s + 1) * d == s * d + d) by {
                    lemma_mul_is_distributive_add_other_way(d, s, 1);
                }
            }
            lemma_fundamental_div_mod_converse(254, d, s, r);
        } else {
            assert(vol == 1 * d);
            assert(d >= 255);
            assert(254int / d == 0) by {
                vstd::arithmetic::div_mod::lemma_basic_div(254, d);
            }
        }
    }
    steps
}

/// Ticks the GBA decay takes to bring a volume `vol` to zero when each
/// tick keeps `reg/256` of it (a fixed-point multiply approximating a
/// divide by 255).
pub open spec fn gba_decay_count(reg: int, vol: int) -> nat
    decreases vol
        when 0 <= reg <= 254
        via gba_decay_count_decreases
{
    if vol <= 0 {
        0
    } else {
        (1 + gba_decay_count(reg, (vol * reg) / 256)) as nat
    }
}

/// One GBA decay tick strictly shrinks a positive volume.
pub proof fn lemma_gba_decay_step_shrinks(reg: int, vol: int)
    requires
        0 <= reg <= 254,
        0 < vol,
    ensures
        0 <= (vol * reg) / 256 < vol,
{
    lemma_mul_inequality(0, reg, vol);
    lemma_mul_inequality(reg, 254, vol);
    lemma_mul_strict_inequality(254, 256, vol);
    assert(vol * reg == reg * vol) by {
        vstd::arithmetic::mul::lemma_mul_is_commutative(vol, reg);
    }
    lemma_multiply_divide_lt(vol * reg, 256, vol);
}

#[via_fn]
proof fn gba_decay_count_decreases(reg: int, vol: int) {
    if vol > 0 {
        lemma_gba_decay_step_shrinks(reg, vol);
    }
}

/// The tick count never exceeds the starting volume.
pub proof fn lemma_gba_decay_count_le(reg: int, vol: int)
    requires
        0 <= reg <= 254,
        0 <= vol,
    ensures
        gba_decay_count(reg, vol) <= vol,
    decreases vol,
{
    if vol > 0 {
        lemma_gba_decay_step_shrinks(reg, vol);
        lemma_gba_decay_count_le(reg, (vol * reg) / 256);
    }
}

/// Ticks of the GBA decay phase for register `reg`, counted over the full
/// volume range.
pub open spec fn gba_decay_steps_of(reg: int) -> int {
    gba_decay_count(reg, 255) as int
}

/// GBA decay and release: the volume starts at 255 and is multiplied by
/// `reg/256` each tick until it reaches zero.  Register 0 is instant and
/// register 255 never converges.
pub fn gba_decay_steps(reg: u8) -> (r: StepCount)
    ensures
        reg == 0 ==> r == StepCount::Finite(0),
        reg == 255 ==> r == StepCount::Infinite,
        0 < reg < 255 ==> r == StepCount::Finite(gba_decay_steps_of(reg as int) as u32),
{
    if reg == 0 {
        StepCount::Finite(0)
    } else if reg == 255 {
        StepCount::Infinite
    } else {
        StepCount::Finite(gba_decay_run(reg))
    }
}

/// The GBA decay loop itself, shared by the forward simulator and the
/// inverse search (which also probes register 0).
pub fn gba_decay_run(reg: u8) -> (r: u32)
    requires
        reg <= 254,
    ensures
        r == gba_decay_count(reg as int, 255),
        r <= 255,
{
    let m: u16 = reg as u16;
    let ghost mi: int = m as int;
    let mut vol: u16 = 255;
    let mut steps: u32 = 0;
    proof {
        lemma_gba_decay_count_le(mi, 255);
    }
    while vol > 0
        invariant
            m <= 254,
            vol <= 255,
            mi == m as int,
            steps + gba_decay_count(mi, vol as int) == gba_decay_count(mi, 255),
            gba_decay_count(mi, 255) <= 255,
        decreases vol,
    {
        proof {
            lemma_gba_decay_step_shrinks(mi, vol as int);
            vstd::arithmetic::mul::lemma_mul_upper_bound(vol as int, 255, m as int, 254);
        }
        let prod: u16 = vol * m;
        proof {
            assert(prod >> 8 == prod / 256) by (bit_vector);
        }
        steps = steps + 1;
        vol = prod >> 8;
    }
    steps
}

} // verus!
