//! The conversion itself: one outcome per phase, forward simulation or
//! inverse search as the mode directs, over the integer domain.  The
//! caller divides tick counts by the platform tick rate and turns
//! amplitude levels into decibels; infinity is an explicit outcome, not
//! an error.

use vstd::prelude::*;
use crate::search::{
    first_register, gba_attack_hit, gba_attack_search, gba_decay_hit, gba_decay_search,
    gba_sustain_hit, gba_sustain_search, nds_attack_hit, nds_attack_search, nds_decay_hit,
    nds_decay_search, nds_decay_steps_of, nds_sustain_hit, nds_sustain_search,
};
use crate::sim::{
    gba_attack_count, gba_attack_steps, gba_decay_steps, gba_decay_steps_of, nds_attack_steps,
    nds_attack_steps_of, nds_decay_steps, nds_sustain_level, StepCount,
};
use crate::state::{Converter, Mode};
use crate::tables::{sustain_entry, EnvelopeTables};

verus! {

/// One phase's converted value, in the integer domain.
#[derive(Clone, Copy, Debug, PartialEq, Eq, Structural)]
pub enum PhaseOutcome {
    /// Ticks of a time phase; seconds are ticks over the platform rate.
    Ticks(u32),
    /// A phase that never converges: the explicit infinite value.
    Infinite,
    /// Sustain with no attenuation at all.
    ZeroDb,
    /// NDS sustain level: the linear amplitude is the level over -92544.
    NdsLevel(i32),
    /// GBA sustain numerator: the linear amplitude is the value over 255.
    GbaLevel(u8),
    /// A register found by the inverse search.
    Register(u8),
}

/// The four integer thresholds of an inverse conversion, one per phase,
/// derived by the caller from the physical targets (see `search`).
#[derive(Clone, Copy, Debug, PartialEq, Eq, Structural)]
pub struct InverseBounds {
    pub attack: i64,
    pub decay: i64,
    pub sustain: i64,
    pub release: i64,
}

/// A full conversion's result, tagged with the mode that produced it:
/// display formatting depends on whether the values are registers or
/// physical quantities.
#[derive(Clone, Copy, Debug, PartialEq, Eq, Structural)]
pub struct EnvelopeResult {
    pub mode: Mode,
    pub attack: PhaseOutcome,
    pub decay: PhaseOutcome,
    pub sustain: PhaseOutcome,
    pub release: PhaseOutcome,
}

/// Defensive clamp of a register to the NDS range, the boundary check
/// for out-of-range registers reaching the simulators.
pub open spec fn nds_reg(r: u8) -> u8 {
    if r > 127 {
        127u8
    } else {
        r
    }
}

/// The attack outcome for a mode, register and inverse threshold.
pub open spec fn attack_outcome(mode: Mode, reg: u8, bound: i64) -> PhaseOutcome {
    match mode {
        Mode::NDS(inv) => if inv {
            PhaseOutcome::Register(first_register(1, 127, 127, nds_attack_hit(bound as int)) as u8)
        } else if nds_reg(reg) == 0 {
            PhaseOutcome::Infinite
        } else {
            PhaseOutcome::Ticks(nds_attack_steps_of(nds_reg(reg) as int) as u32)
        },
        Mode::GBA(inv) => if inv {
            PhaseOutcome::Register(first_register(1, 255, 255, gba_attack_hit(bound as int)) as u8)
        } else if reg == 0 {
            PhaseOutcome::Infinite
        } else {
            PhaseOutcome::Ticks(gba_attack_count(reg as int) as u32)
        },
    }
}

/// The decay outcome; the release phase follows the same rules with its
/// own register and threshold.
pub open spec fn decay_outcome(mode: Mode, reg: u8, bound: i64) -> PhaseOutcome {
    match mode {
        Mode::NDS(inv) => if inv {
            PhaseOutcome::Register(first_register(1, 127, 127, nds_decay_hit(bound as int)) as u8)
        } else {
            PhaseOutcome::Ticks(nds_decay_steps_of(nds_reg(reg) as int) as u32)
        },
        Mode::GBA(inv) => if inv {
            PhaseOutcome::Register(first_register(1, 255, 1, gba_decay_hit(bound as int)) as u8)
        } else if reg == 0 {
            PhaseOutcome::Ticks(0)
        } else if reg == 255 {
            PhaseOutcome::Infinite
        } else {
            PhaseOutcome::Ticks(gba_decay_steps_of(reg as int) as u32)
        },
    }
}

/// The sustain outcome for a mode, register and inverse threshold.
pub open spec fn sustain_outcome(mode: Mode, reg: u8, bound: i64) -> PhaseOutcome {
    match mode {
        Mode::NDS(inv) => if inv {
            PhaseOutcome::Register(first_register(0, 127, 127, nds_sustain_hit(bound as int)) as u8)
        } else if nds_reg(reg) == 0 {
            PhaseOutcome::ZeroDb
        } else {
            PhaseOutcome::NdsLevel(sustain_entry(127 - nds_reg(reg) as int))
        },
        Mode::GBA(inv) => if inv {
            PhaseOutcome::Register(
                first_register(0, 255, 255, gba_sustain_hit(bound as int)) as u8,
            )
        } else {
            PhaseOutcome::GbaLevel(reg)
        },
    }
}

fn clamp_nds(reg: u8) -> (r: u8)
    ensures
        r == nds_reg(reg),
{
    if reg > 127 {
        127
    } else {
        reg
    }
}

/// Attack conversion for one mode: forward simulation of the register or
/// inverse search against the threshold.
pub fn calculate_attack(tables: &EnvelopeTables, mode: Mode, reg: u8, bound: i64) -> (r:
    PhaseOutcome)
    requires
        tables.wf(),
    ensures
        r == attack_outcome(mode, reg, bound),
{
    match mode {
        Mode::NDS(true) => PhaseOutcome::Register(nds_attack_search(tables, bound)),
        Mode::NDS(false) => {
            match nds_attack_steps(tables, clamp_nds(reg)) {
                StepCount::Infinite => PhaseOutcome::Infinite,
                StepCount::Finite(k) => PhaseOutcome::Ticks(k),
            }
        },
        Mode::GBA(true) => PhaseOutcome::Register(gba_attack_search(bound)),
        Mode::GBA(false) => {
            match gba_attack_steps(reg) {
                StepCount::Infinite => PhaseOutcome::Infinite,
                StepCount::Finite(k) => PhaseOutcome::Ticks(k),
            }
        },
    }
}

/// Decay conversion for one mode; also runs the release phase on its own
/// register and threshold, as both platforms reuse the decay rules for
/// release.
pub fn calculate_decay(tables: &EnvelopeTables, mode: Mode, reg: u8, bound: i64) -> (r:
    PhaseOutcome)
    requires
        tables.wf(),
    ensures
        r == decay_outcome(mode, reg, bound),
{
    match mode {
        Mode::NDS(true) => PhaseOutcome::Register(nds_decay_search(tables, bound)),
        Mode::NDS(false) => PhaseOutcome::Ticks(nds_decay_steps(tables, clamp_nds(reg))),
        Mode::GBA(true) => PhaseOutcome::Register(gba_decay_search(bound)),
        Mode::GBA(false) => {
            match gba_decay_steps(reg) {
                StepCount::Infinite => PhaseOutcome::Infinite,
                StepCount::Finite(k) => PhaseOutcome::Ticks(k),
            }
        },
    }
}

/// Sustain conversion for one mode: a table level or amplitude numerator
/// forward, an attenuation search inverse.
pub fn calculate_sustain(tables: &EnvelopeTables, mode: Mode, reg: u8, bound: i64) -> (r:
    PhaseOutcome)
    requires
        tables.wf(),
    ensures
        r == sustain_outcome(mode, reg, bound),
{
    match mode {
        Mode::NDS(true) => PhaseOutcome::Register(nds_sustain_search(tables, bound)),
        Mode::NDS(false) => {
            let c = clamp_nds(reg);
            if c == 0 {
                PhaseOutcome::ZeroDb
            } else {
                PhaseOutcome::NdsLevel(nds_sustain_level(tables, c))
            }
        },
        Mode::GBA(true) => PhaseOutcome::Register(gba_sustain_search(bound)),
        Mode::GBA(false) => PhaseOutcome::GbaLevel(reg),
    }
}

/// One full conversion: every phase independently, forward from the
/// session's registers or inverse from the caller-derived thresholds,
/// uniformly under the session's mode.
pub fn calculate(tables: &EnvelopeTables, state: &Converter, bounds: &InverseBounds) -> (r:
    EnvelopeResult)
    requires
        tables.wf(),
    ensures
        r.mode == state@.mode,
        r.attack == attack_outcome(state@.mode, state@.attack, bounds.attack),
        r.decay == decay_outcome(state@.mode, state@.decay, bounds.decay),
        r.sustain == sustain_outcome(state@.mode, state@.sustain, bounds.sustain),
        r.release == decay_outcome(state@.mode, state@.release, bounds.release),
{
    EnvelopeResult {
        mode: state.mode,
        attack: calculate_attack(tables, state.mode, state.attack, bounds.attack),
        decay: calculate_decay(tables, state.mode, state.decay, bounds.decay),
        sustain: calculate_sustain(tables, state.mode, state.sustain, bounds.sustain),
        release: calculate_decay(tables, state.mode, state.release, bounds.release),
    }
}

} // verus!

