//! The envelope core: tables, forward simulation, inverse search and the
//! full conversion, checked against hand-computed hardware values.

use adsr_calc::convert::{calculate, calculate_sustain, InverseBounds, PhaseOutcome};
use adsr_calc::search::{
    gba_attack_search, gba_decay_search, gba_sustain_search, nds_attack_search, nds_decay_search,
    nds_sustain_search,
};
use adsr_calc::sim::{
    gba_attack_steps, gba_decay_steps, nds_attack_steps, nds_decay_steps, nds_sustain_level,
    StepCount,
};
use adsr_calc::state::{Converter, Mode};
use adsr_calc::tables::EnvelopeTables;

fn tables() -> EnvelopeTables {
    EnvelopeTables::new()
}

#[test]
fn tables_hold_the_hardware_constants() {
    let t = tables();
    assert_eq!(t.attack.len(), 128);
    assert_eq!(t.decay.len(), 128);
    assert_eq!(t.sustain.len(), 128);
    assert_eq!(t.attack[0], 255);
    assert_eq!(t.attack[108], 147);
    assert_eq!(t.attack[126], 1);
    assert_eq!(t.attack[127], 0);
    assert_eq!(t.decay[0], 1);
    assert_eq!(t.decay[50], 101);
    assert_eq!(t.decay[51], 102);
    assert_eq!(t.decay[127], 65535);
    assert_eq!(t.sustain[0], -92544);
    assert_eq!(t.sustain[63], -15616);
    assert_eq!(t.sustain[127], 0);
}

#[test]
fn nds_attack_forward_times() {
    let t = tables();
    assert_eq!(nds_attack_steps(&t, 0), StepCount::Infinite);
    assert_eq!(nds_attack_steps(&t, 1), StepCount::Finite(1648));
    assert_eq!(nds_attack_steps(&t, 2), StepCount::Finite(910));
    assert_eq!(nds_attack_steps(&t, 64), StepCount::Finite(37));
    assert_eq!(nds_attack_steps(&t, 126), StepCount::Finite(3));
    assert_eq!(nds_attack_steps(&t, 127), StepCount::Finite(1));
}

#[test]
fn nds_decay_forward_times() {
    let t = tables();
    assert_eq!(nds_decay_steps(&t, 0), 92544);
    assert_eq!(nds_decay_steps(&t, 1), 30848);
    assert_eq!(nds_decay_steps(&t, 64), 747);
    assert_eq!(nds_decay_steps(&t, 127), 2);
}

#[test]
fn nds_decay_time_strictly_decreases_across_the_table() {
    let t = tables();
    let mut prev = nds_decay_steps(&t, 0);
    for reg in 1..=127u8 {
        let cur = nds_decay_steps(&t, reg);
        assert!(cur < prev, "register {} does not decay strictly faster", reg);
        prev = cur;
    }
}

#[test]
fn nds_sustain_levels_and_decibels() {
    let t = tables();
    // Register 0 is the 0 dB special case.
    assert_eq!(
        calculate_sustain(&t, Mode::NDS(false), 0, 0),
        PhaseOutcome::ZeroDb
    );
    // Register 127 holds the full-amplitude level: 0 dB attenuation.
    assert_eq!(nds_sustain_level(&t, 127), -92544);
    let db127 = (20.0 * (92544.0f64 / 92544.0).log10()).abs();
    assert!(db127.abs() < 1e-12);
    // A middle register, against the amplitude-ratio formula.
    assert_eq!(nds_sustain_level(&t, 64), -15616);
    let db64 = (20.0 * (15616.0f64 / 92544.0).log10()).abs();
    assert!((db64 - 15.455569332395651).abs() < 1e-9);
}

#[test]
fn gba_attack_forward_times() {
    assert_eq!(gba_attack_steps(0), StepCount::Infinite);
    assert_eq!(gba_attack_steps(1), StepCount::Finite(254));
    assert_eq!(gba_attack_steps(5), StepCount::Finite(50));
    assert_eq!(gba_attack_steps(127), StepCount::Finite(2));
    assert_eq!(gba_attack_steps(128), StepCount::Finite(1));
    assert_eq!(gba_attack_steps(255), StepCount::Finite(0));
}

#[test]
fn gba_decay_forward_times() {
    assert_eq!(gba_decay_steps(0), StepCount::Finite(0));
    assert_eq!(gba_decay_steps(255), StepCount::Infinite);
    assert_eq!(gba_decay_steps(1), StepCount::Finite(1));
    assert_eq!(gba_decay_steps(128), StepCount::Finite(8));
    assert_eq!(gba_decay_steps(254), StepCount::Finite(191));
}

#[test]
fn round_trip_at_the_nds_boundary() {
    // Forward: every register at 127.
    let t = tables();
    let attack = match nds_attack_steps(&t, 127) {
        StepCount::Finite(k) => k,
        StepCount::Infinite => unreachable!(),
    };
    assert_eq!(attack, 1);
    let attack_seconds = attack as f64 / 192.0;
    assert!((attack_seconds - 0.005208333333333333).abs() < 1e-12);
    let decay = nds_decay_steps(&t, 127);
    assert_eq!(decay, 2);
    let decay_seconds = decay as f64 / 192.0;
    assert_eq!(nds_sustain_level(&t, 127), -92544);
    let sustain_db = (20.0 * (92544.0f64 / 92544.0).log10()).abs();

    // Inverse: search for those very values.
    let attack_bound = (attack_seconds * 192.0).ceil() as i64;
    assert_eq!(nds_attack_search(&t, attack_bound), 127);
    let decay_bound = (decay_seconds * 192.0).ceil() as i64;
    assert_eq!(nds_decay_search(&t, decay_bound), 127);
    let sustain_bound = (92544.0 * 10.0f64.powf(-sustain_db / 20.0)).floor() as i64;
    assert_eq!(nds_sustain_search(&t, sustain_bound), 127);
    assert_eq!(nds_decay_search(&t, decay_bound), 127);
}

#[test]
fn gba_attack_search_finds_the_one_second_register() {
    // Target 1.0 s: the first register whose ramp beats 60 ticks.
    let bound = (1.0f64 * 59.7275).ceil() as i64;
    assert_eq!(bound, 60);
    assert_eq!(gba_attack_search(bound), 5);
}

#[test]
fn nds_sustain_search_finds_the_five_decibel_register() {
    let t = tables();
    let bound = (92544.0 * 10.0f64.powf(-5.0 / 20.0)).floor() as i64;
    assert_eq!(bound, 52041);
    assert_eq!(nds_sustain_search(&t, bound), 115);
}

#[test]
fn searches_fall_back_to_the_boundary_register() {
    let t = tables();
    assert_eq!(nds_attack_search(&t, 0), 127);
    assert_eq!(nds_decay_search(&t, 0), 127);
    assert_eq!(nds_sustain_search(&t, i64::MAX), 127);
    assert_eq!(gba_attack_search(0), 255);
    assert_eq!(gba_decay_search(i64::MAX), 1);
    assert_eq!(gba_sustain_search(255), 255);
    assert_eq!(gba_sustain_search(-1), 0);
}

#[test]
fn attack_round_trip_is_monotone_and_never_undershoots() {
    // Searching for a register's own simulated time gives a register at
    // or beyond it, and never a smaller one than a slower target gives:
    // the round trip need not be exact (step counts plateau), but it is
    // monotone as the target time decreases.
    let t = tables();
    let mut prev = 0u8;
    for reg in 1..=127u8 {
        let s = match nds_attack_steps(&t, reg) {
            StepCount::Finite(k) => k,
            StepCount::Infinite => unreachable!(),
        };
        let seconds = s as f64 / 192.0;
        let bound = (seconds * 192.0).ceil() as i64;
        let inv = nds_attack_search(&t, bound);
        assert!(inv >= reg, "register {} round-tripped down to {}", reg, inv);
        assert!(inv >= prev, "round trip not monotone at register {}", reg);
        prev = inv;
    }
}

#[test]
fn gba_decay_search_skips_the_instant_register() {
    // Register 0 decays instantly as a special case and is no candidate:
    // even a target shorter than one tick lands on register 1.
    assert_eq!(gba_decay_search(0), 1);
}

#[test]
fn decay_round_trip_lands_one_register_up() {
    // Decay time is strictly decreasing, so searching for a register's
    // own time returns the next register, or 127 at the boundary.
    let t = tables();
    for reg in 1..=127u8 {
        let s = nds_decay_steps(&t, reg) as i64;
        let expected = if reg <= 125 { reg + 1 } else { 127 };
        assert_eq!(nds_decay_search(&t, s), expected, "register {}", reg);
    }
}

#[test]
fn search_register_grows_as_the_target_time_shrinks() {
    let t = tables();
    let mut prev = 0u8;
    for bound in [2000i64, 1000, 500, 100, 10, 2, 1] {
        let r = nds_attack_search(&t, bound);
        assert!(r >= prev, "bound {} broke monotonicity", bound);
        prev = r;
    }
}

#[test]
fn full_forward_conversion_tags_its_mode() {
    let t = tables();
    let state = Converter {
        mode: Mode::NDS(false),
        attack: 127,
        attack_input: "127".to_string(),
        decay: 1,
        decay_input: "1".to_string(),
        sustain: 0,
        sustain_input: "0".to_string(),
        release: 127,
        release_input: "127".to_string(),
    };
    let bounds = InverseBounds { attack: 0, decay: 0, sustain: 0, release: 0 };
    let r = calculate(&t, &state, &bounds);
    assert_eq!(r.mode, Mode::NDS(false));
    assert_eq!(r.attack, PhaseOutcome::Ticks(1));
    assert_eq!(r.decay, PhaseOutcome::Ticks(30848));
    assert_eq!(r.sustain, PhaseOutcome::ZeroDb);
    assert_eq!(r.release, PhaseOutcome::Ticks(2));
}

#[test]
fn full_inverse_conversion_returns_registers() {
    let t = tables();
    let state = Converter {
        mode: Mode::GBA(true),
        attack: 0,
        attack_input: "1.0".to_string(),
        decay: 0,
        decay_input: "1.0".to_string(),
        sustain: 0,
        sustain_input: "5".to_string(),
        release: 0,
        release_input: "1.0".to_string(),
    };
    let bounds = InverseBounds {
        attack: (1.0f64 * 59.7275).ceil() as i64,
        decay: (1.0f64 * 59.7275).floor() as i64,
        sustain: (255.0 * 10.0f64.powf(-5.0 / 20.0)).floor() as i64,
        release: (1.0f64 * 59.7275).floor() as i64,
    };
    let r = calculate(&t, &state, &bounds);
    assert_eq!(r.mode, Mode::GBA(true));
    assert_eq!(r.attack, PhaseOutcome::Register(5));
    // First register whose decay takes more than 59 ticks.
    let reg = match r.decay {
        PhaseOutcome::Register(x) => x,
        _ => unreachable!(),
    };
    let steps = match gba_decay_steps(reg) {
        StepCount::Finite(k) => k,
        StepCount::Infinite => unreachable!(),
    };
    assert!(steps as i64 > bounds.decay);
    if reg > 1 {
        if let StepCount::Finite(prev) = gba_decay_steps(reg - 1) {
            assert!(prev as i64 <= bounds.decay);
        }
    }
    assert_eq!(r.release, r.decay);
    // 5 dB on GBA: amplitude over 255 * 10^(-1/4).
    match r.sustain {
        PhaseOutcome::Register(x) => {
            assert!((x as f64) > 255.0 * 10.0f64.powf(-0.25));
            assert!(((x - 1) as f64) <= 255.0 * 10.0f64.powf(-0.25));
        },
        _ => unreachable!(),
    }
}
