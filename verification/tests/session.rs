//! The session state machine, field parsing and clipboard interchange.

use adsr_calc::clipboard::export_registers;
use adsr_calc::parse::{parse_u16, string_is_int, u8_to_string};
use adsr_calc::state::{Converter, Mode, Phase};

#[test]
fn string_is_int_accepts_register_integers_only() {
    assert!(string_is_int("127".to_string()));
    assert!(string_is_int("0".to_string()));
    assert!(string_is_int("+5".to_string()));
    assert!(string_is_int("65535".to_string()));
    assert!(string_is_int("007".to_string()));
    assert!(!string_is_int("65536".to_string()));
    assert!(!string_is_int("0.5".to_string()));
    assert!(!string_is_int("".to_string()));
    assert!(!string_is_int("+".to_string()));
    assert!(!string_is_int("-1".to_string()));
    assert!(!string_is_int(" 5".to_string()));
    assert!(!string_is_int("abc".to_string()));
}

#[test]
fn parse_u16_gives_the_numeric_value() {
    assert_eq!(parse_u16("300"), Some(300));
    assert_eq!(parse_u16("+007"), Some(7));
    assert_eq!(parse_u16("65535"), Some(65535));
    assert_eq!(parse_u16("99999"), None);
    assert_eq!(parse_u16("12a"), None);
    assert_eq!(parse_u16("1 2"), None);
}

#[test]
fn registers_render_canonically() {
    assert_eq!(u8_to_string(0), "0");
    assert_eq!(u8_to_string(7), "7");
    assert_eq!(u8_to_string(42), "42");
    assert_eq!(u8_to_string(107), "107");
    assert_eq!(u8_to_string(255), "255");
}

#[test]
fn new_session_defaults() {
    let c = Converter::new();
    assert_eq!(c.mode, Mode::NDS(false));
    assert_eq!(c.attack, 127);
    assert_eq!(c.decay, 127);
    assert_eq!(c.sustain, 127);
    assert_eq!(c.release, 127);
    assert_eq!(c.attack_input, "");
}

#[test]
fn one_real_valued_field_forces_inverse_mode() {
    // Three integer fields and one "0.5" put the whole group in inverse
    // mode; making that field an integer again restores forward mode.
    let mut c = Converter::new();
    c.apply_field(Phase::Attack, "10".to_string());
    c.apply_field(Phase::Decay, "20".to_string());
    c.apply_field(Phase::Release, "40".to_string());
    c.apply_field(Phase::Sustain, "0.5".to_string());
    assert_eq!(c.mode, Mode::NDS(true));
    assert_eq!(c.sustain, 0);
    assert_eq!(c.sustain_input, "0.5");
    c.apply_field(Phase::Sustain, "30".to_string());
    assert_eq!(c.mode, Mode::NDS(false));
    assert_eq!(c.sustain, 30);
}

#[test]
fn out_of_range_register_input_is_clamped() {
    let mut c = Converter::new();
    c.apply_field(Phase::Attack, "300".to_string());
    assert_eq!(c.attack, 255);
    assert_eq!(c.attack_input, "300");
}

#[test]
fn switching_platform_keeps_direction_from_nds_but_not_from_gba() {
    let mut c = Converter::new();
    c.apply_field(Phase::Attack, "1".to_string());
    c.apply_field(Phase::Decay, "2".to_string());
    c.apply_field(Phase::Sustain, "3".to_string());
    c.apply_field(Phase::Release, "4".to_string());
    assert_eq!(c.mode, Mode::NDS(false));
    c.switch_mode();
    assert_eq!(c.mode, Mode::GBA(false));
    // Leaving GBA lands in NDS inverse, but all-integer fields snap the
    // group straight back to forward.
    c.switch_mode();
    assert_eq!(c.mode, Mode::NDS(false));
    // With a real-valued field the landing stays inverse.
    c.apply_field(Phase::Attack, "0.25".to_string());
    assert_eq!(c.mode, Mode::NDS(true));
    c.switch_mode();
    assert_eq!(c.mode, Mode::GBA(true));
    c.switch_mode();
    assert_eq!(c.mode, Mode::NDS(true));
}

#[test]
fn switching_platform_rederives_registers_from_the_texts() {
    let mut c = Converter::new();
    // A fresh session holds register 127 behind empty texts; the refresh
    // rederives 0 from them.
    c.switch_mode();
    assert_eq!(c.mode, Mode::GBA(true));
    assert_eq!(c.attack, 0);
    assert_eq!(c.decay, 0);
    assert_eq!(c.sustain, 0);
    assert_eq!(c.release, 0);
}

#[test]
fn calculate_press_derives_direction_from_the_fields_alone() {
    // A register at the byte ceiling is no reason to change direction:
    // only the four field texts decide it.
    let mut c = Converter::new();
    c.apply_field(Phase::Attack, "255".to_string());
    c.apply_field(Phase::Decay, "0.5".to_string());
    assert_eq!(c.mode, Mode::NDS(true));
    let m = c.calculate_pressed();
    assert_eq!(m, Mode::NDS(true));
    assert_eq!(c.mode, Mode::NDS(true));
}

#[test]
fn calculate_press_keeps_forward_mode_on_integer_fields() {
    let mut c = Converter::new();
    c.apply_field(Phase::Attack, "10".to_string());
    c.apply_field(Phase::Decay, "20".to_string());
    assert_eq!(c.mode, Mode::NDS(false));
    let m = c.calculate_pressed();
    assert_eq!(m, Mode::NDS(false));
    assert_eq!(c.mode, Mode::NDS(false));
}

#[test]
fn clipboard_import_with_hold_marker() {
    // The hold marker takes the decay slot as register 0.
    let mut c = Converter::new();
    c.import_clipboard("10\t! \t30\t40", 0);
    assert_eq!(c.attack, 10);
    assert_eq!(c.decay, 0);
    assert_eq!(c.sustain, 30);
    assert_eq!(c.release, 40);
    assert_eq!(c.attack_input, "10");
    assert_eq!(c.decay_input, "0");
    assert_eq!(c.sustain_input, "30");
    assert_eq!(c.release_input, "40");
    assert_eq!(c.mode, Mode::NDS(false));
}

#[test]
fn clipboard_import_starts_at_the_given_slot_and_stops_after_release() {
    let mut c = Converter::new();
    c.import_clipboard("1 2 3 4 5", 2);
    assert_eq!(c.sustain, 1);
    assert_eq!(c.release, 2);
    assert_eq!(c.attack, 127);
    assert_eq!(c.decay, 127);
}

#[test]
fn clipboard_import_strips_commas_and_keeps_real_values() {
    let mut c = Converter::new();
    c.import_clipboard("1,0 0.5", 0);
    assert_eq!(c.attack, 10);
    assert_eq!(c.attack_input, "10");
    assert_eq!(c.decay, 0);
    assert_eq!(c.decay_input, "0.5");
    assert_eq!(c.mode, Mode::NDS(true));
}

#[test]
fn clipboard_import_normalizes_register_tokens() {
    let mut c = Converter::new();
    c.import_clipboard("+007\t008", 0);
    assert_eq!(c.attack, 7);
    assert_eq!(c.attack_input, "7");
    assert_eq!(c.decay, 8);
    assert_eq!(c.decay_input, "8");
}

#[test]
fn clipboard_export_is_tab_separated() {
    assert_eq!(export_registers(1, 22, 3, 255), "1\t22\t3\t255");
}

#[test]
fn button_texts_follow_the_mode() {
    let mut c = Converter::new();
    assert_eq!(c.calculate_button_text(), "To SF2");
    assert_eq!(c.mode_switch_button_text(), "Switch to GBA");
    c.apply_field(Phase::Attack, "x".to_string());
    assert_eq!(c.calculate_button_text(), "To SDAT");
    c.switch_mode();
    assert_eq!(c.calculate_button_text(), "To Sappy");
    assert_eq!(c.mode_switch_button_text(), "Switch to NDS");
}
