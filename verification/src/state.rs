//! The conversion session: active mode, the four register fields and
//! their raw text, and the mode-tracking rules.
//!
//! The mode tracker is level-triggered on the aggregate state of the four
//! fields: one field that fails to parse as a register integer sends the
//! whole group into inverse mode for the active platform, and as soon as
//! all four fields parse as integers again the group returns to forward
//! mode.  `ConverterModel` is the mathematical image of the session; every
//! state change is specified as a function on it.

use vstd::prelude::*;
use crate::parse::{is_u16_string, parse_u16, string_is_int, u16_string_value};

verus! {

/// Active platform and direction: the payload is true while the session
/// is putting physical values in, that is, searching for registers.
#[derive(Clone, Copy, Debug, PartialEq, Eq, Structural)]
pub enum Mode {
    NDS(bool),
    GBA(bool),
}

/// The four envelope phases.
#[derive(Clone, Copy, Debug, PartialEq, Eq, Structural)]
pub enum Phase {
    Attack,
    Decay,
    Sustain,
    Release,
}

/// One user-interface event of the conversion session.
#[derive(Clone, Debug)]
pub enum Message {
    CalculatePressed,
    ModeSwitchPressed,
    AttackChanged(String),
    DecayChanged(String),
    SustainChanged(String),
    ReleaseChanged(String),
    CopyToClipboard,
    PasteFromClipboard(i32),
}

impl Mode {
    /// Whether the session is searching registers from physical targets.
    pub open spec fn is_inverse(self) -> bool {
        match self {
            Mode::NDS(b) => b,
            Mode::GBA(b) => b,
        }
    }

    /// Whether the GBA platform is active.
    pub open spec fn is_gba(self) -> bool {
        match self {
            Mode::NDS(_) => false,
            Mode::GBA(_) => true,
        }
    }

    /// The same platform, inverse direction.
    pub open spec fn with_inverse(self) -> Mode {
        if self.is_gba() {
            Mode::GBA(true)
        } else {
            Mode::NDS(true)
        }
    }

    /// The same platform, forward direction.
    pub open spec fn with_forward(self) -> Mode {
        if self.is_gba() {
            Mode::GBA(false)
        } else {
            Mode::NDS(false)
        }
    }

    /// The platform toggle: NDS keeps its direction when moving to GBA,
    /// while leaving GBA always lands in NDS inverse mode.
    pub open spec fn spec_switched(self) -> Mode {
        match self {
            Mode::NDS(b) => Mode::GBA(b),
            Mode::GBA(_) => Mode::NDS(true),
        }
    }

    pub fn to_inverse(self) -> (r: Mode)
        ensures
            r == self.with_inverse(),
    {
        match self {
            Mode::NDS(_) => Mode::NDS(true),
            Mode::GBA(_) => Mode::GBA(true),
        }
    }

    pub fn to_forward(self) -> (r: Mode)
        ensures
            r == self.with_forward(),
    {
        match self {
            Mode::NDS(_) => Mode::NDS(false),
            Mode::GBA(_) => Mode::GBA(false),
        }
    }

    pub fn switched(self) -> (r: Mode)
        ensures
            r == self.spec_switched(),
    {
        match self {
            Mode::NDS(b) => Mode::GBA(b),
            Mode::GBA(_) => Mode::NDS(true),
        }
    }
}

/// Register value a field's text stands for: a register integer is taken
/// (clamped to the byte range, the defensive boundary check for
/// out-of-range registers), anything else resets the register to 0.
pub open spec fn reg_from_input(s: Seq<char>) -> u8 {
    if is_u16_string(s) {
        if u16_string_value(s) > 255 {
            255u8
        } else {
            u16_string_value(s) as u8
        }
    } else {
        0u8
    }
}

/// The mathematical image of a session: the mode, and each phase's
/// register together with the raw text it came from.
pub struct ConverterModel {
    pub mode: Mode,
    pub attack: u8,
    pub attack_input: Seq<char>,
    pub decay: u8,
    pub decay_input: Seq<char>,
    pub sustain: u8,
    pub sustain_input: Seq<char>,
    pub release: u8,
    pub release_input: Seq<char>,
}

impl ConverterModel {
    /// Raw text of a phase's field.
    pub open spec fn input(self, p: Phase) -> Seq<char> {
        match p {
            Phase::Attack => self.attack_input,
            Phase::Decay => self.decay_input,
            Phase::Sustain => self.sustain_input,
            Phase::Release => self.release_input,
        }
    }

    /// Whether every field currently parses as a register integer: the
    /// level that keeps the group in forward mode.
    pub open spec fn all_inputs_int(self) -> bool {
        &&& is_u16_string(self.attack_input)
        &&& is_u16_string(self.decay_input)
        &&& is_u16_string(self.sustain_input)
        &&& is_u16_string(self.release_input)
    }

    /// One phase's field replaced.
    pub open spec fn with_field(self, p: Phase, s: Seq<char>, r: u8) -> ConverterModel {
        match p {
            Phase::Attack => ConverterModel { attack: r, attack_input: s, ..self },
            Phase::Decay => ConverterModel { decay: r, decay_input: s, ..self },
            Phase::Sustain => ConverterModel { sustain: r, sustain_input: s, ..self },
            Phase::Release => ConverterModel { release: r, release_input: s, ..self },
        }
    }

    /// The mode replaced.
    pub open spec fn with_mode(self, m: Mode) -> ConverterModel {
        ConverterModel { mode: m, ..self }
    }
}

/// A fresh session: NDS forward mode, every register at 127, every field
/// empty.
pub open spec fn initial_model() -> ConverterModel {
    ConverterModel {
        mode: Mode::NDS(false),
        attack: 127,
        attack_input: Seq::empty(),
        decay: 127,
        decay_input: Seq::empty(),
        sustain: 127,
        sustain_input: Seq::empty(),
        release: 127,
        release_input: Seq::empty(),
    }
}

/// The level-triggered rule: snap to forward mode when all four fields
/// are integers, else leave the mode be.
pub open spec fn normalized(m: ConverterModel) -> ConverterModel {
    if m.all_inputs_int() {
        m.with_mode(m.mode.with_forward())
    } else {
        m
    }
}

/// One field edit: the text is stored, the register derived from it, a
/// non-integer edit forces inverse mode, and the level-triggered rule
/// runs last.
pub open spec fn field_applied(m: ConverterModel, p: Phase, s: Seq<char>) -> ConverterModel {
    let m1 = m.with_field(p, s, reg_from_input(s));
    let m2 = if is_u16_string(s) {
        m1
    } else {
        m1.with_mode(m1.mode.with_inverse())
    };
    normalized(m2)
}

/// The platform toggle: the platform switches, every register is derived
/// afresh from its text, any non-integer field forces inverse mode, and
/// the level-triggered rule runs last.
pub open spec fn platform_switched(m: ConverterModel) -> ConverterModel {
    let base = ConverterModel {
        mode: m.mode.spec_switched(),
        attack: reg_from_input(m.attack_input),
        attack_input: m.attack_input,
        decay: reg_from_input(m.decay_input),
        decay_input: m.decay_input,
        sustain: reg_from_input(m.sustain_input),
        sustain_input: m.sustain_input,
        release: reg_from_input(m.release_input),
        release_input: m.release_input,
    };
    let m2 = if m.all_inputs_int() {
        base
    } else {
        base.with_mode(base.mode.with_inverse())
    };
    normalized(m2)
}

/// Mode tracking, stated once for every platform, phase and field text:
/// a field edit never moves the platform; an edit that does not parse as
/// a register integer ends in inverse mode; and an edit after which all
/// four fields parse as integers ends in forward mode.
pub proof fn lemma_mode_tracking(m: ConverterModel, p: Phase, s: Seq<char>)
    ensures
        field_applied(m, p, s).mode.is_gba() == m.mode.is_gba(),
        !is_u16_string(s) ==> field_applied(m, p, s).mode == m.mode.with_inverse(),
        field_applied(m, p, s).all_inputs_int() ==> field_applied(m, p, s).mode
            == m.mode.with_forward(),
{
    let m1 = m.with_field(p, s, reg_from_input(s));
    assert(m1.input(p) == s);
    if !is_u16_string(s) {
        assert(!m1.all_inputs_int());
    }
}

/// The conversion session state.
pub struct Converter {
    pub mode: Mode,
    pub attack: u8,
    pub attack_input: String,
    pub decay: u8,
    pub decay_input: String,
    pub sustain: u8,
    pub sustain_input: String,
    pub release: u8,
    pub release_input: String,
}

impl View for Converter {
    type V = ConverterModel;

    open spec fn view(&self) -> ConverterModel {
        ConverterModel {
            mode: self.mode,
            attack: self.attack,
            attack_input: self.attack_input@,
            decay: self.decay,
            decay_input: self.decay_input@,
            sustain: self.sustain,
            sustain_input: self.sustain_input@,
            release: self.release,
            release_input: self.release_input@,
        }
    }
}

impl Converter {
    /// A fresh session.
    pub fn new() -> (c: Converter)
        ensures
            c@ == initial_model(),
    {
        let c = Converter {
            mode: Mode::NDS(false),
            attack: 127,
            attack_input: String::new(),
            decay: 127,
            decay_input: String::new(),
            sustain: 127,
            sustain_input: String::new(),
            release: 127,
            release_input: String::new(),
        };
        proof {
            assert(c@.attack_input =~= initial_model().attack_input);
            assert(c@.decay_input =~= initial_model().decay_input);
            assert(c@.sustain_input =~= initial_model().sustain_input);
            assert(c@.release_input =~= initial_model().release_input);
        }
        c
    }

    /// The level-triggered rule alone; runs after every event.
    pub fn normalize_mode(&mut self)
        ensures
            final(self)@ == normalized(old(self)@),
    {
        let a = string_is_int(self.attack_input.clone());
        let d = string_is_int(self.decay_input.clone());
        let s = string_is_int(self.sustain_input.clone());
        let r = string_is_int(self.release_input.clone());
        if a && d && s && r {
            self.mode = self.mode.to_forward();
        }
    }

    /// One field edit through the mode-tracking rules.
    pub fn apply_field(&mut self, phase: Phase, s: String)
        ensures
            final(self)@ == field_applied(old(self)@, phase, s@),
    {
        match parse_u16(s.as_str()) {
            Some(v) => {
                proof {
                    crate::parse::lemma_u16_string_value_bounds(s@);
                }
                let reg: u8 = if v > 255 {
                    255
                } else {
                    v as u8
                };
                match phase {
                    Phase::Attack => {
                        self.attack_input = s;
                        self.attack = reg;
                    },
                    Phase::Decay => {
                        self.decay_input = s;
                        self.decay = reg;
                    },
                    Phase::Sustain => {
                        self.sustain_input = s;
                        self.sustain = reg;
                    },
                    Phase::Release => {
                        self.release_input = s;
                        self.release = reg;
                    },
                }
            },
            None => {
                self.mode = self.mode.to_inverse();
                match phase {
                    Phase::Attack => {
                        self.attack_input = s;
                        self.attack = 0;
                    },
                    Phase::Decay => {
                        self.decay_input = s;
                        self.decay = 0;
                    },
                    Phase::Sustain => {
                        self.sustain_input = s;
                        self.sustain = 0;
                    },
                    Phase::Release => {
                        self.release_input = s;
                        self.release = 0;
                    },
                }
            },
        }
        self.normalize_mode();
    }

    /// The platform toggle: switch the platform and push every field
    /// through the edit rules again, so that registers and mode match the
    /// texts under the new platform.
    pub fn switch_mode(&mut self)
        ensures
            final(self)@ == platform_switched(old(self)@),
    {
        self.mode = self.mode.switched();
        match parse_u16(self.attack_input.as_str()) {
            Some(v) => {
                proof {
                    crate::parse::lemma_u16_string_value_bounds(self.attack_input@);
                }
                self.attack = if v > 255 {
                    255
                } else {
                    v as u8
                };
            },
            None => {
                self.attack = 0;
                self.mode = self.mode.to_inverse();
            },
        }
        match parse_u16(self.decay_input.as_str()) {
            Some(v) => {
                proof {
                    crate::parse::lemma_u16_string_value_bounds(self.decay_input@);
                }
                self.decay = if v > 255 {
                    255
                } else {
                    v as u8
                };
            },
            None => {
                self.decay = 0;
                self.mode = self.mode.to_inverse();
            },
        }
        match parse_u16(self.sustain_input.as_str()) {
            Some(v) => {
                proof {
                    crate::parse::lemma_u16_string_value_bounds(self.sustain_input@);
                }
                self.sustain = if v > 255 {
                    255
                } else {
                    v as u8
                };
            },
            None => {
                self.sustain = 0;
                self.mode = self.mode.to_inverse();
            },
        }
        match parse_u16(self.release_input.as_str()) {
            Some(v) => {
                proof {
                    crate::parse::lemma_u16_string_value_bounds(self.release_input@);
                }
                self.release = if v > 255 {
                    255
                } else {
                    v as u8
                };
            },
            None => {
                self.release = 0;
                self.mode = self.mode.to_inverse();
            },
        }
        self.normalize_mode();
    }

    /// A conversion request: the direction is whatever the level-triggered
    /// rule has derived from the four field texts — nothing else moves the
    /// mode.  Returns the mode the conversion itself uses; the rule runs
    /// once more afterwards.
    pub fn calculate_pressed(&mut self) -> (m: Mode)
        ensures
            m == old(self)@.mode,
            final(self)@ == normalized(old(self)@),
    {
        let m = self.mode;
        self.normalize_mode();
        m
    }

    /// Caption of the conversion button: it names the direction's target,
    /// the console sound bank in inverse mode or the soundfont in forward
    /// mode.
    pub fn calculate_button_text(&self) -> (r: String)
        ensures
            self.mode == Mode::NDS(true) ==> r@ == "To SDAT"@,
            self.mode == Mode::GBA(true) ==> r@ == "To Sappy"@,
            !self.mode.is_inverse() ==> r@ == "To SF2"@,
    {
        match self.mode {
            Mode::NDS(true) => String::from_str("To SDAT"),
            Mode::GBA(true) => String::from_str("To Sappy"),
            Mode::NDS(false) | Mode::GBA(false) => String::from_str("To SF2"),
        }
    }

    /// Caption of the platform toggle: it names the other platform.
    pub fn mode_switch_button_text(&self) -> (r: String)
        ensures
            !self.mode.is_gba() ==> r@ == "Switch to GBA"@,
            self.mode.is_gba() ==> r@ == "Switch to NDS"@,
    {
        match self.mode {
            Mode::NDS(false) | Mode::NDS(true) => String::from_str("Switch to GBA"),
            Mode::GBA(false) | Mode::GBA(true) => String::from_str("Switch to NDS"),
        }
    }
}

} // verus!
