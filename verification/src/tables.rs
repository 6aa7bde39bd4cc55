//! The fixed per-platform envelope tables: attack ramp multipliers, decay
//! decrements and sustain amplitude levels, each indexed by a register
//! value 0..=127.  The tables are immutable constant data; `EnvelopeTables`
//! carries them at run time, and the `*_entry` spec functions state every
//! entry so that contracts can speak about exact table values.

use vstd::prelude::*;

verus! {

/// Magnitude of the fixed-point "zero point": the silence boundary of the
/// NDS velocity domain lies this far below zero.
pub const ZERO_POINT_MAG: u32 = 92544;

/// Attack ramp multiplier for index `i`: the velocity is multiplied by
/// `attack_entry(i) / 255` once per tick.
pub open spec fn attack_entry(i: int) -> i32 {
    if i <= 108 {
        (255 - i) as i32
    } else if i == 109 {
        143i32
    } else if i == 110 {
        137i32
    } else if i == 111 {
        132i32
    } else if i == 112 {
        127i32
    } else if i == 113 {
        123i32
    } else if i == 114 {
        116i32
    } else if i == 115 {
        109i32
    } else if i == 116 {
        100i32
    } else if i == 117 {
        92i32
    } else if i == 118 {
        84i32
    } else if i == 119 {
        73i32
    } else if i == 120 {
        63i32
    } else if i == 121 {
        51i32
    } else if i == 122 {
        38i32
    } else if i == 123 {
        26i32
    } else if i == 124 {
        14i32
    } else if i == 125 {
        5i32
    } else if i == 126 {
        1i32
    } else {
        0i32
    }
}

/// Decay decrement for index `i`: the velocity drops by `decay_entry(i)`
/// once per tick.
pub open spec fn decay_entry(i: int) -> i32 {
    if i <= 50 {
        (1 + 2 * i) as i32
    } else if i == 51 {
        102i32
    } else if i == 52 {
        104i32
    } else if i == 53 {
        105i32
    } else if i == 54 {
        107i32
    } else if i == 55 {
        108i32
    } else if i == 56 {
        110i32
    } else if i == 57 {
        111i32
    } else if i == 58 {
        113i32
    } else if i == 59 {
        115i32
    } else if i == 60 {
        116i32
    } else if i == 61 {
        118i32
    } else if i == 62 {
        120i32
    } else if i == 63 {
        122i32
    } else if i == 64 {
        124i32
    } else if i == 65 {
        126i32
    } else if i == 66 {
        128i32
    } else if i == 67 {
        130i32
    } else if i == 68 {
        132i32
    } else if i == 69 {
        135i32
    } else if i == 70 {
        137i32
    } else if i == 71 {
        140i32
    } else if i == 72 {
        142i32
    } else if i == 73 {
        145i32
    } else if i == 74 {
        148i32
    } else if i == 75 {
        151i32
    } else if i == 76 {
        154i32
    } else if i == 77 {
        157i32
    } else if i == 78 {
        160i32
    } else if i == 79 {
        163i32
    } else if i == 80 {
        167i32
    } else if i == 81 {
        171i32
    } else if i == 82 {
        175i32
    } else if i == 83 {
        179i32
    } else if i == 84 {
        183i32
    } else if i == 85 {
        187i32
    } else if i == 86 {
        192i32
    } else if i == 87 {
        197i32
    } else if i == 88 {
        202i32
    } else if i == 89 {
        208i32
    } else if i == 90 {
        213i32
    } else if i == 91 {
        219i32
    } else if i == 92 {
        226i32
    } else if i == 93 {
        233i32
    } else if i == 94 {
        240i32
    } else if i == 95 {
        248i32
    } else if i == 96 {
        256i32
    } else if i == 97 {
        265i32
    } else if i == 98 {
        274i32
    } else if i == 99 {
        284i32
    } else if i == 100 {
        295i32
    } else if i == 101 {
        307i32
    } else if i == 102 {
        320i32
    } else if i == 103 {
        334i32
    } else if i == 104 {
        349i32
    } else if i == 105 {
        366i32
    } else if i == 106 {
        384i32
    } else if i == 107 {
        404i32
    } else if i == 108 {
        427i32
    } else if i == 109 {
        452i32
    } else if i == 110 {
        480i32
    } else if i == 111 {
        512i32
    } else if i == 112 {
        549i32
    } else if i == 113 {
        591i32
    } else if i == 114 {
        640i32
    } else if i == 115 {
        698i32
    } else if i == 116 {
        768i32
    } else if i == 117 {
        853i32
    } else if i == 118 {
        960i32
    } else if i == 119 {
        1097i32
    } else if i == 120 {
        1280i32
    } else if i == 121 {
        1536i32
    } else if i == 122 {
        1920i32
    } else if i == 123 {
        2560i32
    } else if i == 124 {
        3840i32
    } else if i == 125 {
        7680i32
    } else if i == 126 {
        15360i32
    } else {
        65535i32
    }
}

/// Sustain amplitude level for index `i`, in the NDS fixed-point domain:
/// `sustain_entry(i) / -92544` is the linear amplitude, so index 0 is full
/// amplitude and index 127 is silence.
pub open spec fn sustain_entry(i: int) -> i32 {
    if i == 0 {
        -92544i32
    } else if i == 1 {
        -92416i32
    } else if i == 2 {
        -92288i32
    } else if i == 3 {
        -83328i32
    } else if i == 4 {
        -76928i32
    } else if i == 5 {
        -71936i32
    } else if i == 6 {
        -67840i32
    } else if i == 7 {
        -64384i32
    } else if i == 8 {
        -61440i32
    } else if i == 9 {
        -58880i32
    } else if i == 10 {
        -56576i32
    } else if i == 11 {
        -54400i32
    } else if i == 12 {
        -52480i32
    } else if i == 13 {
        -50688i32
    } else if i == 14 {
        -49024i32
    } else if i == 15 {
        -47488i32
    } else if i == 16 {
        -46080i32
    } else if i == 17 {
        -44672i32
    } else if i == 18 {
        -43392i32
    } else if i == 19 {
        -42240i32
    } else if i == 20 {
        -41088i32
    } else if i == 21 {
        -40064i32
    } else if i == 22 {
        -39040i32
    } else if i == 23 {
        -38016i32
    } else if i == 24 {
        -36992i32
    } else if i == 25 {
        -36096i32
    } else if i == 26 {
        -35328i32
    } else if i == 27 {
        -34432i32
    } else if i == 28 {
        -33664i32
    } else if i == 29 {
        -32896i32
    } else if i == 30 {
        -32128i32
    } else if i == 31 {
        -31360i32
    } else if i == 32 {
        -30592i32
    } else if i == 33 {
        -29952i32
    } else if i == 34 {
        -29312i32
    } else if i == 35 {
        -28672i32
    } else if i == 36 {
        -28032i32
    } else if i == 37 {
        -27392i32
    } else if i == 38 {
        -26880i32
    } else if i == 39 {
        -26240i32
    } else if i == 40 {
        -25728i32
    } else if i == 41 {
        -25088i32
    } else if i == 42 {
        -24576i32
    } else if i == 43 {
        -24064i32
    } else if i == 44 {
        -23552i32
    } else if i == 45 {
        -23040i32
    } else if i == 46 {
        -22528i32
    } else if i == 47 {
        -22144i32
    } else if i == 48 {
        -21632i32
    } else if i == 49 {
        -21120i32
    } else if i == 50 {
        -20736i32
    } else if i == 51 {
        -20224i32
    } else if i == 52 {
        -19840i32
    } else if i == 53 {
        -19456i32
    } else if i == 54 {
        -19072i32
    } else if i == 55 {
        -18560i32
    } else if i == 56 {
        -18176i32
    } else if i == 57 {
        -17792i32
    } else if i == 58 {
        -17408i32
    } else if i == 59 {
        -17024i32
    } else if i == 60 {
        -16640i32
    } else if i == 61 {
        -16256i32
    } else if i == 62 {
        -16000i32
    } else if i == 63 {
        -15616i32
    } else if i == 64 {
        -15232i32
    } else if i == 65 {
        -14848i32
    } else if i == 66 {
        -14592i32
    } else if i == 67 {
        -14208i32
    } else if i == 68 {
        -13952i32
    } else if i == 69 {
        -13568i32
    } else if i == 70 {
        -13184i32
    } else if i == 71 {
        -12928i32
    } else if i == 72 {
        -12672i32
    } else if i == 73 {
        -12288i32
    } else if i == 74 {
        -12032i32
    } else if i == 75 {
        -11648i32
    } else if i == 76 {
        -11392i32
    } else if i == 77 {
        -11136i32
    } else if i == 78 {
        -10880i32
    } else if i == 79 {
        -10496i32
    } else if i == 80 {
        -10240i32
    } else if i == 81 {
        -9984i32
    } else if i == 82 {
        -9728i32
    } else if i == 83 {
        -9472i32
    } else if i == 84 {
        -9216i32
    } else if i == 85 {
        -8960i32
    } else if i == 86 {
        -8704i32
    } else if i == 87 {
        -8448i32
    } else if i == 88 {
        -8192i32
    } else if i == 89 {
        -7936i32
    } else if i == 90 {
        -7680i32
    } else if i == 91 {
        -7424i32
    } else if i == 92 {
        -7168i32
    } else if i == 93 {
        -6912i32
    } else if i == 94 {
        -6656i32
    } else if i == 95 {
        -6400i32
    } else if i == 96 {
        -6272i32
    } else if i == 97 {
        -6016i32
    } else if i == 98 {
        -5760i32
    } else if i == 99 {
        -5504i32
    } else if i == 100 {
        -5376i32
    } else if i == 101 {
        -5120i32
    } else if i == 102 {
        -4864i32
    } else if i == 103 {
        -4608i32
    } else if i == 104 {
        -4480i32
    } else if i == 105 {
        -4224i32
    } else if i == 106 {
        -3968i32
    } else if i == 107 {
        -3840i32
    } else if i == 108 {
        -3584i32
    } else if i == 109 {
        -3456i32
    } else if i == 110 {
        -3200i32
    } else if i == 111 {
        -2944i32
    } else if i == 112 {
        -2816i32
    } else if i == 113 {
        -2560i32
    } else if i == 114 {
        -2432i32
    } else if i == 115 {
        -2176i32
    } else if i == 116 {
        -2048i32
    } else if i == 117 {
        -1792i32
    } else if i == 118 {
        -1664i32
    } else if i == 119 {
        -1408i32
    } else if i == 120 {
        -1280i32
    } else if i == 121 {
        -1024i32
    } else if i == 122 {
        -896i32
    } else if i == 123 {
        -768i32
    } else if i == 124 {
        -512i32
    } else if i == 125 {
        -384i32
    } else if i == 126 {
        -128i32
    } else {
        0i32
    }
}

pub open spec fn attack_table_spec() -> Seq<i32> {
    Seq::new(128, |i: int| attack_entry(i))
}

pub open spec fn decay_table_spec() -> Seq<i32> {
    Seq::new(128, |i: int| decay_entry(i))
}

pub open spec fn sustain_table_spec() -> Seq<i32> {
    Seq::new(128, |i: int| sustain_entry(i))
}

/// Every attack multiplier fits in a byte, and only index 0 holds the
/// identity multiplier 255.
pub proof fn lemma_attack_entry_bounds(i: int)
    requires
        0 <= i < 128,
    ensures
        0 <= attack_entry(i) <= 255,
        1 <= i ==> attack_entry(i) <= 254,
{
}

/// Every decay decrement is at least 1, so a decaying velocity always
/// reaches the zero point.
pub proof fn lemma_decay_entry_bounds(i: int)
    requires
        0 <= i < 128,
    ensures
        1 <= decay_entry(i) <= 65535,
{
}

/// Sustain levels span the whole fixed-point amplitude range, and only
/// index 127 holds complete silence.
pub proof fn lemma_sustain_entry_bounds(i: int)
    requires
        0 <= i < 128,
    ensures
        -92544 <= sustain_entry(i) <= 0,
        i <= 126 ==> sustain_entry(i) <= -128,
{
}

fn attack_value(i: usize) -> (r: i32)
    requires
        i < 128,
    ensures
        r == attack_entry(i as int),
{
    if i <= 108 {
        255 - (i as i32)
    } else {
        match i {
            109 => 143,
            110 => 137,
            111 => 132,
            112 => 127,
            113 => 123,
            114 => 116,
            115 => 109,
            116 => 100,
            117 => 92,
            118 => 84,
            119 => 73,
            120 => 63,
            121 => 51,
            122 => 38,
            123 => 26,
            124 => 14,
            125 => 5,
            126 => 1,
            _ => 0,
        }
    }
}

fn decay_value(i: usize) -> (r: i32)
    requires
        i < 128,
    ensures
        r == decay_entry(i as int),
{
    if i <= 50 {
        1 + 2 * (i as i32)
    } else {
        match i {
            51 => 102,
            52 => 104,
            53 => 105,
            54 => 107,
            55 => 108,
            56 => 110,
            57 => 111,
            58 => 113,
            59 => 115,
            60 => 116,
            61 => 118,
            62 => 120,
            63 => 122,
            64 => 124,
            65 => 126,
            66 => 128,
            67 => 130,
            68 => 132,
            69 => 135,
            70 => 137,
            71 => 140,
            72 => 142,
            73 => 145,
            74 => 148,
            75 => 151,
            76 => 154,
            77 => 157,
            78 => 160,
            79 => 163,
            80 => 167,
            81 => 171,
            82 => 175,
            83 => 179,
            84 => 183,
            85 => 187,
            86 => 192,
            87 => 197,
            88 => 202,
            89 => 208,
            90 => 213,
            91 => 219,
            92 => 226,
            93 => 233,
            94 => 240,
            95 => 248,
            96 => 256,
            97 => 265,
            98 => 274,
            99 => 284,
            100 => 295,
            101 => 307,
            102 => 320,
            103 => 334,
            104 => 349,
            105 => 366,
            106 => 384,
            107 => 404,
            108 => 427,
            109 => 452,
            110 => 480,
            111 => 512,
            112 => 549,
            113 => 591,
            114 => 640,
            115 => 698,
            116 => 768,
            117 => 853,
            118 => 960,
            119 => 1097,
            120 => 1280,
            121 => 1536,
            122 => 1920,
            123 => 2560,
            124 => 3840,
            125 => 7680,
            126 => 15360,
            _ => 65535,
        }
    }
}

fn sustain_value(i: usize) -> (r: i32)
    requires
        i < 128,
    ensures
        r == sustain_entry(i as int),
{
    match i {
        0 => -92544,
        1 => -92416,
        2 => -92288,
        3 => -83328,
        4 => -76928,
        5 => -71936,
        6 => -67840,
        7 => -64384,
        8 => -61440,
        9 => -58880,
        10 => -56576,
        11 => -54400,
        12 => -52480,
        13 => -50688,
        14 => -49024,
        15 => -47488,
        16 => -46080,
        17 => -44672,
        18 => -43392,
        19 => -42240,
        20 => -41088,
        21 => -40064,
        22 => -39040,
        23 => -38016,
        24 => -36992,
        25 => -36096,
        26 => -35328,
        27 => -34432,
        28 => -33664,
        29 => -32896,
        30 => -32128,
        31 => -31360,
        32 => -30592,
        33 => -29952,
        34 => -29312,
        35 => -28672,
        36 => -28032,
        37 => -27392,
        38 => -26880,
        39 => -26240,
        40 => -25728,
        41 => -25088,
        42 => -24576,
        43 => -24064,
        44 => -23552,
        45 => -23040,
        46 => -22528,
        47 => -22144,
        48 => -21632,
        49 => -21120,
        50 => -20736,
        51 => -20224,
        52 => -19840,
        53 => -19456,
        54 => -19072,
        55 => -18560,
        56 => -18176,
        57 => -17792,
        58 => -17408,
        59 => -17024,
        60 => -16640,
        61 => -16256,
        62 => -16000,
        63 => -15616,
        64 => -15232,
        65 => -14848,
        66 => -14592,
        67 => -14208,
        68 => -13952,
        69 => -13568,
        70 => -13184,
        71 => -12928,
        72 => -12672,
        73 => -12288,
        74 => -12032,
        75 => -11648,
        76 => -11392,
        77 => -11136,
        78 => -10880,
        79 => -10496,
        80 => -10240,
        81 => -9984,
        82 => -9728,
        83 => -9472,
        84 => -9216,
        85 => -8960,
        86 => -8704,
        87 => -8448,
        88 => -8192,
        89 => -7936,
        90 => -7680,
        91 => -7424,
        92 => -7168,
        93 => -6912,
        94 => -6656,
        95 => -6400,
        96 => -6272,
        97 => -6016,
        98 => -5760,
        99 => -5504,
        100 => -5376,
        101 => -5120,
        102 => -4864,
        103 => -4608,
        104 => -4480,
        105 => -4224,
        106 => -3968,
        107 => -3840,
        108 => -3584,
        109 => -3456,
        110 => -3200,
        111 => -2944,
        112 => -2816,
        113 => -2560,
        114 => -2432,
        115 => -2176,
        116 => -2048,
        117 => -1792,
        118 => -1664,
        119 => -1408,
        120 => -1280,
        121 => -1024,
        122 => -896,
        123 => -768,
        124 => -512,
        125 => -384,
        126 => -128,
        _ => 0,
    }
}

/// The three per-platform constant tables, built once and never mutated.
pub struct EnvelopeTables {
    pub attack: Vec<i32>,
    pub decay: Vec<i32>,
    pub sustain: Vec<i32>,
}

impl EnvelopeTables {
    /// The tables hold exactly the constant data the simulators expect.
    pub open spec fn wf(&self) -> bool {
        &&& self.attack@ == attack_table_spec()
        &&& self.decay@ == decay_table_spec()
        &&& self.sustain@ == sustain_table_spec()
    }

    pub fn new() -> (r: Self)
        ensures
            r.wf(),
    {
        let mut attack: Vec<i32> = Vec::new();
        let mut i: usize = 0;
        while i < 128
            invariant
                i <= 128,
                attack@.len() == i,
                forall|j: int| 0 <= j < i ==> attack@[j] == attack_entry(j),
            decreases 128 - i,
        {
            attack.push(attack_value(i));
            i += 1;
        }
        let mut decay: Vec<i32> = Vec::new();
        let mut i: usize = 0;
        while i < 128
            invariant
                i <= 128,
                decay@.len() == i,
                forall|j: int| 0 <= j < i ==> decay@[j] == decay_entry(j),
            decreases 128 - i,
        {
            decay.push(decay_value(i));
            i += 1;
        }
        let mut sustain: Vec<i32> = Vec::new();
        let mut i: usize = 0;
        while i < 128
            invariant
                i <= 128,
                sustain@.len() == i,
                forall|j: int| 0 <= j < i ==> sustain@[j] == sustain_entry(j),
            decreases 128 - i,
        {
            sustain.push(sustain_value(i));
            i += 1;
        }
        proof {
            assert(attack@ =~= attack_table_spec());
            assert(decay@ =~= decay_table_spec());
            assert(sustain@ =~= sustain_table_spec());
        }
        EnvelopeTables { attack, decay, sustain }
    }
}

} // verus!
