//! Inverse search: given an integer threshold derived from the desired
//! physical value, scan the candidate registers in ascending order and
//! return the first one whose simulated behaviour crosses the threshold,
//! or the phase's boundary register when none does.
//!
//! The caller translates the physical target into the threshold once,
//! outside the core: for time phases `bound` delimits the simulated tick
//! count (`ticks < bound` means "faster than the target", `ticks > bound`
//! means "slower"), for sustain it delimits the fixed-point amplitude
//! magnitude.  Since every simulated quantity is an integer, such a
//! threshold expresses every possible comparison against a real target.

use vstd::prelude::*;
use crate::sim::{
    gba_attack_count, gba_attack_run, gba_decay_run, gba_decay_steps_of, nds_attack_run,
    nds_attack_steps_of, nds_decay_count, nds_decay_steps,
};
use crate::tables::{attack_entry, decay_entry, lemma_sustain_entry_bounds, sustain_entry, EnvelopeTables};

verus! {

/// First candidate in `[lo, hi)` satisfying `hit`, or `dflt` when none
/// does: the generic shape every per-phase inverse search instantiates.
pub open spec fn first_register(lo: int, hi: int, dflt: int, hit: spec_fn(int) -> bool) -> int
    decreases hi - lo,
{
    if lo >= hi {
        dflt
    } else if hit(lo) {
        lo
    } else {
        first_register(lo + 1, hi, dflt, hit)
    }
}

/// The search result is either the default or a hit inside the range,
/// with no hit before it.
pub proof fn lemma_first_register_props(lo: int, hi: int, dflt: int, hit: spec_fn(int) -> bool)
    ensures
        first_register(lo, hi, dflt, hit) == dflt || (lo <= first_register(lo, hi, dflt, hit)
            < hi && hit(first_register(lo, hi, dflt, hit))),
        forall|j: int|
            lo <= j < first_register(lo, hi, dflt, hit) && j < hi ==> !(#[trigger] hit(j)),
    decreases hi - lo,
{
    if lo < hi && !hit(lo) {
        lemma_first_register_props(lo + 1, hi, dflt, hit);
    }
}

/// A search with a weaker hit predicate never returns an earlier
/// register: scanning for a harder target can only move the answer
/// towards the boundary default.
pub proof fn lemma_first_register_antitone(
    lo: int,
    hi: int,
    dflt: int,
    strong: spec_fn(int) -> bool,
    weak: spec_fn(int) -> bool,
)
    requires
        hi <= dflt,
        forall|j: int| lo <= j < hi && #[trigger] strong(j) ==> weak(j),
    ensures
        first_register(lo, hi, dflt, strong) >= first_register(lo, hi, dflt, weak),
    decreases hi - lo,
{
    if lo < hi {
        if weak(lo) {
            lemma_first_register_props(lo, hi, dflt, strong);
        } else {
            lemma_first_register_antitone(lo + 1, hi, dflt, strong, weak);
        }
    }
}

/// Fixed-point amplitude magnitude behind NDS sustain register `reg`.
pub open spec fn nds_sustain_mag_of(reg: int) -> int {
    -(sustain_entry(127 - reg) as int)
}

/// Ticks of the NDS decay (and release) phase for register `reg`.
pub open spec fn nds_decay_steps_of(reg: int) -> int {
    nds_decay_count(decay_entry(reg) as int)
}

/// Hit predicate of the NDS attack inverse: faster than the target.
pub open spec fn nds_attack_hit(bound: int) -> spec_fn(int) -> bool {
    |j: int| nds_attack_steps_of(j) < bound
}

/// Hit predicate of the NDS decay and release inverse.
pub open spec fn nds_decay_hit(bound: int) -> spec_fn(int) -> bool {
    |j: int| nds_decay_steps_of(j) < bound
}

/// Hit predicate of the NDS sustain inverse: milder attenuation than the
/// target.
pub open spec fn nds_sustain_hit(bound: int) -> spec_fn(int) -> bool {
    |j: int| nds_sustain_mag_of(j) > bound
}

/// Hit predicate of the GBA attack inverse.
pub open spec fn gba_attack_hit(bound: int) -> spec_fn(int) -> bool {
    |j: int| gba_attack_count(j) < bound
}

/// Hit predicate of the GBA decay and release inverse: slower than the
/// target, since GBA decay time grows with the register.
pub open spec fn gba_decay_hit(bound: int) -> spec_fn(int) -> bool {
    |j: int| gba_decay_steps_of(j) > bound
}

/// Hit predicate of the GBA sustain inverse: the register is itself the
/// amplitude numerator.
pub open spec fn gba_sustain_hit(bound: int) -> spec_fn(int) -> bool {
    |j: int| j > bound
}

/// NDS attack inverse: first register in 1..=126 whose attack finishes in
/// fewer than `bound` ticks, else 127.  Attack time shrinks as the
/// register grows, so this is the smallest register fast enough for the
/// target.
pub fn nds_attack_search(tables: &EnvelopeTables, bound: i64) -> (r: u8)
    requires
        tables.wf(),
    ensures
        1 <= r <= 127,
        r as int == first_register(1, 127, 127, nds_attack_hit(bound as int)),
        forall|j: int| 1 <= j < r ==> !(nds_attack_steps_of(j) < bound),
        r < 127 ==> nds_attack_steps_of(r as int) < bound,
{
    let ghost hit = nds_attack_hit(bound as int);
    let mut i: u8 = 1;
    while i < 127
        invariant
            tables.wf(),
            1 <= i <= 127,
            hit == nds_attack_hit(bound as int),
            forall|j: int| 1 <= j < i ==> !(#[trigger] hit(j)),
            first_register(1, 127, 127, hit) == first_register(i as int, 127, 127, hit),
        decreases 127 - i,
    {
        let k = nds_attack_run(tables, i);
        if (k as i64) < bound {
            proof {
                assert(hit(i as int));
                assert forall|j: int| 1 <= j < i as int implies !(nds_attack_steps_of(j)
                    < bound) by {
                    assert(!hit(j));
                }
            }
            return i;
        }
        proof {
            assert(!hit(i as int));
        }
        i = i + 1;
    }
    proof {
        assert forall|j: int| 1 <= j < 127 implies !(nds_attack_steps_of(j) < bound) by {
            assert(!hit(j));
        }
    }
    127
}

/// NDS decay inverse: first register in 1..=126 whose decay finishes in
/// fewer than `bound` ticks, else 127.  The release phase shares this
/// search, as it shares the decay table.
pub fn nds_decay_search(tables: &EnvelopeTables, bound: i64) -> (r: u8)
    requires
        tables.wf(),
    ensures
        1 <= r <= 127,
        r as int == first_register(1, 127, 127, nds_decay_hit(bound as int)),
        forall|j: int| 1 <= j < r ==> !(nds_decay_steps_of(j) < bound),
        r < 127 ==> nds_decay_steps_of(r as int) < bound,
{
    let ghost hit = nds_decay_hit(bound as int);
    let mut i: u8 = 1;
    while i < 127
        invariant
            tables.wf(),
            1 <= i <= 127,
            hit == nds_decay_hit(bound as int),
            forall|j: int| 1 <= j < i ==> !(#[trigger] hit(j)),
            first_register(1, 127, 127, hit) == first_register(i as int, 127, 127, hit),
        decreases 127 - i,
    {
        let k = nds_decay_steps(tables, i);
        if (k as i64) < bound {
            proof {
                assert(hit(i as int));
                assert forall|j: int| 1 <= j < i as int implies !(nds_decay_steps_of(j)
                    < bound) by {
                    assert(!hit(j));
                }
            }
            return i;
        }
        proof {
            assert(!hit(i as int));
        }
        i = i + 1;
    }
    proof {
        assert forall|j: int| 1 <= j < 127 implies !(nds_decay_steps_of(j) < bound) by {
            assert(!hit(j));
        }
    }
    127
}

/// NDS sustain inverse: first register in 0..=126 whose amplitude
/// magnitude exceeds `bound` (that is, whose attenuation is milder than
/// the target), else 127.
pub fn nds_sustain_search(tables: &EnvelopeTables, bound: i64) -> (r: u8)
    requires
        tables.wf(),
    ensures
        r <= 127,
        r as int == first_register(0, 127, 127, nds_sustain_hit(bound as int)),
        forall|j: int| 0 <= j < r ==> !(nds_sustain_mag_of(j) > bound),
        r < 127 ==> nds_sustain_mag_of(r as int) > bound,
{
    let ghost hit = nds_sustain_hit(bound as int);
    let mut i: u8 = 0;
    while i < 127
        invariant
            tables.wf(),
            i <= 127,
            hit == nds_sustain_hit(bound as int),
            forall|j: int| 0 <= j < i ==> !(#[trigger] hit(j)),
            first_register(0, 127, 127, hit) == first_register(i as int, 127, 127, hit),
        decreases 127 - i,
    {
        proof {
            lemma_sustain_entry_bounds(127 - i as int);
        }
        let level: i32 = tables.sustain[(127 - i) as usize];
        let mag: i64 = -(level as i64);
        if mag > bound {
            proof {
                assert(hit(i as int));
                assert forall|j: int| 0 <= j < i as int implies !(nds_sustain_mag_of(j)
                    > bound) by {
                    assert(!hit(j));
                }
            }
            return i;
        }
        proof {
            assert(!hit(i as int));
        }
        i = i + 1;
    }
    proof {
        assert forall|j: int| 0 <= j < 127 implies !(nds_sustain_mag_of(j) > bound) by {
            assert(!hit(j));
        }
    }
    127
}

/// GBA attack inverse: first register in 1..=254 whose attack finishes in
/// fewer than `bound` ticks, else 255.
pub fn gba_attack_search(bound: i64) -> (r: u8)
    ensures
        1 <= r,
        r as int == first_register(1, 255, 255, gba_attack_hit(bound as int)),
        forall|j: int| 1 <= j < r ==> !(gba_attack_count(j) < bound),
        r < 255 ==> gba_attack_count(r as int) < bound,
{
    let ghost hit = gba_attack_hit(bound as int);
    let mut i: u8 = 1;
    while i < 255
        invariant
            1 <= i <= 255,
            hit == gba_attack_hit(bound as int),
            forall|j: int| 1 <= j < i ==> !(#[trigger] hit(j)),
            first_register(1, 255, 255, hit) == first_register(i as int, 255, 255, hit),
        decreases 255 - i,
    {
        let k = gba_attack_run(i);
        if (k as i64) < bound {
            proof {
                assert(hit(i as int));
                assert forall|j: int| 1 <= j < i as int implies !(gba_attack_count(j)
                    < bound) by {
                    assert(!hit(j));
                }
            }
            return i;
        }
        proof {
            assert(!hit(i as int));
        }
        i = i + 1;
    }
    proof {
        assert forall|j: int| 1 <= j < 255 implies !(gba_attack_count(j) < bound) by {
            assert(!hit(j));
        }
    }
    255
}

/// GBA decay inverse: first register in 1..=254 whose decay takes more
/// than `bound` ticks (decay time grows with the register, so the
/// comparison flips), else the boundary register 1.  Registers 0 and 255
/// are not candidates: their forward values are the instant and infinite
/// special cases.  The GBA release phase shares this search.
pub fn gba_decay_search(bound: i64) -> (r: u8)
    ensures
        1 <= r,
        r as int == first_register(1, 255, 1, gba_decay_hit(bound as int)),
        forall|j: int| 1 <= j < r ==> !(gba_decay_steps_of(j) > bound),
        r != 1 ==> gba_decay_steps_of(r as int) > bound,
{
    let ghost hit = gba_decay_hit(bound as int);
    let mut i: u8 = 1;
    while i < 255
        invariant
            1 <= i <= 255,
            hit == gba_decay_hit(bound as int),
            forall|j: int| 1 <= j < i ==> !(#[trigger] hit(j)),
            first_register(1, 255, 1, hit) == first_register(i as int, 255, 1, hit),
        decreases 255 - i,
    {
        let k = gba_decay_run(i);
        if (k as i64) > bound {
            proof {
                assert(hit(i as int));
                assert forall|j: int| 1 <= j < i as int implies !(gba_decay_steps_of(j)
                    > bound) by {
                    assert(!hit(j));
                }
            }
            return i;
        }
        proof {
            assert(!hit(i as int));
        }
        i = i + 1;
    }
    proof {
        assert forall|j: int| 1 <= j < 255 implies !(gba_decay_steps_of(j) > bound) by {
            assert(!hit(j));
        }
    }
    1
}

/// GBA sustain inverse: first register in 0..=254 lying above `bound`
/// (the register is itself the amplitude numerator), else 255.
pub fn gba_sustain_search(bound: i64) -> (r: u8)
    ensures
        r as int == first_register(0, 255, 255, gba_sustain_hit(bound as int)),
        r > 0 ==> r - 1 <= bound,
        r < 255 ==> r as i64 > bound,
{
    let ghost hit = gba_sustain_hit(bound as int);
    let mut i: u8 = 0;
    while i < 255
        invariant
            i <= 255,
            hit == gba_sustain_hit(bound as int),
            forall|j: int| 0 <= j < i ==> !(#[trigger] hit(j)),
            first_register(0, 255, 255, hit) == first_register(i as int, 255, 255, hit),
        decreases 255 - i,
    {
        if (i as i64) > bound {
            proof {
                assert(hit(i as int));
                if i > 0 {
                    assert(!hit(i as int - 1));
                }
            }
            return i;
        }
        proof {
            assert(!hit(i as int));
        }
        i = i + 1;
    }
    proof {
        assert(!hit(254));
    }
    255
}


/// As the target attack time shrinks (a smaller tick bound), the NDS
/// attack inverse search's register never shrinks: the register/time
/// round trip is monotone even where it is not exact.
pub proof fn lemma_nds_attack_search_antitone(b1: int, b2: int)
    requires
        b1 <= b2,
    ensures
        first_register(1, 127, 127, nds_attack_hit(b1)) >= first_register(
            1,
            127,
            127,
            nds_attack_hit(b2),
        ),
{
    assert forall|j: int|
        1 <= j < 127 && #[trigger] nds_attack_hit(b1)(j) implies nds_attack_hit(b2)(j) by {
        assert(nds_attack_steps_of(j) < b1);
    }
    lemma_first_register_antitone(1, 127, 127, nds_attack_hit(b1), nds_attack_hit(b2));
}

/// The same monotonicity for the NDS decay and release inverse search.
pub proof fn lemma_nds_decay_search_antitone(b1: int, b2: int)
    requires
        b1 <= b2,
    ensures
        first_register(1, 127, 127, nds_decay_hit(b1)) >= first_register(
            1,
            127,
            127,
            nds_decay_hit(b2),
        ),
{
    assert forall|j: int|
        1 <= j < 127 && #[trigger] nds_decay_hit(b1)(j) implies nds_decay_hit(b2)(j) by {
        assert(nds_decay_steps_of(j) < b1);
    }
    lemma_first_register_antitone(1, 127, 127, nds_decay_hit(b1), nds_decay_hit(b2));
}

/// The same monotonicity for the GBA attack inverse search.
pub proof fn lemma_gba_attack_search_antitone(b1: int, b2: int)
    requires
        b1 <= b2,
    ensures
        first_register(1, 255, 255, gba_attack_hit(b1)) >= first_register(
            1,
            255,
            255,
            gba_attack_hit(b2),
        ),
{
    assert forall|j: int|
        1 <= j < 255 && #[trigger] gba_attack_hit(b1)(j) implies gba_attack_hit(b2)(j) by {
        assert(gba_attack_count(j) < b1);
    }
    lemma_first_register_antitone(1, 255, 255, gba_attack_hit(b1), gba_attack_hit(b2));
}

/// As the target attenuation grows (a larger amplitude bound), the NDS
/// sustain inverse search's register never shrinks.
pub proof fn lemma_nds_sustain_search_antitone(b1: int, b2: int)
    requires
        b1 <= b2,
    ensures
        first_register(0, 127, 127, nds_sustain_hit(b2)) >= first_register(
            0,
            127,
            127,
            nds_sustain_hit(b1),
        ),
{
    assert forall|j: int|
        0 <= j < 127 && #[trigger] nds_sustain_hit(b2)(j) implies nds_sustain_hit(b1)(j) by {
        assert(nds_sustain_mag_of(j) > b2);
    }
    lemma_first_register_antitone(0, 127, 127, nds_sustain_hit(b2), nds_sustain_hit(b1));
}

/// Pairwise facts of the decay table up to register `r`: each entry is
/// strictly larger than its predecessor, and its decay takes strictly
/// fewer ticks.
spec fn decay_table_strict_upto(r: int) -> bool
    decreases r,
{
    if r <= 0 {
        true
    } else {
        &&& decay_entry(r - 1) < decay_entry(r)
        &&& nds_decay_steps_of(r) < nds_decay_steps_of(r - 1)
        &&& decay_table_strict_upto(r - 1)
    }
}

#[verifier::rlimit(100)]
proof fn lemma_decay_table_strict_all()
    ensures
        decay_table_strict_upto(127),
{
    assert(decay_entry(0) == 1);
    assert(nds_decay_steps_of(0) == 92544);
    assert(decay_table_strict_upto(0));
    assert(decay_entry(1) == 3);
    assert(nds_decay_steps_of(1) == 30848);
    assert(decay_table_strict_upto(1));
    assert(decay_entry(2) == 5);
    assert(nds_decay_steps_of(2) == 18509);
    assert(decay_table_strict_upto(2));
    assert(decay_entry(3) == 7);
    assert(nds_decay_steps_of(3) == 13221);
    assert(decay_table_strict_upto(3));
    assert(decay_entry(4) == 9);
    assert(nds_decay_steps_of(4) == 10283);
    assert(decay_table_strict_upto(4));
    assert(decay_entry(5) == 11);
    assert(nds_decay_steps_of(5) == 8414);
    assert(decay_table_strict_upto(5));
    assert(decay_entry(6) == 13);
    assert(nds_decay_steps_of(6) == 7119);
    assert(decay_table_strict_upto(6));
    assert(decay_entry(7) == 15);
    assert(nds_decay_steps_of(7) == 6170);
    assert(decay_table_strict_upto(7));
    assert(decay_entry(8) == 17);
    assert(nds_decay_steps_of(8) == 5444);
    assert(decay_table_strict_upto(8));
    assert(decay_entry(9) == 19);
    assert(nds_decay_steps_of(9) == 4871);
    assert(decay_table_strict_upto(9));
    assert(decay_entry(10) == 21);
    assert(nds_decay_steps_of(10) == 4407);
    assert(decay_table_strict_upto(10));
    assert(decay_entry(11) == 23);
    assert(nds_decay_steps_of(11) == 4024);
    assert(decay_table_strict_upto(11));
    assert(decay_entry(12) == 25);
    assert(nds_decay_steps_of(12) == 3702);
    assert(decay_table_strict_upto(12));
    assert(decay_entry(13) == 27);
    assert(nds_decay_steps_of(13) == 3428);
    assert(decay_table_strict_upto(13));
    assert(decay_entry(14) == 29);
    assert(nds_decay_steps_of(14) == 3192);
    assert(decay_table_strict_upto(14));
    assert(decay_entry(15) == 31);
    assert(nds_decay_steps_of(15) == 2986);
    assert(decay_table_strict_upto(15));
    assert(decay_entry(16) == 33);
    assert(nds_decay_steps_of(16) == 2805);
    assert(decay_table_strict_upto(16));
    assert(decay_entry(17) == 35);
    assert(nds_decay_steps_of(17) == 2645);
    assert(decay_table_strict_upto(17));
    assert(decay_entry(18) == 37);
    assert(nds_decay_steps_of(18) == 2502);
    assert(decay_table_strict_upto(18));
    assert(decay_entry(19) == 39);
    assert(nds_decay_steps_of(19) == 2373);
    assert(decay_table_strict_upto(19));
    assert(decay_entry(20) == 41);
    assert(nds_decay_steps_of(20) == 2258);
    assert(decay_table_strict_upto(20));
    assert(decay_entry(21) == 43);
    assert(nds_decay_steps_of(21) == 2153);
    assert(decay_table_strict_upto(21));
    assert(decay_entry(22) == 45);
    assert(nds_decay_steps_of(22) == 2057);
    assert(decay_table_strict_upto(22));
    assert(decay_entry(23) == 47);
    assert(nds_decay_steps_of(23) == 1970);
    assert(decay_table_strict_upto(23));
    assert(decay_entry(24) == 49);
    assert(nds_decay_steps_of(24) == 1889);
    assert(decay_table_strict_upto(24));
    assert(decay_entry(25) == 51);
    assert(nds_decay_steps_of(25) == 1815);
    assert(decay_table_strict_upto(25));
    assert(decay_entry(26) == 53);
    assert(nds_decay_steps_of(26) == 1747);
    assert(decay_table_strict_upto(26));
    assert(decay_entry(27) == 55);
    assert(nds_decay_steps_of(27) == 1683);
    assert(decay_table_strict_upto(27));
    assert(decay_entry(28) == 57);
    assert(nds_decay_steps_of(28) == 1624);
    assert(decay_table_strict_upto(28));
    assert(decay_entry(29) == 59);
    assert(nds_decay_steps_of(29) == 1569);
    assert(decay_table_strict_upto(29));
    assert(decay_entry(30) == 61);
    assert(nds_decay_steps_of(30) == 1518);
    assert(decay_table_strict_upto(30));
    assert(decay_entry(31) == 63);
    assert(nds_decay_steps_of(31) == 1469);
    assert(decay_table_strict_upto(31));
    assert(decay_entry(32) == 65);
    assert(nds_decay_steps_of(32) == 1424);
    assert(decay_table_strict_upto(32));
    assert(decay_entry(33) == 67);
    assert(nds_decay_steps_of(33) == 1382);
    assert(decay_table_strict_upto(33));
    assert(decay_entry(34) == 69);
    assert(nds_decay_steps_of(34) == 1342);
    assert(decay_table_strict_upto(34));
    assert(decay_entry(35) == 71);
    assert(nds_decay_steps_of(35) == 1304);
    assert(decay_table_strict_upto(35));
    assert(decay_entry(36) == 73);
    assert(nds_decay_steps_of(36) == 1268);
    assert(decay_table_strict_upto(36));
    assert(decay_entry(37) == 75);
    assert(nds_decay_steps_of(37) == 1234);
    assert(decay_table_strict_upto(37));
    assert(decay_entry(38) == 77);
    assert(nds_decay_steps_of(38) == 1202);
    assert(decay_table_strict_upto(38));
    assert(decay_entry(39) == 79);
    assert(nds_decay_steps_of(39) == 1172);
    assert(decay_table_strict_upto(39));
    assert(decay_entry(40) == 81);
    assert(nds_decay_steps_of(40) == 1143);
    assert(decay_table_strict_upto(40));
    assert(decay_entry(41) == 83);
    assert(nds_decay_steps_of(41) == 1115);
    assert(decay_table_strict_upto(41));
    assert(decay_entry(42) == 85);
    assert(nds_decay_steps_of(42) == 1089);
    assert(decay_table_strict_upto(42));
    assert(decay_entry(43) == 87);
    assert(nds_decay_steps_of(43) == 1064);
    assert(decay_table_strict_upto(43));
    assert(decay_entry(44) == 89);
    assert(nds_decay_steps_of(44) == 1040);
    assert(decay_table_strict_upto(44));
    assert(decay_entry(45) == 91);
    assert(nds_decay_steps_of(45) == 1017);
    assert(decay_table_strict_upto(45));
    assert(decay_entry(46) == 93);
    assert(nds_decay_steps_of(46) == 996);
    assert(decay_table_strict_upto(46));
    assert(decay_entry(47) == 95);
    assert(nds_decay_steps_of(47) == 975);
    assert(decay_table_strict_upto(47));
    assert(decay_entry(48) == 97);
    assert(nds_decay_steps_of(48) == 955);
    assert(decay_table_strict_upto(48));
    assert(decay_entry(49) == 99);
    assert(nds_decay_steps_of(49) == 935);
    assert(decay_table_strict_upto(49));
    assert(decay_entry(50) == 101);
    assert(nds_decay_steps_of(50) == 917);
    assert(decay_table_strict_upto(50));
    assert(decay_entry(51) == 102);
    assert(nds_decay_steps_of(51) == 908);
    assert(decay_table_strict_upto(51));
    assert(decay_entry(52) == 104);
    assert(nds_decay_steps_of(52) == 890);
    assert(decay_table_strict_upto(52));
    assert(decay_entry(53) == 105);
    assert(nds_decay_steps_of(53) == 882);
    assert(decay_table_strict_upto(53));
    assert(decay_entry(54) == 107);
    assert(nds_decay_steps_of(54) == 865);
    assert(decay_table_strict_upto(54));
    assert(decay_entry(55) == 108);
    assert(nds_decay_steps_of(55) == 857);
    assert(decay_table_strict_upto(55));
    assert(decay_entry(56) == 110);
    assert(nds_decay_steps_of(56) == 842);
    assert(decay_table_strict_upto(56));
    assert(decay_entry(57) == 111);
    assert(nds_decay_steps_of(57) == 834);
    assert(decay_table_strict_upto(57));
    assert(decay_entry(58) == 113);
    assert(nds_decay_steps_of(58) == 819);
    assert(decay_table_strict_upto(58));
    assert(decay_entry(59) == 115);
    assert(nds_decay_steps_of(59) == 805);
    assert(decay_table_strict_upto(59));
    assert(decay_entry(60) == 116);
    assert(nds_decay_steps_of(60) == 798);
    assert(decay_table_strict_upto(60));
    assert(decay_entry(61) == 118);
    assert(nds_decay_steps_of(61) == 785);
    assert(decay_table_strict_upto(61));
    assert(decay_entry(62) == 120);
    assert(nds_decay_steps_of(62) == 772);
    assert(decay_table_strict_upto(62));
    assert(decay_entry(63) == 122);
    assert(nds_decay_steps_of(63) == 759);
    assert(decay_table_strict_upto(63));
    assert(decay_entry(64) == 124);
    assert(nds_decay_steps_of(64) == 747);
    assert(decay_table_strict_upto(64));
    assert(decay_entry(65) == 126);
    assert(nds_decay_steps_of(65) == 735);
    assert(decay_table_strict_upto(65));
    assert(decay_entry(66) == 128);
    assert(nds_decay_steps_of(66) == 723);
    assert(decay_table_strict_upto(66));
    assert(decay_entry(67) == 130);
    assert(nds_decay_steps_of(67) == 712);
    assert(decay_table_strict_upto(67));
    assert(decay_entry(68) == 132);
    assert(nds_decay_steps_of(68) == 702);
    assert(decay_table_strict_upto(68));
    assert(decay_entry(69) == 135);
    assert(nds_decay_steps_of(69) == 686);
    assert(decay_table_strict_upto(69));
    assert(decay_entry(70) == 137);
    assert(nds_decay_steps_of(70) == 676);
    assert(decay_table_strict_upto(70));
    assert(decay_entry(71) == 140);
    assert(nds_decay_steps_of(71) == 662);
    assert(decay_table_strict_upto(71));
    assert(decay_entry(72) == 142);
    assert(nds_decay_steps_of(72) == 652);
    assert(decay_table_strict_upto(72));
    assert(decay_entry(73) == 145);
    assert(nds_decay_steps_of(73) == 639);
    assert(decay_table_strict_upto(73));
    assert(decay_entry(74) == 148);
    assert(nds_decay_steps_of(74) == 626);
    assert(decay_table_strict_upto(74));
    assert(decay_entry(75) == 151);
    assert(nds_decay_steps_of(75) == 613);
    assert(decay_table_strict_upto(75));
    assert(decay_entry(76) == 154);
    assert(nds_decay_steps_of(76) == 601);
    assert(decay_table_strict_upto(76));
    assert(decay_entry(77) == 157);
    assert(nds_decay_steps_of(77) == 590);
    assert(decay_table_strict_upto(77));
    assert(decay_entry(78) == 160);
    assert(nds_decay_steps_of(78) == 579);
    assert(decay_table_strict_upto(78));
    assert(decay_entry(79) == 163);
    assert(nds_decay_steps_of(79) == 568);
    assert(decay_table_strict_upto(79));
    assert(decay_entry(80) == 167);
    assert(nds_decay_steps_of(80) == 555);
    assert(decay_table_strict_upto(80));
    assert(decay_entry(81) == 171);
    assert(nds_decay_steps_of(81) == 542);
    assert(decay_table_strict_upto(81));
    assert(decay_entry(82) == 175);
    assert(nds_decay_steps_of(82) == 529);
    assert(decay_table_strict_upto(82));
    assert(decay_entry(83) == 179);
    assert(nds_decay_steps_of(83) == 518);
    assert(decay_table_strict_upto(83));
    assert(decay_entry(84) == 183);
    assert(nds_decay_steps_of(84) == 506);
    assert(decay_table_strict_upto(84));
    assert(decay_entry(85) == 187);
    assert(nds_decay_steps_of(85) == 495);
    assert(decay_table_strict_upto(85));
    assert(decay_entry(86) == 192);
    assert(nds_decay_steps_of(86) == 482);
    assert(decay_table_strict_upto(86));
    assert(decay_entry(87) == 197);
    assert(nds_decay_steps_of(87) == 470);
    assert(decay_table_strict_upto(87));
    assert(decay_entry(88) == 202);
    assert(nds_decay_steps_of(88) == 459);
    assert(decay_table_strict_upto(88));
    assert(decay_entry(89) == 208);
    assert(nds_decay_steps_of(89) == 445);
    assert(decay_table_strict_upto(89));
    assert(decay_entry(90) == 213);
    assert(nds_decay_steps_of(90) == 435);
    assert(decay_table_strict_upto(90));
    assert(decay_entry(91) == 219);
    assert(nds_decay_steps_of(91) == 423);
    assert(decay_table_strict_upto(91));
    assert(decay_entry(92) == 226);
    assert(nds_decay_steps_of(92) == 410);
    assert(decay_table_strict_upto(92));
    assert(decay_entry(93) == 233);
    assert(nds_decay_steps_of(93) == 398);
    assert(decay_table_strict_upto(93));
    assert(decay_entry(94) == 240);
    assert(nds_decay_steps_of(94) == 386);
    assert(decay_table_strict_upto(94));
    assert(decay_entry(95) == 248);
    assert(nds_decay_steps_of(95) == 374);
    assert(decay_table_strict_upto(95));
    assert(decay_entry(96) == 256);
    assert(nds_decay_steps_of(96) == 362);
    assert(decay_table_strict_upto(96));
    assert(decay_entry(97) == 265);
    assert(nds_decay_steps_of(97) == 350);
    assert(decay_table_strict_upto(97));
    assert(decay_entry(98) == 274);
    assert(nds_decay_steps_of(98) == 338);
    assert(decay_table_strict_upto(98));
    assert(decay_entry(99) == 284);
    assert(nds_decay_steps_of(99) == 326);
    assert(decay_table_strict_upto(99));
    assert(decay_entry(100) == 295);
    assert(nds_decay_steps_of(100) == 314);
    assert(decay_table_strict_upto(100));
    assert(decay_entry(101) == 307);
    assert(nds_decay_steps_of(101) == 302);
    assert(decay_table_strict_upto(101));
    assert(decay_entry(102) == 320);
    assert(nds_decay_steps_of(102) == 290);
    assert(decay_table_strict_upto(102));
    assert(decay_entry(103) == 334);
    assert(nds_decay_steps_of(103) == 278);
    assert(decay_table_strict_upto(103));
    assert(decay_entry(104) == 349);
    assert(nds_decay_steps_of(104) == 266);
    assert(decay_table_strict_upto(104));
    assert(decay_entry(105) == 366);
    assert(nds_decay_steps_of(105) == 253);
    assert(decay_table_strict_upto(105));
    assert(decay_entry(106) == 384);
    assert(nds_decay_steps_of(106) == 241);
    assert(decay_table_strict_upto(106));
    assert(decay_entry(107) == 404);
    assert(nds_decay_steps_of(107) == 230);
    assert(decay_table_strict_upto(107));
    assert(decay_entry(108) == 427);
    assert(nds_decay_steps_of(108) == 217);
    assert(decay_table_strict_upto(108));
    assert(decay_entry(109) == 452);
    assert(nds_decay_steps_of(109) == 205);
    assert(decay_table_strict_upto(109));
    assert(decay_entry(110) == 480);
    assert(nds_decay_steps_of(110) == 193);
    assert(decay_table_strict_upto(110));
    assert(decay_entry(111) == 512);
    assert(nds_decay_steps_of(111) == 181);
    assert(decay_table_strict_upto(111));
    assert(decay_entry(112) == 549);
    assert(nds_decay_steps_of(112) == 169);
    assert(decay_table_strict_upto(112));
    assert(decay_entry(113) == 591);
    assert(nds_decay_steps_of(113) == 157);
    assert(decay_table_strict_upto(113));
    assert(decay_entry(114) == 640);
    assert(nds_decay_steps_of(114) == 145);
    assert(decay_table_strict_upto(114));
    assert(decay_entry(115) == 698);
    assert(nds_decay_steps_of(115) == 133);
    assert(decay_table_strict_upto(115));
    assert(decay_entry(116) == 768);
    assert(nds_decay_steps_of(116) == 121);
    assert(decay_table_strict_upto(116));
    assert(decay_entry(117) == 853);
    assert(nds_decay_steps_of(117) == 109);
    assert(decay_table_strict_upto(117));
    assert(decay_entry(118) == 960);
    assert(nds_decay_steps_of(118) == 97);
    assert(decay_table_strict_upto(118));
    assert(decay_entry(119) == 1097);
    assert(nds_decay_steps_of(119) == 85);
    assert(decay_table_strict_upto(119));
    assert(decay_entry(120) == 1280);
    assert(nds_decay_steps_of(120) == 73);
    assert(decay_table_strict_upto(120));
    assert(decay_entry(121) == 1536);
    assert(nds_decay_steps_of(121) == 61);
    assert(decay_table_strict_upto(121));
    assert(decay_entry(122) == 1920);
    assert(nds_decay_steps_of(122) == 49);
    assert(decay_table_strict_upto(122));
    assert(decay_entry(123) == 2560);
    assert(nds_decay_steps_of(123) == 37);
    assert(decay_table_strict_upto(123));
    assert(decay_entry(124) == 3840);
    assert(nds_decay_steps_of(124) == 25);
    assert(decay_table_strict_upto(124));
    assert(decay_entry(125) == 7680);
    assert(nds_decay_steps_of(125) == 13);
    assert(decay_table_strict_upto(125));
    assert(decay_entry(126) == 15360);
    assert(nds_decay_steps_of(126) == 7);
    assert(decay_table_strict_upto(126));
    assert(decay_entry(127) == 65535);
    assert(nds_decay_steps_of(127) == 2);
    assert(decay_table_strict_upto(127));
}

proof fn lemma_decay_strict_from_upto(k: int, r: int)
    requires
        decay_table_strict_upto(k),
        1 <= r <= k,
    ensures
        decay_entry(r - 1) < decay_entry(r),
        nds_decay_steps_of(r) < nds_decay_steps_of(r - 1),
    decreases k,
{
    if r < k {
        lemma_decay_strict_from_upto(k - 1, r);
    }
}

/// The NDS decay (and release) time is strictly decreasing in the decay
/// decrement: a larger register holds a strictly larger table entry,
/// whose decay reaches the zero point in strictly fewer ticks.
pub proof fn lemma_nds_decay_strictly_decreasing(r1: int, r2: int)
    requires
        0 <= r1 < r2 < 128,
    ensures
        decay_entry(r1) < decay_entry(r2),
        nds_decay_steps_of(r2) < nds_decay_steps_of(r1),
    decreases r2 - r1,
{
    lemma_decay_table_strict_all();
    lemma_decay_strict_from_upto(127, r2);
    if r1 < r2 - 1 {
        lemma_nds_decay_strictly_decreasing(r1, r2 - 1);
    }
}


/// No hit below `r` pushes the search result to `r` or beyond.
proof fn lemma_first_register_at_least(
    lo: int,
    hi: int,
    dflt: int,
    hit: spec_fn(int) -> bool,
    r: int,
)
    requires
        lo <= r <= hi,
        hi <= dflt,
        forall|j: int| lo <= j < r ==> !(#[trigger] hit(j)),
    ensures
        first_register(lo, hi, dflt, hit) >= r,
    decreases r - lo,
{
    lemma_first_register_props(lo, hi, dflt, hit);
    if lo < r {
        lemma_first_register_at_least(lo + 1, hi, dflt, hit, r);
    }
}

/// A hit at `r` with no hit before it is the search result exactly.
proof fn lemma_first_register_exact(
    lo: int,
    hi: int,
    dflt: int,
    hit: spec_fn(int) -> bool,
    r: int,
)
    requires
        lo <= r < hi,
        hi <= dflt,
        hit(r),
        forall|j: int| lo <= j < r ==> !(#[trigger] hit(j)),
    ensures
        first_register(lo, hi, dflt, hit) == r,
    decreases r - lo,
{
    if lo < r {
        lemma_first_register_exact(lo + 1, hi, dflt, hit, r);
    }
}

/// Pairwise facts of the attack table up to register `r`: no entry is
/// larger than its predecessor.
spec fn attack_entry_mono_upto(r: int) -> bool
    decreases r,
{
    if r <= 0 {
        true
    } else {
        attack_entry(r) <= attack_entry(r - 1) && attack_entry_mono_upto(r - 1)
    }
}

#[verifier::rlimit(100)]
proof fn lemma_attack_entry_mono_all()
    ensures
        attack_entry_mono_upto(127),
{
    assert(attack_entry(0) == 255);
    assert(attack_entry_mono_upto(0));
    assert(attack_entry(1) == 254);
    assert(attack_entry_mono_upto(1));
    assert(attack_entry(2) == 253);
    assert(attack_entry_mono_upto(2));
    assert(attack_entry(3) == 252);
    assert(attack_entry_mono_upto(3));
    assert(attack_entry(4) == 251);
    assert(attack_entry_mono_upto(4));
    assert(attack_entry(5) == 250);
    assert(attack_entry_mono_upto(5));
    assert(attack_entry(6) == 249);
    assert(attack_entry_mono_upto(6));
    assert(attack_entry(7) == 248);
    assert(attack_entry_mono_upto(7));
    assert(attack_entry(8) == 247);
    assert(attack_entry_mono_upto(8));
    assert(attack_entry(9) == 246);
    assert(attack_entry_mono_upto(9));
    assert(attack_entry(10) == 245);
    assert(attack_entry_mono_upto(10));
    assert(attack_entry(11) == 244);
    assert(attack_entry_mono_upto(11));
    assert(attack_entry(12) == 243);
    assert(attack_entry_mono_upto(12));
    assert(attack_entry(13) == 242);
    assert(attack_entry_mono_upto(13));
    assert(attack_entry(14) == 241);
    assert(attack_entry_mono_upto(14));
    assert(attack_entry(15) == 240);
    assert(attack_entry_mono_upto(15));
    assert(attack_entry(16) == 239);
    assert(attack_entry_mono_upto(16));
    assert(attack_entry(17) == 238);
    assert(attack_entry_mono_upto(17));
    assert(attack_entry(18) == 237);
    assert(attack_entry_mono_upto(18));
    assert(attack_entry(19) == 236);
    assert(attack_entry_mono_upto(19));
    assert(attack_entry(20) == 235);
    assert(attack_entry_mono_upto(20));
    assert(attack_entry(21) == 234);
    assert(attack_entry_mono_upto(21));
    assert(attack_entry(22) == 233);
    assert(attack_entry_mono_upto(22));
    assert(attack_entry(23) == 232);
    assert(attack_entry_mono_upto(23));
    assert(attack_entry(24) == 231);
    assert(attack_entry_mono_upto(24));
    assert(attack_entry(25) == 230);
    assert(attack_entry_mono_upto(25));
    assert(attack_entry(26) == 229);
    assert(attack_entry_mono_upto(26));
    assert(attack_entry(27) == 228);
    assert(attack_entry_mono_upto(27));
    assert(attack_entry(28) == 227);
    assert(attack_entry_mono_upto(28));
    assert(attack_entry(29) == 226);
    assert(attack_entry_mono_upto(29));
    assert(attack_entry(30) == 225);
    assert(attack_entry_mono_upto(30));
    assert(attack_entry(31) == 224);
    assert(attack_entry_mono_upto(31));
    assert(attack_entry(32) == 223);
    assert(attack_entry_mono_upto(32));
    assert(attack_entry(33) == 222);
    assert(attack_entry_mono_upto(33));
    assert(attack_entry(34) == 221);
    assert(attack_entry_mono_upto(34));
    assert(attack_entry(35) == 220);
    assert(attack_entry_mono_upto(35));
    assert(attack_entry(36) == 219);
    assert(attack_entry_mono_upto(36));
    assert(attack_entry(37) == 218);
    assert(attack_entry_mono_upto(37));
    assert(attack_entry(38) == 217);
    assert(attack_entry_mono_upto(38));
    assert(attack_entry(39) == 216);
    assert(attack_entry_mono_upto(39));
    assert(attack_entry(40) == 215);
    assert(attack_entry_mono_upto(40));
    assert(attack_entry(41) == 214);
    assert(attack_entry_mono_upto(41));
    assert(attack_entry(42) == 213);
    assert(attack_entry_mono_upto(42));
    assert(attack_entry(43) == 212);
    assert(attack_entry_mono_upto(43));
    assert(attack_entry(44) == 211);
    assert(attack_entry_mono_upto(44));
    assert(attack_entry(45) == 210);
    assert(attack_entry_mono_upto(45));
    assert(attack_entry(46) == 209);
    assert(attack_entry_mono_upto(46));
    assert(attack_entry(47) == 208);
    assert(attack_entry_mono_upto(47));
    assert(attack_entry(48) == 207);
    assert(attack_entry_mono_upto(48));
    assert(attack_entry(49) == 206);
    assert(attack_entry_mono_upto(49));
    assert(attack_entry(50) == 205);
    assert(attack_entry_mono_upto(50));
    assert(attack_entry(51) == 204);
    assert(attack_entry_mono_upto(51));
    assert(attack_entry(52) == 203);
    assert(attack_entry_mono_upto(52));
    assert(attack_entry(53) == 202);
    assert(attack_entry_mono_upto(53));
    assert(attack_entry(54) == 201);
    assert(attack_entry_mono_upto(54));
    assert(attack_entry(55) == 200);
    assert(attack_entry_mono_upto(55));
    assert(attack_entry(56) == 199);
    assert(attack_entry_mono_upto(56));
    assert(attack_entry(57) == 198);
    assert(attack_entry_mono_upto(57));
    assert(attack_entry(58) == 197);
    assert(attack_entry_mono_upto(58));
    assert(attack_entry(59) == 196);
    assert(attack_entry_mono_upto(59));
    assert(attack_entry(60) == 195);
    assert(attack_entry_mono_upto(60));
    assert(attack_entry(61) == 194);
    assert(attack_entry_mono_upto(61));
    assert(attack_entry(62) == 193);
    assert(attack_entry_mono_upto(62));
    assert(attack_entry(63) == 192);
    assert(attack_entry_mono_upto(63));
    assert(attack_entry(64) == 191);
    assert(attack_entry_mono_upto(64));
    assert(attack_entry(65) == 190);
    assert(attack_entry_mono_upto(65));
    assert(attack_entry(66) == 189);
    assert(attack_entry_mono_upto(66));
    assert(attack_entry(67) == 188);
    assert(attack_entry_mono_upto(67));
    assert(attack_entry(68) == 187);
    assert(attack_entry_mono_upto(68));
    assert(attack_entry(69) == 186);
    assert(attack_entry_mono_upto(69));
    assert(attack_entry(70) == 185);
    assert(attack_entry_mono_upto(70));
    assert(attack_entry(71) == 184);
    assert(attack_entry_mono_upto(71));
    assert(attack_entry(72) == 183);
    assert(attack_entry_mono_upto(72));
    assert(attack_entry(73) == 182);
    assert(attack_entry_mono_upto(73));
    assert(attack_entry(74) == 181);
    assert(attack_entry_mono_upto(74));
    assert(attack_entry(75) == 180);
    assert(attack_entry_mono_upto(75));
    assert(attack_entry(76) == 179);
    assert(attack_entry_mono_upto(76));
    assert(attack_entry(77) == 178);
    assert(attack_entry_mono_upto(77));
    assert(attack_entry(78) == 177);
    assert(attack_entry_mono_upto(78));
    assert(attack_entry(79) == 176);
    assert(attack_entry_mono_upto(79));
    assert(attack_entry(80) == 175);
    assert(attack_entry_mono_upto(80));
    assert(attack_entry(81) == 174);
    assert(attack_entry_mono_upto(81));
    assert(attack_entry(82) == 173);
    assert(attack_entry_mono_upto(82));
    assert(attack_entry(83) == 172);
    assert(attack_entry_mono_upto(83));
    assert(attack_entry(84) == 171);
    assert(attack_entry_mono_upto(84));
    assert(attack_entry(85) == 170);
    assert(attack_entry_mono_upto(85));
    assert(attack_entry(86) == 169);
    assert(attack_entry_mono_upto(86));
    assert(attack_entry(87) == 168);
    assert(attack_entry_mono_upto(87));
    assert(attack_entry(88) == 167);
    assert(attack_entry_mono_upto(88));
    assert(attack_entry(89) == 166);
    assert(attack_entry_mono_upto(89));
    assert(attack_entry(90) == 165);
    assert(attack_entry_mono_upto(90));
    assert(attack_entry(91) == 164);
    assert(attack_entry_mono_upto(91));
    assert(attack_entry(92) == 163);
    assert(attack_entry_mono_upto(92));
    assert(attack_entry(93) == 162);
    assert(attack_entry_mono_upto(93));
    assert(attack_entry(94) == 161);
    assert(attack_entry_mono_upto(94));
    assert(attack_entry(95) == 160);
    assert(attack_entry_mono_upto(95));
    assert(attack_entry(96) == 159);
    assert(attack_entry_mono_upto(96));
    assert(attack_entry(97) == 158);
    assert(attack_entry_mono_upto(97));
    assert(attack_entry(98) == 157);
    assert(attack_entry_mono_upto(98));
    assert(attack_entry(99) == 156);
    assert(attack_entry_mono_upto(99));
    assert(attack_entry(100) == 155);
    assert(attack_entry_mono_upto(100));
    assert(attack_entry(101) == 154);
    assert(attack_entry_mono_upto(101));
    assert(attack_entry(102) == 153);
    assert(attack_entry_mono_upto(102));
    assert(attack_entry(103) == 152);
    assert(attack_entry_mono_upto(103));
    assert(attack_entry(104) == 151);
    assert(attack_entry_mono_upto(104));
    assert(attack_entry(105) == 150);
    assert(attack_entry_mono_upto(105));
    assert(attack_entry(106) == 149);
    assert(attack_entry_mono_upto(106));
    assert(attack_entry(107) == 148);
    assert(attack_entry_mono_upto(107));
    assert(attack_entry(108) == 147);
    assert(attack_entry_mono_upto(108));
    assert(attack_entry(109) == 143);
    assert(attack_entry_mono_upto(109));
    assert(attack_entry(110) == 137);
    assert(attack_entry_mono_upto(110));
    assert(attack_entry(111) == 132);
    assert(attack_entry_mono_upto(111));
    assert(attack_entry(112) == 127);
    assert(attack_entry_mono_upto(112));
    assert(attack_entry(113) == 123);
    assert(attack_entry_mono_upto(113));
    assert(attack_entry(114) == 116);
    assert(attack_entry_mono_upto(114));
    assert(attack_entry(115) == 109);
    assert(attack_entry_mono_upto(115));
    assert(attack_entry(116) == 100);
    assert(attack_entry_mono_upto(116));
    assert(attack_entry(117) == 92);
    assert(attack_entry_mono_upto(117));
    assert(attack_entry(118) == 84);
    assert(attack_entry_mono_upto(118));
    assert(attack_entry(119) == 73);
    assert(attack_entry_mono_upto(119));
    assert(attack_entry(120) == 63);
    assert(attack_entry_mono_upto(120));
    assert(attack_entry(121) == 51);
    assert(attack_entry_mono_upto(121));
    assert(attack_entry(122) == 38);
    assert(attack_entry_mono_upto(122));
    assert(attack_entry(123) == 26);
    assert(attack_entry_mono_upto(123));
    assert(attack_entry(124) == 14);
    assert(attack_entry_mono_upto(124));
    assert(attack_entry(125) == 5);
    assert(attack_entry_mono_upto(125));
    assert(attack_entry(126) == 1);
    assert(attack_entry_mono_upto(126));
    assert(attack_entry(127) == 0);
    assert(attack_entry_mono_upto(127));
}

proof fn lemma_attack_entry_mono_from_upto(k: int, r: int)
    requires
        attack_entry_mono_upto(k),
        1 <= r <= k,
    ensures
        attack_entry(r) <= attack_entry(r - 1),
    decreases k,
{
    if r < k {
        lemma_attack_entry_mono_from_upto(k - 1, r);
    }
}

/// The attack multiplier never grows along the table, so the attack time
/// never grows with the register.
pub proof fn lemma_nds_attack_steps_monotone(r1: int, r2: int)
    requires
        1 <= r1 <= r2 <= 127,
    ensures
        nds_attack_steps_of(r2) <= nds_attack_steps_of(r1),
    decreases r2 - r1,
{
    if r1 < r2 {
        lemma_attack_entry_mono_all();
        lemma_attack_entry_mono_from_upto(127, r2);
        crate::tables::lemma_attack_entry_bounds(r2 - 1);
        crate::tables::lemma_attack_entry_bounds(r2);
        crate::sim::lemma_nds_attack_count_m_monotone(
            attack_entry(r2) as int,
            attack_entry(r2 - 1) as int,
            crate::tables::ZERO_POINT_MAG as int,
        );
        lemma_nds_attack_steps_monotone(r1, r2 - 1);
    }
}

/// The attack round trip never undershoots: searching for a register's
/// own simulated attack time returns that register or a later one, since
/// every earlier register is at least as slow as the target.
pub proof fn lemma_nds_attack_round_trip(r: int)
    requires
        1 <= r <= 127,
    ensures
        first_register(1, 127, 127, nds_attack_hit(nds_attack_steps_of(r))) >= r,
{
    let b = nds_attack_steps_of(r);
    let hit = nds_attack_hit(b);
    assert forall|j: int| 1 <= j < r implies !(#[trigger] hit(j)) by {
        lemma_nds_attack_steps_monotone(j, r);
    }
    lemma_first_register_at_least(1, 127, 127, hit, r);
}

/// The GBA attack time never grows with the register, so that round
/// trip never undershoots either.
pub proof fn lemma_gba_attack_round_trip(r: int)
    requires
        1 <= r <= 255,
    ensures
        first_register(1, 255, 255, gba_attack_hit(gba_attack_count(r))) >= r,
{
    let b = gba_attack_count(r);
    let hit = gba_attack_hit(b);
    assert forall|j: int| 1 <= j < r implies !(#[trigger] hit(j)) by {
        vstd::arithmetic::div_mod::lemma_div_is_ordered_by_denominator(254, j, r);
    }
    lemma_first_register_at_least(1, 255, 255, hit, r);
}

/// The decay round trip is pinned exactly: searching for a register's
/// own simulated decay time returns the next register (the first one
/// strictly faster), or the boundary 127 when none is left.
pub proof fn lemma_nds_decay_round_trip(r: int)
    requires
        1 <= r <= 127,
    ensures
        first_register(1, 127, 127, nds_decay_hit(nds_decay_steps_of(r))) == (if r <= 125 {
            r + 1
        } else {
            127int
        }),
{
    let b = nds_decay_steps_of(r);
    let hit = nds_decay_hit(b);
    assert forall|j: int| 1 <= j < 127 && j <= r implies !(#[trigger] hit(j)) by {
        if j < r {
            lemma_nds_decay_strictly_decreasing(j, r);
        }
    }
    if r <= 125 {
        lemma_nds_decay_strictly_decreasing(r, r + 1);
        assert(hit(r + 1));
        lemma_first_register_exact(1, 127, 127, hit, r + 1);
    } else {
        lemma_first_register_at_least(1, 127, 127, hit, 127);
        lemma_first_register_props(1, 127, 127, hit);
    }
}

} // verus!



