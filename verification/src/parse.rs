//! Decimal parsing and formatting of register values, specified down to
//! the character: which strings count as whole-number register input (the
//! mode tracker's criterion) and what the canonical decimal rendering of
//! a register is.

use vstd::prelude::*;

verus! {

/// A decimal digit character.
pub open spec fn is_digit_char(c: char) -> bool {
    48 <= c as int <= 57
}

/// Numeric value of a digit character.
pub open spec fn digit_val(c: char) -> int {
    c as int - 48
}

/// Every character is a decimal digit (an empty sequence passes).
pub open spec fn all_digits(s: Seq<char>) -> bool {
    forall|i: int| 0 <= i < s.len() ==> is_digit_char(#[trigger] s[i])
}

/// Value of a digit sequence read in base 10, most significant first.
pub open spec fn dec_value(s: Seq<char>) -> int
    decreases s.len(),
{
    if s.len() == 0 {
        0
    } else {
        dec_value(s.drop_last()) * 10 + digit_val(s.last())
    }
}

/// The sign-less part: unsigned parsing accepts one optional leading '+'.
pub open spec fn strip_plus(s: Seq<char>) -> Seq<char> {
    if s.len() > 0 && s[0] == '+' {
        s.subrange(1, s.len() as int)
    } else {
        s
    }
}

/// Strings accepted by `str::parse::<u16>`: an optional '+', then one or
/// more digits, with a value that fits in 16 bits.
pub open spec fn is_u16_string(s: Seq<char>) -> bool {
    strip_plus(s).len() > 0 && all_digits(strip_plus(s)) && dec_value(strip_plus(s)) <= 65535
}

/// Numeric value of such a string.
pub open spec fn u16_string_value(s: Seq<char>) -> int {
    dec_value(strip_plus(s))
}

/// Strings accepted by `str::parse::<u8>`.
pub open spec fn is_u8_string(s: Seq<char>) -> bool {
    is_u16_string(s) && u16_string_value(s) <= 255
}

/// The digit character for a value in 0..=9.
pub open spec fn digit_char(d: int) -> char {
    (48 + d) as u8 as char
}

/// Canonical decimal rendering of a non-negative value: plain digits, no
/// sign, no leading zero.
pub open spec fn dec_string_of(n: int) -> Seq<char>
    decreases n,
{
    if n <= 9 {
        seq![digit_char(n)]
    } else {
        dec_string_of(n / 10).push(digit_char(n % 10))
    }
}

/// The value of an accepted register string lies in the 16-bit range.
pub proof fn lemma_u16_string_value_bounds(s: Seq<char>)
    requires
        is_u16_string(s),
    ensures
        0 <= u16_string_value(s) <= 65535,
{
    lemma_dec_value_nonneg(strip_plus(s));
}

proof fn lemma_dec_value_nonneg(s: Seq<char>)
    requires
        all_digits(s),
    ensures
        dec_value(s) >= 0,
    decreases s.len(),
{
    if s.len() > 0 {
        assert(all_digits(s.drop_last()));
        lemma_dec_value_nonneg(s.drop_last());
    }
}

/// Decimal parse of a string as a 16-bit register value, with the exact
/// acceptance condition of `str::parse::<u16>`.
pub fn parse_u16(s: &str) -> (r: Option<u16>)
    ensures
        r == (if is_u16_string(s@) {
            Some(u16_string_value(s@) as u16)
        } else {
            None::<u16>
        }),
{
    let len = s.unicode_len();
    if len == 0 {
        return None;
    }
    let first = s.get_char(0);
    let start: usize = if first == '+' {
        1
    } else {
        0
    };
    let ghost d = strip_plus(s@);
    proof {
        assert(d =~= s@.subrange(start as int, len as int));
    }
    if start == len {
        return None;
    }
    let mut acc: u32 = 0;
    let mut j: usize = start;
    while j < len
        invariant
            start <= j <= len,
            len == s@.len(),
            start == if s@.len() > 0 && s@[0] == '+' { 1int } else { 0int },
            d == strip_plus(s@),
            d =~= s@.subrange(start as int, len as int),
            all_digits(s@.subrange(start as int, j as int)),
            dec_value(s@.subrange(start as int, j as int)) <= 65535 ==> acc == dec_value(
                s@.subrange(start as int, j as int),
            ),
            dec_value(s@.subrange(start as int, j as int)) > 65535 ==> acc > 65535,
            acc <= 655359,
        decreases len - j,
    {
        let c = s.get_char(j);
        let code = c as u32;
        if code < 48 || code > 57 {
            proof {
                assert(d[j - start] == s@[j as int]);
                assert(!all_digits(d));
            }
            return None;
        }
        let digit: u32 = code - 48;
        proof {
            let pre = s@.subrange(start as int, j as int);
            let ext = s@.subrange(start as int, j as int + 1);
            assert(ext.drop_last() =~= pre);
            assert(ext.last() == s@[j as int]);
            lemma_dec_value_nonneg(pre);
        }
        if acc <= 65535 {
            acc = acc * 10 + digit;
        }
        j = j + 1;
    }
    if acc > 65535 {
        None
    } else {
        Some(acc as u16)
    }
}

/// Whether a field's text parses as a whole-number register value: the
/// criterion the mode tracker uses to tell registers from physical
/// targets.  Mirrors an unsigned 16-bit parse; anything else, including
/// real-number input, does not count as an integer here.
pub fn string_is_int(s: String) -> (r: bool)
    ensures
        r == is_u16_string(s@),
{
    parse_u16(s.as_str()).is_some()
}

fn digit_str(d: u8) -> (r: &'static str)
    requires
        d <= 9,
    ensures
        r@.len() == 1,
        r@[0] as int == 48 + d,
{
    let out: &'static str = match d {
        0 => "0",
        1 => "1",
        2 => "2",
        3 => "3",
        4 => "4",
        5 => "5",
        6 => "6",
        7 => "7",
        8 => "8",
        _ => "9",
    };
    proof {
        reveal_strlit("0");
        reveal_strlit("1");
        reveal_strlit("2");
        reveal_strlit("3");
        reveal_strlit("4");
        reveal_strlit("5");
        reveal_strlit("6");
        reveal_strlit("7");
        reveal_strlit("8");
        reveal_strlit("9");
    }
    out
}

/// Canonical decimal rendering of a register value: plain digits, no
/// sign, no leading zero.  Characterised by its digits and their value,
/// which determine the text uniquely.
pub fn u8_to_string(n: u8) -> (r: String)
    ensures
        r@ == dec_string_of(n as int),
        r@.len() > 0,
        all_digits(r@),
        dec_value(r@) == n as int,
        r@.len() > 1 ==> r@[0] as int != 48,
        is_u8_string(r@),
{
    let mut out = String::new();
    if n >= 100 {
        out.append(digit_str(n / 100));
    }
    if n >= 10 {
        out.append(digit_str((n / 10) % 10));
    }
    out.append(digit_str(n % 10));
    proof {
        reveal_with_fuel(dec_value, 4);
        reveal_with_fuel(dec_string_of, 4);
        let v = out@;
        if n < 10 {
            assert(v =~= dec_string_of(n as int));
        } else if n < 100 {
            assert((n / 10) as int == n as int / 10);
            assert((n % 10) as int == n as int % 10);
            assert(v =~= dec_string_of(n as int / 10).push(digit_char(n as int % 10)));
        } else {
            assert(n as int / 10 / 10 == n as int / 100) by {
                vstd::arithmetic::div_mod::lemma_div_denominator(n as int, 10, 10);
            }
            assert((n as int / 10) % 10 == (n / 10) % 10);
            assert(v =~= dec_string_of(n as int / 10).push(digit_char(n as int % 10)));
            assert(dec_string_of(n as int / 10) =~= dec_string_of(n as int / 100).push(
                digit_char((n as int / 10) % 10),
            ));
        }
        if n < 10 {
            assert(v.len() == 1);
            assert(v.drop_last() =~= Seq::<char>::empty());
            assert(dec_value(v) == digit_val(v.last()));
            assert(v.last() as int == 48 + n % 10);
        } else if n < 100 {
            assert(v.len() == 2);
            assert(v.drop_last() =~= v.subrange(0, 1));
            assert(v.drop_last().drop_last() =~= Seq::<char>::empty());
            assert(dec_value(v) == digit_val(v[0]) * 10 + digit_val(v[1]));
            assert(v[0] as int == 48 + (n / 10) % 10);
            assert(v[1] as int == 48 + n % 10);
            assert((n / 10) % 10 == n as int / 10);
            assert(n as int == (n as int / 10) * 10 + n as int % 10) by {
                vstd::arithmetic::div_mod::lemma_fundamental_div_mod(n as int, 10);
            }
        } else {
            assert(v.len() == 3);
            assert(v.drop_last() =~= v.subrange(0, 2));
            assert(v.drop_last().drop_last() =~= v.subrange(0, 1));
            assert(v.drop_last().drop_last().drop_last() =~= Seq::<char>::empty());
            assert(dec_value(v) == (digit_val(v[0]) * 10 + digit_val(v[1])) * 10 + digit_val(
                v[2],
            ));
            assert(v[0] as int == 48 + n / 100);
            assert(v[1] as int == 48 + (n / 10) % 10);
            assert(v[2] as int == 48 + n % 10);
            assert(n as int == (n as int / 10) * 10 + n as int % 10) by {
                vstd::arithmetic::div_mod::lemma_fundamental_div_mod(n as int, 10);
            }
            assert(n as int / 10 == (n as int / 100) * 10 + (n as int / 10) % 10) by {
                vstd::arithmetic::div_mod::lemma_fundamental_div_mod(n as int / 10, 10);
                vstd::arithmetic::div_mod::lemma_div_denominator(n as int, 10, 10);
            }
        }
        assert(strip_plus(out@) =~= out@);
    }
    out
}

} // verus!
