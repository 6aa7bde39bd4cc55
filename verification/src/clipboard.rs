//! Clipboard interchange: the text format shared with soundfont editors.
//!
//! Importing strips commas, splits the text on ASCII whitespace, and
//! pushes each token through the ordinary field-edit path starting at a
//! caller-chosen phase slot, so imports obey the same mode-tracking rules
//! as typing.  A `!` token is the editor's hold marker and stands for
//! register 0.  Exporting renders the four registers tab-separated; the
//! forward export (real-valued seconds and decibels) is the caller's
//! concern, as it needs decimal formatting of reals.

use vstd::prelude::*;
use crate::parse::{dec_string_of, is_u8_string, parse_u16, u16_string_value, u8_to_string};
use crate::state::{field_applied, Converter, ConverterModel, Phase};

verus! {

/// ASCII whitespace, the token separator.
pub open spec fn is_ascii_ws(c: char) -> bool {
    c as int == 32 || c as int == 9 || c as int == 10 || c as int == 13 || c as int == 12
}

/// The text with every comma removed, so that thousands separators do
/// not split a number.
pub open spec fn strip_commas(s: Seq<char>) -> Seq<char>
    decreases s.len(),
{
    if s.len() == 0 {
        Seq::empty()
    } else {
        let p = strip_commas(s.drop_last());
        if s.last() == ',' {
            p
        } else {
            p.push(s.last())
        }
    }
}

/// End of the token starting at `i`: the first whitespace index at or
/// after `i`, or the end of the text.
pub open spec fn token_end(s: Seq<char>, i: int) -> int
    decreases s.len() - i,
{
    if i < 0 || i >= s.len() {
        s.len() as int
    } else if is_ascii_ws(s[i]) {
        i
    } else {
        token_end(s, i + 1)
    }
}

proof fn lemma_token_end_eq(s: Seq<char>, i: int, j: int)
    requires
        0 <= i <= j <= s.len(),
        forall|k: int| i <= k < j ==> !is_ascii_ws(#[trigger] s[k]),
        j == s.len() || is_ascii_ws(s[j]),
    ensures
        token_end(s, i) == j,
    decreases j - i,
{
    if i < j {
        lemma_token_end_eq(s, i + 1, j);
    }
}

/// The whitespace-separated tokens of the text from index `i` on.
pub open spec fn tokens_from(s: Seq<char>, i: int) -> Seq<Seq<char>>
    decreases s.len() - i
        when 0 <= i
        via tokens_from_decreases
{
    if i >= s.len() {
        Seq::empty()
    } else if is_ascii_ws(s[i]) {
        tokens_from(s, i + 1)
    } else {
        seq![s.subrange(i, token_end(s, i))] + tokens_from(s, token_end(s, i))
    }
}

proof fn lemma_token_end_bounds(s: Seq<char>, i: int)
    requires
        0 <= i <= s.len(),
    ensures
        i <= token_end(s, i) <= s.len(),
    decreases s.len() - i,
{
    if i < s.len() && !is_ascii_ws(s[i]) {
        lemma_token_end_bounds(s, i + 1);
    }
}

#[via_fn]
proof fn tokens_from_decreases(s: Seq<char>, i: int) {
    if i < s.len() && !is_ascii_ws(s[i]) {
        lemma_token_end_bounds(s, i + 1);
    }
}

/// All tokens of a clipboard text.
pub open spec fn clipboard_tokens(s: Seq<char>) -> Seq<Seq<char>> {
    tokens_from(strip_commas(s), 0)
}

fn is_ws_char(c: char) -> (r: bool)
    ensures
        r == is_ascii_ws(c),
{
    c == ' ' || c == '\t' || c == '\n' || c == '\r' || c == '\x0c'
}

fn is_ws_at(s: &str, j: usize) -> (r: bool)
    requires
        j < s@.len(),
    ensures
        r == is_ascii_ws(s@[j as int]),
{
    is_ws_char(s.get_char(j))
}

fn strip_commas_exec(content: &str) -> (r: String)
    ensures
        r@ == strip_commas(content@),
{
    let n = content.unicode_len();
    let mut out = String::new();
    let mut i: usize = 0;
    while i < n
        invariant
            i <= n,
            n == content@.len(),
            out@ == strip_commas(content@.subrange(0, i as int)),
        decreases n - i,
    {
        let c = content.get_char(i);
        let ghost pre = out@;
        if c != ',' {
            out.append(content.substring_char(i, i + 1));
        }
        proof {
            let ext = content@.subrange(0, i as int + 1);
            assert(ext.drop_last() =~= content@.subrange(0, i as int));
            assert(ext.last() == content@[i as int]);
            if c != ',' {
                assert(out@ =~= pre.push(content@[i as int]));
            }
        }
        i = i + 1;
    }
    proof {
        assert(content@.subrange(0, n as int) =~= content@);
    }
    out
}

fn tokenize(content: &str) -> (toks: Vec<String>)
    ensures
        toks@.len() == clipboard_tokens(content@).len(),
        forall|k: int|
            0 <= k < toks@.len() ==> #[trigger] toks@[k]@ == clipboard_tokens(content@)[k],
{
    let ghost all = clipboard_tokens(content@);
    let stripped = strip_commas_exec(content);
    let s = stripped.as_str();
    let n = s.unicode_len();
    let mut toks: Vec<String> = Vec::new();
    let mut i: usize = 0;
    while i < n
        invariant
            i <= n,
            n == s@.len(),
            s@ == strip_commas(content@),
            all == clipboard_tokens(content@),
            toks@.len() <= all.len(),
            forall|k: int| 0 <= k < toks@.len() ==> #[trigger] toks@[k]@ == all[k],
            all.skip(toks@.len() as int) == tokens_from(s@, i as int),
        decreases n - i,
    {
        let c = s.get_char(i);
        if is_ws_char(c) {
            i = i + 1;
        } else {
            let mut j: usize = i + 1;
            while j < n && !is_ws_at(s, j)
                invariant
                    i < j <= n,
                    n == s@.len(),
                    forall|k: int| i < k < j ==> !is_ascii_ws(#[trigger] s@[k]),
                decreases n - j,
            {
                j = j + 1;
            }
            proof {
                lemma_token_end_eq(s@, i as int, j as int);
            }
            let tok = String::from_str(s.substring_char(i, j));
            let ghost cnt = toks@.len() as int;
            toks.push(tok);
            proof {
                let rest = tokens_from(s@, j as int);
                assert(all.skip(cnt) == seq![s@.subrange(i as int, j as int)] + rest);
                assert(all[cnt] == (seq![s@.subrange(i as int, j as int)] + rest)[0]);
                assert(all.skip(cnt + 1) =~= (seq![s@.subrange(i as int, j as int)] + rest).skip(
                    1,
                ));
                assert((seq![s@.subrange(i as int, j as int)] + rest).skip(1) =~= rest);
                assert(all.skip(cnt).len() == all.len() - cnt);
            }
            i = j;
        }
    }
    proof {
        assert(all.skip(toks@.len() as int) =~= Seq::<Seq<char>>::empty());
        assert(all.skip(toks@.len() as int).len() == all.len() - toks@.len());
    }
    toks
}

/// The text a token stands for when it reaches a field: the hold marker
/// stands for register 0, a register token for its canonical decimal
/// text, and anything else for itself.
pub open spec fn token_text(tok: Seq<char>) -> Seq<char> {
    if tok == seq!['!'] {
        seq!['0']
    } else if is_u8_string(tok) {
        dec_string_of(u16_string_value(tok))
    } else {
        tok
    }
}

/// The phase filled by a slot of the import stream.
pub open spec fn phase_of_slot(k: int) -> Phase {
    if k == 0 {
        Phase::Attack
    } else if k == 1 {
        Phase::Decay
    } else if k == 2 {
        Phase::Sustain
    } else {
        Phase::Release
    }
}

/// Session state after the tokens from `t` on have been dispatched to
/// the slots from `count` on; dispatching stops at the first slot
/// outside 0..=3.
pub open spec fn import_applied(
    m: ConverterModel,
    toks: Seq<Seq<char>>,
    t: int,
    count: int,
) -> ConverterModel
    decreases toks.len() - t,
{
    if t < 0 || t >= toks.len() {
        m
    } else if count < 0 || count > 3 {
        m
    } else {
        import_applied(
            field_applied(m, phase_of_slot(count), token_text(toks[t])),
            toks,
            t + 1,
            count + 1,
        )
    }
}

impl Converter {
    /// Dispatch clipboard text to the fields, starting at the given slot
    /// (0 = attack, 1 = decay, 2 = sustain, 3 = release).
    pub fn import_clipboard(&mut self, content: &str, place: i32)
        ensures
            final(self)@ == import_applied(
                old(self)@,
                clipboard_tokens(content@),
                0,
                place as int,
            ),
    {
        let ghost all = clipboard_tokens(content@);
        let toks = tokenize(content);
        let mut count: i32 = place;
        let mut t: usize = 0;
        while t < toks.len() && count >= 0 && count <= 3
            invariant
                t <= toks@.len(),
                toks@.len() == all.len(),
                forall|k: int| 0 <= k < toks@.len() ==> #[trigger] toks@[k]@ == all[k],
                import_applied(old(self)@, all, 0, place as int) == import_applied(
                    self@,
                    all,
                    t as int,
                    count as int,
                ),
            decreases toks@.len() - t,
        {
            let tok: &String = &toks[t];
            proof {
                assert(tok@ == all[t as int]);
                assert(seq!['!'].len() == 1 && seq!['!'][0] == '!');
            }
            let is_hold = tok.as_str().unicode_len() == 1 && tok.as_str().get_char(0) == '!';
            let num: String;
            if is_hold {
                num = String::from_str("0");
                proof {
                    reveal_strlit("0");
                    assert(tok@ =~= seq!['!']);
                    assert(num@ =~= seq!['0']);
                    assert(num@ == token_text(all[t as int]));
                }
            } else {
                proof {
                    assert(tok@ != seq!['!']);
                }
                match parse_u16(tok.as_str()) {
                    Some(v) => {
                        if v <= 255 {
                            proof {
                                crate::parse::lemma_u16_string_value_bounds(tok@);
                            }
                            num = u8_to_string(v as u8);
                            proof {
                                assert(is_u8_string(tok@));
                                assert(num@ == dec_string_of(u16_string_value(tok@)));
                                assert(num@ == token_text(all[t as int]));
                            }
                        } else {
                            num = tok.clone();
                            proof {
                                crate::parse::lemma_u16_string_value_bounds(tok@);
                                assert(!is_u8_string(tok@));
                                assert(num@ == token_text(all[t as int]));
                            }
                        }
                    },
                    None => {
                        num = tok.clone();
                        proof {
                            assert(!is_u8_string(tok@));
                            assert(num@ == token_text(all[t as int]));
                        }
                    },
                }
            }
            proof {
                assert(num@ == token_text(all[t as int]));
            }
            if count == 0 {
                self.apply_field(Phase::Attack, num);
            } else if count == 1 {
                self.apply_field(Phase::Decay, num);
            } else if count == 2 {
                self.apply_field(Phase::Sustain, num);
            } else {
                self.apply_field(Phase::Release, num);
            }
            count = count + 1;
            t = t + 1;
        }
        proof {
            assert(import_applied(self@, all, t as int, count as int) == self@);
        }
    }
}

/// The tab-separated register export: the clipboard text of an inverse
/// conversion's result.
pub fn export_registers(attack: u8, decay: u8, sustain: u8, release: u8) -> (r: String)
    ensures
        r@ == dec_string_of(attack as int) + seq!['\t'] + dec_string_of(decay as int) + seq![
            '\t',
        ] + dec_string_of(sustain as int) + seq!['\t'] + dec_string_of(release as int),
{
    let mut out = u8_to_string(attack);
    let d = u8_to_string(decay);
    let s = u8_to_string(sustain);
    let rl = u8_to_string(release);
    out.append("\t");
    out.append(d.as_str());
    out.append("\t");
    out.append(s.as_str());
    out.append("\t");
    out.append(rl.as_str());
    proof {
        reveal_strlit("\t");
        assert("\t"@ =~= seq!['\t']);
    }
    out
}

} // verus!
