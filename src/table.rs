//! The table from dot/dash patterns to letters, and the decoder of a symbol
//! buffer.
//!
//! A pattern is keyed by its code: a leading 1 followed by one binary digit
//! per glyph, 0 for a dot and 1 for a dash. `*—` is `0b101`, `—**` is
//! `0b1100`.
use std::collections::HashMap;

use vstd::arithmetic::power2::{lemma2_to64, lemma_pow2_strictly_increases, lemma_pow2_unfold, pow2};
use vstd::prelude::*;

use crate::timing::{DASH, DOT, GAP};

verus! {

broadcast use vstd::std_specs::hash::group_hash_axioms;

/// The longest pattern whose code fits in a `u64`.
pub const MAX_CODE_LEN: usize = 63;

/// Whether `c` is a dot or a dash.
pub open spec fn is_glyph(c: char) -> bool {
    c == DOT || c == DASH
}

/// Whether `b` holds only glyphs and separators, as a symbol buffer does.
pub open spec fn is_symbols(b: Seq<char>) -> bool {
    forall|i: int| 0 <= i < b.len() ==> is_glyph(#[trigger] b[i]) || b[i] == GAP
}

/// The code of a pattern of glyphs.
pub open spec fn code_of(t: Seq<char>) -> nat
    decreases t.len(),
{
    if t.len() == 0 {
        1
    } else {
        2 * code_of(t.drop_last()) + if t.last() == DASH {
            1nat
        } else {
            0nat
        }
    }
}

/// The table, keyed by code. `*——` is listed for both В and Й: the later
/// entry stands, so that pattern reads as Й.
pub open spec fn morse_table() -> Map<u64, char> {
    Map::empty()
        .insert(0b101, 'А')      // *—
        .insert(0b11000, 'Б')    // —***
        .insert(0b1011, 'В')     // *——
        .insert(0b1110, 'Г')     // ——*
        .insert(0b1100, 'Д')     // —**
        .insert(0b10, 'Е')       // *
        .insert(0b10001, 'Ж')    // ***—
        .insert(0b11100, 'З')    // ——**
        .insert(0b100, 'И')      // **
        .insert(0b1011, 'Й')     // *——
        .insert(0b1101, 'К')     // —*—
        .insert(0b10100, 'Л')    // *—**
        .insert(0b111, 'М')      // ——
        .insert(0b110, 'Н')      // —*
        .insert(0b1111, 'О')     // ———
        .insert(0b10110, 'П')    // *——*
        .insert(0b1010, 'Р')     // *—*
        .insert(0b1000, 'С')     // ***
        .insert(0b11, 'Т')       // —
        .insert(0b1001, 'У')     // **—
        .insert(0b10010, 'Ф')    // **—*
        .insert(0b10000, 'Х')    // ****
        .insert(0b11010, 'Ц')    // —*—*
        .insert(0b11110, 'Ч')    // ———*
        .insert(0b11111, 'Ш')    // ————
        .insert(0b11101, 'Щ')    // ——*—
        .insert(0b1011010, 'Ъ')  // *——*—*
        .insert(0b11011, 'Ы')    // —*——
        .insert(0b11001, 'Ь')    // —**—
        .insert(0b100100, 'Э')   // **—**
        .insert(0b10011, 'Ю')    // **——
        .insert(0b10101, 'Я')    // *—*—
}

/// The letter that the pattern `t` stands for in `table`, or a space where
/// it stands for none.
pub open spec fn letter_of(table: Map<u64, char>, t: Seq<char>) -> char {
    if t.len() <= MAX_CODE_LEN && table.contains_key(code_of(t) as u64) {
        table[code_of(t) as u64]
    } else {
        ' '
    }
}

/// The pieces of `b` between separators, in order; `n` separators give
/// `n + 1` pieces, some of them possibly empty.
pub open spec fn tokens(b: Seq<char>) -> Seq<Seq<char>>
    decreases b.len(),
{
    if b.len() == 0 {
        seq![Seq::empty()]
    } else {
        let front = tokens(b.drop_last());
        if b.last() == GAP {
            front.push(Seq::empty())
        } else {
            front.update(front.len() - 1, front.last().push(b.last()))
        }
    }
}

/// The text that the buffer `b` decodes to: one character per token, and
/// nothing for an empty buffer.
pub open spec fn decoded(table: Map<u64, char>, b: Seq<char>) -> Seq<char> {
    if b.len() == 0 {
        Seq::empty()
    } else {
        tokens(b).map_values(|t: Seq<char>| letter_of(table, t))
    }
}

pub proof fn lemma_code_bound(t: Seq<char>)
    ensures
        code_of(t) < pow2((t.len() + 1) as nat),
    decreases t.len(),
{
    lemma2_to64();
    lemma_pow2_unfold((t.len() + 1) as nat);
    if t.len() > 0 {
        lemma_code_bound(t.drop_last());
        assert(code_of(t) <= 2 * code_of(t.drop_last()) + 1);
    }
}

/// A buffer without separators is one token.
pub proof fn lemma_single_token(t: Seq<char>)
    requires
        forall|i: int| 0 <= i < t.len() ==> #[trigger] t[i] != GAP,
    ensures
        tokens(t) == seq![t],
    decreases t.len(),
{
    if t.len() > 0 {
        lemma_single_token(t.drop_last());
        assert(t.drop_last().push(t.last()) =~= t);
        assert(tokens(t) =~= seq![t]);
    } else {
        assert(t =~= Seq::<char>::empty());
    }
}

/// A buffer that holds exactly the pattern of a letter of the table decodes
/// to that letter alone.
pub proof fn lemma_letter_round_trip(t: Seq<char>)
    requires
        t.len() > 0,
        t.len() <= MAX_CODE_LEN,
        forall|i: int| 0 <= i < t.len() ==> is_glyph(#[trigger] t[i]),
        morse_table().contains_key(code_of(t) as u64),
    ensures
        decoded(morse_table(), t) == seq![morse_table()[code_of(t) as u64]],
{
    assert forall|i: int| 0 <= i < t.len() implies #[trigger] t[i] != GAP by {
        assert(is_glyph(t[i]));
    }
    lemma_single_token(t);
    assert(decoded(morse_table(), t) =~= seq![morse_table()[code_of(t) as u64]]);
}

/// Builds the table.
pub fn build_table() -> (r: HashMap<u64, char>)
    ensures
        r@ == morse_table(),
{
    let mut m: HashMap<u64, char> = HashMap::new();
    m.insert(0b101, 'А');
    m.insert(0b11000, 'Б');
    m.insert(0b1011, 'В');
    m.insert(0b1110, 'Г');
    m.insert(0b1100, 'Д');
    m.insert(0b10, 'Е');
    m.insert(0b10001, 'Ж');
    m.insert(0b11100, 'З');
    m.insert(0b100, 'И');
    m.insert(0b1011, 'Й');
    m.insert(0b1101, 'К');
    m.insert(0b10100, 'Л');
    m.insert(0b111, 'М');
    m.insert(0b110, 'Н');
    m.insert(0b1111, 'О');
    m.insert(0b10110, 'П');
    m.insert(0b1010, 'Р');
    m.insert(0b1000, 'С');
    m.insert(0b11, 'Т');
    m.insert(0b1001, 'У');
    m.insert(0b10010, 'Ф');
    m.insert(0b10000, 'Х');
    m.insert(0b11010, 'Ц');
    m.insert(0b11110, 'Ч');
    m.insert(0b11111, 'Ш');
    m.insert(0b11101, 'Щ');
    m.insert(0b1011010, 'Ъ');
    m.insert(0b11011, 'Ы');
    m.insert(0b11001, 'Ь');
    m.insert(0b100100, 'Э');
    m.insert(0b10011, 'Ю');
    m.insert(0b10101, 'Я');
    m
}

/// The letter for the pattern `t`, given its length and, where it fits, its
/// code.
fn letter_at(table: &HashMap<u64, char>, code: u64, len: usize, Ghost(t): Ghost<Seq<char>>) -> (r:
    char)
    requires
        len == t.len(),
        len <= MAX_CODE_LEN ==> code == code_of(t),
    ensures
        r == letter_of(table@, t),
{
    if len <= MAX_CODE_LEN {
        match table.get(&code) {
            Some(c) => *c,
            None => ' ',
        }
    } else {
        ' '
    }
}

/// Decodes the buffer `b` through `table`: each token between separators
/// becomes its letter, or a space where the table has none for it.
pub fn decode_symbols(table: &HashMap<u64, char>, b: &Vec<char>) -> (r: Vec<char>)
    ensures
        r@ == decoded(table@, b@),
{
    let mut ret: Vec<char> = Vec::new();
    if b.len() == 0 {
        return ret;
    }
    let mut code: u64 = 1;
    let mut len: usize = 0;
    let mut i: usize = 0;
    proof {
        assert(b@.subrange(0, 0) =~= Seq::<char>::empty());
    }
    while i < b.len()
        invariant
            i <= b.len(),
            len <= i,
            tokens(b@.subrange(0, i as int)).len() == ret.len() + 1,
            forall|j: int|
                0 <= j < ret.len() ==> ret@[j] == letter_of(
                    table@,
                    #[trigger] tokens(b@.subrange(0, i as int))[j],
                ),
            len == tokens(b@.subrange(0, i as int)).last().len(),
            len <= MAX_CODE_LEN ==> code == code_of(tokens(b@.subrange(0, i as int)).last()),
        decreases b.len() - i,
    {
        let c = b[i];
        let ghost pre = b@.subrange(0, i as int);
        let ghost cur = tokens(pre).last();
        proof {
            assert(b@.subrange(0, i + 1).drop_last() =~= pre);
        }
        if c == GAP {
            let l = letter_at(table, code, len, Ghost(cur));
            ret.push(l);
            code = 1;
            len = 0;
        } else {
            if len < MAX_CODE_LEN {
                proof {
                    lemma_code_bound(cur);
                    lemma2_to64();
                    lemma_pow2_unfold(64);
                    if len + 1 < 63 {
                        lemma_pow2_strictly_increases((len + 1) as nat, 63);
                    }
                    assert(cur.push(c).drop_last() =~= cur);
                }
                code = 2 * code + if c == DASH {
                    1
                } else {
                    0
                };
            }
            len = len + 1;
        }
        i = i + 1;
    }
    proof {
        assert(b@.subrange(0, b.len() as int) =~= b@);
    }
    let ghost last = tokens(b@).last();
    let l = letter_at(table, code, len, Ghost(last));
    ret.push(l);
    assert(ret@ =~= decoded(table@, b@));
    ret
}

} // verus!
