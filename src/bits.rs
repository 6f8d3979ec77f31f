//! Instruction templates: 32-character patterns of `'0'`, `'1'` and
//! wildcards, written most significant bit first.
use vstd::prelude::*;
use vstd::string::*;

use crate::helpers::bit_of;

verus! {

/// A template character that fixes its bit.
pub open spec fn is_literal(c: char) -> bool {
    c == '0' || c == '1'
}

/// Bits below `n` of the mask of literal positions (character `31 - j` governs bit `j`).
pub open spec fn mask_below(t: Seq<char>, n: nat) -> u32
    decreases n,
{
    if n == 0 {
        0
    } else if is_literal(t[31 - (n - 1)]) {
        mask_below(t, (n - 1) as nat) | (1u32 << (n - 1) as u32)
    } else {
        mask_below(t, (n - 1) as nat)
    }
}

/// Bits below `n` of the literal values (character `31 - j` governs bit `j`).
pub open spec fn value_below(t: Seq<char>, n: nat) -> u32
    decreases n,
{
    if n == 0 {
        0
    } else if t[31 - (n - 1)] == '1' {
        value_below(t, (n - 1) as nat) | (1u32 << (n - 1) as u32)
    } else {
        value_below(t, (n - 1) as nat)
    }
}

/// A 1 at every bit that the template fixes.
pub open spec fn literal_mask(t: Seq<char>) -> u32 {
    mask_below(t, 32)
}

/// The bits that the template fixes, at their positions.
pub open spec fn literal_value(t: Seq<char>) -> u32 {
    value_below(t, 32)
}

/// How a word is tested against a template.
pub open spec fn template_matches(inst: u32, t: Seq<char>) -> bool {
    inst & literal_mask(t) == literal_value(t)
}

/// Every literal position of the template agrees with the word.
pub open spec fn literals_agree(inst: u32, t: Seq<char>) -> bool {
    forall|j: u32|
        j < 32 && is_literal(#[trigger] t[31 - j]) ==> bit_of(inst, j) == (t[31 - j] == '1')
}

/// Tests `inst` against a 32-character template.
pub fn match_mask(inst: u32, template: &str) -> (r: bool)
    requires
        template@.len() == 32,
    ensures
        r == template_matches(inst, template@),
{
    let mut ones: u32 = 0;
    let mut zeros: u32 = 0;
    let mut idx: usize = 0;
    while idx < 32
        invariant
            idx <= 32,
            template@.len() == 32,
            zeros == mask_below(template@, idx as nat),
            ones == value_below(template@, idx as nat),
        decreases 32 - idx,
    {
        let bit = template.get_char(31 - idx);
        if bit == '1' {
            ones = ones | (1u32 << idx as u32);
            zeros = zeros | (1u32 << idx as u32);
        } else if bit == '0' {
            zeros = zeros | (1u32 << idx as u32);
        }
        idx = idx + 1;
    }
    inst & zeros == ones
}

proof fn lemma_bit_or_shift(x: u32, n: u32, j: u32)
    by (bit_vector)
    requires
        n < 32,
        j < 32,
    ensures
        bit_of(x | (1u32 << n), j) == (bit_of(x, j) || j == n),
        !bit_of(0u32, j),
{
}

proof fn lemma_bit_and(a: u32, b: u32, j: u32)
    by (bit_vector)
    requires
        j < 32,
    ensures
        bit_of(a & b, j) == (bit_of(a, j) && bit_of(b, j)),
{
}

proof fn lemma_bits_determine_word(a: u32, b: u32)
    by (bit_vector)
    requires
        bit_of(a, 0) == bit_of(b, 0) && bit_of(a, 1) == bit_of(b, 1) && bit_of(a, 2) == bit_of(b, 2) && bit_of(a, 3) == bit_of(b, 3) && bit_of(a, 4) == bit_of(b, 4) && bit_of(a, 5) == bit_of(b, 5) && bit_of(a, 6) == bit_of(b, 6) && bit_of(a, 7) == bit_of(b, 7) && bit_of(a, 8) == bit_of(b, 8) && bit_of(a, 9) == bit_of(b, 9) && bit_of(a, 10) == bit_of(b, 10) && bit_of(a, 11) == bit_of(b, 11) && bit_of(a, 12) == bit_of(b, 12) && bit_of(a, 13) == bit_of(b, 13) && bit_of(a, 14) == bit_of(b, 14) && bit_of(a, 15) == bit_of(b, 15) && bit_of(a, 16) == bit_of(b, 16) && bit_of(a, 17) == bit_of(b, 17) && bit_of(a, 18) == bit_of(b, 18) && bit_of(a, 19) == bit_of(b, 19) && bit_of(a, 20) == bit_of(b, 20) && bit_of(a, 21) == bit_of(b, 21) && bit_of(a, 22) == bit_of(b, 22) && bit_of(a, 23) == bit_of(b, 23) && bit_of(a, 24) == bit_of(b, 24) && bit_of(a, 25) == bit_of(b, 25) && bit_of(a, 26) == bit_of(b, 26) && bit_of(a, 27) == bit_of(b, 27) && bit_of(a, 28) == bit_of(b, 28) && bit_of(a, 29) == bit_of(b, 29) && bit_of(a, 30) == bit_of(b, 30) && bit_of(a, 31) == bit_of(b, 31),
    ensures
        a == b,
{
}

proof fn lemma_words_equal_by_bits(a: u32, b: u32)
    requires
        forall|j: u32| j < 32 ==> bit_of(a, j) == bit_of(b, j),
    ensures
        a == b,
{
    assert(bit_of(a, 0) == bit_of(b, 0));
    assert(bit_of(a, 1) == bit_of(b, 1));
    assert(bit_of(a, 2) == bit_of(b, 2));
    assert(bit_of(a, 3) == bit_of(b, 3));
    assert(bit_of(a, 4) == bit_of(b, 4));
    assert(bit_of(a, 5) == bit_of(b, 5));
    assert(bit_of(a, 6) == bit_of(b, 6));
    assert(bit_of(a, 7) == bit_of(b, 7));
    assert(bit_of(a, 8) == bit_of(b, 8));
    assert(bit_of(a, 9) == bit_of(b, 9));
    assert(bit_of(a, 10) == bit_of(b, 10));
    assert(bit_of(a, 11) == bit_of(b, 11));
    assert(bit_of(a, 12) == bit_of(b, 12));
    assert(bit_of(a, 13) == bit_of(b, 13));
    assert(bit_of(a, 14) == bit_of(b, 14));
    assert(bit_of(a, 15) == bit_of(b, 15));
    assert(bit_of(a, 16) == bit_of(b, 16));
    assert(bit_of(a, 17) == bit_of(b, 17));
    assert(bit_of(a, 18) == bit_of(b, 18));
    assert(bit_of(a, 19) == bit_of(b, 19));
    assert(bit_of(a, 20) == bit_of(b, 20));
    assert(bit_of(a, 21) == bit_of(b, 21));
    assert(bit_of(a, 22) == bit_of(b, 22));
    assert(bit_of(a, 23) == bit_of(b, 23));
    assert(bit_of(a, 24) == bit_of(b, 24));
    assert(bit_of(a, 25) == bit_of(b, 25));
    assert(bit_of(a, 26) == bit_of(b, 26));
    assert(bit_of(a, 27) == bit_of(b, 27));
    assert(bit_of(a, 28) == bit_of(b, 28));
    assert(bit_of(a, 29) == bit_of(b, 29));
    assert(bit_of(a, 30) == bit_of(b, 30));
    assert(bit_of(a, 31) == bit_of(b, 31));
    lemma_bits_determine_word(a, b);
}

proof fn lemma_below_bits(t: Seq<char>, n: nat, j: u32)
    requires
        t.len() == 32,
        n <= 32,
        j < 32,
    ensures
        bit_of(mask_below(t, n), j) == (j < n && is_literal(t[31 - j])),
        bit_of(value_below(t, n), j) == (j < n && t[31 - j] == '1'),
    decreases n,
{
    if n == 0 {
        lemma_bit_or_shift(0, 0, j);
    } else {
        lemma_below_bits(t, (n - 1) as nat, j);
        lemma_bit_or_shift(mask_below(t, (n - 1) as nat), (n - 1) as u32, j);
        lemma_bit_or_shift(value_below(t, (n - 1) as nat), (n - 1) as u32, j);
    }
}

/// A word matches a template exactly when it agrees with every literal
/// position of the template.
pub proof fn lemma_template_meaning(inst: u32, t: Seq<char>)
    requires
        t.len() == 32,
    ensures
        template_matches(inst, t) == literals_agree(inst, t),
{
    assert forall|j: u32| j < 32 implies bit_of(inst & literal_mask(t), j) == (is_literal(t[31 - j])
        && bit_of(inst, j)) && bit_of(literal_value(t), j) == (t[31 - j] == '1') by {
        lemma_below_bits(t, 32, j);
        lemma_bit_and(inst, literal_mask(t), j);
    }
    if literals_agree(inst, t) {
        assert forall|j: u32| j < 32 implies bit_of(inst & literal_mask(t), j) == bit_of(
            literal_value(t),
            j,
        ) by {
            lemma_below_bits(t, 32, j);
            lemma_bit_and(inst, literal_mask(t), j);
            if is_literal(t[31 - j]) {
                assert(bit_of(inst, j) == (t[31 - j] == '1'));
            }
        }
        lemma_words_equal_by_bits(inst & literal_mask(t), literal_value(t));
    }
    if template_matches(inst, t) {
        assert forall|j: u32| j < 32 && is_literal(#[trigger] t[31 - j]) implies bit_of(inst, j) == (
        t[31 - j] == '1') by {
        }
    }
}

/// A template made only of wildcards matches every word.
pub proof fn lemma_wildcards_match_all(inst: u32, t: Seq<char>)
    requires
        t.len() == 32,
        forall|i: int| 0 <= i < 32 ==> !is_literal(#[trigger] t[i]),
    ensures
        template_matches(inst, t),
{
    lemma_template_meaning(inst, t);
    assert forall|j: u32| j < 32 && is_literal(#[trigger] t[31 - j]) implies bit_of(inst, j) == (t[31
        - j] == '1') by {
        assert(!is_literal(t[31 - j as int]));
    }
}

/// Bits at wildcard positions do not change whether a word matches.
pub proof fn lemma_wildcard_bits_ignored(a: u32, b: u32, t: Seq<char>)
    requires
        t.len() == 32,
        forall|j: u32| j < 32 && is_literal(#[trigger] t[31 - j]) ==> bit_of(a, j) == bit_of(b, j),
    ensures
        template_matches(a, t) == template_matches(b, t),
{
    lemma_template_meaning(a, t);
    lemma_template_meaning(b, t);
    if literals_agree(a, t) {
        assert forall|j: u32| j < 32 && is_literal(#[trigger] t[31 - j]) implies bit_of(b, j) == (t[31
            - j] == '1') by {
            assert(bit_of(a, j) == bit_of(b, j));
        }
    }
    if literals_agree(b, t) {
        assert forall|j: u32| j < 32 && is_literal(#[trigger] t[31 - j]) implies bit_of(a, j) == (t[31
            - j] == '1') by {
            assert(bit_of(a, j) == bit_of(b, j));
        }
    }
}

/// Template `t` fixes the seven opcode bits to those of `op`.
pub open spec fn fixes_opcode(t: Seq<char>, op: u32) -> bool {
    &&& t.len() == 32
    &&& forall|j: u32|
        j < 7 ==> is_literal(#[trigger] t[31 - j]) && (t[31 - j] == '1') == bit_of(op, j)
}

/// Template `t` leaves every bit above the opcode free.
pub open spec fn only_opcode(t: Seq<char>) -> bool {
    forall|i: int| 0 <= i < 25 ==> !is_literal(#[trigger] t[i])
}

proof fn lemma_opcode_bits(w: u32, op: u32)
    by (bit_vector)
    requires
        bit_of(w, 0) == bit_of(op, 0) && bit_of(w, 1) == bit_of(op, 1) && bit_of(w, 2) == bit_of(op, 2) && bit_of(w, 3) == bit_of(op, 3) && bit_of(w, 4) == bit_of(op, 4) && bit_of(w, 5) == bit_of(op, 5) && bit_of(w, 6) == bit_of(op, 6),
    ensures
        w & 0x7f == op & 0x7f,
{
}

proof fn lemma_opcode_bit(w: u32, op: u32, j: u32)
    by (bit_vector)
    requires
        w & 0x7f == op,
        j < 7,
    ensures
        bit_of(w, j) == bit_of(op, j),
{
}

/// A template that fixes an opcode matches only words with that opcode,
/// and, if it fixes nothing else, matches every such word.
pub proof fn lemma_opcode_decides(w: u32, t: Seq<char>, op: u32)
    requires
        fixes_opcode(t, op),
        op < 128,
    ensures
        template_matches(w, t) ==> w & 0x7f == op,
        only_opcode(t) && w & 0x7f == op ==> template_matches(w, t),
{
    lemma_template_meaning(w, t);
    assert(op & 0x7f == op) by (bit_vector)
        requires
            op < 128,
    ;
    if template_matches(w, t) {
        assert forall|j: u32| j < 7 implies bit_of(w, j) == bit_of(op, j) by {
            assert(is_literal(t[31 - j]));
        }
        assert(bit_of(w, 0) == bit_of(op, 0)); assert(bit_of(w, 1) == bit_of(op, 1)); assert(bit_of(w, 2) == bit_of(op, 2)); assert(bit_of(w, 3) == bit_of(op, 3)); assert(bit_of(w, 4) == bit_of(op, 4)); assert(bit_of(w, 5) == bit_of(op, 5)); assert(bit_of(w, 6) == bit_of(op, 6));
        lemma_opcode_bits(w, op);
    }
    if only_opcode(t) && w & 0x7f == op {
        assert forall|j: u32| j < 32 && is_literal(#[trigger] t[31 - j]) implies bit_of(w, j) == (t[31
            - j] == '1') by {
            if j >= 7 {
                assert(!is_literal(t[31 - j]));
            } else {
                lemma_opcode_bit(w, op, j);
            }
        }
    }
}

} // verus!
