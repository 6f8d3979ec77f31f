//! Decoding: the enabled extensions are searched in their configured order,
//! each extension's variants in declaration order, and the first variant
//! whose template matches is executed.
use vstd::prelude::*;

use crate::cpu::CPUState;
use crate::err::VmError;
use crate::ext::a::ExtensionA;
use crate::ext::encoding::{GenInstruction, Instruction, InstructionSet};
use crate::bits::{fixes_opcode, is_literal, lemma_opcode_decides, only_opcode};
use crate::ext::i::{ExtensionI, AUIPC, BRANCH, JAL, JALR, LUI};
use crate::helpers::bit_of;
use crate::ext::m::ExtensionM;
use crate::ext::z::ExtensionZ;
use crate::system::rv32;

verus! {

/// A variant found by the search, tagged with its extension.
#[derive(Clone, Copy, Debug, PartialEq, Eq, Structural)]
pub enum Found {
    I(ExtensionI),
    M(ExtensionM),
    A(ExtensionA),
    Z(ExtensionZ),
}

impl Found {
    pub open spec fn effect(&self, inst: u32, s: CPUState, t: CPUState, r: Result<(), VmError>) -> bool {
        match self {
            Found::I(v) => v.effect(inst, s, t, r),
            Found::M(v) => v.effect(inst, s, t, r),
            Found::A(v) => v.effect(inst, s, t, r),
            Found::Z(v) => v.effect(inst, s, t, r),
        }
    }

    pub open spec fn matches(&self, inst: u32) -> bool {
        match self {
            Found::I(v) => v.matches(inst),
            Found::M(v) => v.matches(inst),
            Found::A(v) => v.matches(inst),
            Found::Z(v) => v.matches(inst),
        }
    }

    /// Executes `inst` as this variant.
    pub fn step(&self, inst: GenInstruction, state: &mut CPUState) -> (r: Result<(), VmError>)
        ensures
            self.effect(inst.inst, *old(state), *final(state), r),
    {
        match self {
            Found::I(v) => v.step(inst, state),
            Found::M(v) => v.step(inst, state),
            Found::A(v) => v.step(inst, state),
            Found::Z(v) => v.step(inst, state),
        }
    }
}

/// The first of `vs` whose template matches `inst`.
pub open spec fn first_match<T: Instruction>(vs: Seq<T>, inst: u32) -> Option<T>
    decreases vs.len(),
{
    if vs.len() == 0 {
        None
    } else if vs[0].matches(inst) {
        Some(vs[0])
    } else {
        first_match(vs.drop_first(), inst)
    }
}

/// The first variant of the extension named `c` that matches `inst`;
/// `None` also for a name that is no extension.
pub open spec fn search_extension(c: char, inst: u32) -> Option<Found> {
    if c == 'i' {
        match first_match(ExtensionI::variants(), inst) {
            Some(v) => Some(Found::I(v)),
            None => None,
        }
    } else if c == 'm' {
        match first_match(ExtensionM::variants(), inst) {
            Some(v) => Some(Found::M(v)),
            None => None,
        }
    } else if c == 'a' {
        match first_match(ExtensionA::variants(), inst) {
            Some(v) => Some(Found::A(v)),
            None => None,
        }
    } else if c == 'z' {
        match first_match(ExtensionZ::variants(), inst) {
            Some(v) => Some(Found::Z(v)),
            None => None,
        }
    } else {
        None
    }
}

/// The variant that the search over `exts`, in order, settles on.
pub open spec fn dispatch(exts: Seq<char>, inst: u32) -> Option<Found>
    decreases exts.len(),
{
    if exts.len() == 0 {
        None
    } else {
        match search_extension(exts[0], inst) {
            Some(f) => Some(f),
            None => dispatch(exts.drop_first(), inst),
        }
    }
}

/// The first variant of the instruction set `T` whose template matches.
pub fn enumerate_extension<T: InstructionSet>(inst: rv32::Word) -> (r: Option<T>)
    ensures
        r == first_match(T::variants(), inst),
{
    let vs = T::iter();
    let mut k: usize = 0;
    assert(vs@.subrange(0, vs@.len() as int) =~= vs@);
    while k < vs.len()
        invariant
            vs@ == T::variants(),
            k <= vs@.len(),
            first_match(vs@, inst) == first_match(vs@.subrange(k as int, vs@.len() as int), inst),
        decreases vs.len() - k,
    {
        let tail = Ghost(vs@.subrange(k as int, vs@.len() as int));
        assert(tail@.drop_first() =~= vs@.subrange(k + 1, vs@.len() as int));
        if vs[k].match_inst(inst) {
            return Some(vs[k]);
        }
        k = k + 1;
    }
    None
}

pub struct DecodeCycle {
    extensions: Vec<char>,
}

impl DecodeCycle {
    /// The enabled extensions, in search order.
    pub closed spec fn extensions(&self) -> Seq<char> {
        self.extensions@
    }

    pub fn new(ext: Vec<char>) -> (r: DecodeCycle)
        ensures
            r.extensions() == ext@,
    {
        DecodeCycle { extensions: ext }
    }

    /// The variant that executes `inst`: the first match in the first
    /// enabled extension that has one. Unknown extension names are skipped.
    pub fn find(&self, inst: rv32::Word) -> (r: Option<Found>)
        ensures
            r == dispatch(self.extensions(), inst),
    {
        let mut k: usize = 0;
        assert(self.extensions@.subrange(0, self.extensions@.len() as int) =~= self.extensions@);
        while k < self.extensions.len()
            invariant
                k <= self.extensions@.len(),
                dispatch(self.extensions@, inst) == dispatch(
                    self.extensions@.subrange(k as int, self.extensions@.len() as int),
                    inst,
                ),
            decreases self.extensions.len() - k,
        {
            let rest = Ghost(self.extensions@.subrange(k as int, self.extensions@.len() as int));
            assert(rest@.drop_first() =~= self.extensions@.subrange(
                k + 1,
                self.extensions@.len() as int,
            ));
            let c = self.extensions[k];
            let found = if c == 'i' {
                match enumerate_extension::<ExtensionI>(inst) {
                    Some(v) => Some(Found::I(v)),
                    None => None,
                }
            } else if c == 'm' {
                match enumerate_extension::<ExtensionM>(inst) {
                    Some(v) => Some(Found::M(v)),
                    None => None,
                }
            } else if c == 'a' {
                match enumerate_extension::<ExtensionA>(inst) {
                    Some(v) => Some(Found::A(v)),
                    None => None,
                }
            } else if c == 'z' {
                match enumerate_extension::<ExtensionZ>(inst) {
                    Some(v) => Some(Found::Z(v)),
                    None => None,
                }
            } else {
                None
            };
            if found.is_some() {
                return found;
            }
            k = k + 1;
        }
        None
    }

    /// Finds the variant for `inst` and executes it on `state`.
    pub fn decode_exec_inst(&self, inst: rv32::Word, state: &mut CPUState) -> (r: Result<(), VmError>)
        ensures
            match dispatch(self.extensions(), inst) {
                None => r == Err::<(), VmError>(VmError::NoInstruction) && *final(state) == *old(
                    state,
                ),
                Some(f) => f.effect(inst, *old(state), *final(state), r),
            },
    {
        match self.find(inst) {
            Some(f) => f.step(GenInstruction { inst }, state),
            None => Err(VmError::NoInstruction),
        }
    }
}

/// Within an instruction set the earliest matching variant wins: when the
/// variant at position `i` matches, the one chosen stands at `i` or before,
/// matches, and no variant before it matches.
pub proof fn lemma_first_match_earliest<T: Instruction>(vs: Seq<T>, inst: u32, i: int)
    requires
        0 <= i < vs.len(),
        vs[i].matches(inst),
    ensures
        exists|m: int|
            0 <= m <= i && first_match(vs, inst) == Some(vs[m]) && vs[m].matches(inst) && forall|
                k: int,
            | 0 <= k < m ==> !(#[trigger] vs[k]).matches(inst),
    decreases i,
{
    if vs[0].matches(inst) {
        assert(first_match(vs, inst) == Some(vs[0]));
    } else {
        let rest = vs.drop_first();
        lemma_first_match_earliest(rest, inst, i - 1);
        let m0 = choose|m: int|
            0 <= m <= i - 1 && first_match(rest, inst) == Some(rest[m]) && rest[m].matches(inst)
                && forall|k: int| 0 <= k < m ==> !(#[trigger] rest[k]).matches(inst);
        assert forall|k: int| 0 <= k < m0 + 1 implies !(#[trigger] vs[k]).matches(inst) by {
            if k > 0 {
                assert(vs[k] == rest[k - 1]);
            }
        }
        assert(vs[m0 + 1] == rest[m0]);
    }
}

/// Across extensions the earliest one with a match wins: when the extension
/// at position `i` of the enabled list has a matching variant, the search
/// settles on the match of an extension at `i` or before, and no extension
/// before that one has a match.
pub proof fn lemma_dispatch_earliest(exts: Seq<char>, inst: u32, i: int)
    requires
        0 <= i < exts.len(),
        search_extension(exts[i], inst) is Some,
    ensures
        exists|m: int|
            0 <= m <= i && dispatch(exts, inst) == search_extension(exts[m], inst) && forall|k: int|
                0 <= k < m ==> (#[trigger] search_extension(exts[k], inst)) is None,
    decreases i,
{
    if search_extension(exts[0], inst) is Some {
        assert(dispatch(exts, inst) == search_extension(exts[0], inst));
    } else {
        let rest = exts.drop_first();
        lemma_dispatch_earliest(rest, inst, i - 1);
        let m0 = choose|m: int|
            0 <= m <= i - 1 && dispatch(rest, inst) == search_extension(rest[m], inst) && forall|
                k: int,
            | 0 <= k < m ==> (#[trigger] search_extension(rest[k], inst)) is None;
        assert forall|k: int| 0 <= k < m0 + 1 implies (#[trigger] search_extension(
            exts[k],
            inst,
        )) is None by {
            if k > 0 {
                assert(exts[k] == rest[k - 1]);
            }
        }
        assert(exts[m0 + 1] == rest[m0]);
    }
}

/// In the base set, a word with the JAL opcode selects JAL, and a word with
/// the BRANCH opcode selects BRANCH: no variant declared before them matches.
pub proof fn lemma_base_search_by_opcode(w: u32)
    ensures
        w & 0x7f == 0x6f ==> first_match(ExtensionI::variants(), w) == Some(ExtensionI::JAL(JAL)),
        w & 0x7f == 0x63 ==> first_match(ExtensionI::variants(), w) == Some(
            ExtensionI::BRANCH(BRANCH),
        ),
{
    reveal_strlit("xxxxxxxxxxxxxxxxxxxxxxxxx0110111");
    reveal_strlit("xxxxxxxxxxxxxxxxxxxxxxxxx0010111");
    reveal_strlit("xxxxxxxxxxxxxxxxxxxxxxxxx1101111");
    reveal_strlit("xxxxxxxxxxxxxxxxx000xxxxx1100111");
    reveal_strlit("xxxxxxxxxxxxxxxxxxxxxxxxx1100011");
    assert(bit_of(0x37u32, 0u32) && bit_of(0x37u32, 1u32) && bit_of(0x37u32, 2u32) && !bit_of(0x37u32, 3u32) && bit_of(0x37u32, 4u32) && bit_of(0x37u32, 5u32) && !bit_of(0x37u32, 6u32) && bit_of(0x17u32, 0u32) && bit_of(0x17u32, 1u32) && bit_of(0x17u32, 2u32) && !bit_of(0x17u32, 3u32) && bit_of(0x17u32, 4u32) && !bit_of(0x17u32, 5u32) && !bit_of(0x17u32, 6u32) && bit_of(0x6fu32, 0u32) && bit_of(0x6fu32, 1u32) && bit_of(0x6fu32, 2u32) && bit_of(0x6fu32, 3u32) && !bit_of(0x6fu32, 4u32) && bit_of(0x6fu32, 5u32) && bit_of(0x6fu32, 6u32) && bit_of(0x67u32, 0u32) && bit_of(0x67u32, 1u32) && bit_of(0x67u32, 2u32) && !bit_of(0x67u32, 3u32) && !bit_of(0x67u32, 4u32) && bit_of(0x67u32, 5u32) && bit_of(0x67u32, 6u32) && bit_of(0x63u32, 0u32) && bit_of(0x63u32, 1u32) && !bit_of(0x63u32, 2u32) && !bit_of(0x63u32, 3u32) && !bit_of(0x63u32, 4u32) && bit_of(0x63u32, 5u32) && bit_of(0x63u32, 6u32)) by (bit_vector);
    assert forall|j: u32| j < 7 implies is_literal(#[trigger] "xxxxxxxxxxxxxxxxxxxxxxxxx0110111"@[31 - j]) && ("xxxxxxxxxxxxxxxxxxxxxxxxx0110111"@[31 - j] == '1') == bit_of(0x37u32, j) by {
        if j == 0 {
        } else if j == 1 {
        } else if j == 2 {
        } else if j == 3 {
        } else if j == 4 {
        } else if j == 5 {
        } else if j == 6 {
        }
    }
    lemma_opcode_decides(w, "xxxxxxxxxxxxxxxxxxxxxxxxx0110111"@, 0x37);
    assert forall|j: u32| j < 7 implies is_literal(#[trigger] "xxxxxxxxxxxxxxxxxxxxxxxxx0010111"@[31 - j]) && ("xxxxxxxxxxxxxxxxxxxxxxxxx0010111"@[31 - j] == '1') == bit_of(0x17u32, j) by {
        if j == 0 {
        } else if j == 1 {
        } else if j == 2 {
        } else if j == 3 {
        } else if j == 4 {
        } else if j == 5 {
        } else if j == 6 {
        }
    }
    lemma_opcode_decides(w, "xxxxxxxxxxxxxxxxxxxxxxxxx0010111"@, 0x17);
    assert forall|j: u32| j < 7 implies is_literal(#[trigger] "xxxxxxxxxxxxxxxxxxxxxxxxx1101111"@[31 - j]) && ("xxxxxxxxxxxxxxxxxxxxxxxxx1101111"@[31 - j] == '1') == bit_of(0x6fu32, j) by {
        if j == 0 {
        } else if j == 1 {
        } else if j == 2 {
        } else if j == 3 {
        } else if j == 4 {
        } else if j == 5 {
        } else if j == 6 {
        }
    }
    lemma_opcode_decides(w, "xxxxxxxxxxxxxxxxxxxxxxxxx1101111"@, 0x6f);
    assert forall|j: u32| j < 7 implies is_literal(#[trigger] "xxxxxxxxxxxxxxxxx000xxxxx1100111"@[31 - j]) && ("xxxxxxxxxxxxxxxxx000xxxxx1100111"@[31 - j] == '1') == bit_of(0x67u32, j) by {
        if j == 0 {
        } else if j == 1 {
        } else if j == 2 {
        } else if j == 3 {
        } else if j == 4 {
        } else if j == 5 {
        } else if j == 6 {
        }
    }
    lemma_opcode_decides(w, "xxxxxxxxxxxxxxxxx000xxxxx1100111"@, 0x67);
    assert forall|j: u32| j < 7 implies is_literal(#[trigger] "xxxxxxxxxxxxxxxxxxxxxxxxx1100011"@[31 - j]) && ("xxxxxxxxxxxxxxxxxxxxxxxxx1100011"@[31 - j] == '1') == bit_of(0x63u32, j) by {
        if j == 0 {
        } else if j == 1 {
        } else if j == 2 {
        } else if j == 3 {
        } else if j == 4 {
        } else if j == 5 {
        } else if j == 6 {
        }
    }
    lemma_opcode_decides(w, "xxxxxxxxxxxxxxxxxxxxxxxxx1100011"@, 0x63);
    assert(only_opcode("xxxxxxxxxxxxxxxxxxxxxxxxx1101111"@));
    assert(only_opcode("xxxxxxxxxxxxxxxxxxxxxxxxx1100011"@));
    let vs = ExtensionI::variants();
    let v1 = vs.drop_first();
    let v2 = v1.drop_first();
    let v3 = v2.drop_first();
    let v4 = v3.drop_first();
    assert(vs[0] == ExtensionI::LUI(LUI));
    assert(v1[0] == ExtensionI::AUIPC(AUIPC));
    assert(v2[0] == ExtensionI::JAL(JAL));
    assert(v3[0] == ExtensionI::JALR(JALR));
    assert(v4[0] == ExtensionI::BRANCH(BRANCH));
    if w & 0x7f == 0x6f || w & 0x7f == 0x63 {
        assert(first_match(vs, w) == first_match(v1, w));
        assert(first_match(v1, w) == first_match(v2, w));
    }
    if w & 0x7f == 0x63 {
        assert(first_match(v2, w) == first_match(v3, w));
        assert(first_match(v3, w) == first_match(v4, w));
    }
}

} // verus!
