//! The six RV32 instruction layouts, as views of one 32-bit word, and the
//! interface that every instruction variant offers.
use vstd::prelude::*;

use crate::cpu::CPUState;
use crate::err::VmError;
use crate::helpers::{sext, sext_spec};
use crate::system::rv32;

verus! {

pub open spec fn opcode_of(w: u32) -> u32 {
    w & 0x7f
}

pub open spec fn rd_of(w: u32) -> u32 {
    (w >> 7u32) & 0x1f
}

pub open spec fn funct3_of(w: u32) -> u32 {
    (w >> 12u32) & 0x7
}

pub open spec fn rs1_of(w: u32) -> u32 {
    (w >> 15u32) & 0x1f
}

pub open spec fn rs2_of(w: u32) -> u32 {
    (w >> 20u32) & 0x1f
}

pub open spec fn funct7_of(w: u32) -> u32 {
    w >> 25u32
}

/// I-format immediate: imm[11:0] from bits 31:20.
pub open spec fn i_imm_of(w: u32) -> u32 {
    w >> 20u32
}

/// S-format immediate: imm[11:5] from bits 31:25 over imm[4:0] from bits 11:7.
pub open spec fn s_imm_of(w: u32) -> u32 {
    ((w >> 25u32) << 5u32) | ((w >> 7u32) & 0x1f)
}

/// B-format immediate imm[12:1] (bit 0 of the offset is implicitly zero):
/// imm[12] from bit 31, imm[11] from bit 7, imm[10:5] from bits 30:25,
/// imm[4:1] from bits 11:8.
pub open spec fn b_imm_of(w: u32) -> u32 {
    ((w >> 31u32) << 11u32) | (((w >> 7u32) & 1) << 10u32) | (((w >> 25u32) & 0x3f) << 4u32) | ((w
        >> 8u32) & 0xf)
}

/// U-format immediate: imm[31:12] from bits 31:12.
pub open spec fn u_imm_of(w: u32) -> u32 {
    w >> 12u32
}

/// J-format immediate imm[20:1] (bit 0 of the offset is implicitly zero):
/// imm[20] from bit 31, imm[19:12] from bits 19:12, imm[11] from bit 20,
/// imm[10:1] from bits 30:21.
pub open spec fn j_imm_of(w: u32) -> u32 {
    ((w >> 31u32) << 19u32) | (((w >> 12u32) & 0xff) << 11u32) | (((w >> 20u32) & 1) << 10u32) | ((
    w >> 21u32) & 0x3ff)
}

/// Register fields index the register file; the immediates fit their widths.
pub proof fn lemma_field_bounds(w: u32)
    by (bit_vector)
    ensures
        rd_of(w) < 32,
        rs1_of(w) < 32,
        rs2_of(w) < 32,
        funct3_of(w) < 8,
        funct7_of(w) < 128,
        i_imm_of(w) < 0x1000,
        s_imm_of(w) < 0x1000,
        b_imm_of(w) < 0x1000,
        u_imm_of(w) < 0x10_0000,
        j_imm_of(w) < 0x10_0000,
{
}

/// A layout that carries an immediate.
pub trait ImmediateMode {
    /// The immediate reassembled from its fields, unsigned and unshifted.
    spec fn imm_value(&self) -> u32;

    /// Width of the immediate in bits.
    spec fn imm_len(&self) -> u32;

    /// The immediate sign-extended from its width.
    fn sext_imm(&self) -> (r: rv32::XLen)
        ensures
            r == sext_spec(self.imm_value(), self.imm_len()),
    ;

    /// The immediate reassembled from its fields, unsigned and unshifted.
    fn full_imm(&self) -> (r: rv32::XLen)
        ensures
            r == self.imm_value(),
    ;
}

/// The word before any layout is chosen: only the opcode is meaningful.
#[derive(Clone, Copy)]
pub struct NullType(pub u32);

/// Register-register operations.
#[derive(Clone, Copy)]
pub struct RType(pub u32);

/// Loads, register-immediate operations and JALR.
#[derive(Clone, Copy)]
pub struct IType(pub u32);

/// Stores.
#[derive(Clone, Copy)]
pub struct SType(pub u32);

/// Conditional branches.
#[derive(Clone, Copy)]
pub struct BType(pub u32);

/// Upper-immediate instructions.
#[derive(Clone, Copy)]
pub struct UType(pub u32);

/// JAL.
#[derive(Clone, Copy)]
pub struct JType(pub u32);

impl NullType {
    pub fn opcode(&self) -> (r: u32)
        ensures
            r == opcode_of(self.0),
    {
        self.0 & 0x7f
    }
}

impl RType {
    pub fn opcode(&self) -> (r: u32)
        ensures
            r == opcode_of(self.0),
    {
        self.0 & 0x7f
    }

    pub fn rd(&self) -> (r: u32)
        ensures
            r == rd_of(self.0),
            r < 32,
    {
        proof {
            lemma_field_bounds(self.0);
        }
        (self.0 >> 7u32) & 0x1f
    }

    pub fn funct3(&self) -> (r: u32)
        ensures
            r == funct3_of(self.0),
            r < 8,
    {
        proof {
            lemma_field_bounds(self.0);
        }
        (self.0 >> 12u32) & 0x7
    }

    pub fn rs1(&self) -> (r: u32)
        ensures
            r == rs1_of(self.0),
            r < 32,
    {
        proof {
            lemma_field_bounds(self.0);
        }
        (self.0 >> 15u32) & 0x1f
    }

    pub fn rs2(&self) -> (r: u32)
        ensures
            r == rs2_of(self.0),
            r < 32,
    {
        proof {
            lemma_field_bounds(self.0);
        }
        (self.0 >> 20u32) & 0x1f
    }

    pub fn funct7(&self) -> (r: u32)
        ensures
            r == funct7_of(self.0),
            r < 128,
    {
        proof {
            lemma_field_bounds(self.0);
        }
        self.0 >> 25u32
    }
}

impl IType {
    pub fn opcode(&self) -> (r: u32)
        ensures
            r == opcode_of(self.0),
    {
        self.0 & 0x7f
    }

    pub fn rd(&self) -> (r: u32)
        ensures
            r == rd_of(self.0),
            r < 32,
    {
        proof {
            lemma_field_bounds(self.0);
        }
        (self.0 >> 7u32) & 0x1f
    }

    pub fn funct3(&self) -> (r: u32)
        ensures
            r == funct3_of(self.0),
            r < 8,
    {
        proof {
            lemma_field_bounds(self.0);
        }
        (self.0 >> 12u32) & 0x7
    }

    pub fn rs1(&self) -> (r: u32)
        ensures
            r == rs1_of(self.0),
            r < 32,
    {
        proof {
            lemma_field_bounds(self.0);
        }
        (self.0 >> 15u32) & 0x1f
    }

    pub fn imm(&self) -> (r: u32)
        ensures
            r == i_imm_of(self.0),
    {
        self.0 >> 20u32
    }
}

impl ImmediateMode for IType {
    open spec fn imm_value(&self) -> u32 {
        i_imm_of(self.0)
    }

    open spec fn imm_len(&self) -> u32 {
        12
    }

    fn sext_imm(&self) -> (r: rv32::XLen) {
        proof {
            assert(self.imm_value() == i_imm_of(self.0) && self.imm_len() == 12);
        }
        sext(self.full_imm(), 12)
    }

    fn full_imm(&self) -> (r: rv32::XLen) {
        proof {
            assert(self.imm_value() == i_imm_of(self.0));
        }
        self.imm()
    }
}

impl SType {
    pub fn opcode(&self) -> (r: u32)
        ensures
            r == opcode_of(self.0),
    {
        self.0 & 0x7f
    }

    pub fn funct3(&self) -> (r: u32)
        ensures
            r == funct3_of(self.0),
            r < 8,
    {
        proof {
            lemma_field_bounds(self.0);
        }
        (self.0 >> 12u32) & 0x7
    }

    pub fn rs1(&self) -> (r: u32)
        ensures
            r == rs1_of(self.0),
            r < 32,
    {
        proof {
            lemma_field_bounds(self.0);
        }
        (self.0 >> 15u32) & 0x1f
    }

    pub fn rs2(&self) -> (r: u32)
        ensures
            r == rs2_of(self.0),
            r < 32,
    {
        proof {
            lemma_field_bounds(self.0);
        }
        (self.0 >> 20u32) & 0x1f
    }
}

impl ImmediateMode for SType {
    open spec fn imm_value(&self) -> u32 {
        s_imm_of(self.0)
    }

    open spec fn imm_len(&self) -> u32 {
        12
    }

    fn sext_imm(&self) -> (r: rv32::XLen) {
        proof {
            assert(self.imm_value() == s_imm_of(self.0) && self.imm_len() == 12);
        }
        sext(self.full_imm(), 12)
    }

    fn full_imm(&self) -> (r: rv32::XLen) {
        proof {
            assert(self.imm_value() == s_imm_of(self.0));
        }
        ((self.0 >> 25u32) << 5u32) | ((self.0 >> 7u32) & 0x1f)
    }
}

impl BType {
    pub fn opcode(&self) -> (r: u32)
        ensures
            r == opcode_of(self.0),
    {
        self.0 & 0x7f
    }

    pub fn funct3(&self) -> (r: u32)
        ensures
            r == funct3_of(self.0),
            r < 8,
    {
        proof {
            lemma_field_bounds(self.0);
        }
        (self.0 >> 12u32) & 0x7
    }

    pub fn rs1(&self) -> (r: u32)
        ensures
            r == rs1_of(self.0),
            r < 32,
    {
        proof {
            lemma_field_bounds(self.0);
        }
        (self.0 >> 15u32) & 0x1f
    }

    pub fn rs2(&self) -> (r: u32)
        ensures
            r == rs2_of(self.0),
            r < 32,
    {
        proof {
            lemma_field_bounds(self.0);
        }
        (self.0 >> 20u32) & 0x1f
    }
}

impl ImmediateMode for BType {
    open spec fn imm_value(&self) -> u32 {
        b_imm_of(self.0)
    }

    open spec fn imm_len(&self) -> u32 {
        12
    }

    fn sext_imm(&self) -> (r: rv32::XLen) {
        proof {
            assert(self.imm_value() == b_imm_of(self.0) && self.imm_len() == 12);
        }
        sext(self.full_imm(), 12)
    }

    fn full_imm(&self) -> (r: rv32::XLen) {
        proof {
            assert(self.imm_value() == b_imm_of(self.0));
        }
        let w = self.0;
        ((w >> 31u32) << 11u32) | (((w >> 7u32) & 1) << 10u32) | (((w >> 25u32) & 0x3f) << 4u32)
            | ((w >> 8u32) & 0xf)
    }
}

impl UType {
    pub fn opcode(&self) -> (r: u32)
        ensures
            r == opcode_of(self.0),
    {
        self.0 & 0x7f
    }

    pub fn rd(&self) -> (r: u32)
        ensures
            r == rd_of(self.0),
            r < 32,
    {
        proof {
            lemma_field_bounds(self.0);
        }
        (self.0 >> 7u32) & 0x1f
    }
}

impl ImmediateMode for UType {
    open spec fn imm_value(&self) -> u32 {
        u_imm_of(self.0)
    }

    open spec fn imm_len(&self) -> u32 {
        20
    }

    fn sext_imm(&self) -> (r: rv32::XLen) {
        proof {
            assert(self.imm_value() == u_imm_of(self.0) && self.imm_len() == 20);
        }
        sext(self.full_imm(), 20)
    }

    fn full_imm(&self) -> (r: rv32::XLen) {
        proof {
            assert(self.imm_value() == u_imm_of(self.0));
        }
        self.0 >> 12u32
    }
}

impl JType {
    pub fn opcode(&self) -> (r: u32)
        ensures
            r == opcode_of(self.0),
    {
        self.0 & 0x7f
    }

    pub fn rd(&self) -> (r: u32)
        ensures
            r == rd_of(self.0),
            r < 32,
    {
        proof {
            lemma_field_bounds(self.0);
        }
        (self.0 >> 7u32) & 0x1f
    }
}

impl ImmediateMode for JType {
    open spec fn imm_value(&self) -> u32 {
        j_imm_of(self.0)
    }

    open spec fn imm_len(&self) -> u32 {
        20
    }

    fn sext_imm(&self) -> (r: rv32::XLen) {
        proof {
            assert(self.imm_value() == j_imm_of(self.0) && self.imm_len() == 20);
        }
        sext(self.full_imm(), 20)
    }

    fn full_imm(&self) -> (r: rv32::XLen) {
        proof {
            assert(self.imm_value() == j_imm_of(self.0));
        }
        let w = self.0;
        ((w >> 31u32) << 19u32) | (((w >> 12u32) & 0xff) << 11u32) | (((w >> 20u32) & 1) << 10u32)
            | ((w >> 21u32) & 0x3ff)
    }
}

/// A fetched word, read through whichever layout the matched instruction uses.
#[derive(Clone, Copy)]
pub struct GenInstruction {
    pub inst: rv32::Word,
}

impl GenInstruction {
    pub fn null(&self) -> (r: NullType)
        ensures
            r.0 == self.inst,
    {
        NullType(self.inst)
    }

    pub fn r(&self) -> (r: RType)
        ensures
            r.0 == self.inst,
    {
        RType(self.inst)
    }

    pub fn i(&self) -> (r: IType)
        ensures
            r.0 == self.inst,
    {
        IType(self.inst)
    }

    pub fn s(&self) -> (r: SType)
        ensures
            r.0 == self.inst,
    {
        SType(self.inst)
    }

    pub fn b(&self) -> (r: BType)
        ensures
            r.0 == self.inst,
    {
        BType(self.inst)
    }

    pub fn u(&self) -> (r: UType)
        ensures
            r.0 == self.inst,
    {
        UType(self.inst)
    }

    pub fn j(&self) -> (r: JType)
        ensures
            r.0 == self.inst,
    {
        JType(self.inst)
    }
}

/// An instruction variant: a template test and an effect on the hart.
pub trait Instruction: Sized {
    /// The word fits this variant's template.
    spec fn matches(&self, inst: u32) -> bool;

    /// Executing the word takes state `s` to state `t` with result `r`.
    spec fn effect(&self, inst: u32, s: CPUState, t: CPUState, r: Result<(), VmError>) -> bool;

    fn match_inst(&self, inst: rv32::Word) -> (r: bool)
        ensures
            r == self.matches(inst),
    ;

    fn step(&self, inst: GenInstruction, state: &mut CPUState) -> (r: Result<(), VmError>)
        ensures
            self.effect(inst.inst, *old(state), *final(state), r),
    ;
}

/// An instruction set: its variants, in the order in which they are tried.
pub trait InstructionSet: Instruction + Copy {
    spec fn variants() -> Seq<Self>;

    fn iter() -> (r: Vec<Self>)
        ensures
            r@ == Self::variants(),
    ;
}

} // verus!
