//! Multiply extension.
use vstd::prelude::*;

use crate::bits::{match_mask, template_matches};
use crate::cpu::{reg, write_reg, writes_reg, CPUState};
use crate::err::VmError;
use crate::ext::encoding::{
    rd_of, rs1_of, rs2_of, GenInstruction, Instruction, InstructionSet,
};
use crate::system::rv32;

verus! {

/// `a * b` modulo 2^32.
pub open spec fn wmul(a: u32, b: u32) -> u32 {
    ((a as nat * b as nat) % 0x1_0000_0000) as u32
}

/// MULW: `rd` takes the low 32 bits of `rs1 * rs2`.
#[derive(Clone, Copy, Debug, PartialEq, Eq, Structural)]
pub struct MULW;

impl Instruction for MULW {
    open spec fn matches(&self, inst: u32) -> bool {
        template_matches(inst, "0000001xxxxxxxxxx000xxxxx0110011"@)
    }

    open spec fn effect(&self, inst: u32, s: CPUState, t: CPUState, r: Result<(), VmError>) -> bool {
        r == Ok::<(), VmError>(()) && writes_reg(
            s,
            t,
            rd_of(inst),
            wmul(reg(s, rs1_of(inst)), reg(s, rs2_of(inst))),
        )
    }

    fn match_inst(&self, inst: rv32::Word) -> (r: bool) {
        proof {
            reveal_strlit("0000001xxxxxxxxxx000xxxxx0110011");
        }
        match_mask(inst, "0000001xxxxxxxxxx000xxxxx0110011")
    }

    fn step(&self, inst: GenInstruction, state: &mut CPUState) -> (r: Result<(), VmError>) {
        let rt = inst.r();
        let a = state.x[rt.rs1() as usize];
        let b = state.x[rt.rs2() as usize];
        write_reg(state, rt.rd(), a.wrapping_mul(b));
        Ok(())
    }
}

/// The multiply extension, in the order its variants are tried.
#[derive(Clone, Copy, Debug, PartialEq, Eq, Structural)]
pub enum ExtensionM {
    MULW(MULW),
}

impl Instruction for ExtensionM {
    open spec fn matches(&self, inst: u32) -> bool {
        match self {
            ExtensionM::MULW(v) => v.matches(inst),
        }
    }

    open spec fn effect(&self, inst: u32, s: CPUState, t: CPUState, r: Result<(), VmError>) -> bool {
        match self {
            ExtensionM::MULW(v) => v.effect(inst, s, t, r),
        }
    }

    fn match_inst(&self, inst: rv32::Word) -> (r: bool) {
        match self {
            ExtensionM::MULW(v) => v.match_inst(inst),
        }
    }

    fn step(&self, inst: GenInstruction, state: &mut CPUState) -> (r: Result<(), VmError>) {
        match self {
            ExtensionM::MULW(v) => v.step(inst, state),
        }
    }
}

impl InstructionSet for ExtensionM {
    open spec fn variants() -> Seq<ExtensionM> {
        seq![
            ExtensionM::MULW(MULW),
        ]
    }

    fn iter() -> (r: Vec<ExtensionM>) {
        let r = vec![
            ExtensionM::MULW(MULW),
        ];
        assert(r@ =~= Self::variants());
        r
    }
}

} // verus!
