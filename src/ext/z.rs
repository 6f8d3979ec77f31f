//! Control and status register extension.
use vstd::prelude::*;

use crate::bits::{match_mask, template_matches};
use crate::cpu::{raise_illegal, raises_illegal, reg, CPUState};
use crate::err::VmError;
use crate::ext::encoding::{
    i_imm_of, rd_of, rs1_of, GenInstruction, Instruction, InstructionSet,
};
use crate::system::rv32;

verus! {

/// CSR number of `mstatus`.
pub const CSR_MSTATUS: u32 = 0x300;

/// CSR number of `mie`.
pub const CSR_MIE: u32 = 0x304;

/// CSR number of `mtvec`.
pub const CSR_MTVEC: u32 = 0x305;

/// CSR number of `mscratch`.
pub const CSR_MSCRATCH: u32 = 0x340;

/// CSR number of `mepc`.
pub const CSR_MEPC: u32 = 0x341;

/// CSR number of `mcause`.
pub const CSR_MCAUSE: u32 = 0x342;

/// CSR number of `mtval`.
pub const CSR_MTVAL: u32 = 0x343;

/// CSR number of `mip`.
pub const CSR_MIP: u32 = 0x344;

/// The machine CSRs that CSRRW can swap.
pub open spec fn csr_writable(n: u32) -> bool {
    n == CSR_MSTATUS || n == CSR_MIE || n == CSR_MTVEC || n == CSR_MSCRATCH || n == CSR_MEPC
        || n == CSR_MCAUSE || n == CSR_MTVAL || n == CSR_MIP
}

/// The value of writable CSR `n` in `s`.
pub open spec fn csr_value(s: CPUState, n: u32) -> u32 {
    if n == CSR_MSTATUS {
        s.mstatus
    } else if n == CSR_MIE {
        s.mie
    } else if n == CSR_MTVEC {
        s.mtvec
    } else if n == CSR_MSCRATCH {
        s.mscratch
    } else if n == CSR_MEPC {
        s.mepc
    } else if n == CSR_MCAUSE {
        s.mcause
    } else if n == CSR_MTVAL {
        s.mtval
    } else if n == CSR_MIP {
        s.mip
    } else {
        0
    }
}

/// `t` holds the CSRs of `s`, with CSR `n` set to `v`.
pub open spec fn csr_written(s: CPUState, t: CPUState, n: u32, v: u32) -> bool {
    &&& t.mstatus == if n == CSR_MSTATUS {
        v
    } else {
        s.mstatus
    }
    &&& t.mie == if n == CSR_MIE {
        v
    } else {
        s.mie
    }
    &&& t.mtvec == if n == CSR_MTVEC {
        v
    } else {
        s.mtvec
    }
    &&& t.mscratch == if n == CSR_MSCRATCH {
        v
    } else {
        s.mscratch
    }
    &&& t.mepc == if n == CSR_MEPC {
        v
    } else {
        s.mepc
    }
    &&& t.mcause == if n == CSR_MCAUSE {
        v
    } else {
        s.mcause
    }
    &&& t.mtval == if n == CSR_MTVAL {
        v
    } else {
        s.mtval
    }
    &&& t.mip == if n == CSR_MIP {
        v
    } else {
        s.mip
    }
    &&& t.cyclel == s.cyclel
    &&& t.cycleh == s.cycleh
    &&& t.timel == s.timel
    &&& t.timeh == s.timeh
    &&& t.timecmpl == s.timecmpl
    &&& t.timecmph == s.timecmph
    &&& t.mvendorid == s.mvendorid
    &&& t.marchid == s.marchid
    &&& t.mimpid == s.mimpid
    &&& t.mhartid == s.mhartid
    &&& t.extraflags == s.extraflags
}

/// CSRRW: `rd` takes the old value of the CSR named by bits 31:20 and the
/// CSR takes `rs1`. A CSR number that names no writable machine CSR raises
/// the illegal-instruction trap.
#[derive(Clone, Copy, Debug, PartialEq, Eq, Structural)]
pub struct CSRRW;

impl Instruction for CSRRW {
    open spec fn matches(&self, inst: u32) -> bool {
        template_matches(inst, "xxxxxxxxxxxxxxxxx001xxxxx1110011"@)
    }

    open spec fn effect(&self, inst: u32, s: CPUState, t: CPUState, r: Result<(), VmError>) -> bool {
        let n = i_imm_of(inst);
        &&& r == Ok::<(), VmError>(())
        &&& if csr_writable(n) {
            &&& csr_written(s, t, n, reg(s, rs1_of(inst)))
            &&& t.x@ == s.x@.update(rd_of(inst) as int, csr_value(s, n))
            &&& t.pc == s.pc
            &&& t.trap == s.trap
            &&& t.bus == s.bus
        } else {
            raises_illegal(s, t)
        }
    }

    fn match_inst(&self, inst: rv32::Word) -> (r: bool) {
        proof {
            reveal_strlit("xxxxxxxxxxxxxxxxx001xxxxx1110011");
        }
        match_mask(inst, "xxxxxxxxxxxxxxxxx001xxxxx1110011")
    }

    fn step(&self, inst: GenInstruction, state: &mut CPUState) -> (r: Result<(), VmError>) {
        let it = inst.i();
        let n = it.imm();
        let v = state.x[it.rs1() as usize];
        let prev = if n == CSR_MSTATUS {
            let o = state.mstatus;
            state.mstatus = v;
            o
        } else if n == CSR_MIE {
            let o = state.mie;
            state.mie = v;
            o
        } else if n == CSR_MTVEC {
            let o = state.mtvec;
            state.mtvec = v;
            o
        } else if n == CSR_MSCRATCH {
            let o = state.mscratch;
            state.mscratch = v;
            o
        } else if n == CSR_MEPC {
            let o = state.mepc;
            state.mepc = v;
            o
        } else if n == CSR_MCAUSE {
            let o = state.mcause;
            state.mcause = v;
            o
        } else if n == CSR_MTVAL {
            let o = state.mtval;
            state.mtval = v;
            o
        } else if n == CSR_MIP {
            let o = state.mip;
            state.mip = v;
            o
        } else {
            raise_illegal(state);
            return Ok(());
        };
        state.x[it.rd() as usize] = prev;
        Ok(())
    }
}

/// The CSR extension, in the order its variants are tried.
#[derive(Clone, Copy, Debug, PartialEq, Eq, Structural)]
pub enum ExtensionZ {
    CSRRW(CSRRW),
}

impl Instruction for ExtensionZ {
    open spec fn matches(&self, inst: u32) -> bool {
        match self {
            ExtensionZ::CSRRW(v) => v.matches(inst),
        }
    }

    open spec fn effect(&self, inst: u32, s: CPUState, t: CPUState, r: Result<(), VmError>) -> bool {
        match self {
            ExtensionZ::CSRRW(v) => v.effect(inst, s, t, r),
        }
    }

    fn match_inst(&self, inst: rv32::Word) -> (r: bool) {
        match self {
            ExtensionZ::CSRRW(v) => v.match_inst(inst),
        }
    }

    fn step(&self, inst: GenInstruction, state: &mut CPUState) -> (r: Result<(), VmError>) {
        match self {
            ExtensionZ::CSRRW(v) => v.step(inst, state),
        }
    }
}

impl InstructionSet for ExtensionZ {
    open spec fn variants() -> Seq<ExtensionZ> {
        seq![
            ExtensionZ::CSRRW(CSRRW),
        ]
    }

    fn iter() -> (r: Vec<ExtensionZ>) {
        let r = vec![
            ExtensionZ::CSRRW(CSRRW),
        ];
        assert(r@ =~= Self::variants());
        r
    }
}

} // verus!
