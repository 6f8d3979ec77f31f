//! Atomic extension: load-reserved and store-conditional words.
use vstd::prelude::*;

use crate::bits::{match_mask, template_matches};
use crate::cpu::{reg, same_csrs_but_flags, CPUState};
use crate::err::VmError;
use crate::ext::encoding::{
    rd_of, rs1_of, rs2_of, GenInstruction, Instruction, InstructionSet,
};
use crate::system::rv32;

verus! {

/// The reservation bits of `extraflags` hold `address`.
pub open spec fn reserve(flags: u32, address: u32) -> u32 {
    (flags & 0x07) | (address << 3u32)
}

/// A store-conditional to `address` finds its reservation.
pub open spec fn reservation_holds(flags: u32, address: u32) -> bool {
    flags >> 3u32 == address & 0x1fff_ffff
}

/// LR.W: `rd = mem[rs1]`, and `rs1` becomes the reserved address.
#[derive(Clone, Copy, Debug, PartialEq, Eq, Structural)]
pub struct LRW;

impl Instruction for LRW {
    open spec fn matches(&self, inst: u32) -> bool {
        template_matches(inst, "00010xx00000xxxxx010xxxxx0101111"@)
    }

    open spec fn effect(&self, inst: u32, s: CPUState, t: CPUState, r: Result<(), VmError>) -> bool {
        let addr = reg(s, rs1_of(inst));
        match s.bus.load_result(addr, 4) {
            Err(e) => r == Err::<(), VmError>(e) && t == s,
            Ok(v) => {
                &&& r == Ok::<(), VmError>(())
                &&& s.bus.loaded(t.bus, addr, 4)
                &&& same_csrs_but_flags(s, t)
                &&& t.extraflags == reserve(s.extraflags, addr)
                &&& t.pc == s.pc
                &&& t.trap == s.trap
                &&& t.x@ == s.x@.update(rd_of(inst) as int, v)
            },
        }
    }

    fn match_inst(&self, inst: rv32::Word) -> (r: bool) {
        proof {
            reveal_strlit("00010xx00000xxxxx010xxxxx0101111");
        }
        match_mask(inst, "00010xx00000xxxxx010xxxxx0101111")
    }

    fn step(&self, inst: GenInstruction, state: &mut CPUState) -> (r: Result<(), VmError>) {
        let rt = inst.r();
        let rs1 = state.x[rt.rs1() as usize];
        let v = state.bus.load_32(rs1)?;
        state.extraflags = (state.extraflags & 0x07) | (rs1 << 3u32);
        state.x[rt.rd() as usize] = v;
        Ok(())
    }
}

/// SC.W: stores `rs2` at `rs1` and sets `rd = 0` when the reservation is on
/// `rs1`, else sets `rd = 1`; either way the reservation is dropped.
#[derive(Clone, Copy, Debug, PartialEq, Eq, Structural)]
pub struct SCW;

impl Instruction for SCW {
    open spec fn matches(&self, inst: u32) -> bool {
        template_matches(inst, "00011xxxxxxxxxxxx010xxxxx0101111"@)
    }

    open spec fn effect(&self, inst: u32, s: CPUState, t: CPUState, r: Result<(), VmError>) -> bool {
        let addr = reg(s, rs1_of(inst));
        let held = reservation_holds(s.extraflags, addr);
        &&& held ==> s.bus.stored(t.bus, addr, 4, reg(s, rs2_of(inst)), r)
        &&& !held ==> r == Ok::<(), VmError>(()) && t.bus == s.bus
        &&& r is Err ==> t == s
        &&& r is Ok ==> {
            &&& same_csrs_but_flags(s, t)
            &&& t.extraflags == s.extraflags & 0x07
            &&& t.pc == s.pc
            &&& t.trap == s.trap
            &&& t.x@ == s.x@.update(rd_of(inst) as int, if held { 0u32 } else { 1u32 })
        }
    }

    fn match_inst(&self, inst: rv32::Word) -> (r: bool) {
        proof {
            reveal_strlit("00011xxxxxxxxxxxx010xxxxx0101111");
        }
        match_mask(inst, "00011xxxxxxxxxxxx010xxxxx0101111")
    }

    fn step(&self, inst: GenInstruction, state: &mut CPUState) -> (r: Result<(), VmError>) {
        let rt = inst.r();
        let rs1 = state.x[rt.rs1() as usize];
        let held = (state.extraflags >> 3u32) == (rs1 & 0x1fff_ffff);
        if held {
            let v = state.x[rt.rs2() as usize];
            state.bus.store_32(rs1, v)?;
            state.x[rt.rd() as usize] = 0;
        } else {
            state.x[rt.rd() as usize] = 1;
        }
        state.extraflags = state.extraflags & 0x07;
        Ok(())
    }
}

/// The atomic extension, in the order its variants are tried.
#[derive(Clone, Copy, Debug, PartialEq, Eq, Structural)]
pub enum ExtensionA {
    LRW(LRW),
    SCW(SCW),
}

impl Instruction for ExtensionA {
    open spec fn matches(&self, inst: u32) -> bool {
        match self {
            ExtensionA::LRW(v) => v.matches(inst),
            ExtensionA::SCW(v) => v.matches(inst),
        }
    }

    open spec fn effect(&self, inst: u32, s: CPUState, t: CPUState, r: Result<(), VmError>) -> bool {
        match self {
            ExtensionA::LRW(v) => v.effect(inst, s, t, r),
            ExtensionA::SCW(v) => v.effect(inst, s, t, r),
        }
    }

    fn match_inst(&self, inst: rv32::Word) -> (r: bool) {
        match self {
            ExtensionA::LRW(v) => v.match_inst(inst),
            ExtensionA::SCW(v) => v.match_inst(inst),
        }
    }

    fn step(&self, inst: GenInstruction, state: &mut CPUState) -> (r: Result<(), VmError>) {
        match self {
            ExtensionA::LRW(v) => v.step(inst, state),
            ExtensionA::SCW(v) => v.step(inst, state),
        }
    }
}

impl InstructionSet for ExtensionA {
    open spec fn variants() -> Seq<ExtensionA> {
        seq![
            ExtensionA::LRW(LRW),
            ExtensionA::SCW(SCW),
        ]
    }

    fn iter() -> (r: Vec<ExtensionA>) {
        let r = vec![
            ExtensionA::LRW(LRW),
            ExtensionA::SCW(SCW),
        ];
        assert(r@ =~= Self::variants());
        r
    }
}

} // verus!
