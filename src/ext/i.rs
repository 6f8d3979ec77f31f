//! Base integer instruction set.
//!
//! Control-flow variants store their target less one word: the core adds a
//! word to `pc` after every executed instruction.
use vstd::prelude::*;

use crate::bits::{match_mask, template_matches};
use crate::cpu::{raise_illegal, raises_illegal, reg, same_csrs, write_reg, writes_reg, CPUState};
use crate::err::VmError;
use crate::ext::encoding::{
    b_imm_of, funct3_of, funct7_of, i_imm_of, rd_of, rs1_of, rs2_of, s_imm_of, u_imm_of, j_imm_of,
    GenInstruction, ImmediateMode, Instruction, InstructionSet,
};
use crate::helpers::{sext, sext_spec, wadd, wsub};
use crate::system::rv32;

verus! {

/// Arithmetic shift right: the vacated high bits copy the sign bit.
pub open spec fn sra(a: u32, sh: u32) -> u32 {
    if a >> 31u32 == 1 {
        !((!a) >> sh)
    } else {
        a >> sh
    }
}

/// Signed comparison of two words.
pub open spec fn lt_signed(a: u32, b: u32) -> bool {
    (a as i32) < (b as i32)
}

/// The outcome of a conditional branch with selector `f3` on `a` and `b`;
/// `None` for a selector that names no branch.
pub open spec fn branch_cond(f3: u32, a: u32, b: u32) -> Option<bool> {
    if f3 == 0 {
        Some(a == b)
    } else if f3 == 1 {
        Some(a != b)
    } else if f3 == 4 {
        Some(lt_signed(a, b))
    } else if f3 == 5 {
        Some(!lt_signed(a, b))
    } else if f3 == 6 {
        Some(a < b)
    } else if f3 == 7 {
        Some(a >= b)
    } else {
        None
    }
}

/// Width in bytes of the load with selector `f3`; 0 for none.
pub open spec fn load_width(f3: u32) -> int {
    if f3 == 0 || f3 == 4 {
        1
    } else if f3 == 1 || f3 == 5 {
        2
    } else if f3 == 2 {
        4
    } else {
        0
    }
}

/// The register value of a load with selector `f3` that read `v`.
pub open spec fn load_extend(f3: u32, v: u32) -> u32 {
    if f3 == 0 {
        sext_spec(v, 8)
    } else if f3 == 1 {
        sext_spec(v, 16)
    } else {
        v
    }
}

/// Width in bytes of the store with selector `f3`; 0 for none.
pub open spec fn store_width(f3: u32) -> int {
    if f3 == 0 {
        1
    } else if f3 == 1 {
        2
    } else if f3 == 2 {
        4
    } else {
        0
    }
}

/// Register-immediate operation with selector `f3`; `None` when there is none.
pub open spec fn imm_op(f3: u32, a: u32, imm: u32) -> Option<u32> {
    if f3 == 0 {
        Some(wadd(a, imm))
    } else if f3 == 2 {
        Some(if lt_signed(a, imm) { 1u32 } else { 0u32 })
    } else if f3 == 3 {
        Some(if a < imm { 1u32 } else { 0u32 })
    } else if f3 == 4 {
        Some(a ^ imm)
    } else if f3 == 6 {
        Some(a | imm)
    } else if f3 == 7 {
        Some(a & imm)
    } else {
        None
    }
}

/// Shift by an immediate amount; `None` when the selectors name no shift.
pub open spec fn shift_op(f3: u32, f7: u32, a: u32, shamt: u32) -> Option<u32> {
    if f3 == 1 {
        Some(a << shamt)
    } else if f3 == 5 && f7 == 0 {
        Some(a >> shamt)
    } else if f3 == 5 && f7 == 0x20 {
        Some(sra(a, shamt))
    } else {
        None
    }
}

/// Register-register operation; `None` when the selectors name none.
pub open spec fn reg_op(f3: u32, f7: u32, a: u32, b: u32) -> Option<u32> {
    if f3 == 0 && f7 == 0 {
        Some(wadd(a, b))
    } else if f3 == 0 && f7 == 0x20 {
        Some(wsub(a, b))
    } else if f3 == 1 {
        Some(a << (b & 0x1f))
    } else if f3 == 2 {
        Some(if lt_signed(a, b) { 1u32 } else { 0u32 })
    } else if f3 == 3 {
        Some(if a < b { 1u32 } else { 0u32 })
    } else if f3 == 4 {
        Some(a ^ b)
    } else if f3 == 5 && f7 == 0 {
        Some(a >> (b & 0x1f))
    } else if f3 == 5 && f7 == 0x20 {
        Some(sra(a, b & 0x1f))
    } else if f3 == 6 {
        Some(a | b)
    } else if f3 == 7 {
        Some(a & b)
    } else {
        None
    }
}

/// `t` is `s` with only the program counter changed, to `pc`.
pub open spec fn jumps(s: CPUState, t: CPUState, pc: u32) -> bool {
    &&& same_csrs(s, t)
    &&& t.x == s.x
    &&& t.trap == s.trap
    &&& t.bus == s.bus
    &&& t.pc == pc
}

/// `t` is `s` with register `rd` set to `v` and the program counter to `pc`.
pub open spec fn links(s: CPUState, t: CPUState, rd: u32, v: u32, pc: u32) -> bool {
    &&& same_csrs(s, t)
    &&& t.x@ == s.x@.update(rd as int, v)
    &&& t.trap == s.trap
    &&& t.bus == s.bus
    &&& t.pc == pc
}

/// The effect of an instruction that computes `v` for `rd`, or traps on `None`.
pub open spec fn computes(s: CPUState, t: CPUState, rd: u32, v: Option<u32>) -> bool {
    match v {
        Some(v) => writes_reg(s, t, rd, v),
        None => raises_illegal(s, t),
    }
}

fn sra_exec(a: u32, sh: u32) -> (r: u32)
    requires
        sh < 32,
    ensures
        r == sra(a, sh),
{
    if a >> 31u32 == 1 {
        !((!a) >> sh)
    } else {
        a >> sh
    }
}

fn lt_signed_exec(a: u32, b: u32) -> (r: bool)
    ensures
        r == lt_signed(a, b),
{
    (a as i32) < (b as i32)
}

/// Load Upper Immediate: `rd = imm << 12`.
#[derive(Clone, Copy, Debug, PartialEq, Eq, Structural)]
pub struct LUI;

impl Instruction for LUI {
    open spec fn matches(&self, inst: u32) -> bool {
        template_matches(inst, "xxxxxxxxxxxxxxxxxxxxxxxxx0110111"@)
    }

    open spec fn effect(&self, inst: u32, s: CPUState, t: CPUState, r: Result<(), VmError>) -> bool {
        r == Ok::<(), VmError>(()) && writes_reg(s, t, rd_of(inst), u_imm_of(inst) << 12u32)
    }

    fn match_inst(&self, inst: rv32::Word) -> (r: bool) {
        proof {
            reveal_strlit("xxxxxxxxxxxxxxxxxxxxxxxxx0110111");
        }
        match_mask(inst, "xxxxxxxxxxxxxxxxxxxxxxxxx0110111")
    }

    fn step(&self, inst: GenInstruction, state: &mut CPUState) -> (r: Result<(), VmError>) {
        let u = inst.u();
        let val = u.full_imm() << 12u32;
        write_reg(state, u.rd(), val);
        Ok(())
    }
}

/// Add Upper Immediate to PC: `rd = pc + (imm << 12)`.
#[derive(Clone, Copy, Debug, PartialEq, Eq, Structural)]
pub struct AUIPC;

impl Instruction for AUIPC {
    open spec fn matches(&self, inst: u32) -> bool {
        template_matches(inst, "xxxxxxxxxxxxxxxxxxxxxxxxx0010111"@)
    }

    open spec fn effect(&self, inst: u32, s: CPUState, t: CPUState, r: Result<(), VmError>) -> bool {
        r == Ok::<(), VmError>(()) && writes_reg(
            s,
            t,
            rd_of(inst),
            wadd(s.pc, u_imm_of(inst) << 12u32),
        )
    }

    fn match_inst(&self, inst: rv32::Word) -> (r: bool) {
        proof {
            reveal_strlit("xxxxxxxxxxxxxxxxxxxxxxxxx0010111");
        }
        match_mask(inst, "xxxxxxxxxxxxxxxxxxxxxxxxx0010111")
    }

    fn step(&self, inst: GenInstruction, state: &mut CPUState) -> (r: Result<(), VmError>) {
        let u = inst.u();
        let val = u.full_imm() << 12u32;
        let pc_add = state.pc.wrapping_add(val);
        write_reg(state, u.rd(), pc_add);
        Ok(())
    }
}

/// Jump and Link: `rd = pc + 4`, then jump by the signed offset.
#[derive(Clone, Copy, Debug, PartialEq, Eq, Structural)]
pub struct JAL;

impl Instruction for JAL {
    open spec fn matches(&self, inst: u32) -> bool {
        template_matches(inst, "xxxxxxxxxxxxxxxxxxxxxxxxx1101111"@)
    }

    open spec fn effect(&self, inst: u32, s: CPUState, t: CPUState, r: Result<(), VmError>) -> bool {
        r == Ok::<(), VmError>(()) && links(
            s,
            t,
            rd_of(inst),
            wadd(s.pc, 4),
            wsub(wadd(s.pc, sext_spec(j_imm_of(inst), 20) << 1u32), 4),
        )
    }

    fn match_inst(&self, inst: rv32::Word) -> (r: bool) {
        proof {
            reveal_strlit("xxxxxxxxxxxxxxxxxxxxxxxxx1101111");
        }
        match_mask(inst, "xxxxxxxxxxxxxxxxxxxxxxxxx1101111")
    }

    fn step(&self, inst: GenInstruction, state: &mut CPUState) -> (r: Result<(), VmError>) {
        let j = inst.j();
        let offset = j.sext_imm() << 1u32;
        let pc = offset.wrapping_add(state.pc);
        write_reg(state, j.rd(), state.pc.wrapping_add(rv32::WORD as u32));
        state.pc = pc.wrapping_sub(4);
        Ok(())
    }
}

/// Jump and Link Register: `rd = pc + 4`, then jump to `(rs1 + imm)` with
/// bit 0 cleared.
#[derive(Clone, Copy, Debug, PartialEq, Eq, Structural)]
pub struct JALR;

impl Instruction for JALR {
    open spec fn matches(&self, inst: u32) -> bool {
        template_matches(inst, "xxxxxxxxxxxxxxxxx000xxxxx1100111"@)
    }

    open spec fn effect(&self, inst: u32, s: CPUState, t: CPUState, r: Result<(), VmError>) -> bool {
        r == Ok::<(), VmError>(()) && links(
            s,
            t,
            rd_of(inst),
            wadd(s.pc, 4),
            wsub(wadd(reg(s, rs1_of(inst)), sext_spec(i_imm_of(inst), 12)) & !1u32, 4),
        )
    }

    fn match_inst(&self, inst: rv32::Word) -> (r: bool) {
        proof {
            reveal_strlit("xxxxxxxxxxxxxxxxx000xxxxx1100111");
        }
        match_mask(inst, "xxxxxxxxxxxxxxxxx000xxxxx1100111")
    }

    fn step(&self, inst: GenInstruction, state: &mut CPUState) -> (r: Result<(), VmError>) {
        let i = inst.i();
        let offset = i.sext_imm();
        let target = offset.wrapping_add(state.x[i.rs1() as usize]) & !1u32;
        write_reg(state, i.rd(), state.pc.wrapping_add(rv32::WORD as u32));
        state.pc = target.wrapping_sub(4);
        Ok(())
    }
}

/// Conditional branches BEQ, BNE, BLT, BGE, BLTU and BGEU, told apart by
/// `funct3`.
#[derive(Clone, Copy, Debug, PartialEq, Eq, Structural)]
pub struct BRANCH;

impl Instruction for BRANCH {
    open spec fn matches(&self, inst: u32) -> bool {
        template_matches(inst, "xxxxxxxxxxxxxxxxxxxxxxxxx1100011"@)
    }

    open spec fn effect(&self, inst: u32, s: CPUState, t: CPUState, r: Result<(), VmError>) -> bool {
        &&& r == Ok::<(), VmError>(())
        &&& match branch_cond(funct3_of(inst), reg(s, rs1_of(inst)), reg(s, rs2_of(inst))) {
            None => raises_illegal(s, t),
            Some(taken) => if taken {
                jumps(s, t, wsub(wadd(s.pc, sext_spec(b_imm_of(inst), 12) << 1u32), 4))
            } else {
                t == s
            },
        }
    }

    fn match_inst(&self, inst: rv32::Word) -> (r: bool) {
        proof {
            reveal_strlit("xxxxxxxxxxxxxxxxxxxxxxxxx1100011");
        }
        match_mask(inst, "xxxxxxxxxxxxxxxxxxxxxxxxx1100011")
    }

    fn step(&self, inst: GenInstruction, state: &mut CPUState) -> (r: Result<(), VmError>) {
        let b = inst.b();
        let target = state.pc.wrapping_add(b.sext_imm() << 1u32).wrapping_sub(4);
        let a = state.x[b.rs1() as usize];
        let c = state.x[b.rs2() as usize];
        let f3 = b.funct3();
        let taken = if f3 == 0b000 {
            a == c
        } else if f3 == 0b001 {
            a != c
        } else if f3 == 0b100 {
            lt_signed_exec(a, c)
        } else if f3 == 0b101 {
            !lt_signed_exec(a, c)
        } else if f3 == 0b110 {
            a < c
        } else if f3 == 0b111 {
            a >= c
        } else {
            raise_illegal(state);
            return Ok(());
        };
        if taken {
            state.pc = target;
        }
        Ok(())
    }
}

/// Loads LB, LH, LW, LBU and LHU, told apart by `funct3`.
#[derive(Clone, Copy, Debug, PartialEq, Eq, Structural)]
pub struct LOAD;

impl Instruction for LOAD {
    open spec fn matches(&self, inst: u32) -> bool {
        template_matches(inst, "xxxxxxxxxxxxxxxxxxxxxxxxx0000011"@)
    }

    open spec fn effect(&self, inst: u32, s: CPUState, t: CPUState, r: Result<(), VmError>) -> bool {
        let f3 = funct3_of(inst);
        let addr = wadd(reg(s, rs1_of(inst)), sext_spec(i_imm_of(inst), 12));
        let w = load_width(f3);
        if w == 0 || f3 == 6 {
            r == Ok::<(), VmError>(()) && raises_illegal(s, t)
        } else {
            match s.bus.load_result(addr, w) {
                Err(e) => r == Err::<(), VmError>(e) && t == s,
                Ok(v) => {
                    &&& r == Ok::<(), VmError>(())
                    &&& s.bus.loaded(t.bus, addr, w)
                    &&& same_csrs(s, t)
                    &&& t.pc == s.pc
                    &&& t.trap == s.trap
                    &&& t.x@ == s.x@.update(rd_of(inst) as int, load_extend(f3, v))
                },
            }
        }
    }

    fn match_inst(&self, inst: rv32::Word) -> (r: bool) {
        proof {
            reveal_strlit("xxxxxxxxxxxxxxxxxxxxxxxxx0000011");
        }
        match_mask(inst, "xxxxxxxxxxxxxxxxxxxxxxxxx0000011")
    }

    fn step(&self, inst: GenInstruction, state: &mut CPUState) -> (r: Result<(), VmError>) {
        let i = inst.i();
        let offset = i.sext_imm();
        let addr = state.x[i.rs1() as usize].wrapping_add(offset);
        let f3 = i.funct3();
        let v = if f3 == 0b000 {
            sext(state.bus.load_8(addr)? as u32, 8)
        } else if f3 == 0b001 {
            sext(state.bus.load_16(addr)? as u32, 16)
        } else if f3 == 0b010 {
            state.bus.load_32(addr)?
        } else if f3 == 0b100 {
            state.bus.load_8(addr)? as u32
        } else if f3 == 0b101 {
            state.bus.load_16(addr)? as u32
        } else {
            raise_illegal(state);
            return Ok(());
        };
        write_reg(state, i.rd(), v);
        Ok(())
    }
}

/// Stores SB, SH and SW, told apart by `funct3`.
#[derive(Clone, Copy, Debug, PartialEq, Eq, Structural)]
pub struct STORE;

impl Instruction for STORE {
    open spec fn matches(&self, inst: u32) -> bool {
        template_matches(inst, "xxxxxxxxxxxxxxxxxxxxxxxxx0100011"@)
    }

    open spec fn effect(&self, inst: u32, s: CPUState, t: CPUState, r: Result<(), VmError>) -> bool {
        let f3 = funct3_of(inst);
        let addr = wadd(reg(s, rs1_of(inst)), sext_spec(s_imm_of(inst), 12));
        let w = store_width(f3);
        if w == 0 {
            r == Ok::<(), VmError>(()) && raises_illegal(s, t)
        } else {
            &&& s.bus.stored(t.bus, addr, w, reg(s, rs2_of(inst)), r)
            &&& same_csrs(s, t)
            &&& t.pc == s.pc
            &&& t.trap == s.trap
            &&& t.x == s.x
        }
    }

    fn match_inst(&self, inst: rv32::Word) -> (r: bool) {
        proof {
            reveal_strlit("xxxxxxxxxxxxxxxxxxxxxxxxx0100011");
        }
        match_mask(inst, "xxxxxxxxxxxxxxxxxxxxxxxxx0100011")
    }

    fn step(&self, inst: GenInstruction, state: &mut CPUState) -> (r: Result<(), VmError>) {
        let st = inst.s();
        let offset = st.sext_imm();
        let addr = state.x[st.rs1() as usize].wrapping_add(offset);
        let v = state.x[st.rs2() as usize];
        let f3 = st.funct3();
        if f3 == 0b000 {
            state.bus.store_8(addr, v as u8)
        } else if f3 == 0b001 {
            state.bus.store_16(addr, v as u16)
        } else if f3 == 0b010 {
            state.bus.store_32(addr, v)
        } else {
            raise_illegal(state);
            Ok(())
        }
    }
}

/// Register-immediate operations ADDI, SLTI, SLTIU, XORI, ORI and ANDI.
#[derive(Clone, Copy, Debug, PartialEq, Eq, Structural)]
pub struct IMM;

impl Instruction for IMM {
    open spec fn matches(&self, inst: u32) -> bool {
        ||| template_matches(inst, "xxxxxxxxxxxxxxxxx000xxxxx0010011"@)
        ||| template_matches(inst, "xxxxxxxxxxxxxxxxx010xxxxx0010011"@)
        ||| template_matches(inst, "xxxxxxxxxxxxxxxxx011xxxxx0010011"@)
        ||| template_matches(inst, "xxxxxxxxxxxxxxxxx100xxxxx0010011"@)
        ||| template_matches(inst, "xxxxxxxxxxxxxxxxx110xxxxx0010011"@)
        ||| template_matches(inst, "xxxxxxxxxxxxxxxxx111xxxxx0010011"@)
    }

    open spec fn effect(&self, inst: u32, s: CPUState, t: CPUState, r: Result<(), VmError>) -> bool {
        r == Ok::<(), VmError>(()) && computes(
            s,
            t,
            rd_of(inst),
            imm_op(funct3_of(inst), reg(s, rs1_of(inst)), sext_spec(i_imm_of(inst), 12)),
        )
    }

    fn match_inst(&self, inst: rv32::Word) -> (r: bool) {
        proof {
            reveal_strlit("xxxxxxxxxxxxxxxxx000xxxxx0010011");
            reveal_strlit("xxxxxxxxxxxxxxxxx010xxxxx0010011");
            reveal_strlit("xxxxxxxxxxxxxxxxx011xxxxx0010011");
            reveal_strlit("xxxxxxxxxxxxxxxxx100xxxxx0010011");
            reveal_strlit("xxxxxxxxxxxxxxxxx110xxxxx0010011");
            reveal_strlit("xxxxxxxxxxxxxxxxx111xxxxx0010011");
        }
        match_mask(inst, "xxxxxxxxxxxxxxxxx000xxxxx0010011") || match_mask(
            inst,
            "xxxxxxxxxxxxxxxxx010xxxxx0010011",
        ) || match_mask(inst, "xxxxxxxxxxxxxxxxx011xxxxx0010011") || match_mask(
            inst,
            "xxxxxxxxxxxxxxxxx100xxxxx0010011",
        ) || match_mask(inst, "xxxxxxxxxxxxxxxxx110xxxxx0010011") || match_mask(
            inst,
            "xxxxxxxxxxxxxxxxx111xxxxx0010011",
        )
    }

    fn step(&self, inst: GenInstruction, state: &mut CPUState) -> (r: Result<(), VmError>) {
        let i = inst.i();
        let rs1 = state.x[i.rs1() as usize];
        let imm = i.sext_imm();
        let f3 = i.funct3();
        let retval = if f3 == 0b000 {
            rs1.wrapping_add(imm)
        } else if f3 == 0b010 {
            if lt_signed_exec(rs1, imm) {
                1
            } else {
                0
            }
        } else if f3 == 0b011 {
            if rs1 < imm {
                1
            } else {
                0
            }
        } else if f3 == 0b100 {
            rs1 ^ imm
        } else if f3 == 0b110 {
            rs1 | imm
        } else if f3 == 0b111 {
            rs1 & imm
        } else {
            raise_illegal(state);
            return Ok(());
        };
        write_reg(state, i.rd(), retval);
        Ok(())
    }
}

/// Shifts by an immediate amount SLLI, SRLI and SRAI; the amount sits in the
/// `rs2` field and `funct7` picks logical or arithmetic.
#[derive(Clone, Copy, Debug, PartialEq, Eq, Structural)]
pub struct SHIFTI;

impl Instruction for SHIFTI {
    open spec fn matches(&self, inst: u32) -> bool {
        ||| template_matches(inst, "0x00000xxxxxxxxxx001xxxxx0010011"@)
        ||| template_matches(inst, "0x00000xxxxxxxxxx101xxxxx0010011"@)
    }

    open spec fn effect(&self, inst: u32, s: CPUState, t: CPUState, r: Result<(), VmError>) -> bool {
        r == Ok::<(), VmError>(()) && computes(
            s,
            t,
            rd_of(inst),
            shift_op(funct3_of(inst), funct7_of(inst), reg(s, rs1_of(inst)), rs2_of(inst)),
        )
    }

    fn match_inst(&self, inst: rv32::Word) -> (r: bool) {
        proof {
            reveal_strlit("0x00000xxxxxxxxxx001xxxxx0010011");
            reveal_strlit("0x00000xxxxxxxxxx101xxxxx0010011");
        }
        match_mask(inst, "0x00000xxxxxxxxxx001xxxxx0010011") || match_mask(
            inst,
            "0x00000xxxxxxxxxx101xxxxx0010011",
        )
    }

    fn step(&self, inst: GenInstruction, state: &mut CPUState) -> (r: Result<(), VmError>) {
        let rt = inst.r();
        let shamt = rt.rs2();
        let rs1 = state.x[rt.rs1() as usize];
        let f3 = rt.funct3();
        let f7 = rt.funct7();
        let retval = if f3 == 0b001 {
            rs1 << shamt
        } else if f3 == 0b101 && f7 == 0 {
            rs1 >> shamt
        } else if f3 == 0b101 && f7 == 0b0100000 {
            sra_exec(rs1, shamt)
        } else {
            raise_illegal(state);
            return Ok(());
        };
        write_reg(state, rt.rd(), retval);
        Ok(())
    }
}

/// Register-register operations ADD, SUB, SLL, SLT, SLTU, XOR, SRL, SRA, OR
/// and AND.
#[derive(Clone, Copy, Debug, PartialEq, Eq, Structural)]
pub struct OP;

impl Instruction for OP {
    open spec fn matches(&self, inst: u32) -> bool {
        template_matches(inst, "0x00000xxxxxxxxxxxxxxxxxx0110011"@)
    }

    open spec fn effect(&self, inst: u32, s: CPUState, t: CPUState, r: Result<(), VmError>) -> bool {
        r == Ok::<(), VmError>(()) && computes(
            s,
            t,
            rd_of(inst),
            reg_op(funct3_of(inst), funct7_of(inst), reg(s, rs1_of(inst)), reg(s, rs2_of(inst))),
        )
    }

    fn match_inst(&self, inst: rv32::Word) -> (r: bool) {
        proof {
            reveal_strlit("0x00000xxxxxxxxxxxxxxxxxx0110011");
        }
        match_mask(inst, "0x00000xxxxxxxxxxxxxxxxxx0110011")
    }

    fn step(&self, inst: GenInstruction, state: &mut CPUState) -> (r: Result<(), VmError>) {
        let rt = inst.r();
        let rs1 = state.x[rt.rs1() as usize];
        let rs2 = state.x[rt.rs2() as usize];
        let f3 = rt.funct3();
        let f7 = rt.funct7();
        let sh = rs2 & 0x1f;
        assert(rs2 & 0x1f < 32) by (bit_vector);
        let retval = if f3 == 0b000 && f7 == 0 {
            rs1.wrapping_add(rs2)
        } else if f3 == 0b000 && f7 == 0b0100000 {
            rs1.wrapping_sub(rs2)
        } else if f3 == 0b001 {
            rs1 << sh
        } else if f3 == 0b010 {
            if lt_signed_exec(rs1, rs2) {
                1
            } else {
                0
            }
        } else if f3 == 0b011 {
            if rs1 < rs2 {
                1
            } else {
                0
            }
        } else if f3 == 0b100 {
            rs1 ^ rs2
        } else if f3 == 0b101 && f7 == 0 {
            rs1 >> sh
        } else if f3 == 0b101 && f7 == 0b0100000 {
            sra_exec(rs1, sh)
        } else if f3 == 0b110 {
            rs1 | rs2
        } else if f3 == 0b111 {
            rs1 & rs2
        } else {
            raise_illegal(state);
            return Ok(());
        };
        write_reg(state, rt.rd(), retval);
        Ok(())
    }
}

/// The base integer instruction set, in the order its variants are tried.
#[derive(Clone, Copy, Debug, PartialEq, Eq, Structural)]
pub enum ExtensionI {
    LUI(LUI),
    AUIPC(AUIPC),
    JAL(JAL),
    JALR(JALR),
    BRANCH(BRANCH),
    LOAD(LOAD),
    STORE(STORE),
    IMM(IMM),
    SHIFTI(SHIFTI),
    OP(OP),
}

impl Instruction for ExtensionI {
    open spec fn matches(&self, inst: u32) -> bool {
        match self {
            ExtensionI::LUI(v) => v.matches(inst),
            ExtensionI::AUIPC(v) => v.matches(inst),
            ExtensionI::JAL(v) => v.matches(inst),
            ExtensionI::JALR(v) => v.matches(inst),
            ExtensionI::BRANCH(v) => v.matches(inst),
            ExtensionI::LOAD(v) => v.matches(inst),
            ExtensionI::STORE(v) => v.matches(inst),
            ExtensionI::IMM(v) => v.matches(inst),
            ExtensionI::SHIFTI(v) => v.matches(inst),
            ExtensionI::OP(v) => v.matches(inst),
        }
    }

    open spec fn effect(&self, inst: u32, s: CPUState, t: CPUState, r: Result<(), VmError>) -> bool {
        match self {
            ExtensionI::LUI(v) => v.effect(inst, s, t, r),
            ExtensionI::AUIPC(v) => v.effect(inst, s, t, r),
            ExtensionI::JAL(v) => v.effect(inst, s, t, r),
            ExtensionI::JALR(v) => v.effect(inst, s, t, r),
            ExtensionI::BRANCH(v) => v.effect(inst, s, t, r),
            ExtensionI::LOAD(v) => v.effect(inst, s, t, r),
            ExtensionI::STORE(v) => v.effect(inst, s, t, r),
            ExtensionI::IMM(v) => v.effect(inst, s, t, r),
            ExtensionI::SHIFTI(v) => v.effect(inst, s, t, r),
            ExtensionI::OP(v) => v.effect(inst, s, t, r),
        }
    }

    fn match_inst(&self, inst: rv32::Word) -> (r: bool) {
        match self {
            ExtensionI::LUI(v) => v.match_inst(inst),
            ExtensionI::AUIPC(v) => v.match_inst(inst),
            ExtensionI::JAL(v) => v.match_inst(inst),
            ExtensionI::JALR(v) => v.match_inst(inst),
            ExtensionI::BRANCH(v) => v.match_inst(inst),
            ExtensionI::LOAD(v) => v.match_inst(inst),
            ExtensionI::STORE(v) => v.match_inst(inst),
            ExtensionI::IMM(v) => v.match_inst(inst),
            ExtensionI::SHIFTI(v) => v.match_inst(inst),
            ExtensionI::OP(v) => v.match_inst(inst),
        }
    }

    fn step(&self, inst: GenInstruction, state: &mut CPUState) -> (r: Result<(), VmError>) {
        match self {
            ExtensionI::LUI(v) => v.step(inst, state),
            ExtensionI::AUIPC(v) => v.step(inst, state),
            ExtensionI::JAL(v) => v.step(inst, state),
            ExtensionI::JALR(v) => v.step(inst, state),
            ExtensionI::BRANCH(v) => v.step(inst, state),
            ExtensionI::LOAD(v) => v.step(inst, state),
            ExtensionI::STORE(v) => v.step(inst, state),
            ExtensionI::IMM(v) => v.step(inst, state),
            ExtensionI::SHIFTI(v) => v.step(inst, state),
            ExtensionI::OP(v) => v.step(inst, state),
        }
    }
}

impl InstructionSet for ExtensionI {
    open spec fn variants() -> Seq<ExtensionI> {
        seq![
            ExtensionI::LUI(LUI),
            ExtensionI::AUIPC(AUIPC),
            ExtensionI::JAL(JAL),
            ExtensionI::JALR(JALR),
            ExtensionI::BRANCH(BRANCH),
            ExtensionI::LOAD(LOAD),
            ExtensionI::STORE(STORE),
            ExtensionI::IMM(IMM),
            ExtensionI::SHIFTI(SHIFTI),
            ExtensionI::OP(OP),
        ]
    }

    fn iter() -> (r: Vec<ExtensionI>) {
        let r = vec![
            ExtensionI::LUI(LUI),
            ExtensionI::AUIPC(AUIPC),
            ExtensionI::JAL(JAL),
            ExtensionI::JALR(JALR),
            ExtensionI::BRANCH(BRANCH),
            ExtensionI::LOAD(LOAD),
            ExtensionI::STORE(STORE),
            ExtensionI::IMM(IMM),
            ExtensionI::SHIFTI(SHIFTI),
            ExtensionI::OP(OP),
        ];
        assert(r@ =~= Self::variants());
        r
    }
}

} // verus!
