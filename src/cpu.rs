//! The hart: architectural state and the per-step state machine.
use vstd::prelude::*;

use crate::err::VmError;
use crate::ext::decode::{dispatch, lemma_base_search_by_opcode, DecodeCycle, Found};
use crate::ext::encoding::{b_imm_of, funct3_of, j_imm_of, rd_of, rs1_of, rs2_of};
use crate::ext::i::{ExtensionI, BRANCH, JAL};
use crate::helpers::{sext_spec, wadd, wsub};
use crate::system::bus::{in_uart, Bus, DRAM_BASE, DRAM_SIZE, DRAM_TOP};
use crate::system::rv32;

verus! {

/// Trap signal raised by an unrecognised function selector.
pub const TRAP_ILLEGAL: u32 = 3;

/// Trap signal of the machine timer interrupt.
pub const TIMER_INTERRUPT: u32 = 0x8000_0007;

/// Set in a trap signal that is an interrupt.
pub const INTERRUPT_BIT: u32 = 0x8000_0000;

/// Machine timer interrupt bit of `mip` and `mie`.
pub const MIP_MTIP: u32 = 0x80;

/// Global interrupt enable bit of `mstatus`.
pub const MSTATUS_MIE: u32 = 0x8;

/// Wait-for-interrupt bit of `extraflags`.
pub const WFI_FLAG: u32 = 0x4;

/// Privilege bits of `extraflags`; both set is machine mode.
pub const PRIV_MASK: u32 = 0x3;

/// Vendor identifier reported by the hart.
pub const VENDOR_ID: u32 = 0x69_6969;

/// Architecture identifier reported by the hart.
pub const ARCH_ID: u32 = 0x28_5700;

// Register ABI         Description             Saver
// x0       zero        Zero                    Immutable
// x1       ra          Return address          Callee
// x2       sp          Stack pointer           Callee
// x3       gp          Global pointer          —
// x4       tp          Thread pointer          —
// x5       t0          Temporary link          Caller
// x6-x7    t1-t2       Temporaries             Caller
// x8       s0 / fp     Saved / frame pointer   Callee
// x9       s1          Saved register          Callee
// x10-x11  a0-a1       Fn args/return values   Caller
// x12-x17  a2-a7       Fn args                 Caller
// x18-x27  s2-s11      Saved registers         Callee
// x28-x31  t3-t6       Temporaries             Caller
/// Registers, program counter, CSRs and the bus that one step works on.
pub struct CPUState {
    pub x: [rv32::Word; 32],
    pub pc: rv32::Word,
    /// Trap raised while executing (0: none); consumed at the end of the step.
    pub trap: rv32::Word,
    pub bus: Bus,
    /// Machine status: bit 3 enables interrupts, bit 7 keeps the previous
    /// enable, bits 11-12 the previous privilege.
    pub mstatus: rv32::Word,
    pub cyclel: rv32::Word,
    pub cycleh: rv32::Word,
    pub timel: rv32::Word,
    pub timeh: rv32::Word,
    pub timecmpl: rv32::Word,
    pub timecmph: rv32::Word,
    pub mvendorid: rv32::Word,
    pub marchid: rv32::Word,
    pub mimpid: rv32::Word,
    pub mhartid: rv32::Word,
    pub mscratch: rv32::Word,
    pub mtvec: rv32::Word,
    pub mie: rv32::Word,
    pub mip: rv32::Word,
    pub mepc: rv32::Word,
    pub mtval: rv32::Word,
    pub mcause: rv32::Word,
    /// Bits 0-1: privilege (3 = machine); bit 2: waiting for an interrupt;
    /// bits 3 and up: the load-reserved address.
    pub extraflags: rv32::Word,
}

/// Register `i` of `s`.
pub open spec fn reg(s: CPUState, i: u32) -> u32 {
    s.x@[i as int]
}

/// `s` and `t` hold the same CSRs and flags.
pub open spec fn same_csrs(s: CPUState, t: CPUState) -> bool {
    same_csrs_but_flags(s, t) && t.extraflags == s.extraflags
}

/// `s` and `t` hold the same CSRs; `extraflags` may differ.
pub open spec fn same_csrs_but_flags(s: CPUState, t: CPUState) -> bool {
    &&& t.mstatus == s.mstatus
    &&& t.cyclel == s.cyclel
    &&& t.cycleh == s.cycleh
    &&& t.timel == s.timel
    &&& t.timeh == s.timeh
    &&& t.timecmpl == s.timecmpl
    &&& t.timecmph == s.timecmph
    &&& t.mvendorid == s.mvendorid
    &&& t.marchid == s.marchid
    &&& t.mimpid == s.mimpid
    &&& t.mhartid == s.mhartid
    &&& t.mscratch == s.mscratch
    &&& t.mtvec == s.mtvec
    &&& t.mie == s.mie
    &&& t.mip == s.mip
    &&& t.mepc == s.mepc
    &&& t.mtval == s.mtval
    &&& t.mcause == s.mcause
}

/// CSRs that only instructions change: the configuration and identity
/// registers.
pub open spec fn same_config(s: CPUState, t: CPUState) -> bool {
    &&& t.timecmpl == s.timecmpl
    &&& t.timecmph == s.timecmph
    &&& t.mvendorid == s.mvendorid
    &&& t.marchid == s.marchid
    &&& t.mimpid == s.mimpid
    &&& t.mhartid == s.mhartid
    &&& t.mscratch == s.mscratch
    &&& t.mtvec == s.mtvec
    &&& t.mie == s.mie
}

/// The 64-bit counter whose high word is `hi` and low word `lo`.
pub open spec fn join64(hi: u32, lo: u32) -> u64 {
    ((hi as u64) << 32u64) | (lo as u64)
}

/// `a + b` modulo 2^64.
pub open spec fn wadd64(a: u64, b: u64) -> u64 {
    if a + b > u64::MAX {
        (a + b - 0x1_0000_0000_0000_0000) as u64
    } else {
        (a + b) as u64
    }
}

/// The timer has reached a comparator that is set (not zero).
pub open spec fn timer_due(timel: u32, timeh: u32, cmpl: u32, cmph: u32) -> bool {
    timel >= cmpl && timeh >= cmph && !(cmpl == 0 && cmph == 0)
}

/// `t` is `s` with the 64-bit timer advanced by `elapsed` and the timer
/// interrupt recomputed: when due, `mip` bit 7 is set and the wait flag
/// cleared; otherwise `mip` bit 7 is cleared.
pub open spec fn timer_updated(s: CPUState, t: CPUState, elapsed: u64) -> bool {
    let n = wadd64(join64(s.timeh, s.timel), elapsed);
    let due = timer_due(n as u32, (n >> 32u64) as u32, s.timecmpl, s.timecmph);
    &&& join64(t.timeh, t.timel) == n
    &&& t.mip == if due {
        s.mip | MIP_MTIP
    } else {
        s.mip & !MIP_MTIP
    }
    &&& t.extraflags == if due {
        s.extraflags & !WFI_FLAG
    } else {
        s.extraflags
    }
    &&& same_config(s, t)
    &&& t.mstatus == s.mstatus
    &&& t.cyclel == s.cyclel
    &&& t.cycleh == s.cycleh
    &&& t.mepc == s.mepc
    &&& t.mtval == s.mtval
    &&& t.mcause == s.mcause
    &&& t.pc == s.pc
    &&& t.trap == s.trap
}

/// `t` is `s` after entering the trap handler for `trap`, taken at `pc`.
pub open spec fn trap_entered(s: CPUState, t: CPUState, trap: u32, pc: u32) -> bool {
    &&& if trap & INTERRUPT_BIT != 0 {
        t.mcause == trap && t.mtval == 0 && t.mepc == wadd(pc, 4)
    } else {
        &&& t.mcause == wsub(trap, 1)
        &&& t.mtval == if 5 < trap <= 8 {
            0
        } else {
            pc
        }
        &&& t.mepc == pc
    }
    &&& t.mstatus == ((s.mstatus & MSTATUS_MIE) << 4u32) | ((s.extraflags & PRIV_MASK) << 11u32)
    &&& t.extraflags == s.extraflags | PRIV_MASK
    &&& t.pc == s.mtvec
}

/// `t` is `s` at the end of a step whose pending trap is `trap`, with the
/// program counter at `pc`: register 0 cleared, the trap entered if there
/// is one, and the cycle counter advanced by one.
pub open spec fn finished(s: CPUState, t: CPUState, trap: u32, pc: u32) -> bool {
    &&& t.x@ == s.x@.update(0, 0)
    &&& t.bus == s.bus
    &&& t.trap == s.trap
    &&& same_config(s, t)
    &&& t.timel == s.timel
    &&& t.timeh == s.timeh
    &&& t.mip == s.mip
    &&& join64(t.cycleh, t.cyclel) == wadd64(join64(s.cycleh, s.cyclel), 1)
    &&& if trap != 0 {
        trap_entered(s, t, trap, pc)
    } else {
        &&& t.pc == pc
        &&& t.mstatus == s.mstatus
        &&& t.mepc == s.mepc
        &&& t.mtval == s.mtval
        &&& t.mcause == s.mcause
        &&& t.extraflags == s.extraflags
    }
}

/// `t` is `s` with register `rd` set to `v`.
pub open spec fn writes_reg(s: CPUState, t: CPUState, rd: u32, v: u32) -> bool {
    &&& same_csrs(s, t)
    &&& t.pc == s.pc
    &&& t.trap == s.trap
    &&& t.bus == s.bus
    &&& t.x@ == s.x@.update(rd as int, v)
}

/// `t` is `s` with the illegal-instruction trap raised.
pub open spec fn raises_illegal(s: CPUState, t: CPUState) -> bool {
    &&& same_csrs(s, t)
    &&& t.pc == s.pc
    &&& t.trap == TRAP_ILLEGAL
    &&& t.bus == s.bus
    &&& t.x == s.x
}

/// Sets register `rd`; register 0 is cleared by the core after the step.
pub fn write_reg(state: &mut CPUState, rd: u32, v: u32)
    requires
        rd < 32,
    ensures
        writes_reg(*old(state), *final(state), rd, v),
{
    state.x[rd as usize] = v;
}

/// Raises the illegal-instruction trap.
pub fn raise_illegal(state: &mut CPUState)
    ensures
        raises_illegal(*old(state), *final(state)),
{
    state.trap = TRAP_ILLEGAL;
}

proof fn lemma_split64(n: u64)
    by (bit_vector)
    ensures
        join64((n >> 32u64) as u32, n as u32) == n,
{
}

/// Advances the timer by `elapsed` and recomputes the timer interrupt.
fn update_timer(s: &mut CPUState, elapsed: u64)
    ensures
        timer_updated(*old(s), *final(s), elapsed),
        final(s).x == old(s).x,
        final(s).bus == old(s).bus,
{
    let t = ((((s.timeh as u64) << 32u64) | (s.timel as u64)) as u64).wrapping_add(elapsed);
    proof {
        lemma_split64(t);
    }
    s.timel = t as u32;
    s.timeh = (t >> 32u64) as u32;
    if s.timel >= s.timecmpl && s.timeh >= s.timecmph && !(s.timecmpl == 0 && s.timecmph == 0) {
        s.extraflags = s.extraflags & !WFI_FLAG;
        s.mip = s.mip | MIP_MTIP;
    } else {
        s.mip = s.mip & !MIP_MTIP;
    }
}

/// Enters the trap handler for `trap`: records cause, value and return
/// address, stacks the interrupt enable and privilege in `mstatus`, jumps to
/// `mtvec` and switches to machine mode.
fn enter_trap(s: &mut CPUState, trap: u32)
    ensures
        trap_entered(*old(s), *final(s), trap, old(s).pc),
        final(s).x == old(s).x,
        final(s).bus == old(s).bus,
        final(s).trap == old(s).trap,
        same_config(*old(s), *final(s)),
        final(s).timel == old(s).timel,
        final(s).timeh == old(s).timeh,
        final(s).mip == old(s).mip,
        final(s).cyclel == old(s).cyclel,
        final(s).cycleh == old(s).cycleh,
{
    if trap & INTERRUPT_BIT != 0 {
        s.mcause = trap;
        s.mtval = 0;
        s.pc = s.pc.wrapping_add(rv32::WORD as u32);
    } else {
        s.mcause = trap.wrapping_sub(1);
        // No instruction here records a faulting address.
        s.mtval = if trap > 5 && trap <= 8 {
            0
        } else {
            s.pc
        };
    }
    s.mepc = s.pc;
    s.mstatus = ((s.mstatus & MSTATUS_MIE) << 4u32) | ((s.extraflags & PRIV_MASK) << 11u32);
    s.pc = s.mtvec.wrapping_sub(rv32::WORD as u32);
    s.extraflags = s.extraflags | PRIV_MASK;
    s.pc = s.pc.wrapping_add(rv32::WORD as u32);
}

/// Ends a step: clears register 0, enters the trap if `trap` is set and
/// advances the cycle counter.
fn finish(s: &mut CPUState, trap: u32)
    ensures
        finished(*old(s), *final(s), trap, old(s).pc),
{
    s.x[0] = 0;
    if trap != 0 {
        enter_trap(s, trap);
    }
    let c = ((((s.cycleh as u64) << 32u64) | (s.cyclel as u64)) as u64).wrapping_add(1);
    proof {
        lemma_split64(c);
    }
    s.cyclel = c as u32;
    s.cycleh = (c >> 32u64) as u32;
}

/// A step that fetched `w` from `s1`: `s2` is `s1` with the bus as the
/// fetch left it, `s3` and `r3` the state and result of executing `w`, and
/// `t` and `r` the end of the step.
pub open spec fn executes(
    s1: CPUState,
    s2: CPUState,
    s3: CPUState,
    r3: Result<(), VmError>,
    exts: Seq<char>,
    w: u32,
    t: CPUState,
    r: Result<(), VmError>,
) -> bool {
    &&& s1.bus.loaded(s2.bus, s1.pc, 4)
    &&& s2 == CPUState { bus: s2.bus, ..s1 }
    &&& match dispatch(exts, w) {
        None => r3 == Err::<(), VmError>(VmError::NoInstruction) && s3 == s2,
        Some(f) => f.effect(w, s2, s3, r3),
    }
    &&& r3 is Err ==> r == r3 && t == s3
    &&& r3 is Ok ==> r == Ok::<(), VmError>(()) && finished(
        CPUState { pc: wadd(s3.pc, 4), trap: 0, ..s3 },
        t,
        s3.trap,
        wadd(s3.pc, 4),
    )
}

/// What a step does once the timer is updated and register 0 cleared,
/// from `s1` to `t` with result `r`, searching the extensions `exts`.
pub open spec fn runs_from(s1: CPUState, t: CPUState, exts: Seq<char>, r: Result<(), VmError>) -> bool {
    if s1.extraflags & WFI_FLAG != 0 {
        // waiting for an interrupt: nothing runs
        r == Ok::<(), VmError>(()) && t == s1
    } else if s1.mip & MIP_MTIP != 0 && s1.mie & MIP_MTIP != 0 && s1.mstatus & MSTATUS_MIE != 0 {
        // timer interrupt, taken with `pc` rolled back one word
        &&& r == Ok::<(), VmError>(())
        &&& finished(CPUState { pc: wsub(s1.pc, 4), ..s1 }, t, TIMER_INTERRUPT, wsub(s1.pc, 4))
    } else {
        match s1.bus.load_result(s1.pc, 4) {
            Err(e) => r == Err::<(), VmError>(e) && t == s1,
            Ok(w) => exists|s2: CPUState, s3: CPUState, r3: Result<(), VmError>|
                #[trigger] executes(s1, s2, s3, r3, exts, w, t, r),
        }
    }
}

/// One step from `s` to `t` with result `r`, `elapsed` microseconds after
/// the previous one.
pub open spec fn step_spec(s: CPUState, t: CPUState, exts: Seq<char>, elapsed: u64, r: Result<(), VmError>) -> bool {
    exists|s1: CPUState|
        {
            &&& timer_updated(s, s1, elapsed)
            &&& s1.x@ == s.x@.update(0, 0)
            &&& s1.bus == s.bus
            &&& runs_from(s1, t, exts, r)
        }
}

/// A failed execution leaves register 0 as it found it.
proof fn lemma_x0_kept(s2: CPUState, s3: CPUState, exts: Seq<char>, inst: u32, r: Result<(), VmError>)
    requires
        s2.x@[0] == 0,
        match dispatch(exts, inst) {
            None => r == Err::<(), VmError>(VmError::NoInstruction) && s3 == s2,
            Some(f) => f.effect(inst, s2, s3, r),
        },
        r is Err,
    ensures
        s3.x@[0] == 0,
{
}

/// A step that finds the timer past a set comparator, with the timer
/// interrupt enabled in `mie` and interrupts enabled in `mstatus`, takes the
/// timer trap: the cause is the timer interrupt (bit 31 set), `mepc` holds
/// the address of the instruction that was about to run, and `pc` is at the
/// trap vector.
pub proof fn lemma_timer_interrupt_taken(
    s: CPUState,
    t: CPUState,
    exts: Seq<char>,
    elapsed: u64,
    r: Result<(), VmError>,
)
    requires
        step_spec(s, t, exts, elapsed, r),
        s.mie & MIP_MTIP != 0,
        s.mstatus & MSTATUS_MIE != 0,
        ({
            let n = wadd64(join64(s.timeh, s.timel), elapsed);
            timer_due(n as u32, (n >> 32u64) as u32, s.timecmpl, s.timecmph)
        }),
    ensures
        r == Ok::<(), VmError>(()),
        t.mcause == TIMER_INTERRUPT,
        t.mcause & INTERRUPT_BIT != 0,
        t.mtval == 0,
        t.mepc == s.pc,
        t.pc == s.mtvec,
        t.x@ == s.x@.update(0, 0),
        t.bus == s.bus,
        s.x@[0] == 0 ==> t.x == s.x,
{
    let s1 = choose|s1: CPUState|
        {
            &&& timer_updated(s, s1, elapsed)
            &&& s1.x@ == s.x@.update(0, 0)
            &&& s1.bus == s.bus
            &&& runs_from(s1, t, exts, r)
        };
    let (mip, flags) = (s.mip, s.extraflags);
    assert((mip | 0x80u32) & 0x80u32 != 0 && (flags & !4u32) & 4u32 == 0) by (bit_vector);
    assert(0x8000_0007u32 & 0x8000_0000u32 != 0) by (bit_vector);
    if s.x@[0] == 0 {
        assert(t.x@ =~= s.x@);
        assert(t.x == s.x);
    }
}

/// The state after the timer update of a step that cannot take an interrupt
/// or wait: no comparator is set and the wait flag is clear.
proof fn lemma_quiet_timer(s: CPUState, s1: CPUState, elapsed: u64)
    requires
        timer_updated(s, s1, elapsed),
        s.extraflags & WFI_FLAG == 0,
        s.timecmpl == 0 && s.timecmph == 0,
    ensures
        s1.extraflags & WFI_FLAG == 0,
        s1.mip & MIP_MTIP == 0,
        s1.pc == s.pc,
        s1.trap == s.trap,
{
    let mip = s.mip;
    assert((mip & !0x80u32) & 0x80u32 == 0) by (bit_vector);
}

/// A step that runs a JAL (opcode 0x6f) with the base set searched first
/// links `rd` to the next instruction and lands on `pc` plus the offset;
/// `jal x1, 8` lands 8 bytes on with `x1` holding `pc + 4`.
pub proof fn lemma_jal_step(
    s: CPUState,
    t: CPUState,
    exts: Seq<char>,
    elapsed: u64,
    r: Result<(), VmError>,
    w: u32,
)
    requires
        step_spec(s, t, exts, elapsed, r),
        exts.len() > 0 && exts[0] == 'i',
        s.extraflags & WFI_FLAG == 0,
        s.timecmpl == 0 && s.timecmph == 0,
        s.trap == 0,
        !in_uart(s.pc),
        s.bus.load_result(s.pc, 4) == Ok::<u32, VmError>(w),
        w & 0x7f == 0x6f,
    ensures
        r == Ok::<(), VmError>(()),
        t.pc == wadd(s.pc, sext_spec(j_imm_of(w), 20) << 1u32),
        t.x@ == s.x@.update(0, 0).update(rd_of(w) as int, wadd(s.pc, 4)).update(0, 0),
        w == 0x0080_00ef ==> t.pc == wadd(s.pc, 8) && t.x@[1] == wadd(s.pc, 4),
{
    let s1 = choose|s1: CPUState|
        {
            &&& timer_updated(s, s1, elapsed)
            &&& s1.x@ == s.x@.update(0, 0)
            &&& s1.bus == s.bus
            &&& runs_from(s1, t, exts, r)
        };
    lemma_quiet_timer(s, s1, elapsed);
    lemma_base_search_by_opcode(w);
    assert(dispatch(exts, w) == Some(Found::I(ExtensionI::JAL(JAL))));
    let (s2, s3, r3) = choose|s2: CPUState, s3: CPUState, r3: Result<(), VmError>|
        #[trigger] executes(s1, s2, s3, r3, exts, w, t, r);
    assert(s2 == s1);
    assert(rd_of(0x0080_00efu32) == 1 && sext_spec(j_imm_of(0x0080_00efu32), 20) << 1u32 == 8)
        by (bit_vector);
}

/// A step that runs a BEQ (opcode 0x63, funct3 0) with the base set
/// searched first goes to `pc` plus the offset when the two registers hold
/// equal values, and to `pc + 4` otherwise; registers are kept.
pub proof fn lemma_beq_step(
    s: CPUState,
    t: CPUState,
    exts: Seq<char>,
    elapsed: u64,
    r: Result<(), VmError>,
    w: u32,
)
    requires
        step_spec(s, t, exts, elapsed, r),
        exts.len() > 0 && exts[0] == 'i',
        s.extraflags & WFI_FLAG == 0,
        s.timecmpl == 0 && s.timecmph == 0,
        s.trap == 0,
        !in_uart(s.pc),
        s.bus.load_result(s.pc, 4) == Ok::<u32, VmError>(w),
        w & 0x7f == 0x63,
        funct3_of(w) == 0,
    ensures
        r == Ok::<(), VmError>(()),
        t.x@ == s.x@.update(0, 0),
        ({
            let x = s.x@.update(0, 0);
            &&& x[rs1_of(w) as int] == x[rs2_of(w) as int] ==> t.pc == wadd(
                s.pc,
                sext_spec(b_imm_of(w), 12) << 1u32,
            )
            &&& x[rs1_of(w) as int] != x[rs2_of(w) as int] ==> t.pc == wadd(s.pc, 4)
        }),
{
    let s1 = choose|s1: CPUState|
        {
            &&& timer_updated(s, s1, elapsed)
            &&& s1.x@ == s.x@.update(0, 0)
            &&& s1.bus == s.bus
            &&& runs_from(s1, t, exts, r)
        };
    lemma_quiet_timer(s, s1, elapsed);
    lemma_base_search_by_opcode(w);
    assert(dispatch(exts, w) == Some(Found::I(ExtensionI::BRANCH(BRANCH))));
    let (s2, s3, r3) = choose|s2: CPUState, s3: CPUState, r3: Result<(), VmError>|
        #[trigger] executes(s1, s2, s3, r3, exts, w, t, r);
    assert(s2 == s1);
}

pub struct CPU {
    state: CPUState,
    instruction_decoder: DecodeCycle,
    extensions: Vec<char>,
    last_it_time: u128,
}

impl CPU {
    /// The architectural state that steps work on.
    pub closed spec fn hart(&self) -> CPUState {
        self.state
    }

    /// The enabled extensions, in search order.
    pub closed spec fn extensions(&self) -> Seq<char> {
        self.instruction_decoder.extensions()
    }

    /// The extension list the hart was built with, for display.
    pub closed spec fn extension_list(&self) -> Seq<char> {
        self.extensions@
    }

    /// Wall-clock time of the previous step, in microseconds.
    pub closed spec fn last_time(&self) -> u128 {
        self.last_it_time
    }

    /// A hart with every register and CSR zero, attached to `bus`, decoding
    /// with `instruction_decoder`.
    pub fn new(bus: Bus, instruction_decoder: DecodeCycle, extensions: Vec<char>) -> (r: CPU)
        ensures
            r.hart().bus == bus,
            r.extensions() == instruction_decoder.extensions(),
            r.extension_list() == extensions@,
            r.last_time() == 0,
            forall|i: int| 0 <= i < 32 ==> r.hart().x@[i] == 0,
            r.hart().pc == 0 && r.hart().trap == 0,
            r.hart().mstatus == 0 && r.hart().cyclel == 0 && r.hart().cycleh == 0,
            r.hart().timel == 0 && r.hart().timeh == 0,
            r.hart().timecmpl == 0 && r.hart().timecmph == 0,
            r.hart().mvendorid == 0 && r.hart().marchid == 0,
            r.hart().mimpid == 0 && r.hart().mhartid == 0,
            r.hart().mscratch == 0 && r.hart().mtvec == 0,
            r.hart().mie == 0 && r.hart().mip == 0,
            r.hart().mepc == 0 && r.hart().mtval == 0 && r.hart().mcause == 0,
            r.hart().extraflags == 0,
    {
        CPU {
            state: CPUState {
                x: [0; 32],
                pc: 0,
                trap: 0,
                bus,
                mstatus: 0,
                cyclel: 0,
                cycleh: 0,
                timel: 0,
                timeh: 0,
                timecmpl: 0,
                timecmph: 0,
                mvendorid: 0,
                marchid: 0,
                mimpid: 0,
                mhartid: 0,
                mscratch: 0,
                mtvec: 0,
                mie: 0,
                mip: 0,
                mepc: 0,
                mtval: 0,
                mcause: 0,
                extraflags: 0,
            },
            instruction_decoder,
            extensions,
            last_it_time: 0,
        }
    }

    /// Readies the hart to run a program loaded at the base of DRAM: `pc` at
    /// the base, the stack pointer at the top, the identification CSRs set;
    /// `now_micros` is the wall-clock time that the first step measures from.
    pub fn init(&mut self, now_micros: u128)
        ensures
            final(self).hart().pc == DRAM_BASE,
            final(self).hart().x@ == old(self).hart().x@.update(0, 0).update(2, DRAM_TOP),
            final(self).hart().mvendorid == VENDOR_ID,
            final(self).hart().marchid == ARCH_ID,
            final(self).hart().mimpid == 0,
            final(self).hart().mhartid == 0,
            final(self).last_time() == now_micros,
            final(self).extensions() == old(self).extensions(),
            final(self).hart().bus == old(self).hart().bus,
            final(self).hart().trap == old(self).hart().trap,
            final(self).hart().mstatus == old(self).hart().mstatus,
            final(self).hart().cyclel == old(self).hart().cyclel,
            final(self).hart().cycleh == old(self).hart().cycleh,
            final(self).hart().timel == old(self).hart().timel,
            final(self).hart().timeh == old(self).hart().timeh,
            final(self).hart().timecmpl == old(self).hart().timecmpl,
            final(self).hart().timecmph == old(self).hart().timecmph,
            final(self).hart().mscratch == old(self).hart().mscratch,
            final(self).hart().mtvec == old(self).hart().mtvec,
            final(self).hart().mie == old(self).hart().mie,
            final(self).hart().mip == old(self).hart().mip,
            final(self).hart().mepc == old(self).hart().mepc,
            final(self).hart().mtval == old(self).hart().mtval,
            final(self).hart().mcause == old(self).hart().mcause,
            final(self).hart().extraflags == old(self).hart().extraflags,
    {
        self.last_it_time = now_micros;
        self.state.pc = DRAM_BASE;
        self.state.x[0] = 0;
        self.state.x[2] = DRAM_TOP;
        self.state.mvendorid = VENDOR_ID;
        self.state.marchid = ARCH_ID;
        self.state.mimpid = 0;
        self.state.mhartid = 0;
    }

    /// One step of the hart, `elapsed_micros` after the previous one:
    /// advance the timer, recompute the timer interrupt, stop if waiting for
    /// an interrupt, else take the timer interrupt or fetch and execute one
    /// instruction, enter any pending trap, and count the cycle.
    pub fn step(&mut self, elapsed_micros: u128) -> (r: Result<(), VmError>)
        ensures
            step_spec(
                old(self).hart(),
                final(self).hart(),
                old(self).extensions(),
                elapsed_micros as u64,
                r,
            ),
            final(self).hart().x@[0] == 0,
            final(self).hart().bus.ram().len() == old(self).hart().bus.ram().len(),
            final(self).extensions() == old(self).extensions(),
            final(self).last_time() == old(self).last_time(),
    {
        let ghost s0 = self.state;
        update_timer(&mut self.state, elapsed_micros as u64);
        self.state.x[0] = 0;
        let ghost s1 = self.state;
        assert(timer_updated(s0, s1, elapsed_micros as u64));
        if self.state.extraflags & WFI_FLAG != 0 {
            return Ok(());
        }
        if (self.state.mip & MIP_MTIP != 0) && (self.state.mie & MIP_MTIP != 0) && (
        self.state.mstatus & MSTATUS_MIE != 0) {
            self.state.pc = self.state.pc.wrapping_sub(rv32::WORD as u32);
            assert(self.state == CPUState { pc: wsub(s1.pc, 4), ..s1 });
            finish(&mut self.state, TIMER_INTERRUPT);
            assert(self.state.x@[0] == 0);
            return Ok(());
        }
        let pc = self.state.pc;
        let inst = self.state.bus.load_32(pc)?;
        let ghost s2 = self.state;
        let res = self.instruction_decoder.decode_exec_inst(inst, &mut self.state);
        let ghost s3 = self.state;
        if res.is_err() {
            proof {
                lemma_x0_kept(s2, s3, self.instruction_decoder.extensions(), inst, res);
                assert(executes(s1, s2, s3, res, self.extensions(), inst, self.state, res));
            }
            return res;
        }
        self.state.pc = self.state.pc.wrapping_add(rv32::WORD as u32);
        let trap = self.state.trap;
        self.state.trap = 0;
        assert(self.state == CPUState { pc: wadd(s3.pc, 4), trap: 0, ..s3 });
        finish(&mut self.state, trap);
        assert(executes(s1, s2, s3, res, self.extensions(), inst, self.state, Ok(())));
        Ok(())
    }

    /// One step at wall-clock time `now_micros`: the time since the previous
    /// step feeds the timer (none when the clock went backwards).
    pub fn exec_step(&mut self, now_micros: u128) -> (r: Result<(), VmError>)
        ensures
            step_spec(
                old(self).hart(),
                final(self).hart(),
                old(self).extensions(),
                (if now_micros >= old(self).last_time() {
                    now_micros - old(self).last_time()
                } else {
                    0
                }) as u64,
                r,
            ),
            final(self).hart().x@[0] == 0,
            final(self).hart().bus.ram().len() == old(self).hart().bus.ram().len(),
            final(self).extensions() == old(self).extensions(),
            final(self).last_time() == if now_micros >= old(self).last_time() {
                now_micros
            } else {
                old(self).last_time()
            },
    {
        let elapsed = if now_micros >= self.last_it_time {
            now_micros - self.last_it_time
        } else {
            0
        };
        self.last_it_time = self.last_it_time + elapsed;
        self.step(elapsed)
    }

    /// The architectural state, for inspection.
    pub fn state(&self) -> (r: &CPUState)
        ensures
            *r == self.hart(),
    {
        &self.state
    }

    /// The architectural state, for a host that sets registers, CSRs or
    /// memory between steps.
    pub fn state_mut(&mut self) -> (r: &mut CPUState)
        ensures
            *r == old(self).hart(),
            final(self).hart() == *final(r),
            final(self).extensions() == old(self).extensions(),
            final(self).extension_list() == old(self).extension_list(),
            final(self).last_time() == old(self).last_time(),
    {
        &mut self.state
    }

    pub fn get_pc(&self) -> (r: rv32::Word)
        ensures
            r == self.hart().pc,
    {
        self.state.pc
    }

    /// The enabled extensions, in search order.
    pub fn get_extensions(&self) -> (r: &Vec<char>)
        ensures
            r@ == self.extension_list(),
    {
        &self.extensions
    }

    /// `pc` still lies in DRAM, where the loaded program lives.
    pub fn in_program(&self) -> (r: bool)
        ensures
            r == (wsub(self.hart().pc, DRAM_BASE) < DRAM_SIZE),
    {
        self.state.pc.wrapping_sub(DRAM_BASE) < DRAM_SIZE
    }
}

} // verus!
