use riscy_rust::cpu::{CPU, TIMER_INTERRUPT};
use riscy_rust::err::VmError;
use riscy_rust::ext::decode::DecodeCycle;
use riscy_rust::management::{actions_from_args, Action, VMAction};
use riscy_rust::system::bus::{Bus, DRAM_BASE, DRAM_TOP};
use riscy_rust::system::uart::UART_TXD;

fn machine() -> CPU {
    let exts = vec!['i', 'm', 'a', 'z'];
    let mut cpu = CPU::new(Bus::new(), DecodeCycle::new(exts.clone()), exts);
    cpu.init(0);
    cpu
}

fn load(cpu: &mut CPU, words: &[u32]) {
    for (k, w) in words.iter().enumerate() {
        cpu.state_mut().bus.store_32(DRAM_BASE + 4 * k as u32, *w).unwrap();
    }
}

#[test]
fn init_sets_entry_and_stack() {
    let cpu = machine();
    assert_eq!(cpu.get_pc(), DRAM_BASE);
    assert_eq!(cpu.state().x[2], DRAM_TOP);
    assert_eq!(cpu.state().x[0], 0);
    assert_eq!(cpu.state().mvendorid, 0x69_6969);
    assert_eq!(cpu.state().marchid, 0x28_5700);
    assert_eq!(cpu.get_extensions(), &vec!['i', 'm', 'a', 'z']);
    assert!(cpu.in_program());
}

#[test]
fn addi_adds_immediate() {
    let mut cpu = machine();
    cpu.state_mut().x[1] = 5;
    load(&mut cpu, &[0x00A0_8113]); // addi x2, x1, 10
    cpu.step(0).unwrap();
    assert_eq!(cpu.state().x[2], 15);
    assert_eq!(cpu.get_pc(), DRAM_BASE + 4);
}

#[test]
fn add_adds_registers() {
    let mut cpu = machine();
    cpu.state_mut().x[1] = 7;
    cpu.state_mut().x[2] = 3;
    load(&mut cpu, &[0x0020_81B3]); // add x3, x1, x2
    cpu.step(0).unwrap();
    assert_eq!(cpu.state().x[3], 10);
}

#[test]
fn sub_and_negative_immediates_wrap() {
    let mut cpu = machine();
    cpu.state_mut().x[1] = 3;
    cpu.state_mut().x[2] = 7;
    // sub x3, x1, x2 ; addi x4, x0, -1 ; slt x5, x4, x0 ; sltu x6, x4, x0
    load(&mut cpu, &[0x4020_81B3, 0xFFF0_0213, 0x0002_22B3, 0x0002_3333]);
    for _ in 0..4 {
        cpu.step(0).unwrap();
    }
    assert_eq!(cpu.state().x[3], (-4i32) as u32);
    assert_eq!(cpu.state().x[4], 0xFFFF_FFFF);
    assert_eq!(cpu.state().x[5], 1);
    assert_eq!(cpu.state().x[6], 0);
}

#[test]
fn shifts() {
    let mut cpu = machine();
    cpu.state_mut().x[1] = 0x8000_00F0;
    // slli x2, x1, 4 ; srli x3, x1, 4 ; srai x4, x1, 4
    load(&mut cpu, &[0x0040_9113, 0x0040_D193, 0x4040_D213]);
    for _ in 0..3 {
        cpu.step(0).unwrap();
    }
    assert_eq!(cpu.state().x[2], 0x0000_0F00);
    assert_eq!(cpu.state().x[3], 0x0800_000F);
    assert_eq!(cpu.state().x[4], 0xF800_000F);
}

#[test]
fn lui_and_auipc() {
    let mut cpu = machine();
    // lui x5, 0x12345 ; auipc x6, 1
    load(&mut cpu, &[0x1234_52B7, 0x0000_1317]);
    cpu.step(0).unwrap();
    cpu.step(0).unwrap();
    assert_eq!(cpu.state().x[5], 0x1234_5000);
    assert_eq!(cpu.state().x[6], DRAM_BASE + 4 + 0x1000);
}

#[test]
fn jal_links_and_jumps() {
    let mut cpu = machine();
    load(&mut cpu, &[0x0080_00EF]); // jal x1, 8
    cpu.step(0).unwrap();
    assert_eq!(cpu.state().x[1], DRAM_BASE + 4);
    assert_eq!(cpu.get_pc(), DRAM_BASE + 8);
}

#[test]
fn jal_backwards() {
    let mut cpu = machine();
    load(&mut cpu, &[0x0000_0013, 0x0000_0013, 0xFF9F_F06F]); // nop ; nop ; jal x0, -8
    for _ in 0..3 {
        cpu.step(0).unwrap();
    }
    assert_eq!(cpu.get_pc(), DRAM_BASE);
}

#[test]
fn jalr_jumps_to_register_plus_offset() {
    let mut cpu = machine();
    cpu.state_mut().x[6] = DRAM_BASE + 0x101;
    load(&mut cpu, &[0x0043_00E7]); // jalr x1, 4(x6)
    cpu.step(0).unwrap();
    assert_eq!(cpu.state().x[1], DRAM_BASE + 4);
    assert_eq!(cpu.get_pc(), DRAM_BASE + 0x104);
}

#[test]
fn beq_taken_when_values_equal() {
    let mut cpu = machine();
    cpu.state_mut().x[1] = 9;
    cpu.state_mut().x[2] = 9;
    load(&mut cpu, &[0x0020_8463]); // beq x1, x2, 8
    cpu.step(0).unwrap();
    assert_eq!(cpu.get_pc(), DRAM_BASE + 8);
}

#[test]
fn beq_not_taken_when_values_differ() {
    let mut cpu = machine();
    cpu.state_mut().x[1] = 9;
    cpu.state_mut().x[2] = 10;
    load(&mut cpu, &[0x0020_8463]); // beq x1, x2, 8
    cpu.step(0).unwrap();
    assert_eq!(cpu.get_pc(), DRAM_BASE + 4);
}

#[test]
fn signed_and_unsigned_branches() {
    let mut cpu = machine();
    cpu.state_mut().x[1] = 0xFFFF_FFFF; // -1
    cpu.state_mut().x[2] = 1;
    load(&mut cpu, &[0x0020_C463]); // blt x1, x2, 8
    cpu.step(0).unwrap();
    assert_eq!(cpu.get_pc(), DRAM_BASE + 8);
    let mut cpu = machine();
    cpu.state_mut().x[1] = 0xFFFF_FFFF;
    cpu.state_mut().x[2] = 1;
    load(&mut cpu, &[0x0020_E463]); // bltu x1, x2, 8
    cpu.step(0).unwrap();
    assert_eq!(cpu.get_pc(), DRAM_BASE + 4);
}

#[test]
fn loads_and_stores() {
    let mut cpu = machine();
    cpu.state_mut().x[1] = DRAM_BASE + 0x100;
    cpu.state_mut().x[2] = 0x8081_8283;
    // sw x2, 0(x1) ; lb x3, 0(x1) ; lbu x4, 0(x1) ; lh x5, 2(x1) ; lhu x6, 2(x1) ; lw x7, 0(x1)
    load(&mut cpu, &[0x0020_A023, 0x0000_8183, 0x0000_C203, 0x0020_9283, 0x0020_D303, 0x0000_A383]);
    for _ in 0..6 {
        cpu.step(0).unwrap();
    }
    assert_eq!(cpu.state().x[3], 0xFFFF_FF83);
    assert_eq!(cpu.state().x[4], 0x83);
    assert_eq!(cpu.state().x[5], 0xFFFF_8081);
    assert_eq!(cpu.state().x[6], 0x8081);
    assert_eq!(cpu.state().x[7], 0x8081_8283);
}

#[test]
fn store_to_uart_prints() {
    let mut cpu = machine();
    cpu.state_mut().x[1] = UART_TXD;
    cpu.state_mut().x[2] = b'H' as u32;
    load(&mut cpu, &[0x0020_A023]); // sw x2, 0(x1)
    cpu.step(0).unwrap();
    assert_eq!(cpu.state_mut().bus.take_output(), vec![b'H']);
}

#[test]
fn x0_stays_zero() {
    let mut cpu = machine();
    load(&mut cpu, &[0x0050_0013, 0x1234_5037]); // addi x0, x0, 5 ; lui x0, 0x12345
    cpu.step(0).unwrap();
    assert_eq!(cpu.state().x[0], 0);
    cpu.step(0).unwrap();
    assert_eq!(cpu.state().x[0], 0);
}

#[test]
fn unknown_word_is_fatal() {
    let mut cpu = machine();
    load(&mut cpu, &[0x0000_0000]);
    assert_eq!(cpu.step(0), Err(VmError::NoInstruction));
}

#[test]
fn fetch_outside_memory_is_fatal() {
    let mut cpu = machine();
    cpu.state_mut().pc = 0x100;
    assert_eq!(cpu.step(0), Err(VmError::Unmapped(0x100)));
    assert!(!cpu.in_program());
}

#[test]
fn load_outside_memory_is_fatal() {
    let mut cpu = machine();
    cpu.state_mut().x[1] = 0x40;
    load(&mut cpu, &[0x0000_A383]); // lw x7, 0(x1)
    assert_eq!(cpu.step(0), Err(VmError::Unmapped(0x40)));
    assert_eq!(cpu.state().x[7], 0);
}

#[test]
fn store_outside_memory_is_fatal() {
    let mut cpu = machine();
    cpu.state_mut().x[1] = 0x40;
    load(&mut cpu, &[0x0020_A023]); // sw x2, 0(x1)
    assert_eq!(cpu.step(0), Err(VmError::Unmapped(0x40)));
}

#[test]
fn illegal_selector_enters_trap() {
    let mut cpu = machine();
    cpu.state_mut().mtvec = DRAM_BASE + 0x200;
    cpu.state_mut().x[1] = DRAM_BASE;
    load(&mut cpu, &[0x0000_B183]); // load with funct3 = 3
    cpu.step(0).unwrap();
    assert_eq!(cpu.state().mcause, 2);
    assert_eq!(cpu.state().mepc, DRAM_BASE + 4);
    assert_eq!(cpu.state().mtval, DRAM_BASE + 4);
    assert_eq!(cpu.get_pc(), DRAM_BASE + 0x200);
    assert_eq!(cpu.state().extraflags & 3, 3);
    assert_eq!(cpu.state().trap, 0);
}

#[test]
fn timer_interrupt_redirects_to_handler() {
    let mut cpu = machine();
    cpu.state_mut().timecmpl = 100;
    cpu.state_mut().timecmph = 0;
    cpu.state_mut().mie = 0x80;
    cpu.state_mut().mstatus = 0x8;
    cpu.state_mut().mtvec = DRAM_BASE + 0x400;
    load(&mut cpu, &[0x0050_0093]); // addi x1, x0, 5
    cpu.step(50).unwrap();
    assert_eq!(cpu.state().x[1], 5);
    assert_eq!(cpu.state().mcause, 0);
    let pc = cpu.get_pc();
    cpu.step(200).unwrap();
    assert_eq!(cpu.state().mcause, TIMER_INTERRUPT);
    assert_ne!(cpu.state().mcause & 0x8000_0000, 0);
    assert_eq!(cpu.state().mepc, pc);
    assert_eq!(cpu.state().mtval, 0);
    assert_eq!(cpu.get_pc(), DRAM_BASE + 0x400);
    assert_eq!(cpu.state().mstatus, 0x80 | (0 << 11));
    assert_eq!(cpu.state().timel, 250);
}

#[test]
fn timer_without_enable_does_not_trap() {
    let mut cpu = machine();
    cpu.state_mut().timecmpl = 100;
    cpu.state_mut().mie = 0x80;
    load(&mut cpu, &[0x0000_0013]);
    cpu.step(500).unwrap();
    assert_eq!(cpu.state().mip & 0x80, 0x80);
    assert_eq!(cpu.get_pc(), DRAM_BASE + 4);
    assert_eq!(cpu.state().mcause, 0);
}

#[test]
fn timer_carries_into_high_word() {
    let mut cpu = machine();
    cpu.state_mut().timel = 0xFFFF_FFF0;
    load(&mut cpu, &[0x0000_0013]);
    cpu.step(0x20).unwrap();
    assert_eq!(cpu.state().timel, 0x10);
    assert_eq!(cpu.state().timeh, 1);
}

#[test]
fn cycle_counter_counts_steps() {
    let mut cpu = machine();
    cpu.state_mut().cyclel = 0xFFFF_FFFF;
    load(&mut cpu, &[0x0000_0013, 0x0000_0013]);
    cpu.step(0).unwrap();
    assert_eq!((cpu.state().cycleh, cpu.state().cyclel), (1, 0));
    cpu.step(0).unwrap();
    assert_eq!((cpu.state().cycleh, cpu.state().cyclel), (1, 1));
}

#[test]
fn waiting_hart_does_nothing_until_interrupt() {
    let mut cpu = machine();
    cpu.state_mut().extraflags = 4;
    load(&mut cpu, &[0x0050_0093]);
    cpu.step(10).unwrap();
    assert_eq!(cpu.get_pc(), DRAM_BASE);
    assert_eq!(cpu.state().x[1], 0);
    assert_eq!(cpu.state().timel, 10);
    cpu.state_mut().timecmpl = 5;
    cpu.step(10).unwrap();
    assert_eq!(cpu.state().extraflags & 4, 0);
    assert_eq!(cpu.state().x[1], 5);
}

#[test]
fn load_reserved_then_store_conditional() {
    let mut cpu = machine();
    cpu.state_mut().x[1] = DRAM_BASE + 0x100;
    cpu.state_mut().x[2] = 77;
    cpu.state_mut().bus.store_32(DRAM_BASE + 0x100, 41).unwrap();
    // lr.w x3, (x1) ; sc.w x4, x2, (x1) ; sc.w x5, x2, (x1)
    load(&mut cpu, &[0x1000_A1AF, 0x1820_A22F, 0x1820_A2AF]);
    cpu.step(0).unwrap();
    assert_eq!(cpu.state().x[3], 41);
    cpu.step(0).unwrap();
    assert_eq!(cpu.state().x[4], 0);
    assert_eq!(cpu.state_mut().bus.load_32(DRAM_BASE + 0x100), Ok(77));
    cpu.step(0).unwrap();
    assert_eq!(cpu.state().x[5], 1);
}

#[test]
fn exec_step_measures_elapsed_time() {
    let mut cpu = machine();
    load(&mut cpu, &[0x0000_0013, 0x0000_0013, 0x0000_0013]);
    cpu.exec_step(1_000).unwrap();
    assert_eq!(cpu.state().timel, 1_000);
    cpu.exec_step(1_500).unwrap();
    assert_eq!(cpu.state().timel, 1_500);
    cpu.exec_step(900).unwrap();
    assert_eq!(cpu.state().timel, 1_500);
}

#[test]
fn commands_carry_their_argument() {
    let a = VMAction { action: Action::Load, arg: String::from("prog.bin") };
    assert_eq!(a.action, Action::Load);
    assert_eq!(a.arg, "prog.bin");
    assert_ne!(Action::Run, Action::Step);
}

#[test]
fn timer_interrupt_keeps_registers() {
    let mut cpu = machine();
    cpu.state_mut().timecmpl = 10;
    cpu.state_mut().mie = 0x80;
    cpu.state_mut().mstatus = 0x8;
    cpu.state_mut().x[1] = 3;
    let before = cpu.state().x;
    load(&mut cpu, &[0x0050_0093]); // addi x1, x0, 5
    cpu.step(20).unwrap();
    assert_eq!(cpu.state().x, before);
    assert_eq!(cpu.state_mut().bus.load_32(DRAM_BASE), Ok(0x0050_0093));
}

#[test]
fn mulw_multiplies_low_word() {
    let mut cpu = machine();
    cpu.state_mut().x[1] = 0x1_0001;
    cpu.state_mut().x[2] = 0x1_0001;
    load(&mut cpu, &[0x0220_81B3]); // mul x3, x1, x2
    cpu.step(0).unwrap();
    assert_eq!(cpu.state().x[3], 0x0002_0001);
}

#[test]
fn csrrw_swaps_csr_and_register() {
    let mut cpu = machine();
    cpu.state_mut().mscratch = 7;
    cpu.state_mut().x[6] = 9;
    load(&mut cpu, &[0x3403_12F3]); // csrrw x5, mscratch, x6
    cpu.step(0).unwrap();
    assert_eq!(cpu.state().x[5], 7);
    assert_eq!(cpu.state().mscratch, 9);
    assert_eq!(cpu.get_pc(), DRAM_BASE + 4);
}

#[test]
fn csrrw_on_read_only_csr_traps() {
    let mut cpu = machine();
    cpu.state_mut().mtvec = DRAM_BASE + 0x80;
    cpu.state_mut().x[6] = 9;
    load(&mut cpu, &[0xC003_12F3]); // csrrw x5, cycle, x6
    cpu.step(0).unwrap();
    assert_eq!(cpu.state().mcause, 2);
    assert_eq!(cpu.state().x[5], 0);
    assert_eq!(cpu.get_pc(), DRAM_BASE + 0x80);
}

#[test]
fn command_line_options_become_actions() {
    let both = actions_from_args(Some(String::from("a.bin")), true);
    assert_eq!(both.len(), 2);
    assert_eq!(both[0].action, Action::Load);
    assert_eq!(both[0].arg, "a.bin");
    assert_eq!(both[1].action, Action::Run);
    assert_eq!(both[1].arg, "");
    assert!(actions_from_args(None, false).is_empty());
    let run = actions_from_args(None, true);
    assert_eq!(run.len(), 1);
    assert_eq!(run[0].action, Action::Run);
}
