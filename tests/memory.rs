use riscy_rust::err::VmError;
use riscy_rust::system::bus::{Bus, DRAM_BASE, DRAM_SIZE, DRAM_TOP, UART_BASE, UART_SIZE, UART_TOP};
use riscy_rust::system::ram::RAM;
use riscy_rust::system::uart::{UART, UART_RXD, UART_TXD};

#[test]
fn store_32_reads_back_little_endian_bytes() {
    let mut bus = Bus::new();
    bus.store_32(DRAM_BASE + 0x40, 0x1234_5678).unwrap();
    assert_eq!(bus.load_8(DRAM_BASE + 0x40), Ok(0x78));
    assert_eq!(bus.load_8(DRAM_BASE + 0x41), Ok(0x56));
    assert_eq!(bus.load_8(DRAM_BASE + 0x42), Ok(0x34));
    assert_eq!(bus.load_8(DRAM_BASE + 0x43), Ok(0x12));
    let mut v: u32 = 0;
    for k in 0..4u32 {
        v |= (bus.load_8(DRAM_BASE + 0x40 + k).unwrap() as u32) << (8 * k);
    }
    assert_eq!(v, 0x1234_5678);
}

#[test]
fn multi_width_accesses_are_little_endian() {
    let mut bus = Bus::new();
    bus.store_64(DRAM_BASE, 0x0102_0304_0506_0708).unwrap();
    assert_eq!(bus.load_8(DRAM_BASE), Ok(0x08));
    assert_eq!(bus.load_16(DRAM_BASE), Ok(0x0708));
    assert_eq!(bus.load_32(DRAM_BASE + 4), Ok(0x0102_0304));
    assert_eq!(bus.load_64(DRAM_BASE), Ok(0x0102_0304_0506_0708));
    bus.store_16(DRAM_BASE + 2, 0xBEEF).unwrap();
    assert_eq!(bus.load_32(DRAM_BASE), Ok(0xBEEF_0708));
    bus.store_8(DRAM_BASE + 7, 0xAA).unwrap();
    assert_eq!(bus.load_8(DRAM_BASE + 7), Ok(0xAA));
}

#[test]
fn fresh_memory_is_zero() {
    let mut bus = Bus::new();
    assert_eq!(bus.load_32(DRAM_BASE), Ok(0));
    assert_eq!(bus.load_64(DRAM_TOP - 8), Ok(0));
}

#[test]
fn unmapped_loads_fail() {
    let mut bus = Bus::new();
    assert_eq!(bus.load_8(0), Err(VmError::Unmapped(0)));
    assert_eq!(bus.load_16(0x4000_0000), Err(VmError::Unmapped(0x4000_0000)));
    assert_eq!(bus.load_32(0x2000_0000), Err(VmError::Unmapped(0x2000_0000)));
    assert_eq!(bus.load_64(DRAM_BASE - 8), Err(VmError::Unmapped(DRAM_BASE - 8)));
    // the UART only answers 32-bit accesses
    assert_eq!(bus.load_8(UART_BASE), Err(VmError::Unmapped(UART_BASE)));
}

#[test]
fn unmapped_stores_fail() {
    let mut bus = Bus::new();
    assert_eq!(bus.store_8(0x10, 1), Err(VmError::Unmapped(0x10)));
    assert_eq!(bus.store_16(0x7FFF_FFFF, 1), Err(VmError::Unmapped(0x7FFF_FFFF)));
    assert_eq!(bus.store_32(0xF000_0000, 1), Err(VmError::Unmapped(0xF000_0000)));
    assert_eq!(bus.store_64(0x20, 1), Err(VmError::Unmapped(0x20)));
    // a register address inside the UART window that is no register
    assert_eq!(bus.store_32(UART_BASE + 8, 1), Err(VmError::Unmapped(UART_BASE + 8)));
}

#[test]
fn accesses_past_the_top_of_dram_fail() {
    let mut bus = Bus::new();
    assert_eq!(bus.load_8(DRAM_TOP), Err(VmError::Unmapped(DRAM_TOP)));
    assert_eq!(bus.load_32(DRAM_TOP - 2), Err(VmError::Unmapped(DRAM_TOP - 2)));
    assert_eq!(bus.store_64(DRAM_TOP - 4, 7), Err(VmError::Unmapped(DRAM_TOP - 4)));
    assert_eq!(bus.load_8(DRAM_TOP - 1), Ok(0));
}

#[test]
fn uart_transmits_low_byte() {
    let mut bus = Bus::new();
    bus.store_32(UART_TXD, 0x4142).unwrap();
    bus.store_32(UART_TXD, 'i' as u32).unwrap();
    assert_eq!(bus.take_output(), vec![0x42, b'i']);
    assert_eq!(bus.take_output(), Vec::<u8>::new());
}

#[test]
fn uart_reports_and_hands_out_keys() {
    let mut bus = Bus::new();
    assert_eq!(bus.load_32(UART_RXD), Ok(0x60));
    assert_eq!(bus.load_32(UART_TXD), Ok(0));
    bus.push_key(b'q');
    bus.push_key(b'z');
    assert_eq!(bus.load_32(UART_RXD), Ok(0x61));
    assert_eq!(bus.load_32(UART_TXD), Ok(b'q' as u32));
    assert_eq!(bus.load_32(UART_TXD), Ok(b'z' as u32));
    assert_eq!(bus.load_32(UART_RXD), Ok(0x60));
}

#[test]
fn uart_device_directly() {
    let mut uart = UART::new();
    assert_eq!(uart.write(UART_TXD, 0x21), Ok(()));
    assert_eq!(uart.write(UART_RXD, 0x21), Err(VmError::Unmapped(UART_RXD)));
    uart.push_input(7);
    assert_eq!(uart.read_kb(UART_BASE + 0x10), 0);
    assert_eq!(uart.read_kb(UART_TXD), 7);
    assert_eq!(uart.take_output(), vec![0x21]);
}

#[test]
fn ram_rebases_addresses() {
    let mut ram = RAM(vec![0u8; 16]);
    assert_eq!(ram.len(), 16);
    ram.write_32(DRAM_BASE + 4, 0xDEAD_BEEF);
    assert_eq!(ram.0[4], 0xEF);
    assert_eq!(ram.0[7], 0xDE);
    assert_eq!(ram.read_32(DRAM_BASE + 4), 0xDEAD_BEEF);
    assert_eq!(ram.read_16(DRAM_BASE + 6), 0xDEAD);
    assert_eq!(ram.read_8(DRAM_BASE + 5), 0xBE);
    ram.write_16(DRAM_BASE, 0x1234);
    ram.write_8(DRAM_BASE + 2, 0x56);
    assert_eq!(ram.read_32(DRAM_BASE), 0x0056_1234);
    ram.write_64(DRAM_BASE + 8, 0x8877_6655_4433_2211);
    assert_eq!(ram.read_64(DRAM_BASE + 8), 0x8877_6655_4433_2211);
    assert_eq!(ram.read_8(DRAM_BASE + 15), 0x88);
}

#[test]
fn default_ram_has_dram_size() {
    let ram = RAM::new();
    assert_eq!(ram.len(), DRAM_SIZE as usize);
}

#[test]
fn uart_window_ends_before_its_top() {
    let mut bus = Bus::new();
    assert_eq!(UART_TOP, UART_BASE + UART_SIZE);
    assert_eq!(bus.load_32(UART_TOP), Err(VmError::Unmapped(UART_TOP)));
    assert_eq!(bus.store_32(UART_TOP, 0x41), Err(VmError::Unmapped(UART_TOP)));
    assert_eq!(bus.load_32(UART_TOP - 1), Ok(0));
    assert_eq!(bus.take_output(), Vec::<u8>::new());
}
