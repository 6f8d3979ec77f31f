//! Flat little-endian byte store backing DRAM.
use vstd::prelude::*;

use crate::system::bus::{DRAM_BASE, DRAM_SIZE};
use crate::system::rv32;

verus! {

/// The two bytes of `v`, least significant first.
pub open spec fn le_bytes16(v: u16) -> Seq<u8> {
    seq![(v & 0xff) as u8, ((v >> 8) & 0xff) as u8]
}

/// The four bytes of `v`, least significant first.
pub open spec fn le_bytes32(v: u32) -> Seq<u8> {
    seq![
        (v & 0xff) as u8,
        ((v >> 8) & 0xff) as u8,
        ((v >> 16) & 0xff) as u8,
        ((v >> 24) & 0xff) as u8,
    ]
}

/// The eight bytes of `v`, least significant first.
pub open spec fn le_bytes64(v: u64) -> Seq<u8> {
    seq![
        (v & 0xff) as u8,
        ((v >> 8) & 0xff) as u8,
        ((v >> 16) & 0xff) as u8,
        ((v >> 24) & 0xff) as u8,
        ((v >> 32) & 0xff) as u8,
        ((v >> 40) & 0xff) as u8,
        ((v >> 48) & 0xff) as u8,
        ((v >> 56) & 0xff) as u8,
    ]
}

/// The half-word stored little-endian at `i`.
pub open spec fn le16(m: Seq<u8>, i: int) -> u16 {
    (m[i] as u16) | ((m[i + 1] as u16) << 8)
}

/// The word stored little-endian at `i`.
pub open spec fn le32(m: Seq<u8>, i: int) -> u32 {
    (m[i] as u32) | ((m[i + 1] as u32) << 8) | ((m[i + 2] as u32) << 16) | ((m[i + 3] as u32)
        << 24)
}

/// The double word stored little-endian at `i`.
pub open spec fn le64(m: Seq<u8>, i: int) -> u64 {
    (m[i] as u64) | ((m[i + 1] as u64) << 8) | ((m[i + 2] as u64) << 16) | ((m[i + 3] as u64)
        << 24) | ((m[i + 4] as u64) << 32) | ((m[i + 5] as u64) << 40) | ((m[i + 6] as u64) << 48)
        | ((m[i + 7] as u64) << 56)
}

/// `m` with `bytes` written from index `i` on.
pub open spec fn put_bytes(m: Seq<u8>, i: int, bytes: Seq<u8>) -> Seq<u8> {
    Seq::new(m.len(), |k: int| if i <= k < i + bytes.len() { bytes[k - i] } else { m[k] })
}

/// Index into the backing store of an absolute DRAM address.
pub open spec fn ram_offset(address: u32) -> int {
    address - DRAM_BASE
}

/// An access of `width` bytes at `address` lies inside a store of `len` bytes.
pub open spec fn ram_fits(address: u32, width: int, len: int) -> bool {
    DRAM_BASE <= address && ram_offset(address) + width <= len
}

/// DRAM contents; byte `i` sits at address `DRAM_BASE + i`.
pub struct RAM(pub Vec<rv32::Byte>);

impl RAM {
    /// A zero-filled store of `DRAM_SIZE` bytes.
    pub fn new() -> (r: RAM)
        ensures
            r.0@.len() == DRAM_SIZE,
            forall|i: int| 0 <= i < DRAM_SIZE ==> r.0@[i] == 0,
    {
        RAM(vec![0u8; DRAM_SIZE as usize])
    }

    pub fn len(&self) -> (r: usize)
        ensures
            r == self.0@.len(),
    {
        self.0.len()
    }

    pub fn read_8(&self, address: rv32::XLen) -> (r: rv32::Byte)
        requires
            ram_fits(address, 1, self.0@.len() as int),
        ensures
            r == self.0@[ram_offset(address)],
    {
        let a = (address - DRAM_BASE) as usize;
        self.0[a]
    }

    pub fn read_16(&self, address: rv32::XLen) -> (r: rv32::HalfWord)
        requires
            ram_fits(address, 2, self.0@.len() as int),
        ensures
            r == le16(self.0@, ram_offset(address)),
    {
        let memory = &self.0;
        let a = (address - DRAM_BASE) as usize;
        memory[a] as u16 | (memory[a + 1] as u16) << 8
    }

    pub fn read_32(&self, address: rv32::XLen) -> (r: rv32::Word)
        requires
            ram_fits(address, 4, self.0@.len() as int),
        ensures
            r == le32(self.0@, ram_offset(address)),
    {
        let memory = &self.0;
        let a = (address - DRAM_BASE) as usize;
        memory[a] as u32 | (memory[a + 1] as u32) << 8 | (memory[a + 2] as u32) << 16 | (memory[a
            + 3] as u32) << 24
    }

    pub fn read_64(&self, address: rv32::XLen) -> (r: rv32::DoubleWord)
        requires
            ram_fits(address, 8, self.0@.len() as int),
        ensures
            r == le64(self.0@, ram_offset(address)),
    {
        let memory = &self.0;
        let a = (address - DRAM_BASE) as usize;
        memory[a] as u64 | (memory[a + 1] as u64) << 8 | (memory[a + 2] as u64) << 16 | (memory[a
            + 3] as u64) << 24 | (memory[a + 4] as u64) << 32 | (memory[a + 5] as u64) << 40 | (
        memory[a + 6] as u64) << 48 | (memory[a + 7] as u64) << 56
    }

    pub fn write_8(&mut self, address: rv32::XLen, data: rv32::Byte)
        requires
            ram_fits(address, 1, old(self).0@.len() as int),
        ensures
            final(self).0@ == old(self).0@.update(ram_offset(address), data),
    {
        let a = (address - DRAM_BASE) as usize;
        self.0.set(a, data);
    }

    pub fn write_16(&mut self, address: rv32::XLen, data: rv32::HalfWord)
        requires
            ram_fits(address, 2, old(self).0@.len() as int),
        ensures
            final(self).0@ == put_bytes(old(self).0@, ram_offset(address), le_bytes16(data)),
    {
        let a = (address - DRAM_BASE) as usize;
        self.0.set(a, (data & 0xff) as u8);
        self.0.set(a + 1, ((data >> 8) & 0xff) as u8);
        assert(self.0@ =~= put_bytes(old(self).0@, ram_offset(address), le_bytes16(data)));
    }

    pub fn write_32(&mut self, address: rv32::XLen, data: rv32::Word)
        requires
            ram_fits(address, 4, old(self).0@.len() as int),
        ensures
            final(self).0@ == put_bytes(old(self).0@, ram_offset(address), le_bytes32(data)),
    {
        let a = (address - DRAM_BASE) as usize;
        self.0.set(a, (data & 0xff) as u8);
        self.0.set(a + 1, ((data >> 8) & 0xff) as u8);
        self.0.set(a + 2, ((data >> 16) & 0xff) as u8);
        self.0.set(a + 3, ((data >> 24) & 0xff) as u8);
        assert(self.0@ =~= put_bytes(old(self).0@, ram_offset(address), le_bytes32(data)));
    }

    pub fn write_64(&mut self, address: rv32::XLen, data: rv32::DoubleWord)
        requires
            ram_fits(address, 8, old(self).0@.len() as int),
        ensures
            final(self).0@ == put_bytes(old(self).0@, ram_offset(address), le_bytes64(data)),
    {
        let a = (address - DRAM_BASE) as usize;
        self.0.set(a, (data & 0xff) as u8);
        self.0.set(a + 1, ((data >> 8) & 0xff) as u8);
        self.0.set(a + 2, ((data >> 16) & 0xff) as u8);
        self.0.set(a + 3, ((data >> 24) & 0xff) as u8);
        self.0.set(a + 4, ((data >> 32) & 0xff) as u8);
        self.0.set(a + 5, ((data >> 40) & 0xff) as u8);
        self.0.set(a + 6, ((data >> 48) & 0xff) as u8);
        self.0.set(a + 7, ((data >> 56) & 0xff) as u8);
        assert(self.0@ =~= put_bytes(old(self).0@, ram_offset(address), le_bytes64(data)));
    }
}

} // verus!
