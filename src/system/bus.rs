//! Address-space router: sends each load and store to the device whose
//! range holds the address, and reports addresses that no device claims.
use vstd::prelude::*;

use crate::err::VmError;
use crate::system::ram::{
    le16, le32, le64, le_bytes16, le_bytes32, le_bytes64, put_bytes, ram_fits, ram_offset, RAM,
};
use crate::system::rv32;
use crate::system::uart::{uart_input_after_read, uart_read_value, UART, UART_TXD};

verus! {

/// First address of DRAM.
pub const DRAM_BASE: u32 = 0x8000_0000;

/// Size of DRAM in bytes (1 GiB).
pub const DRAM_SIZE: u32 = 0x4000_0000;

/// One past the last address of DRAM.
pub const DRAM_TOP: u32 = 0xC000_0000;

/// First address of the UART window.
pub const UART_BASE: u32 = 0x1000_0000;

/// Size of the UART window in bytes.
pub const UART_SIZE: u32 = 0x100;

/// One past the last address of the UART window.
pub const UART_TOP: u32 = 0x1000_0100;

/// The bytes that a store of `width` bytes writes for `data`.
pub open spec fn store_bytes(width: int, data: u32) -> Seq<u8> {
    if width == 1 {
        seq![data as u8]
    } else if width == 2 {
        le_bytes16(data as u16)
    } else {
        le_bytes32(data)
    }
}

/// The UART claims this address for 32-bit accesses.
pub open spec fn in_uart(address: u32) -> bool {
    UART_BASE <= address < UART_TOP
}

/// `address` is in DRAM with room for an access of `width` bytes.
pub open spec fn in_dram(address: u32, width: int) -> bool {
    DRAM_BASE <= address && address + width <= DRAM_TOP
}

pub struct Bus {
    memory: RAM,
    uart: UART,
}

impl Bus {
    /// DRAM contents; byte `i` sits at address `DRAM_BASE + i`.
    pub closed spec fn ram(&self) -> Seq<u8> {
        self.memory.0@
    }

    /// Key bytes waiting for the guest.
    pub closed spec fn input(&self) -> Seq<u8> {
        self.uart.input()
    }

    /// Bytes the guest has sent to the console.
    pub closed spec fn output(&self) -> Seq<u8> {
        self.uart.output()
    }

    /// The DRAM store has the configured size, so that whether an address
    /// is mapped depends on the address alone.
    pub open spec fn wf(&self) -> bool {
        self.ram().len() == DRAM_SIZE
    }

    /// An access of `width` bytes at `address` falls inside DRAM.
    pub open spec fn dram_holds(&self, address: u32, width: int) -> bool {
        ram_fits(address, width, self.ram().len() as int)
    }

    /// The value a load of `width` bytes at `address` returns, zero-extended.
    pub open spec fn load_result(&self, address: u32, width: int) -> Result<u32, VmError> {
        if width == 4 && in_uart(address) {
            Ok(uart_read_value(self.input(), address))
        } else if self.dram_holds(address, width) {
            Ok(
                if width == 1 {
                    self.ram()[ram_offset(address)] as u32
                } else if width == 2 {
                    le16(self.ram(), ram_offset(address)) as u32
                } else {
                    le32(self.ram(), ram_offset(address))
                },
            )
        } else {
            Err(VmError::Unmapped(address))
        }
    }

    /// `t` is the bus after a load of `width` bytes at `address`: only a
    /// UART read can change it, by taking the next key.
    pub open spec fn loaded(&self, t: Bus, address: u32, width: int) -> bool {
        if width == 4 && in_uart(address) {
            &&& t.ram() == self.ram()
            &&& t.output() == self.output()
            &&& t.input() == uart_input_after_read(self.input(), address)
        } else {
            t == *self
        }
    }

    /// `t` and `r` are the bus and result after storing the `width` low
    /// bytes of `data` at `address`.
    pub open spec fn stored(&self, t: Bus, address: u32, width: int, data: u32, r: Result<(), VmError>) -> bool {
        if width == 4 && in_uart(address) {
            if address == UART_TXD {
                &&& r == Ok::<(), VmError>(())
                &&& t.ram() == self.ram()
                &&& t.input() == self.input()
                &&& t.output() == self.output().push(data as u8)
            } else {
                r == Err::<(), VmError>(VmError::Unmapped(address)) && t == *self
            }
        } else if self.dram_holds(address, width) {
            &&& r == Ok::<(), VmError>(())
            &&& t.input() == self.input()
            &&& t.output() == self.output()
            &&& t.ram() == put_bytes(self.ram(), ram_offset(address), store_bytes(width, data))
        } else {
            r == Err::<(), VmError>(VmError::Unmapped(address)) && t == *self
        }
    }

    /// A machine with zeroed DRAM of `DRAM_SIZE` bytes and an idle UART.
    pub fn new() -> (r: Bus)
        ensures
            r.wf(),
            r.ram().len() == DRAM_SIZE,
            forall|i: int| 0 <= i < DRAM_SIZE ==> r.ram()[i] == 0,
            r.input() == Seq::<u8>::empty(),
            r.output() == Seq::<u8>::empty(),
    {
        Bus { memory: RAM::new(), uart: UART::new() }
    }

    fn fits(&self, address: rv32::XLen, width: u32) -> (r: bool)
        ensures
            r == self.dram_holds(address, width as int),
    {
        address >= DRAM_BASE && (self.memory.len() as u64) >= (address - DRAM_BASE) as u64
            + width as u64
    }

    pub fn load_8(&mut self, address: rv32::XLen) -> (r: Result<rv32::Byte, VmError>)
        ensures
            final(self).ram().len() == old(self).ram().len(),
            *final(self) == *old(self),
            r == if old(self).dram_holds(address, 1) {
                Ok::<u8, VmError>(old(self).ram()[ram_offset(address)])
            } else {
                Err(VmError::Unmapped(address))
            },
            r matches Ok(v) ==> old(self).load_result(address, 1) == Ok::<u32, VmError>(v as u32),
            r matches Err(e) ==> old(self).load_result(address, 1) == Err::<u32, VmError>(e),
    {
        if self.fits(address, 1) {
            Ok(self.memory.read_8(address))
        } else {
            Err(VmError::Unmapped(address))
        }
    }

    pub fn load_16(&mut self, address: rv32::XLen) -> (r: Result<rv32::HalfWord, VmError>)
        ensures
            final(self).ram().len() == old(self).ram().len(),
            *final(self) == *old(self),
            r == if old(self).dram_holds(address, 2) {
                Ok::<u16, VmError>(le16(old(self).ram(), ram_offset(address)))
            } else {
                Err(VmError::Unmapped(address))
            },
            r matches Ok(v) ==> old(self).load_result(address, 2) == Ok::<u32, VmError>(v as u32),
            r matches Err(e) ==> old(self).load_result(address, 2) == Err::<u32, VmError>(e),
    {
        if self.fits(address, 2) {
            Ok(self.memory.read_16(address))
        } else {
            Err(VmError::Unmapped(address))
        }
    }

    /// A 32-bit load; the UART window is checked before DRAM.
    pub fn load_32(&mut self, address: rv32::XLen) -> (r: Result<rv32::Word, VmError>)
        ensures
            final(self).ram().len() == old(self).ram().len(),
            final(self).ram() == old(self).ram(),
            final(self).output() == old(self).output(),
            in_uart(address) ==> r == Ok::<u32, VmError>(
                uart_read_value(old(self).input(), address),
            ) && final(self).input() == uart_input_after_read(old(self).input(), address),
            r == old(self).load_result(address, 4),
            old(self).loaded(*final(self), address, 4),
            !in_uart(address) ==> *final(self) == *old(self) && r == if old(
                self,
            ).dram_holds(address, 4) {
                Ok::<u32, VmError>(le32(old(self).ram(), ram_offset(address)))
            } else {
                Err(VmError::Unmapped(address))
            },
    {
        if UART_BASE <= address && address < UART_TOP {
            Ok(self.uart.read_kb(address))
        } else if self.fits(address, 4) {
            Ok(self.memory.read_32(address))
        } else {
            Err(VmError::Unmapped(address))
        }
    }

    pub fn load_64(&mut self, address: rv32::XLen) -> (r: Result<rv32::DoubleWord, VmError>)
        ensures
            final(self).ram().len() == old(self).ram().len(),
            *final(self) == *old(self),
            r == if old(self).dram_holds(address, 8) {
                Ok::<u64, VmError>(le64(old(self).ram(), ram_offset(address)))
            } else {
                Err(VmError::Unmapped(address))
            },
    {
        if self.fits(address, 8) {
            Ok(self.memory.read_64(address))
        } else {
            Err(VmError::Unmapped(address))
        }
    }

    pub fn store_8(&mut self, address: rv32::XLen, data: rv32::Byte) -> (r: Result<(), VmError>)
        ensures
            final(self).ram().len() == old(self).ram().len(),
            final(self).input() == old(self).input(),
            final(self).output() == old(self).output(),
            old(self).dram_holds(address, 1) ==> r == Ok::<(), VmError>(()) && final(self).ram()
                == old(self).ram().update(ram_offset(address), data),
            old(self).stored(*final(self), address, 1, data as u32, r),
            !old(self).dram_holds(address, 1) ==> r == Err::<(), VmError>(
                VmError::Unmapped(address),
            ) && *final(self) == *old(self),
    {
        if self.fits(address, 1) {
            self.memory.write_8(address, data);
            assert(self.ram() =~= put_bytes(old(self).ram(), ram_offset(address), seq![data]));
            Ok(())
        } else {
            Err(VmError::Unmapped(address))
        }
    }

    pub fn store_16(&mut self, address: rv32::XLen, data: rv32::HalfWord) -> (r: Result<(), VmError>)
        ensures
            final(self).ram().len() == old(self).ram().len(),
            final(self).input() == old(self).input(),
            final(self).output() == old(self).output(),
            old(self).dram_holds(address, 2) ==> r == Ok::<(), VmError>(()) && final(self).ram()
                == put_bytes(old(self).ram(), ram_offset(address), le_bytes16(data)),
            old(self).stored(*final(self), address, 2, data as u32, r),
            !old(self).dram_holds(address, 2) ==> r == Err::<(), VmError>(
                VmError::Unmapped(address),
            ) && *final(self) == *old(self),
    {
        if self.fits(address, 2) {
            self.memory.write_16(address, data);
            Ok(())
        } else {
            Err(VmError::Unmapped(address))
        }
    }

    /// A 32-bit store; the UART window is checked before DRAM.
    pub fn store_32(&mut self, address: rv32::XLen, data: rv32::Word) -> (r: Result<(), VmError>)
        ensures
            final(self).ram().len() == old(self).ram().len(),
            final(self).input() == old(self).input(),
            in_uart(address) ==> final(self).ram() == old(self).ram() && if address
                == crate::system::uart::UART_TXD {
                r == Ok::<(), VmError>(()) && final(self).output() == old(self).output().push(
                    data as u8,
                )
            } else {
                r == Err::<(), VmError>(VmError::Unmapped(address)) && final(self).output()
                    == old(self).output()
            },
            !in_uart(address) && old(self).dram_holds(address, 4) ==> r == Ok::<(), VmError>(())
                && final(self).output() == old(self).output() && final(self).ram() == put_bytes(
                old(self).ram(),
                ram_offset(address),
                le_bytes32(data),
            ),
            old(self).stored(*final(self), address, 4, data, r),
            !in_uart(address) && !old(self).dram_holds(address, 4) ==> r == Err::<(), VmError>(
                VmError::Unmapped(address),
            ) && *final(self) == *old(self),
    {
        if UART_BASE <= address && address < UART_TOP {
            self.uart.write(address, data)
        } else if self.fits(address, 4) {
            self.memory.write_32(address, data);
            Ok(())
        } else {
            Err(VmError::Unmapped(address))
        }
    }

    pub fn store_64(&mut self, address: rv32::XLen, data: rv32::DoubleWord) -> (r: Result<(), VmError>)
        ensures
            final(self).ram().len() == old(self).ram().len(),
            final(self).input() == old(self).input(),
            final(self).output() == old(self).output(),
            old(self).dram_holds(address, 8) ==> r == Ok::<(), VmError>(()) && final(self).ram()
                == put_bytes(old(self).ram(), ram_offset(address), le_bytes64(data)),
            !old(self).dram_holds(address, 8) ==> r == Err::<(), VmError>(
                VmError::Unmapped(address),
            ) && *final(self) == *old(self),
    {
        if self.fits(address, 8) {
            self.memory.write_64(address, data);
            Ok(())
        } else {
            Err(VmError::Unmapped(address))
        }
    }

    /// Queues a key byte for the guest to read through the UART.
    pub fn push_key(&mut self, key: u8)
        ensures
            final(self).ram().len() == old(self).ram().len(),
            final(self).input() == old(self).input().push(key),
            final(self).output() == old(self).output(),
            final(self).ram() == old(self).ram(),
    {
        self.uart.push_input(key);
    }

    /// Hands over what the guest has written to the console.
    pub fn take_output(&mut self) -> (r: Vec<u8>)
        ensures
            final(self).ram().len() == old(self).ram().len(),
            r@ == old(self).output(),
            final(self).output() == Seq::<u8>::empty(),
            final(self).input() == old(self).input(),
            final(self).ram() == old(self).ram(),
    {
        self.uart.take_output()
    }
}

/// Writing a word to DRAM and reading its four bytes back, lowest address
/// first, gives the word least significant byte first.
pub proof fn lemma_store32_bytes_round_trip(
    b: Bus,
    b2: Bus,
    address: u32,
    v: u32,
    r: Result<(), VmError>,
)
    requires
        b.wf(),
        in_dram(address, 4),
        b.stored(b2, address, 4, v, r),
    ensures
        r == Ok::<(), VmError>(()),
        b2.wf(),
        b2.load_result(address, 1) == Ok::<u32, VmError>(v & 0xff),
        b2.load_result((address + 1) as u32, 1) == Ok::<u32, VmError>((v >> 8u32) & 0xff),
        b2.load_result((address + 2) as u32, 1) == Ok::<u32, VmError>((v >> 16u32) & 0xff),
        b2.load_result((address + 3) as u32, 1) == Ok::<u32, VmError>((v >> 24u32) & 0xff),
        (v & 0xff) | (((v >> 8u32) & 0xff) << 8u32) | (((v >> 16u32) & 0xff) << 16u32) | (((v
            >> 24u32) & 0xff) << 24u32) == v,
{
    assert(((v & 0xff) as u8) as u32 == v & 0xff && (((v >> 8u32) & 0xff) as u8) as u32 == (v
        >> 8u32) & 0xff && (((v >> 16u32) & 0xff) as u8) as u32 == (v >> 16u32) & 0xff && (((v
        >> 24u32) & 0xff) as u8) as u32 == (v >> 24u32) & 0xff && (v & 0xff) | (((v >> 8u32)
        & 0xff) << 8u32) | (((v >> 16u32) & 0xff) << 16u32) | (((v >> 24u32) & 0xff) << 24u32)
        == v) by (bit_vector);
}

/// On a bus whose DRAM has the configured size, an access of 1, 2 or 4
/// bytes is mapped exactly when it lies in DRAM or, for 4 bytes, in the
/// UART window.
pub proof fn lemma_mapped_by_address(b: Bus, address: u32, width: int)
    requires
        b.wf(),
        width == 1 || width == 2 || width == 4,
    ensures
        b.dram_holds(address, width) == in_dram(address, width),
        b.load_result(address, width) is Ok == (in_dram(address, width) || (width == 4 && in_uart(
            address,
        ))),
{
}

/// A load or store at an address outside every device range fails with the
/// address, returns no value, and leaves the bus as it was.
pub proof fn lemma_unmapped_access_fails(
    b: Bus,
    t: Bus,
    address: u32,
    width: int,
    data: u32,
    r: Result<(), VmError>,
)
    requires
        b.wf(),
        width == 1 || width == 2 || width == 4,
        !in_dram(address, width),
        !in_uart(address),
        b.stored(t, address, width, data, r),
    ensures
        b.load_result(address, width) == Err::<u32, VmError>(VmError::Unmapped(address)),
        r == Err::<(), VmError>(VmError::Unmapped(address)),
        t == b,
{
}

} // verus!
