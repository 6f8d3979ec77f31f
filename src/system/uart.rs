//! Memory-mapped console: a transmit register and a receive/status register.
//!
//! Input is a queue of pending key bytes that the host fills without
//! blocking; output is the sequence of transmitted bytes, which the host drains.
use vstd::prelude::*;

use crate::err::VmError;
use crate::system::bus;
use crate::system::rv32;

verus! {

/// Data register: writing sends a byte; reading takes the next key, if any.
pub const UART_TXD: u32 = 0x1000_0000;

/// Line status register: bit 0 tells whether a key is waiting.
pub const UART_RXD: u32 = 0x1000_0005;

/// Fixed bits of the line status: transmitter empty and idle.
pub const UART_LSR_IDLE: u32 = 0x60;

/// What a 32-bit read at `address` returns, given the pending input.
pub open spec fn uart_read_value(input: Seq<u8>, address: u32) -> u32 {
    if address == UART_RXD {
        UART_LSR_IDLE | (if input.len() > 0 { 1u32 } else { 0u32 })
    } else if address == UART_TXD && input.len() > 0 {
        input[0] as u32
    } else {
        0
    }
}

/// The pending input after a 32-bit read at `address`.
pub open spec fn uart_input_after_read(input: Seq<u8>, address: u32) -> Seq<u8> {
    if address == UART_TXD && input.len() > 0 {
        input.drop_first()
    } else {
        input
    }
}

pub struct UART {
    input: Vec<u8>,
    output: Vec<u8>,
}

impl UART {
    /// Key bytes not yet read by the guest, oldest first.
    pub closed spec fn input(&self) -> Seq<u8> {
        self.input@
    }

    /// Bytes the guest has transmitted and the host has not yet taken.
    pub closed spec fn output(&self) -> Seq<u8> {
        self.output@
    }

    pub fn new() -> (r: UART)
        ensures
            r.input() == Seq::<u8>::empty(),
            r.output() == Seq::<u8>::empty(),
    {
        UART { input: Vec::new(), output: Vec::new() }
    }

    /// A store to the window: at the data register the low byte is sent,
    /// any other address is not a register.
    pub fn write(&mut self, address: rv32::XLen, value: rv32::Word) -> (r: Result<(), VmError>)
        ensures
            address == UART_TXD ==> r == Ok::<(), VmError>(()) && final(self).output() == old(
                self,
            ).output().push(value as u8),
            address != UART_TXD ==> r == Err::<(), VmError>(VmError::Unmapped(address))
                && *final(self) == *old(self),
            final(self).input() == old(self).input(),
    {
        if address == UART_TXD {
            self.output.push(value as u8);
            Ok(())
        } else {
            Err(VmError::Unmapped(address))
        }
    }

    /// A load from the window: the line status, or the next key byte.
    pub fn read_kb(&mut self, address: rv32::XLen) -> (r: rv32::Word)
        ensures
            r == uart_read_value(old(self).input(), address),
            final(self).input() == uart_input_after_read(old(self).input(), address),
            final(self).output() == old(self).output(),
    {
        let ready = self.input.len() > 0;
        if address == UART_RXD {
            let flag: u32 = if ready {
                1
            } else {
                0
            };
            UART_LSR_IDLE | flag
        } else if address == UART_TXD && ready {
            let key = self.input.remove(0);
            key as u32
        } else {
            0
        }
    }

    /// Queues a key byte typed on the host console.
    pub fn push_input(&mut self, key: u8)
        ensures
            final(self).input() == old(self).input().push(key),
            final(self).output() == old(self).output(),
    {
        self.input.push(key);
    }

    /// Hands over the transmitted bytes and empties the output.
    pub fn take_output(&mut self) -> (r: Vec<u8>)
        ensures
            r@ == old(self).output(),
            final(self).output() == Seq::<u8>::empty(),
            final(self).input() == old(self).input(),
    {
        let mut out = Vec::new();
        std::mem::swap(&mut out, &mut self.output);
        out
    }
}

} // verus!
