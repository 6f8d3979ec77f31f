//! Word sizes and integer types of the RV32 architecture.
use vstd::prelude::*;

verus! {

/// Register width in bits.
pub const XLEN: usize = 32;

/// Size of a 64-bit access, in bytes.
pub const DOUBLEWORD: usize = 8;

/// Size of a 32-bit access, in bytes; also the length of one instruction.
pub const WORD: usize = 4;

/// Size of a 16-bit access, in bytes.
pub const HALFWORD: usize = 2;

/// Size of an 8-bit access, in bytes.
pub const BYTE: usize = 1;

pub type XLen = u32;

pub type DoubleWord = u64;

pub type Word = u32;

pub type HalfWord = u16;

pub type Byte = u8;

} // verus!
