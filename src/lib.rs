//! A RISC-V 32-bit hart emulator: instruction encodings, per-extension
//! instruction sets with first-match dispatch, the CPU step and trap logic,
//! and the memory bus with its RAM and UART devices.
use vstd::prelude::*;

pub mod bits;
pub mod cpu;
pub mod err;
pub mod ext;
pub mod helpers;
pub mod management;
pub mod system;

verus! {

} // verus!
