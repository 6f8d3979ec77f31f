//! Errors that stop emulation.
use vstd::prelude::*;

verus! {

/// A fatal condition reported by a step: the guest program cannot go on.
#[derive(Clone, Copy, Debug, PartialEq, Eq, Structural)]
pub enum VmError {
    /// No enabled extension has an instruction whose template matches the word.
    NoInstruction,
    /// A load or store reached an address that no device claims.
    Unmapped(u32),
}

} // verus!
