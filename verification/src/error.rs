//! The conditions that stop the emulator.

use vstd::prelude::*;

verus! {

/// What the emulator reports to its caller instead of carrying on.
#[derive(Clone, Copy, Debug, PartialEq, Eq, Structural)]
pub enum EmulatorError {
    /// The program handed to `load` has more words than the program store.
    ProgramTooLarge,
    /// A memory access fell outside the capacity of the memory it addressed.
    OutOfRange,
    /// A compute instruction carries a compute code outside the legal table.
    UndecodableInstruction,
}

} // verus!
