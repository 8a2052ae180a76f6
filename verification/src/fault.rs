//! Conditions that stop the machine.
use vstd::prelude::*;

verus! {

/// Why the machine refused an operation.
#[derive(Clone, Copy, Debug, PartialEq, Eq, Structural)]
pub enum Fault {
    /// A call was made with all stack slots in use.
    StackOverflow,
    /// A return was made with no call outstanding.
    StackUnderflow,
    /// An address outside the memory was about to be read or written.
    MemoryOutOfBounds,
    /// A program does not fit in the program region.
    ProgramTooLarge,
}

} // verus!
