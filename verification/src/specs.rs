//! Sizes and addresses of the machine.
use vstd::prelude::*;

verus! {

/// Number of general-purpose registers.
pub const NUM_REGISTERS: usize = 16;

/// Index of the flag register.
pub const FLAG: usize = 0xF;

/// Number of addressable bytes.
pub const MEM_SIZE: usize = 4096;

/// Address of the first program byte.
pub const PROG_START: usize = 0x200;

/// Address just past the program region.
pub const PROG_END: usize = 0xE8F;

/// Number of return addresses the call stack holds.
pub const STACK_SIZE: usize = 16;

/// Number of timers.
pub const NUM_TIMERS: usize = 2;

/// Index of the delay timer.
pub const DELAY_TIMER: usize = 0;

/// Index of the sound timer.
pub const SOUND_TIMER: usize = 1;

} // verus!
