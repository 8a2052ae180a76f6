//! Interpreter core of a CHIP-8 virtual machine.
//!
//! The machine is the [`chip::Chip`] state container together with its
//! fetch-decode-execute step. The host supplies three capabilities, each a
//! trait of this crate: a source of random bytes, a pixel display and a keypad.
use vstd::prelude::*;

pub mod chip;
pub mod fault;
pub mod font;
pub mod laws;
pub mod opcode;
pub mod specs;
pub mod state;

verus! {

/// Number of bytes of the program region.
pub const PROGRAM_SIZE: usize = specs::PROG_END - specs::PROG_START;

/// Width of the display in pixels.
pub const SCREEN_WIDTH: usize = 64;

/// Height of the display in pixels.
pub const SCREEN_HEIGHT: usize = 32;

/// Number of keys of the keypad.
pub const KEYPAD_NUM_KEYS: usize = 16;

/// Source of random bytes.
pub trait Random {
    /// Returns a byte drawn uniformly from the whole 8-bit range.
    fn range(&self) -> u8;
}

/// Pixel display driven by the machine.
pub trait Screen {
    /// Turns every pixel off.
    fn clear(&mut self);

    /// Toggles the pixel at `(x, y)` and reports a collision: if the pixel was
    /// on it is turned off and `true` is returned, otherwise it is turned on
    /// and `false` is returned. The machine only ever asks for coordinates
    /// inside the display.
    fn draw(&mut self, x: u8, y: u8) -> bool
        requires
            x < SCREEN_WIDTH,
            y < SCREEN_HEIGHT,
    ;
}

/// Keypad read by the machine.
pub trait Keypad {
    /// Tells whether the key `keycode` is held down.
    fn is_pressed(&self, keycode: u8) -> bool;

    /// Returns a key that is currently held down, if there is one. The call
    /// never waits for a key.
    fn pressed_key(&self) -> Option<u8>;
}

} // verus!
