//! The machine and its instructions.
use vstd::prelude::*;
use crate::fault::Fault;
use crate::font::{font_table, Font, CHARACTER_SIZE, FONT_SIZE};
use crate::specs::{
    DELAY_TIMER, FLAG, MEM_SIZE, NUM_REGISTERS, NUM_TIMERS, PROG_START, SOUND_TIMER, STACK_SIZE,
};
use crate::opcode::{decode, opcode_from_bytes, Instruction};
use crate::state::{applied, sprite_pixels_upto, wrap_u8, ChipState, HostReplies};
use crate::{Keypad, Random, Screen, PROGRAM_SIZE, SCREEN_HEIGHT, SCREEN_WIDTH};

verus! {

/// A CHIP-8 machine: registers, address register, memory, program counter,
/// call stack and the two timers.
pub struct Chip {
    registers: [u8; NUM_REGISTERS],
    i: u16,
    memory: [u8; MEM_SIZE],
    ip: u16,
    stack: [u16; STACK_SIZE],
    sp: usize,
    timers: [u8; NUM_TIMERS],
}

impl View for Chip {
    type V = ChipState;

    closed spec fn view(&self) -> ChipState {
        ChipState {
            registers: self.registers@,
            i: self.i,
            memory: self.memory@,
            ip: self.ip,
            stack: self.stack@,
            sp: self.sp as nat,
            timers: self.timers@,
        }
    }
}

impl Default for Chip {
    /// A machine with all registers, memory, stack slots and timers at zero
    /// and the program counter at the first program byte.
    fn default() -> (chip: Chip)
        ensures
            chip@ == ChipState::initial(),
            chip@.wf(),
    {
        let chip = Chip {
            registers: [0; NUM_REGISTERS],
            i: 0,
            memory: [0; MEM_SIZE],
            ip: 0x200,
            stack: [0; STACK_SIZE],
            sp: 0,
            timers: [0; NUM_TIMERS],
        };
        assert(chip.registers@ =~= ChipState::initial().registers);
        assert(chip.memory@ =~= ChipState::initial().memory);
        assert(chip.stack@ =~= ChipState::initial().stack);
        assert(chip.timers@ =~= ChipState::initial().timers);
        chip
    }
}

impl Chip {
    #[verifier::type_invariant]
    spec fn inv(self) -> bool {
        self.sp <= STACK_SIZE
    }

    /// Copies the font table to address 0 and `program` to the start of the
    /// program region. A program longer than the program region is refused
    /// and nothing is written. Registers, timers, stack and program counter
    /// are left alone.
    pub fn load_program(&mut self, program: &[u8]) -> (result: Result<(), Fault>)
        ensures
            program@.len() > PROGRAM_SIZE ==> result == Err::<(), Fault>(Fault::ProgramTooLarge)
                && final(self)@ == old(self)@,
            program@.len() <= PROGRAM_SIZE ==> result == Ok::<(), Fault>(()) && final(self)@ == old(
                self,
            )@.load_program(font_table(), program@),
            result is Ok ==> final(self)@.memory.subrange(0, FONT_SIZE as int) == font_table(),
            result is Ok ==> final(self)@.memory.subrange(
                PROG_START as int,
                PROG_START + program@.len(),
            ) == program@,
            final(self)@.wf(),
    {
        proof {
            use_type_invariant(&*self);
        }
        if program.len() > PROGRAM_SIZE {
            return Err(Fault::ProgramTooLarge);
        }
        let font = Font::default();
        let mut k: usize = 0;
        while k < FONT_SIZE
            invariant
                k <= FONT_SIZE,
                self.inv(),
                font.set@ == font_table(),
                self.registers == old(self).registers,
                self.i == old(self).i,
                self.ip == old(self).ip,
                self.stack == old(self).stack,
                self.sp == old(self).sp,
                self.timers == old(self).timers,
                forall|a: int| 0 <= a < k ==> self.memory@[a] == font_table()[a],
                forall|a: int| k <= a < MEM_SIZE ==> self.memory@[a] == old(self).memory@[a],
            decreases FONT_SIZE - k,
        {
            self.memory[k] = font.set[k];
            k += 1;
        }
        let mut k: usize = 0;
        while k < program.len()
            invariant
                k <= program@.len() <= PROGRAM_SIZE,
                self.inv(),
                self.registers == old(self).registers,
                self.i == old(self).i,
                self.ip == old(self).ip,
                self.stack == old(self).stack,
                self.sp == old(self).sp,
                self.timers == old(self).timers,
                forall|a: int| 0 <= a < FONT_SIZE ==> self.memory@[a] == font_table()[a],
                forall|a: int| PROG_START <= a < PROG_START + k ==> self.memory@[a] == program@[a - PROG_START],
                forall|a: int|
                    FONT_SIZE <= a < MEM_SIZE && !(PROG_START <= a < PROG_START + k)
                        ==> self.memory@[a] == old(self).memory@[a],
            decreases program@.len() - k,
        {
            self.memory[PROG_START + k] = program[k];
            k += 1;
        }
        assert(self.memory@ =~= old(self)@.load_program(font_table(), program@).memory);
        Ok(())
    }

    /// Advances the 60 Hz clock by one tick: each timer that is not zero goes
    /// down by one.
    pub fn tick_timers(&mut self)
        ensures
            final(self)@ == old(self)@.tick_timers(),
            old(self)@.timers[DELAY_TIMER as int] == 0 ==> final(self)@.timers[DELAY_TIMER as int]
                == 0,
            old(self)@.timers[SOUND_TIMER as int] == 0 ==> final(self)@.timers[SOUND_TIMER as int]
                == 0,
            final(self)@.wf(),
    {
        proof {
            use_type_invariant(&*self);
        }
        if self.timers[DELAY_TIMER] > 0 {
            self.timers[DELAY_TIMER] -= 1;
        }
        if self.timers[SOUND_TIMER] > 0 {
            self.timers[SOUND_TIMER] -= 1;
        }
        assert(self.timers@ =~= old(self)@.tick_timers().timers);
    }

    /// `RET`: returns from a subroutine. Refused with
    /// [`Fault::StackUnderflow`] when no call is outstanding.
    pub fn ret(&mut self) -> (result: Result<(), Fault>)
        ensures
            applied(old(self)@, old(self)@.ret(), final(self)@, result),
            final(self)@.wf(),
    {
        proof {
            use_type_invariant(&*self);
        }
        if self.sp == 0 {
            return Err(Fault::StackUnderflow);
        }
        self.sp -= 1;
        self.ip = self.stack[self.sp];
        Ok(())
    }

    /// `JMP addr`: continues at `address`.
    pub fn jmp(&mut self, address: u16)
        ensures
            final(self)@ == old(self)@.jmp(address),
            final(self)@.wf(),
    {
        proof {
            use_type_invariant(&*self);
        }
        self.ip = address;
    }

    /// `CALL addr`: saves the program counter on the stack and continues at
    /// `address`. Refused with [`Fault::StackOverflow`] when the stack is
    /// full.
    pub fn call(&mut self, address: u16) -> (result: Result<(), Fault>)
        ensures
            applied(old(self)@, old(self)@.call(address), final(self)@, result),
            final(self)@.wf(),
    {
        proof {
            use_type_invariant(&*self);
        }
        if self.sp >= STACK_SIZE {
            return Err(Fault::StackOverflow);
        }
        self.stack[self.sp] = self.ip;
        self.sp += 1;
        self.ip = address;
        Ok(())
    }

    /// `SE Vx, byte`: skips the next instruction if register `x` equals
    /// `value`.
    pub fn se_vx_byte(&mut self, x: u8, value: u8)
        requires
            x < NUM_REGISTERS,
        ensures
            final(self)@ == old(self)@.se_vx_byte(x, value),
            final(self)@.wf(),
    {
        proof {
            use_type_invariant(&*self);
        }
        if self.registers[x as usize] == value {
            self.ip = self.ip.wrapping_add(2);
        }
    }

    /// `SNE Vx, byte`: skips the next instruction if register `x` differs
    /// from `value`.
    pub fn sne_vx_byte(&mut self, x: u8, value: u8)
        requires
            x < NUM_REGISTERS,
        ensures
            final(self)@ == old(self)@.sne_vx_byte(x, value),
            final(self)@.wf(),
    {
        proof {
            use_type_invariant(&*self);
        }
        if self.registers[x as usize] != value {
            self.ip = self.ip.wrapping_add(2);
        }
    }

    /// `LD Vx, byte`: stores `value` in register `x`.
    pub fn ld_vx_byte(&mut self, x: u8, value: u8)
        requires
            x < NUM_REGISTERS,
        ensures
            final(self)@ == old(self)@.ld_vx_byte(x, value),
            final(self)@.registers[x as int] == value,
            final(self)@.wf(),
    {
        proof {
            use_type_invariant(&*self);
        }
        self.registers[x as usize] = value;
    }

    /// `ADD Vx, byte`: adds `value` to register `x` modulo 256. The flag
    /// register is left alone.
    pub fn add_vx_byte(&mut self, x: u8, value: u8)
        requires
            x < NUM_REGISTERS,
        ensures
            final(self)@ == old(self)@.add_vx_byte(x, value),
            final(self)@.wf(),
    {
        proof {
            use_type_invariant(&*self);
        }
        let vx = self.registers[x as usize];
        self.registers[x as usize] = vx.wrapping_add(value);
    }

    /// `LD Vx, Vy`: copies register `y` into register `x`.
    pub fn ld_vx_vy(&mut self, x: u8, y: u8)
        requires
            x < NUM_REGISTERS,
            y < NUM_REGISTERS,
        ensures
            final(self)@ == old(self)@.ld_vx_vy(x, y),
            final(self)@.wf(),
    {
        proof {
            use_type_invariant(&*self);
        }
        self.registers[x as usize] = self.registers[y as usize];
    }

    /// `OR Vx, Vy`: bitwise or of registers `x` and `y` into register `x`.
    pub fn or_vx_vy(&mut self, x: u8, y: u8)
        requires
            x < NUM_REGISTERS,
            y < NUM_REGISTERS,
        ensures
            final(self)@ == old(self)@.or_vx_vy(x, y),
            final(self)@.wf(),
    {
        proof {
            use_type_invariant(&*self);
        }
        let vx = self.registers[x as usize];
        let vy = self.registers[y as usize];
        self.registers[x as usize] = vx | vy;
    }

    /// `AND Vx, Vy`: bitwise and of registers `x` and `y` into register `x`.
    pub fn and_vx_vy(&mut self, x: u8, y: u8)
        requires
            x < NUM_REGISTERS,
            y < NUM_REGISTERS,
        ensures
            final(self)@ == old(self)@.and_vx_vy(x, y),
            final(self)@.wf(),
    {
        proof {
            use_type_invariant(&*self);
        }
        let vx = self.registers[x as usize];
        let vy = self.registers[y as usize];
        self.registers[x as usize] = vx & vy;
    }

    /// `XOR Vx, Vy`: bitwise exclusive or of registers `x` and `y` into
    /// register `x`.
    pub fn xor_vx_vy(&mut self, x: u8, y: u8)
        requires
            x < NUM_REGISTERS,
            y < NUM_REGISTERS,
        ensures
            final(self)@ == old(self)@.xor_vx_vy(x, y),
            final(self)@.wf(),
    {
        proof {
            use_type_invariant(&*self);
        }
        let vx = self.registers[x as usize];
        let vy = self.registers[y as usize];
        self.registers[x as usize] = vx ^ vy;
    }

    /// `ADD Vx, Vy`: adds register `y` to register `x` modulo 256, then sets
    /// the flag register to 1 if the sum passed 255 and to 0 otherwise.
    pub fn add_vx_vy(&mut self, x: u8, y: u8)
        requires
            x < NUM_REGISTERS,
            y < NUM_REGISTERS,
        ensures
            final(self)@ == old(self)@.add_vx_vy(x, y),
            final(self)@.registers[FLAG as int] == 1 <==> old(self)@.registers[x as int] + old(
                self,
            )@.registers[y as int] > 0xFF,
            final(self)@.registers[FLAG as int] == 0 || final(self)@.registers[FLAG as int] == 1,
            x != FLAG ==> final(self)@.registers[x as int] == wrap_u8(
                old(self)@.registers[x as int] + old(self)@.registers[y as int],
            ),
            final(self)@.wf(),
    {
        proof {
            use_type_invariant(&*self);
        }
        let vx = self.registers[x as usize];
        let vy = self.registers[y as usize];
        let carry: u8 = if vx as u16 + vy as u16 > 0xFF {
            1
        } else {
            0
        };
        self.registers[x as usize] = vx.wrapping_add(vy);
        self.registers[FLAG] = carry;
    }

    /// `SUB Vx, Vy`: subtracts register `y` from register `x` modulo 256,
    /// then sets the flag register to 1 if nothing was borrowed and to 0
    /// otherwise.
    pub fn sub_vx_vy(&mut self, x: u8, y: u8)
        requires
            x < NUM_REGISTERS,
            y < NUM_REGISTERS,
        ensures
            final(self)@ == old(self)@.sub_vx_vy(x, y),
            final(self)@.registers[FLAG as int] == 1 <==> old(self)@.registers[x as int] >= old(
                self,
            )@.registers[y as int],
            final(self)@.registers[FLAG as int] == 0 || final(self)@.registers[FLAG as int] == 1,
            final(self)@.wf(),
    {
        proof {
            use_type_invariant(&*self);
        }
        let vx = self.registers[x as usize];
        let vy = self.registers[y as usize];
        let no_borrow: u8 = if vx >= vy {
            1
        } else {
            0
        };
        self.registers[x as usize] = vx.wrapping_sub(vy);
        self.registers[FLAG] = no_borrow;
    }

    /// `SHR Vx`: sets the flag register to the lowest bit of register `x`,
    /// then halves register `x`.
    pub fn shr_vx(&mut self, x: u8)
        requires
            x < NUM_REGISTERS,
        ensures
            final(self)@ == old(self)@.shr_vx(x),
            final(self)@.wf(),
    {
        proof {
            use_type_invariant(&*self);
        }
        let vx = self.registers[x as usize];
        self.registers[FLAG] = vx & 0x01;
        let flagged = self.registers[x as usize];
        self.registers[x as usize] = flagged >> 1u8;
    }

    /// `SUBN Vx, Vy`: stores register `y` minus register `x` modulo 256 in
    /// register `x`, then sets the flag register to 1 if nothing was borrowed
    /// and to 0 otherwise.
    pub fn subn_vx_vy(&mut self, x: u8, y: u8)
        requires
            x < NUM_REGISTERS,
            y < NUM_REGISTERS,
        ensures
            final(self)@ == old(self)@.subn_vx_vy(x, y),
            final(self)@.wf(),
    {
        proof {
            use_type_invariant(&*self);
        }
        let vx = self.registers[x as usize];
        let vy = self.registers[y as usize];
        let no_borrow: u8 = if vy >= vx {
            1
        } else {
            0
        };
        self.registers[x as usize] = vy.wrapping_sub(vx);
        self.registers[FLAG] = no_borrow;
    }

    /// `SHL Vx`: sets the flag register to the highest bit of register `x`,
    /// then doubles register `x` modulo 256.
    pub fn shl_vx(&mut self, x: u8)
        requires
            x < NUM_REGISTERS,
        ensures
            final(self)@ == old(self)@.shl_vx(x),
            final(self)@.wf(),
    {
        proof {
            use_type_invariant(&*self);
        }
        let vx = self.registers[x as usize];
        self.registers[FLAG] = vx >> 7u8;
        let flagged = self.registers[x as usize];
        self.registers[x as usize] = flagged << 1u8;
    }

    /// `SNE Vx, Vy`: skips the next instruction if registers `x` and `y`
    /// differ.
    pub fn sne_vx_vy(&mut self, x: u8, y: u8)
        requires
            x < NUM_REGISTERS,
            y < NUM_REGISTERS,
        ensures
            final(self)@ == old(self)@.sne_vx_vy(x, y),
            final(self)@.wf(),
    {
        proof {
            use_type_invariant(&*self);
        }
        if self.registers[x as usize] != self.registers[y as usize] {
            self.ip = self.ip.wrapping_add(2);
        }
    }

    /// `LD I, addr`: stores `address` in the address register.
    pub fn ld_i_addr(&mut self, address: u16)
        ensures
            final(self)@ == old(self)@.ld_i_addr(address),
            final(self)@.wf(),
    {
        proof {
            use_type_invariant(&*self);
        }
        self.i = address;
    }

    /// `JMP V0, addr`: continues at `address` plus register 0.
    pub fn jmp_v0_addr(&mut self, address: u16)
        ensures
            final(self)@ == old(self)@.jmp_v0_addr(address),
            final(self)@.wf(),
    {
        proof {
            use_type_invariant(&*self);
        }
        self.ip = address.wrapping_add(self.registers[0] as u16);
    }

    /// Finishes `RND Vx, byte` with the byte `random` that the random source
    /// gave: register `x` becomes `random` masked with `mask`.
    pub fn store_random(&mut self, x: u8, mask: u8, random: u8)
        requires
            x < NUM_REGISTERS,
        ensures
            final(self)@ == old(self)@.store_random(x, mask, random),
            final(self)@.wf(),
    {
        proof {
            use_type_invariant(&*self);
        }
        self.registers[x as usize] = random & mask;
    }

    /// `RND Vx, byte`: asks the random source for one byte and stores it,
    /// masked with `mask`, in register `x`.
    pub fn rnd_vx_byte<R: Random>(&mut self, random: &R, x: u8, mask: u8)
        requires
            x < NUM_REGISTERS,
        ensures
            exists|drawn: u8| final(self)@ == #[trigger] old(self)@.store_random(x, mask, drawn),
            final(self)@.wf(),
    {
        let drawn = random.range();
        self.store_random(x, mask, drawn);
    }

    /// Moves the program counter past one more instruction if `taken` holds.
    pub fn skip_if(&mut self, taken: bool)
        ensures
            final(self)@ == old(self)@.skip_if(taken),
            final(self)@.wf(),
    {
        proof {
            use_type_invariant(&*self);
        }
        if taken {
            self.ip = self.ip.wrapping_add(2);
        }
    }

    /// The key that `SKP Vx` and `SKNP Vx` ask the keypad for: the value of
    /// register `x`.
    pub fn key_operand(&self, x: u8) -> (key: u8)
        requires
            x < NUM_REGISTERS,
        ensures
            key == self@.registers[x as int],
            self@.wf(),
    {
        proof {
            use_type_invariant(self);
        }
        self.registers[x as usize]
    }

    /// `SKP Vx`: asks the keypad for the key in register `x` and skips the
    /// next instruction if it is held down.
    pub fn skp_vx<K: Keypad>(&mut self, keypad: &K, x: u8)
        requires
            x < NUM_REGISTERS,
        ensures
            exists|pressed: bool| final(self)@ == #[trigger] old(self)@.skp_vx(pressed),
            final(self)@.wf(),
    {
        let key = self.key_operand(x);
        let pressed = keypad.is_pressed(key);
        self.skip_if(pressed);
        assert(self@ == old(self)@.skp_vx(pressed));
    }

    /// Finishes `SKNP Vx` with the keypad's answer: the next instruction is
    /// skipped if the key is not held down.
    pub fn finish_sknp(&mut self, pressed: bool)
        ensures
            final(self)@ == old(self)@.sknp_vx(pressed),
            final(self)@.wf(),
    {
        self.skip_if(!pressed);
    }

    /// `SKNP Vx`: asks the keypad for the key in register `x` and skips the
    /// next instruction if it is not held down.
    pub fn sknp_vx<K: Keypad>(&mut self, keypad: &K, x: u8)
        requires
            x < NUM_REGISTERS,
        ensures
            exists|pressed: bool| final(self)@ == #[trigger] old(self)@.sknp_vx(pressed),
            final(self)@.wf(),
    {
        let key = self.key_operand(x);
        let pressed = keypad.is_pressed(key);
        self.finish_sknp(pressed);
    }

    /// `LD Vx, DT`: copies the delay timer into register `x`.
    pub fn ld_vx_dt(&mut self, x: u8)
        requires
            x < NUM_REGISTERS,
        ensures
            final(self)@ == old(self)@.ld_vx_dt(x),
            final(self)@.wf(),
    {
        proof {
            use_type_invariant(&*self);
        }
        self.registers[x as usize] = self.timers[DELAY_TIMER];
    }

    /// Finishes `LD Vx, K` with what the keypad gave: a key goes to register
    /// `x`; without a key the program counter goes back by one instruction,
    /// so that the same instruction runs again.
    pub fn store_key(&mut self, x: u8, key: Option<u8>)
        requires
            x < NUM_REGISTERS,
        ensures
            final(self)@ == old(self)@.store_key(x, key),
            final(self)@.wf(),
    {
        proof {
            use_type_invariant(&*self);
        }
        match key {
            None => {
                self.ip = self.ip.wrapping_sub(2);
            },
            Some(code) => {
                self.registers[x as usize] = code;
            },
        }
    }

    /// `LD Vx, K`: asks the keypad once for a key that is held down and never
    /// waits for one.
    pub fn ld_vx_k<K: Keypad>(&mut self, keypad: &K, x: u8)
        requires
            x < NUM_REGISTERS,
        ensures
            exists|key: Option<u8>| final(self)@ == #[trigger] old(self)@.store_key(x, key),
            final(self)@.wf(),
    {
        let key = keypad.pressed_key();
        self.store_key(x, key);
    }

    /// `LD DT, Vx`: copies register `x` into the delay timer.
    pub fn ld_dt_vx(&mut self, x: u8)
        requires
            x < NUM_REGISTERS,
        ensures
            final(self)@ == old(self)@.ld_dt_vx(x),
            final(self)@.wf(),
    {
        proof {
            use_type_invariant(&*self);
        }
        self.timers[DELAY_TIMER] = self.registers[x as usize];
    }

    /// `LD ST, Vx`: copies register `x` into the sound timer.
    pub fn ld_st_vx(&mut self, x: u8)
        requires
            x < NUM_REGISTERS,
        ensures
            final(self)@ == old(self)@.ld_st_vx(x),
            final(self)@.wf(),
    {
        proof {
            use_type_invariant(&*self);
        }
        self.timers[SOUND_TIMER] = self.registers[x as usize];
    }

    /// `ADD I, Vx`: adds register `x` to the address register. Refused with
    /// [`Fault::MemoryOutOfBounds`] when the sum is no address of the memory.
    pub fn add_i_vx(&mut self, x: u8) -> (result: Result<(), Fault>)
        requires
            x < NUM_REGISTERS,
        ensures
            applied(old(self)@, old(self)@.add_i_vx(x), final(self)@, result),
            final(self)@.wf(),
    {
        proof {
            use_type_invariant(&*self);
        }
        let sum = self.i as usize + self.registers[x as usize] as usize;
        if sum >= MEM_SIZE {
            return Err(Fault::MemoryOutOfBounds);
        }
        self.i = sum as u16;
        Ok(())
    }

    /// `LD F, Vx`: points the address register at the glyph of the digit in
    /// register `x`.
    pub fn ld_f_vx(&mut self, x: u8)
        requires
            x < NUM_REGISTERS,
        ensures
            final(self)@ == old(self)@.ld_f_vx(x),
            final(self)@.wf(),
    {
        proof {
            use_type_invariant(&*self);
        }
        let digit = self.registers[x as usize] as u16;
        let width = CHARACTER_SIZE as u16;
        assert(digit * width <= 0xFF * 5) by (nonlinear_arith)
            requires
                digit <= 0xFF,
                width == 5,
        ;
        self.i = digit * width;
    }

    /// `LD B, Vx`: stores the hundreds, tens and ones of register `x` at the
    /// address register and the two addresses after it. Refused with
    /// [`Fault::MemoryOutOfBounds`] when one of them is outside the memory.
    pub fn ld_b_vx(&mut self, x: u8) -> (result: Result<(), Fault>)
        requires
            x < NUM_REGISTERS,
        ensures
            applied(old(self)@, old(self)@.ld_b_vx(x), final(self)@, result),
            final(self)@.wf(),
    {
        proof {
            use_type_invariant(&*self);
        }
        let at = self.i as usize;
        if at + 2 >= MEM_SIZE {
            return Err(Fault::MemoryOutOfBounds);
        }
        let vx = self.registers[x as usize];
        self.memory[at] = vx / 100;
        self.memory[at + 1] = (vx % 100) / 10;
        self.memory[at + 2] = vx % 10;
        Ok(())
    }

    /// `LD [I], Vx`: stores registers 0 to `x` in memory from the address
    /// register on, then moves the address register past them. Refused with
    /// [`Fault::MemoryOutOfBounds`] when one of the addresses is outside the
    /// memory.
    pub fn ld_vi_vx(&mut self, x: u8) -> (result: Result<(), Fault>)
        requires
            x < NUM_REGISTERS,
        ensures
            applied(old(self)@, old(self)@.ld_vi_vx(x), final(self)@, result),
            final(self)@.wf(),
    {
        proof {
            use_type_invariant(&*self);
        }
        let at = self.i as usize;
        let last = x as usize;
        if at + last >= MEM_SIZE {
            return Err(Fault::MemoryOutOfBounds);
        }
        let mut register: usize = 0;
        while register <= last
            invariant
                register <= last + 1,
                last < NUM_REGISTERS,
                at + last < MEM_SIZE,
                at == old(self).i,
                self.inv(),
                self.registers == old(self).registers,
                self.i == old(self).i,
                self.ip == old(self).ip,
                self.stack == old(self).stack,
                self.sp == old(self).sp,
                self.timers == old(self).timers,
                forall|a: int|
                    at <= a < at + register ==> self.memory@[a] == old(self).registers@[a - at],
                forall|a: int|
                    0 <= a < MEM_SIZE && !(at <= a < at + register) ==> self.memory@[a] == old(
                        self,
                    ).memory@[a],
            decreases last + 1 - register,
        {
            self.memory[at + register] = self.registers[register];
            register += 1;
        }
        self.i = (at + last + 1) as u16;
        assert(self.memory@ =~= old(self)@.ld_vi_vx(x)->Ok_0.memory);
        Ok(())
    }

    /// `LD Vx, [I]`: loads registers 0 to `x` from memory from the address
    /// register on, then moves the address register past what was read.
    /// Refused with [`Fault::MemoryOutOfBounds`] when one of the addresses is
    /// outside the memory.
    pub fn ld_vx_vi(&mut self, x: u8) -> (result: Result<(), Fault>)
        requires
            x < NUM_REGISTERS,
        ensures
            applied(old(self)@, old(self)@.ld_vx_vi(x), final(self)@, result),
            final(self)@.wf(),
    {
        proof {
            use_type_invariant(&*self);
        }
        let at = self.i as usize;
        let last = x as usize;
        if at + last >= MEM_SIZE {
            return Err(Fault::MemoryOutOfBounds);
        }
        let mut register: usize = 0;
        while register <= last
            invariant
                register <= last + 1,
                last < NUM_REGISTERS,
                at + last < MEM_SIZE,
                at == old(self).i,
                self.inv(),
                self.memory == old(self).memory,
                self.i == old(self).i,
                self.ip == old(self).ip,
                self.stack == old(self).stack,
                self.sp == old(self).sp,
                self.timers == old(self).timers,
                forall|k: int| 0 <= k < register ==> self.registers@[k] == old(self).memory@[at + k],
                forall|k: int|
                    register <= k < NUM_REGISTERS ==> self.registers@[k] == old(self).registers@[k],
            decreases last + 1 - register,
        {
            self.registers[register] = self.memory[at + register];
            register += 1;
        }
        self.i = (at + last + 1) as u16;
        assert(self.registers@ =~= old(self)@.ld_vx_vi(x)->Ok_0.registers);
        Ok(())
    }

    /// The pixels that `DRW Vx, Vy, lines` toggles, in drawing order: for each
    /// of the `lines` sprite bytes from the address register on, one pixel for
    /// each bit that is set, from the least significant bit up. Every pixel
    /// lies inside the display. Refused with [`Fault::MemoryOutOfBounds`] when
    /// a sprite byte is outside the memory.
    pub fn sprite_pixels(&self, x: u8, y: u8, lines: u8) -> (result: Result<Vec<(u8, u8)>, Fault>)
        requires
            x < NUM_REGISTERS,
            y < NUM_REGISTERS,
        ensures
            !self@.sprite_in_memory(lines) ==> result == Err::<Vec<(u8, u8)>, Fault>(
                Fault::MemoryOutOfBounds,
            ),
            self@.sprite_in_memory(lines) ==> result is Ok && result->Ok_0@ == self@.sprite_pixels(
                x,
                y,
                lines,
            ),
            result matches Ok(pixels) ==> forall|k: int|
                0 <= k < pixels@.len() ==> pixels@[k].0 < SCREEN_WIDTH && pixels@[k].1
                    < SCREEN_HEIGHT,
            self@.wf(),
    {
        proof {
            use_type_invariant(self);
        }
        let at = self.i as usize;
        let rows = lines as usize;
        if rows > 0 && at + rows > MEM_SIZE {
            return Err(Fault::MemoryOutOfBounds);
        }
        let vx = self.registers[x as usize];
        let vy = self.registers[y as usize];
        let mut pixels: Vec<(u8, u8)> = Vec::new();
        let mut line: usize = 0;
        while line < rows
            invariant
                line <= rows <= 0xFF,
                rows > 0 ==> at + rows <= MEM_SIZE,
                at == self.i,
                pixels@ == sprite_pixels_upto(self.memory@, at as int, vx, vy, (line * 8) as nat),
                forall|k: int|
                    0 <= k < pixels@.len() ==> pixels@[k].0 < SCREEN_WIDTH && pixels@[k].1
                        < SCREEN_HEIGHT,
            decreases rows - line,
        {
            let data = self.memory[at + line];
            let mut displace: u8 = 0;
            while displace < 8
                invariant
                    displace <= 8,
                    line < rows <= 0xFF,
                    at + line < MEM_SIZE,
                    at == self.i,
                    data == self.memory@[at + line],
                    pixels@ == sprite_pixels_upto(
                        self.memory@,
                        at as int,
                        vx,
                        vy,
                        (line * 8 + displace) as nat,
                    ),
                    forall|k: int|
                        0 <= k < pixels@.len() ==> pixels@[k].0 < SCREEN_WIDTH && pixels@[k].1
                            < SCREEN_HEIGHT,
                decreases 8 - displace,
            {
                let ghost cell = (line * 8 + displace) as nat;
                assert(cell / 8 == line && cell % 8 == displace);
                if (data >> displace) & 0x1 == 1 {
                    let px = ((vx as u16 + 7 - displace as u16) % 64) as u8;
                    let py = ((vy as usize + line) % 32) as u8;
                    pixels.push((px, py));
                }
                displace += 1;
            }
            line += 1;
        }
        Ok(pixels)
    }

    /// Finishes `DRW` with what the display reported for the pixels of the
    /// sprite, in any order: the flag register becomes 1 if the display
    /// reported a collision for at least one pixel, and 0 if it reported none.
    pub fn finish_draw(&mut self, hits: &[bool])
        ensures
            final(self)@ == old(self)@.finish_draw(hits@),
            final(self)@.wf(),
    {
        proof {
            use_type_invariant(&*self);
        }
        let mut collision = false;
        let mut k: usize = 0;
        while k < hits.len()
            invariant
                k <= hits@.len(),
                collision <==> exists|j: int| 0 <= j < k && hits@[j],
            decreases hits@.len() - k,
        {
            collision = collision || hits[k];
            k += 1;
        }
        self.registers[FLAG] = if collision {
            1
        } else {
            0
        };
    }

    /// `CLS`: asks the display to turn every pixel off. The machine itself
    /// does not change.
    pub fn cls<S: Screen>(&mut self, screen: &mut S)
        ensures
            final(self)@ == old(self)@,
            final(self)@.wf(),
    {
        proof {
            use_type_invariant(&*self);
        }
        screen.clear();
    }

    /// `DRW Vx, Vy, lines`: asks the display to toggle each pixel of the
    /// sprite at the address register, in the order of
    /// [`Chip::sprite_pixels`], and sets the flag register to 1 if the display
    /// reported a collision for at least one of them and to 0 otherwise. The
    /// display is asked once for each pixel; a sprite without pixels leaves it
    /// alone. Refused with [`Fault::MemoryOutOfBounds`], before anything is
    /// drawn, when a sprite byte is outside the memory.
    pub fn draw_vx_vy_nibble<S: Screen>(&mut self, screen: &mut S, x: u8, y: u8, lines: u8) -> (result:
        Result<(), Fault>)
        requires
            x < NUM_REGISTERS,
            y < NUM_REGISTERS,
        ensures
            exists|hits: Seq<bool>|
                hits.len() == old(self)@.drawn(Instruction::DrawVxVyNibble { x, y, nibble: lines }).len()
                    && applied(
                    old(self)@,
                    #[trigger] old(self)@.draw(x, y, lines, hits),
                    final(self)@,
                    result,
                ),
            old(self)@.drawn(Instruction::DrawVxVyNibble { x, y, nibble: lines }).len() == 0
                ==> *final(screen) == *old(screen),
            final(self)@.wf(),
    {
        let pixels = match self.sprite_pixels(x, y, lines) {
            Ok(pixels) => pixels,
            Err(fault) => {
                assert(applied(self@, self@.draw(x, y, lines, Seq::<bool>::empty()), self@, Err(fault)));
                return Err(fault);
            },
        };
        let mut hits: Vec<bool> = Vec::new();
        let mut k: usize = 0;
        while k < pixels.len()
            invariant
                k <= pixels@.len(),
                hits@.len() == k,
                k == 0 ==> *screen == *old(screen),
                forall|k: int|
                    0 <= k < pixels@.len() ==> pixels@[k].0 < SCREEN_WIDTH && pixels@[k].1
                        < SCREEN_HEIGHT,
            decreases pixels@.len() - k,
        {
            let (px, py) = pixels[k];
            let hit = screen.draw(px, py);
            hits.push(hit);
            k += 1;
        }
        self.finish_draw(hits.as_slice());
        assert(applied(old(self)@, old(self)@.draw(x, y, lines, hits@), self@, Ok(())));
        Ok(())
    }

    /// Runs one decoded instruction, consulting the capability that the
    /// instruction needs, if it needs one. The machine ends in the state that
    /// [`ChipState::execute`] gives for what the capability answered; an
    /// instruction that consults none has one outcome only.
    pub fn execute<R: Random, S: Screen, K: Keypad>(
        &mut self,
        instr: Instruction,
        random: &R,
        screen: &mut S,
        keypad: &K,
    ) -> (result: Result<(), Fault>)
        requires
            instr.wf(),
        ensures
            exists|replies: HostReplies|
                old(self)@.answered(instr, replies) && applied(
                    old(self)@,
                    #[trigger] old(self)@.execute(instr, replies),
                    final(self)@,
                    result,
                ),
            old(self)@.leaves_display(instr) ==> *final(screen) == *old(screen),
    {
        let ghost pre = self@;
        let ghost mut replies = HostReplies {
            random: 0,
            pressed: false,
            key: None,
            hits: Seq::empty(),
        };
        let result = match instr {
            Instruction::Cls => {
                self.cls(screen);
                Ok(())
            },
            Instruction::Ret => self.ret(),
            Instruction::Jmp { addr } => {
                self.jmp(addr);
                Ok(())
            },
            Instruction::Call { addr } => self.call(addr),
            Instruction::SeVxByte { x, byte } => {
                self.se_vx_byte(x, byte);
                Ok(())
            },
            Instruction::SneVxByte { x, byte } => {
                self.sne_vx_byte(x, byte);
                Ok(())
            },
            Instruction::SeVxVy { x, y } => {
                self.sne_vx_vy(x, y);
                Ok(())
            },
            Instruction::LdVxByte { x, byte } => {
                self.ld_vx_byte(x, byte);
                Ok(())
            },
            Instruction::AddVxByte { x, byte } => {
                self.add_vx_byte(x, byte);
                Ok(())
            },
            Instruction::LdVxVy { x, y } => {
                self.ld_vx_vy(x, y);
                Ok(())
            },
            Instruction::OrVxVy { x, y } => {
                self.or_vx_vy(x, y);
                Ok(())
            },
            Instruction::AndVxVy { x, y } => {
                self.and_vx_vy(x, y);
                Ok(())
            },
            Instruction::XorVxVy { x, y } => {
                self.xor_vx_vy(x, y);
                Ok(())
            },
            Instruction::AddVxVy { x, y } => {
                self.add_vx_vy(x, y);
                Ok(())
            },
            Instruction::SubVxVy { x, y } => {
                self.sub_vx_vy(x, y);
                Ok(())
            },
            Instruction::ShrVx { x } => {
                self.shr_vx(x);
                Ok(())
            },
            Instruction::SubnVxVy { x, y } => {
                self.subn_vx_vy(x, y);
                Ok(())
            },
            Instruction::ShlVx { x } => {
                self.shl_vx(x);
                Ok(())
            },
            Instruction::SneVxVy { x, y } => {
                self.sne_vx_vy(x, y);
                Ok(())
            },
            Instruction::LdIAddr { addr } => {
                self.ld_i_addr(addr);
                Ok(())
            },
            Instruction::JmpV0Addr { addr } => {
                self.jmp_v0_addr(addr);
                Ok(())
            },
            Instruction::RndVxByte { x, byte } => {
                self.rnd_vx_byte(random, x, byte);
                proof {
                    let drawn = choose|drawn: u8| self@ == pre.store_random(x, byte, drawn);
                    replies = HostReplies { random: drawn, ..replies };
                }
                Ok(())
            },
            Instruction::DrawVxVyNibble { x, y, nibble } => {
                let drawn = self.draw_vx_vy_nibble(screen, x, y, nibble);
                proof {
                    let hits = choose|hits: Seq<bool>|
                        hits.len() == pre.drawn(instr).len() && applied(
                            pre,
                            #[trigger] pre.draw(x, y, nibble, hits),
                            self@,
                            drawn,
                        );
                    replies = HostReplies { hits, ..replies };
                }
                drawn
            },
            Instruction::SkpVx { x } => {
                self.skp_vx(keypad, x);
                proof {
                    let pressed = choose|pressed: bool| self@ == pre.skp_vx(pressed);
                    replies = HostReplies { pressed, ..replies };
                }
                Ok(())
            },
            Instruction::SknpVx { x } => {
                self.sknp_vx(keypad, x);
                proof {
                    let pressed = choose|pressed: bool| self@ == pre.sknp_vx(pressed);
                    replies = HostReplies { pressed, ..replies };
                }
                Ok(())
            },
            Instruction::LdVxDt { x } => {
                self.ld_vx_dt(x);
                Ok(())
            },
            Instruction::LdVxK { x } => {
                self.ld_vx_k(keypad, x);
                proof {
                    let key = choose|key: Option<u8>| self@ == pre.store_key(x, key);
                    replies = HostReplies { key, ..replies };
                }
                Ok(())
            },
            Instruction::LdDtVx { x } => {
                self.ld_dt_vx(x);
                Ok(())
            },
            Instruction::LdStVx { x } => {
                self.ld_st_vx(x);
                Ok(())
            },
            Instruction::AddIVx { x } => self.add_i_vx(x),
            Instruction::LdFVx { x } => {
                self.ld_f_vx(x);
                Ok(())
            },
            Instruction::LdBVx { x } => self.ld_b_vx(x),
            Instruction::LdViVx { x } => self.ld_vi_vx(x),
            Instruction::LdVxVi { x } => self.ld_vx_vi(x),
        };
        assert(pre.answered(instr, replies));
        assert(applied(pre, pre.execute(instr, replies), self@, result));
        result
    }

    /// One fetch-decode-execute step with the cause of a stop.
    ///
    /// `Ok(true)` means that an instruction ran and the machine goes on.
    /// `Ok(false)` means that the word at the program counter, `0x0000` or
    /// another one, stands for no instruction. `Err` carries the fault of a
    /// refused instruction, or [`Fault::MemoryOutOfBounds`] when no word can
    /// be fetched at the program counter. State and result are those that
    /// [`ChipState::step`] gives for what the capabilities answered.
    pub fn step<R: Random, S: Screen, K: Keypad>(
        &mut self,
        random: &R,
        screen: &mut S,
        keypad: &K,
    ) -> (result: Result<bool, Fault>)
        ensures
            exists|replies: HostReplies|
                old(self)@.next_answered(replies) && #[trigger] old(self)@.step(replies) == (
                    final(self)@,
                    result,
                ),
            old(self)@.next_leaves_display() ==> *final(screen) == *old(screen),
            final(self)@.wf(),
    {
        proof {
            use_type_invariant(&*self);
        }
        let ghost idle = HostReplies { random: 0, pressed: false, key: None, hits: Seq::empty() };
        let at = self.ip as usize;
        if at + 1 >= MEM_SIZE {
            assert(self@.step(idle) == (self@, Err::<bool, Fault>(Fault::MemoryOutOfBounds)));
            return Err(Fault::MemoryOutOfBounds);
        }
        let opcode = opcode_from_bytes(self.memory[at], self.memory[at + 1]);
        self.ip = self.ip + 2;
        let ghost advanced = self@;
        match decode(opcode) {
            None => {
                assert(old(self)@.step(idle) == (self@, Ok::<bool, Fault>(false)));
                Ok(false)
            },
            Some(instr) => {
                let outcome = self.execute(instr, random, screen, keypad);
                proof {
                    let replies = choose|replies: HostReplies|
                        advanced.answered(instr, replies) && applied(
                            advanced,
                            #[trigger] advanced.execute(instr, replies),
                            self@,
                            outcome,
                        );
                    assert(advanced == old(self)@.advanced());
                    assert(old(self)@.next_answered(replies));
                    assert(old(self)@.step(replies) == (
                        self@,
                        match outcome {
                            Ok(_) => Ok::<bool, Fault>(true),
                            Err(fault) => Err::<bool, Fault>(fault),
                        },
                    ));
                    use_type_invariant(&*self);
                }
                match outcome {
                    Ok(_) => Ok(true),
                    Err(fault) => Err(fault),
                }
            },
        }
    }

    /// One fetch-decode-execute step. Returns `true` when an instruction ran
    /// and the host may go on, `false` when the host is to stop calling: the
    /// word at the program counter stands for no instruction, or the
    /// instruction was refused. [`Chip::step`] does the same and tells the
    /// cause.
    pub fn tick<R: Random, S: Screen, K: Keypad>(
        &mut self,
        random: &R,
        screen: &mut S,
        keypad: &K,
    ) -> (running: bool)
        ensures
            exists|replies: HostReplies|
                old(self)@.next_answered(replies) && #[trigger] old(self)@.tick(replies) == (
                    final(self)@,
                    running,
                ),
            old(self)@.next_leaves_display() ==> *final(screen) == *old(screen),
            final(self)@.wf(),
    {
        let result = self.step(random, screen, keypad);
        let running = match result {
            Ok(running) => running,
            Err(_) => false,
        };
        proof {
            let replies = choose|replies: HostReplies|
                old(self)@.next_answered(replies) && #[trigger] old(self)@.step(replies) == (
                    self@,
                    result,
                );
            assert(old(self)@.tick(replies) == (self@, running));
        }
        running
    }

    /// The general-purpose registers.
    pub fn registers(&self) -> (registers: &[u8; NUM_REGISTERS])
        ensures
            registers@ == self@.registers,
            self@.wf(),
    {
        proof {
            use_type_invariant(self);
        }
        &self.registers
    }

    /// The address register.
    pub fn i(&self) -> (i: u16)
        ensures
            i == self@.i,
            self@.wf(),
    {
        proof {
            use_type_invariant(self);
        }
        self.i
    }

    /// The memory.
    pub fn memory(&self) -> (memory: &[u8; MEM_SIZE])
        ensures
            memory@ == self@.memory,
            self@.wf(),
    {
        proof {
            use_type_invariant(self);
        }
        &self.memory
    }

    /// The program counter: the address of the next instruction word.
    pub fn ip(&self) -> (ip: u16)
        ensures
            ip == self@.ip,
            self@.wf(),
    {
        proof {
            use_type_invariant(self);
        }
        self.ip
    }

    /// The slots of the call stack. Those from [`Chip::sp`] on are free.
    pub fn stack(&self) -> (stack: &[u16; STACK_SIZE])
        ensures
            stack@ == self@.stack,
            self@.wf(),
    {
        proof {
            use_type_invariant(self);
        }
        &self.stack
    }

    /// The number of calls outstanding, which is the next free slot of the
    /// call stack. It never passes the number of slots.
    pub fn sp(&self) -> (sp: usize)
        ensures
            sp == self@.sp,
            sp <= STACK_SIZE,
            self@.wf(),
    {
        proof {
            use_type_invariant(self);
        }
        self.sp
    }

    /// The delay timer and the sound timer.
    pub fn timers(&self) -> (timers: &[u8; NUM_TIMERS])
        ensures
            timers@ == self@.timers,
            self@.wf(),
    {
        proof {
            use_type_invariant(self);
        }
        &self.timers
    }
}

} // verus!
