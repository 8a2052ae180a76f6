//! Mathematical model of the machine state and of every instruction's effect.
use vstd::prelude::*;
use crate::fault::Fault;
use crate::font::CHARACTER_SIZE;
use crate::opcode::{spec_decode, spec_opcode, Instruction};
use crate::specs::{
    DELAY_TIMER, FLAG, MEM_SIZE, NUM_REGISTERS, NUM_TIMERS, PROG_START, SOUND_TIMER, STACK_SIZE,
};

verus! {

/// An integer reduced to the 8-bit range.
pub open spec fn wrap_u8(value: int) -> u8 {
    (value % 0x100) as u8
}

/// An integer reduced to the 16-bit range.
pub open spec fn wrap_u16(value: int) -> u16 {
    (value % 0x10000) as u16
}

/// Bit number `displace` of `data`, counted from the least significant one.
pub open spec fn bit_set(data: u8, displace: u8) -> bool {
    (data >> displace) & 0x1 == 1
}

/// The display position of bit `displace` of sprite row `line`, for a sprite
/// drawn at `(vx, vy)`: the most significant bit is the leftmost pixel, and
/// positions wrap around the 64 by 32 display.
pub open spec fn sprite_pixel(vx: u8, vy: u8, line: int, displace: int) -> (u8, u8) {
    (((vx + 7 - displace) % 64) as u8, ((vy + line) % 32) as u8)
}

/// What the host's capabilities answered while one instruction ran. An
/// instruction consults at most one of them.
pub struct HostReplies {
    /// The byte that the random source gave.
    pub random: u8,
    /// Whether the keypad reported the key that was asked for as held down.
    pub pressed: bool,
    /// The key that the keypad reported as held down, if any.
    pub key: Option<u8>,
    /// What the display reported for each pixel it was asked to toggle, in
    /// the order in which it was asked.
    pub hits: Seq<bool>,
}

/// Whether the display reported a collision for at least one pixel.
pub open spec fn any_hit(hits: Seq<bool>) -> bool {
    exists|k: int| 0 <= k < hits.len() && hits[k]
}

/// The pixels that the first `cells` bits of the sprite at address `at` of
/// `memory` toggle, in drawing order, for a sprite drawn at `(vx, vy)`. Bits
/// are counted row by row, each row from its least significant bit; a bit that
/// is zero toggles nothing.
pub open spec fn sprite_pixels_upto(memory: Seq<u8>, at: int, vx: u8, vy: u8, cells: nat) -> Seq<
    (u8, u8),
>
    decreases cells,
{
    if cells == 0 {
        Seq::empty()
    } else {
        let before = sprite_pixels_upto(memory, at, vx, vy, (cells - 1) as nat);
        let line = (cells - 1) / 8;
        let displace = (cells - 1) % 8;
        if bit_set(memory[at + line], displace as u8) {
            before.push(sprite_pixel(vx, vy, line, displace))
        } else {
            before
        }
    }
}

/// The machine state as plain mathematical values.
pub struct ChipState {
    /// The sixteen general-purpose registers.
    pub registers: Seq<u8>,
    /// The address register.
    pub i: u16,
    /// The memory, one byte per address.
    pub memory: Seq<u8>,
    /// The program counter.
    pub ip: u16,
    /// The slots of the call stack.
    pub stack: Seq<u16>,
    /// The next free slot of the call stack.
    pub sp: nat,
    /// The delay and the sound timer.
    pub timers: Seq<u8>,
}

impl ChipState {
    /// The sizes every machine state has.
    pub open spec fn wf(self) -> bool {
        &&& self.registers.len() == NUM_REGISTERS
        &&& self.memory.len() == MEM_SIZE
        &&& self.stack.len() == STACK_SIZE
        &&& self.timers.len() == NUM_TIMERS
        &&& self.sp <= STACK_SIZE
    }

    /// The state of a machine that was just switched on.
    pub open spec fn initial() -> ChipState {
        ChipState {
            registers: Seq::new(NUM_REGISTERS as nat, |k: int| 0u8),
            i: 0,
            memory: Seq::new(MEM_SIZE as nat, |k: int| 0u8),
            ip: PROG_START as u16,
            stack: Seq::new(STACK_SIZE as nat, |k: int| 0u16),
            sp: 0,
            timers: Seq::new(NUM_TIMERS as nat, |k: int| 0u8),
        }
    }

    /// This state with `value` in register `x`.
    pub open spec fn with_register(self, x: u8, value: u8) -> ChipState {
        ChipState { registers: self.registers.update(x as int, value), ..self }
    }

    /// This state with `value` in the flag register.
    pub open spec fn with_flag(self, value: u8) -> ChipState {
        ChipState { registers: self.registers.update(FLAG as int, value), ..self }
    }

    /// This state with the program counter moved past one more instruction
    /// if `taken` holds.
    pub open spec fn skip_if(self, taken: bool) -> ChipState {
        if taken {
            ChipState { ip: wrap_u16(self.ip + 2), ..self }
        } else {
            self
        }
    }

    /// The memory with the font table at address 0 and `program` at the
    /// start of the program region.
    pub open spec fn load_program(self, font: Seq<u8>, program: Seq<u8>) -> ChipState {
        ChipState {
            memory: Seq::new(
                MEM_SIZE as nat,
                |a: int|
                    if 0 <= a < font.len() {
                        font[a]
                    } else if PROG_START <= a < PROG_START + program.len() {
                        program[a - PROG_START]
                    } else {
                        self.memory[a]
                    },
            ),
            ..self
        }
    }

    /// A timer after one tick of the 60 Hz clock.
    pub open spec fn timer_after_tick(t: u8) -> u8 {
        if t > 0 {
            (t - 1) as u8
        } else {
            0
        }
    }

    /// The state after one tick of the 60 Hz clock.
    pub open spec fn tick_timers(self) -> ChipState {
        ChipState {
            timers: Seq::new(NUM_TIMERS as nat, |k: int| Self::timer_after_tick(self.timers[k])),
            ..self
        }
    }

    /// `RET`: the program counter comes from the topmost stack slot.
    pub open spec fn ret(self) -> Result<ChipState, Fault> {
        if self.sp == 0 {
            Err(Fault::StackUnderflow)
        } else {
            Ok(ChipState { sp: (self.sp - 1) as nat, ip: self.stack[self.sp - 1], ..self })
        }
    }

    /// `JMP addr`.
    pub open spec fn jmp(self, addr: u16) -> ChipState {
        ChipState { ip: addr, ..self }
    }

    /// `CALL addr`: the program counter goes to the next free stack slot.
    pub open spec fn call(self, addr: u16) -> Result<ChipState, Fault> {
        if self.sp >= STACK_SIZE {
            Err(Fault::StackOverflow)
        } else {
            Ok(
                ChipState {
                    stack: self.stack.update(self.sp as int, self.ip),
                    sp: self.sp + 1,
                    ip: addr,
                    ..self
                },
            )
        }
    }

    /// `SE Vx, byte`.
    pub open spec fn se_vx_byte(self, x: u8, value: u8) -> ChipState {
        self.skip_if(self.registers[x as int] == value)
    }

    /// `SNE Vx, byte`.
    pub open spec fn sne_vx_byte(self, x: u8, value: u8) -> ChipState {
        self.skip_if(self.registers[x as int] != value)
    }

    /// `SNE Vx, Vy`.
    pub open spec fn sne_vx_vy(self, x: u8, y: u8) -> ChipState {
        self.skip_if(self.registers[x as int] != self.registers[y as int])
    }

    /// `LD Vx, byte`.
    pub open spec fn ld_vx_byte(self, x: u8, value: u8) -> ChipState {
        self.with_register(x, value)
    }

    /// `ADD Vx, byte`: the sum modulo 256, the flag is left alone.
    pub open spec fn add_vx_byte(self, x: u8, value: u8) -> ChipState {
        self.with_register(x, wrap_u8(self.registers[x as int] + value))
    }

    /// `LD Vx, Vy`.
    pub open spec fn ld_vx_vy(self, x: u8, y: u8) -> ChipState {
        self.with_register(x, self.registers[y as int])
    }

    /// `OR Vx, Vy`.
    pub open spec fn or_vx_vy(self, x: u8, y: u8) -> ChipState {
        self.with_register(x, self.registers[x as int] | self.registers[y as int])
    }

    /// `AND Vx, Vy`.
    pub open spec fn and_vx_vy(self, x: u8, y: u8) -> ChipState {
        self.with_register(x, self.registers[x as int] & self.registers[y as int])
    }

    /// `XOR Vx, Vy`.
    pub open spec fn xor_vx_vy(self, x: u8, y: u8) -> ChipState {
        self.with_register(x, self.registers[x as int] ^ self.registers[y as int])
    }

    /// `ADD Vx, Vy`: the sum modulo 256 goes to register `x`, then the flag
    /// becomes 1 if the sum passed 255 and 0 otherwise.
    pub open spec fn add_vx_vy(self, x: u8, y: u8) -> ChipState {
        let sum = self.registers[x as int] + self.registers[y as int];
        self.with_register(x, wrap_u8(sum)).with_flag(
            if sum > 0xFF {
                1
            } else {
                0
            },
        )
    }

    /// `SUB Vx, Vy`: the difference modulo 256 goes to register `x`, then the
    /// flag becomes 1 if nothing was borrowed and 0 otherwise.
    pub open spec fn sub_vx_vy(self, x: u8, y: u8) -> ChipState {
        let vx = self.registers[x as int];
        let vy = self.registers[y as int];
        self.with_register(x, wrap_u8(vx - vy)).with_flag(
            if vx >= vy {
                1
            } else {
                0
            },
        )
    }

    /// `SUBN Vx, Vy`: register `y` minus register `x` modulo 256 goes to
    /// register `x`, then the flag becomes 1 if nothing was borrowed and 0
    /// otherwise.
    pub open spec fn subn_vx_vy(self, x: u8, y: u8) -> ChipState {
        let vx = self.registers[x as int];
        let vy = self.registers[y as int];
        self.with_register(x, wrap_u8(vy - vx)).with_flag(
            if vy >= vx {
                1
            } else {
                0
            },
        )
    }

    /// `SHR Vx`: the flag becomes the lowest bit of register `x`, then
    /// register `x` is halved.
    pub open spec fn shr_vx(self, x: u8) -> ChipState {
        let flagged = self.with_flag(self.registers[x as int] & 0x01);
        flagged.with_register(x, flagged.registers[x as int] >> 1u8)
    }

    /// `SHL Vx`: the flag becomes the highest bit of register `x`, then
    /// register `x` is doubled modulo 256.
    pub open spec fn shl_vx(self, x: u8) -> ChipState {
        let flagged = self.with_flag(self.registers[x as int] >> 7u8);
        flagged.with_register(x, flagged.registers[x as int] << 1u8)
    }

    /// `LD I, addr`.
    pub open spec fn ld_i_addr(self, addr: u16) -> ChipState {
        ChipState { i: addr, ..self }
    }

    /// `JMP V0, addr`.
    pub open spec fn jmp_v0_addr(self, addr: u16) -> ChipState {
        ChipState { ip: wrap_u16(addr + self.registers[0]), ..self }
    }

    /// `RND Vx, byte` when the random source gave `random`.
    pub open spec fn store_random(self, x: u8, mask: u8, random: u8) -> ChipState {
        self.with_register(x, random & mask)
    }

    /// `SKP Vx` when the keypad reported the key in register `x` as held
    /// down (`pressed`) or not.
    pub open spec fn skp_vx(self, pressed: bool) -> ChipState {
        self.skip_if(pressed)
    }

    /// `SKNP Vx` when the keypad reported the key in register `x` as held
    /// down (`pressed`) or not.
    pub open spec fn sknp_vx(self, pressed: bool) -> ChipState {
        self.skip_if(!pressed)
    }

    /// `LD Vx, DT`.
    pub open spec fn ld_vx_dt(self, x: u8) -> ChipState {
        self.with_register(x, self.timers[DELAY_TIMER as int])
    }

    /// `LD Vx, K` when the keypad gave `key`: without a key the program
    /// counter goes back by one instruction.
    pub open spec fn store_key(self, x: u8, key: Option<u8>) -> ChipState {
        match key {
            Some(code) => self.with_register(x, code),
            None => ChipState { ip: wrap_u16(self.ip - 2), ..self },
        }
    }

    /// `LD DT, Vx`.
    pub open spec fn ld_dt_vx(self, x: u8) -> ChipState {
        ChipState {
            timers: self.timers.update(DELAY_TIMER as int, self.registers[x as int]),
            ..self
        }
    }

    /// `LD ST, Vx`.
    pub open spec fn ld_st_vx(self, x: u8) -> ChipState {
        ChipState {
            timers: self.timers.update(SOUND_TIMER as int, self.registers[x as int]),
            ..self
        }
    }

    /// `ADD I, Vx`: refused when the sum is no address of the memory.
    pub open spec fn add_i_vx(self, x: u8) -> Result<ChipState, Fault> {
        let sum = self.i + self.registers[x as int];
        if sum >= MEM_SIZE {
            Err(Fault::MemoryOutOfBounds)
        } else {
            Ok(ChipState { i: sum as u16, ..self })
        }
    }

    /// `LD F, Vx`: glyphs lie one after the other from address 0.
    pub open spec fn ld_f_vx(self, x: u8) -> ChipState {
        ChipState { i: (self.registers[x as int] * CHARACTER_SIZE) as u16, ..self }
    }

    /// `LD B, Vx`: hundreds, tens and ones of register `x` at the address
    /// register and the two addresses after it.
    pub open spec fn ld_b_vx(self, x: u8) -> Result<ChipState, Fault> {
        let vx = self.registers[x as int];
        let at = self.i as int;
        if at + 2 >= MEM_SIZE {
            Err(Fault::MemoryOutOfBounds)
        } else {
            Ok(
                ChipState {
                    memory: self.memory.update(at, vx / 100).update(at + 1, (vx % 100) / 10).update(
                        at + 2,
                        vx % 10,
                    ),
                    ..self
                },
            )
        }
    }

    /// `LD [I], Vx`: registers 0 to `x` go to memory from the address
    /// register on, which then points past them.
    pub open spec fn ld_vi_vx(self, x: u8) -> Result<ChipState, Fault> {
        let at = self.i as int;
        if at + x >= MEM_SIZE {
            Err(Fault::MemoryOutOfBounds)
        } else {
            Ok(
                ChipState {
                    memory: Seq::new(
                        MEM_SIZE as nat,
                        |a: int|
                            if at <= a <= at + x {
                                self.registers[a - at]
                            } else {
                                self.memory[a]
                            },
                    ),
                    i: (at + x + 1) as u16,
                    ..self
                },
            )
        }
    }

    /// `LD Vx, [I]`: registers 0 to `x` come from memory from the address
    /// register on, which then points past what was read.
    pub open spec fn ld_vx_vi(self, x: u8) -> Result<ChipState, Fault> {
        let at = self.i as int;
        if at + x >= MEM_SIZE {
            Err(Fault::MemoryOutOfBounds)
        } else {
            Ok(
                ChipState {
                    registers: Seq::new(
                        NUM_REGISTERS as nat,
                        |k: int|
                            if k <= x {
                                self.memory[at + k]
                            } else {
                                self.registers[k]
                            },
                    ),
                    i: (at + x + 1) as u16,
                    ..self
                },
            )
        }
    }

    /// The pixels that `DRW Vx, Vy, lines` toggles, in drawing order.
    pub open spec fn sprite_pixels(self, x: u8, y: u8, lines: u8) -> Seq<(u8, u8)> {
        sprite_pixels_upto(
            self.memory,
            self.i as int,
            self.registers[x as int],
            self.registers[y as int],
            (lines * 8) as nat,
        )
    }

    /// Whether `DRW` with `lines` rows reads only inside the memory.
    pub open spec fn sprite_in_memory(self, lines: u8) -> bool {
        lines == 0 || self.i + lines <= MEM_SIZE
    }

    /// The end of `DRW` when the display reported `hits` for the pixels it
    /// was asked to toggle: the flag becomes 1 if one of them, whichever,
    /// collided, and 0 if none did.
    pub open spec fn finish_draw(self, hits: Seq<bool>) -> ChipState {
        self.with_flag(
            if any_hit(hits) {
                1
            } else {
                0
            },
        )
    }

    /// `DRW Vx, Vy, lines` when the display reported `hits` for the pixels of
    /// the sprite.
    pub open spec fn draw(self, x: u8, y: u8, lines: u8, hits: Seq<bool>) -> Result<
        ChipState,
        Fault,
    > {
        if !self.sprite_in_memory(lines) {
            Err(Fault::MemoryOutOfBounds)
        } else {
            Ok(self.finish_draw(hits))
        }
    }

    /// The pixels that `instr` asks the display to toggle, in drawing order:
    /// those of the sprite for a `DRW` whose sprite lies inside the memory,
    /// none for any other instruction.
    pub open spec fn drawn(self, instr: Instruction) -> Seq<(u8, u8)> {
        match instr {
            Instruction::DrawVxVyNibble { x, y, nibble } => if self.sprite_in_memory(nibble) {
                self.sprite_pixels(x, y, nibble)
            } else {
                Seq::empty()
            },
            _ => Seq::empty(),
        }
    }

    /// Whether `instr` leaves the display alone: it is no `CLS` and it draws
    /// no pixel.
    pub open spec fn leaves_display(self, instr: Instruction) -> bool {
        !(instr is Cls) && self.drawn(instr).len() == 0
    }

    /// Whether `replies` holds one answer of the display for each pixel that
    /// `instr` draws.
    pub open spec fn answered(self, instr: Instruction, replies: HostReplies) -> bool {
        replies.hits.len() == self.drawn(instr).len()
    }

    /// The effect of one decoded instruction, given what the capabilities
    /// answered. The `5` family compares as the `9` family does: it skips
    /// when the two registers differ.
    pub open spec fn execute(self, instr: Instruction, replies: HostReplies) -> Result<
        ChipState,
        Fault,
    > {
        match instr {
            Instruction::Cls => Ok(self),
            Instruction::Ret => self.ret(),
            Instruction::Jmp { addr } => Ok(self.jmp(addr)),
            Instruction::Call { addr } => self.call(addr),
            Instruction::SeVxByte { x, byte } => Ok(self.se_vx_byte(x, byte)),
            Instruction::SneVxByte { x, byte } => Ok(self.sne_vx_byte(x, byte)),
            Instruction::SeVxVy { x, y } => Ok(self.sne_vx_vy(x, y)),
            Instruction::LdVxByte { x, byte } => Ok(self.ld_vx_byte(x, byte)),
            Instruction::AddVxByte { x, byte } => Ok(self.add_vx_byte(x, byte)),
            Instruction::LdVxVy { x, y } => Ok(self.ld_vx_vy(x, y)),
            Instruction::OrVxVy { x, y } => Ok(self.or_vx_vy(x, y)),
            Instruction::AndVxVy { x, y } => Ok(self.and_vx_vy(x, y)),
            Instruction::XorVxVy { x, y } => Ok(self.xor_vx_vy(x, y)),
            Instruction::AddVxVy { x, y } => Ok(self.add_vx_vy(x, y)),
            Instruction::SubVxVy { x, y } => Ok(self.sub_vx_vy(x, y)),
            Instruction::ShrVx { x } => Ok(self.shr_vx(x)),
            Instruction::SubnVxVy { x, y } => Ok(self.subn_vx_vy(x, y)),
            Instruction::ShlVx { x } => Ok(self.shl_vx(x)),
            Instruction::SneVxVy { x, y } => Ok(self.sne_vx_vy(x, y)),
            Instruction::LdIAddr { addr } => Ok(self.ld_i_addr(addr)),
            Instruction::JmpV0Addr { addr } => Ok(self.jmp_v0_addr(addr)),
            Instruction::RndVxByte { x, byte } => Ok(self.store_random(x, byte, replies.random)),
            Instruction::DrawVxVyNibble { x, y, nibble } => self.draw(
                x,
                y,
                nibble,
                replies.hits,
            ),
            Instruction::SkpVx { x } => Ok(self.skp_vx(replies.pressed)),
            Instruction::SknpVx { x } => Ok(self.sknp_vx(replies.pressed)),
            Instruction::LdVxDt { x } => Ok(self.ld_vx_dt(x)),
            Instruction::LdVxK { x } => Ok(self.store_key(x, replies.key)),
            Instruction::LdDtVx { x } => Ok(self.ld_dt_vx(x)),
            Instruction::LdStVx { x } => Ok(self.ld_st_vx(x)),
            Instruction::AddIVx { x } => self.add_i_vx(x),
            Instruction::LdFVx { x } => Ok(self.ld_f_vx(x)),
            Instruction::LdBVx { x } => self.ld_b_vx(x),
            Instruction::LdViVx { x } => self.ld_vi_vx(x),
            Instruction::LdVxVi { x } => self.ld_vx_vi(x),
        }
    }

    /// Whether both bytes of the next instruction word lie inside the memory.
    pub open spec fn can_fetch(self) -> bool {
        self.ip + 1 < MEM_SIZE
    }

    /// The instruction word at the program counter, high byte first.
    pub open spec fn fetch(self) -> u16 {
        spec_opcode(self.memory[self.ip as int], self.memory[self.ip + 1])
    }

    /// This state with the program counter past the instruction word it
    /// pointed at.
    pub open spec fn advanced(self) -> ChipState {
        ChipState { ip: (self.ip + 2) as u16, ..self }
    }

    /// The instruction that the next step runs, if the word at the program
    /// counter can be fetched and stands for one.
    pub open spec fn next_instruction(self) -> Option<Instruction> {
        if self.can_fetch() {
            spec_decode(self.fetch())
        } else {
            None
        }
    }

    /// Whether the next step leaves the display alone: it runs no
    /// instruction, or one that leaves the display alone.
    pub open spec fn next_leaves_display(self) -> bool {
        match self.next_instruction() {
            Some(instr) => self.advanced().leaves_display(instr),
            None => true,
        }
    }

    /// Whether `replies` holds one answer of the display for each pixel that
    /// the next step draws.
    pub open spec fn next_answered(self, replies: HostReplies) -> bool {
        match self.next_instruction() {
            Some(instr) => self.advanced().answered(instr, replies),
            None => replies.hits.len() == 0,
        }
    }

    /// One fetch-decode-execute step, given what the capabilities answered:
    /// the state it leaves and whether the machine goes on.
    ///
    /// The word is fetched, the program counter moves past it, and only then
    /// the instruction runs. A word that stands for no instruction stops the
    /// machine with `Ok(false)`; a refused instruction stops it with the
    /// fault, the program counter already past the word. A program counter
    /// at which no word can be fetched stops it before anything changes.
    pub open spec fn step(self, replies: HostReplies) -> (ChipState, Result<bool, Fault>) {
        if !self.can_fetch() {
            (self, Err(Fault::MemoryOutOfBounds))
        } else {
            let advanced = self.advanced();
            match spec_decode(self.fetch()) {
                None => (advanced, Ok(false)),
                Some(instr) => match advanced.execute(instr, replies) {
                    Ok(next) => (next, Ok(true)),
                    Err(fault) => (advanced, Err(fault)),
                },
            }
        }
    }

    /// One step as the host sees it through a plain "go on" signal: the state
    /// that [`ChipState::step`] leaves, and whether an instruction ran.
    pub open spec fn tick(self, replies: HostReplies) -> (ChipState, bool) {
        let (next, result) = self.step(replies);
        (next, result == Ok::<bool, Fault>(true))
    }

    /// The state after `count` ticks of the 60 Hz clock.
    pub open spec fn tick_timers_times(self, count: nat) -> ChipState
        decreases count,
    {
        if count == 0 {
            self
        } else {
            self.tick_timers_times((count - 1) as nat).tick_timers()
        }
    }
}

/// Whether a machine in state `pre` that was asked for `wanted` ended in
/// state `post` with result `result`: a refused operation changes nothing.
pub open spec fn applied(
    pre: ChipState,
    wanted: Result<ChipState, Fault>,
    post: ChipState,
    result: Result<(), Fault>,
) -> bool {
    match wanted {
        Ok(next) => post == next && result == Ok::<(), Fault>(()),
        Err(fault) => post == pre && result == Err::<(), Fault>(fault),
    }
}

} // verus!
