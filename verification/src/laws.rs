//! Laws of the machine, proved over its model.
use vstd::prelude::*;
use crate::fault::Fault;
use crate::font::{font_table, FONT_SIZE};
use crate::opcode::{lemma_decode_is_the_only_match, spec_decode, Instruction};
use crate::specs::{DELAY_TIMER, FLAG, NUM_REGISTERS, PROG_START, SOUND_TIMER, STACK_SIZE};
use crate::state::{wrap_u8, ChipState, HostReplies};
use crate::PROGRAM_SIZE;

verus! {

/// After `LD Vx, byte` register `x` holds the byte, whatever it held before
/// and whichever register it is.
pub proof fn lemma_ld_vx_byte_sets_register(
    state: ChipState,
    x: u8,
    byte: u8,
    replies: HostReplies,
)
    requires
        state.wf(),
        x < NUM_REGISTERS,
    ensures
        state.ld_vx_byte(x, byte).registers[x as int] == byte,
        state.execute(Instruction::LdVxByte { x, byte }, replies) == Ok::<ChipState, Fault>(
            state.ld_vx_byte(x, byte),
        ),
{
}

/// `ADD Vx, Vy` sets the flag register to 1 exactly when the sum of the two
/// registers as they were before passes 255, and to 0 otherwise. Unless `x`
/// is the flag register itself, register `x` then holds the sum modulo 256.
pub proof fn lemma_add_vx_vy_flag_is_carry(state: ChipState, x: u8, y: u8)
    requires
        state.wf(),
        x < NUM_REGISTERS,
        y < NUM_REGISTERS,
    ensures
        state.add_vx_vy(x, y).registers[FLAG as int] == 1 <==> state.registers[x as int]
            + state.registers[y as int] > 0xFF,
        state.add_vx_vy(x, y).registers[FLAG as int] == 1 || state.add_vx_vy(
            x,
            y,
        ).registers[FLAG as int] == 0,
        x != FLAG ==> state.add_vx_vy(x, y).registers[x as int] == wrap_u8(
            state.registers[x as int] + state.registers[y as int],
        ),
{
}

/// `SUB Vx, Vy` sets the flag register to 1 exactly when register `x` was at
/// least register `y` before, so that nothing is borrowed, and to 0
/// otherwise.
pub proof fn lemma_sub_vx_vy_flag_is_no_borrow(state: ChipState, x: u8, y: u8)
    requires
        state.wf(),
        x < NUM_REGISTERS,
        y < NUM_REGISTERS,
    ensures
        state.sub_vx_vy(x, y).registers[FLAG as int] == 1 <==> state.registers[x as int]
            >= state.registers[y as int],
        state.sub_vx_vy(x, y).registers[FLAG as int] == 1 || state.sub_vx_vy(
            x,
            y,
        ).registers[FLAG as int] == 0,
{
}

/// A timer that is at zero stays at zero however often the clock ticks, and
/// no tick touches anything but the timers.
pub proof fn lemma_timer_rests_at_zero(state: ChipState, count: nat)
    requires
        state.wf(),
    ensures
        state.tick_timers_times(count).wf(),
        state.timers[DELAY_TIMER as int] == 0 ==> state.tick_timers_times(
            count,
        ).timers[DELAY_TIMER as int] == 0,
        state.timers[SOUND_TIMER as int] == 0 ==> state.tick_timers_times(
            count,
        ).timers[SOUND_TIMER as int] == 0,
        state.tick_timers_times(count) == (ChipState {
            timers: state.tick_timers_times(count).timers,
            ..state
        }),
    decreases count,
{
    if count > 0 {
        lemma_timer_rests_at_zero(state, (count - 1) as nat);
    }
}

/// After a program is loaded, the memory from address 0 on holds exactly the
/// font table, the memory from the start of the program region on holds
/// exactly the program, and every other byte is as it was.
pub proof fn lemma_load_program_places_font_and_program(state: ChipState, program: Seq<u8>)
    requires
        state.wf(),
        program.len() <= PROGRAM_SIZE,
    ensures
        state.load_program(font_table(), program).wf(),
        state.load_program(font_table(), program).memory.subrange(0, FONT_SIZE as int)
            == font_table(),
        state.load_program(font_table(), program).memory.subrange(
            PROG_START as int,
            PROG_START + program.len(),
        ) == program,
        forall|a: int|
            FONT_SIZE <= a < PROG_START || PROG_START + program.len() <= a < state.memory.len()
                ==> state.load_program(font_table(), program).memory[a] == state.memory[a],
{
}

/// Every instruction word either stands for exactly one instruction, the one
/// it decodes to, or for none; and a step that fetches a word that stands for
/// none stops the machine: the step reports `Ok(false)` and the tick `false`,
/// nothing but the program counter has changed, and the display is left
/// alone.
pub proof fn lemma_word_is_one_instruction_or_stops(state: ChipState, replies: HostReplies)
    requires
        state.wf(),
        state.can_fetch(),
    ensures
        match spec_decode(state.fetch()) {
            Some(instr) => instr.encodes(state.fetch()) && forall|other: Instruction|
                #[trigger] other.encodes(state.fetch()) ==> other == instr,
            None => (forall|other: Instruction| !#[trigger] other.encodes(state.fetch()))
                && state.step(replies) == (state.advanced(), Ok::<bool, Fault>(false))
                && state.tick(replies) == (state.advanced(), false)
                && state.next_leaves_display(),
        },
{
    let word = state.fetch();
    assert forall|other: Instruction| #[trigger]
        other.encodes(word) <==> spec_decode(word) == Some(other) by {
        lemma_decode_is_the_only_match(word, other);
    }
    if let Some(instr) = spec_decode(word) {
        lemma_decode_is_the_only_match(word, instr);
    }
}

/// Only `CLS` and a `DRW` whose sprite has a pixel touch the display: every
/// other instruction leaves it alone, and so does a `DRW` that is refused.
pub proof fn lemma_only_cls_and_drw_touch_the_display(state: ChipState, instr: Instruction)
    requires
        state.wf(),
    ensures
        !(instr is Cls || instr is DrawVxVyNibble) ==> state.leaves_display(instr),
        instr matches Instruction::DrawVxVyNibble { x, y, nibble } ==> (state.leaves_display(instr)
            <==> !state.sprite_in_memory(nibble) || state.sprite_pixels(x, y, nibble).len() == 0),
        !state.leaves_display(Instruction::Cls),
{
}

/// `DRW` sets the flag register to 1 exactly when the display reported a
/// collision for at least one pixel of the sprite, whichever, and to 0
/// exactly when it reported none; a sprite without pixels gives 0.
pub proof fn lemma_draw_flag_is_any_collision(
    state: ChipState,
    x: u8,
    y: u8,
    lines: u8,
    hits: Seq<bool>,
)
    requires
        state.wf(),
        state.sprite_in_memory(lines),
    ensures
        state.draw(x, y, lines, hits) is Ok,
        state.draw(x, y, lines, hits)->Ok_0.registers[FLAG as int] == 1 <==> exists|k: int|
            0 <= k < hits.len() && hits[k],
        state.draw(x, y, lines, hits)->Ok_0.registers[FLAG as int] == 0 <==> forall|k: int|
            0 <= k < hits.len() ==> !hits[k],
        hits.len() == 0 ==> state.draw(x, y, lines, hits)->Ok_0.registers[FLAG as int] == 0,
        state.draw(x, y, lines, hits)->Ok_0 == state.with_flag(
            state.draw(x, y, lines, hits)->Ok_0.registers[FLAG as int],
        ),
{
}

/// `SKP` skips the next instruction exactly when the key is held down, and
/// `SKNP` exactly when it is not: on one answer of the keypad one of the two
/// skips and the other does not.
pub proof fn lemma_skp_and_sknp_are_opposite(state: ChipState, pressed: bool)
    requires
        state.wf(),
    ensures
        state.skp_vx(pressed) == state.skip_if(pressed),
        state.sknp_vx(pressed) == state.skip_if(!pressed),
        state.skp_vx(pressed) == state.sknp_vx(!pressed),
        pressed ==> state.sknp_vx(pressed) == state,
        !pressed ==> state.skp_vx(pressed) == state,
{
}

/// A step never leaves the sizes of the machine: the stack pointer stays
/// within the sixteen slots, and registers, memory, stack and timers keep
/// their lengths, whatever the capabilities answer.
pub proof fn lemma_step_keeps_the_machine_well_formed(state: ChipState, replies: HostReplies)
    requires
        state.wf(),
    ensures
        state.step(replies).0.wf(),
        state.tick(replies).0 == state.step(replies).0,
{
    if state.can_fetch() {
        let word = state.fetch();
        if let Some(instr) = spec_decode(word) {
            lemma_decode_is_the_only_match(word, instr);
        }
    }
}

/// A return undoes the call before it: the program counter and the stack
/// pointer are again what they were when the call was made.
pub proof fn lemma_ret_undoes_call(state: ChipState, addr: u16)
    requires
        state.wf(),
        state.sp < STACK_SIZE,
    ensures
        state.call(addr) is Ok,
        state.call(addr)->Ok_0.ip == addr,
        state.call(addr)->Ok_0.sp == state.sp + 1,
        state.call(addr)->Ok_0.stack[state.sp as int] == state.ip,
        state.call(addr)->Ok_0.ret() is Ok,
        state.call(addr)->Ok_0.ret()->Ok_0.ip == state.ip,
        state.call(addr)->Ok_0.ret()->Ok_0.sp == state.sp,
{
}

/// Waiting for a key never blocks: a step that runs `LD Vx, K` while no key
/// is down leaves the machine exactly as it was, so that the next step runs
/// the same instruction again.
pub proof fn lemma_key_wait_is_a_fixed_point(state: ChipState, x: u8, replies: HostReplies)
    requires
        state.wf(),
        state.can_fetch(),
        spec_decode(state.fetch()) == Some(Instruction::LdVxK { x }),
        replies.key is None,
    ensures
        state.step(replies) == (state, Ok::<bool, Fault>(true)),
{
}

} // verus!
