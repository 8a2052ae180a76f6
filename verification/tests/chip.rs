use chip8vm::chip::Chip;
use chip8vm::font::{Font, CHARACTER_SIZE};
use chip8vm::specs::{DELAY_TIMER, FLAG, PROG_START, SOUND_TIMER};
use chip8vm::{Keypad, Random, Screen, PROGRAM_SIZE};

struct TestRandom {}

impl Random for TestRandom {
    fn range(&self) -> u8 {
        1
    }
}

struct TestScreen {}

impl Screen for TestScreen {
    fn clear(&mut self) {}

    fn draw(&mut self, _x: u8, _y: u8) -> bool {
        true
    }
}

struct TestKeypad {}

impl Keypad for TestKeypad {
    fn is_pressed(&self, _keycode: u8) -> bool {
        true
    }

    fn pressed_key(&self) -> Option<u8> {
        None
    }
}

fn prepare_vm(test_program: [u8; 10]) -> (Chip, TestRandom, TestScreen, TestKeypad) {
    let mut chip = Chip::default();
    let random = TestRandom {};
    let screen = TestScreen {};
    let keypad = TestKeypad {};

    let mut program = [0; PROGRAM_SIZE];
    program[0..test_program.len()].copy_from_slice(&test_program);

    chip.load_program(&program).unwrap();
    (chip, random, screen, keypad)
}

fn chip_with_delay_timer(value: u8) -> Chip {
    let mut chip = Chip::default();
    chip.ld_vx_byte(0, value);
    chip.ld_dt_vx(0);
    chip.ld_vx_byte(0, 0);
    chip
}

fn chip_with_sound_timer(value: u8) -> Chip {
    let mut chip = Chip::default();
    chip.ld_vx_byte(0, value);
    chip.ld_st_vx(0);
    chip.ld_vx_byte(0, 0);
    chip
}

#[test]
fn load_font() {
    let program_code: [u8; 10] = [0; 10];
    let (chip, _random, _screen, _keypad) = prepare_vm(program_code);

    let mut loaded = true;
    let font = Font::default();
    for i in 0..font.set.len() {
        if chip.memory()[i] != font.set[i] {
            loaded = false;
            break;
        }
    }

    assert!(loaded);
}

#[test]
fn load_program() {
    let program_code: [u8; 10] = [0x0, 0x01, 0x02, 0x03, 0x04, 0x05, 0x06, 0x07, 0x08, 0x09];
    let (chip, _random, _screen, _keypad) = prepare_vm(program_code);

    let mut loaded = true;
    for i in 0..program_code.len() {
        if chip.memory()[PROG_START + i] != program_code[i] {
            loaded = false;
            break;
        }
    }

    assert!(loaded);
}

#[test]
fn tick_timers_delay_not_zero() {
    let mut chip = chip_with_delay_timer(3);

    chip.tick_timers();

    assert_eq!(chip.timers()[DELAY_TIMER], 2);
}

#[test]
fn tick_timers_delay_zero() {
    let mut chip = chip_with_delay_timer(0);

    chip.tick_timers();

    assert_eq!(chip.timers()[DELAY_TIMER], 0);
}

#[test]
fn tick_timers_sound_not_zero() {
    let mut chip = chip_with_sound_timer(3);

    chip.tick_timers();

    assert_eq!(chip.timers()[SOUND_TIMER], 2);
}

#[test]
fn tick_timers_sound_zero() {
    let mut chip = chip_with_sound_timer(0);

    chip.tick_timers();

    assert_eq!(chip.timers()[SOUND_TIMER], 0);
}

#[test]
fn tick_opcode_0x00() {
    let program_code: [u8; 10] = [0x0, 0x0, 0x0, 0x0, 0x0, 0x0, 0x0, 0x0, 0x0, 0x0];
    let (mut chip, random, mut screen, keypad) = prepare_vm(program_code);

    let result = chip.tick(&random, &mut screen, &keypad);

    assert_eq!(result, false);
    assert_eq!(chip.ip() as usize, PROG_START + 2);
}

#[test]
fn opcode_ret() {
    let mut chip = Chip::default();

    chip.jmp(0x210);
    chip.call(0x300).unwrap();
    assert_eq!(chip.stack()[0], 0x210);
    assert_eq!(chip.sp(), 1);

    chip.ret().unwrap();

    assert_eq!(chip.ip(), 0x210);
    assert_eq!(chip.sp(), 0);
}

#[test]
fn opcode_jmp() {
    let mut chip = Chip::default();

    chip.jmp(0x205);

    assert_eq!(chip.ip(), 0x205);
}

#[test]
fn opcode_call() {
    let mut chip = Chip::default();

    chip.call(0x205).unwrap();

    assert_eq!(chip.ip(), 0x205);
    assert_eq!(chip.sp(), 1);
    assert_eq!(chip.stack()[0], PROG_START as u16);
}

#[test]
fn opcode_se_vx_byte_without_skip() {
    let mut chip = Chip::default();

    chip.ld_vx_byte(1, 10);
    chip.se_vx_byte(1, 20);

    assert_eq!(chip.ip() as usize, PROG_START);
}

#[test]
fn opcode_se_vx_byte_with_skip() {
    let mut chip = Chip::default();

    chip.ld_vx_byte(1, 10);
    chip.se_vx_byte(1, 10);

    assert_eq!(chip.ip() as usize, PROG_START + 2);
}

#[test]
fn opcode_sne_vx_byte_without_skip() {
    let mut chip = Chip::default();

    chip.ld_vx_byte(1, 10);
    chip.sne_vx_byte(1, 10);

    assert_eq!(chip.ip() as usize, PROG_START);
}

#[test]
fn opcode_sne_vx_byte_with_skip() {
    let mut chip = Chip::default();

    chip.ld_vx_byte(1, 10);
    chip.sne_vx_byte(1, 20);

    assert_eq!(chip.ip() as usize, PROG_START + 2);
}

#[test]
fn opcode_ld_vx_byte() {
    let mut chip = Chip::default();

    chip.ld_vx_byte(1, 20);

    assert_eq!(chip.registers()[1], 20);
}

#[test]
fn opcode_add_vx_byte() {
    let mut chip = Chip::default();

    chip.ld_vx_byte(1, 10);
    chip.add_vx_byte(1, 2);

    assert_eq!(chip.registers()[1], 12);
}

#[test]
fn opcode_ld_vx_vy() {
    let mut chip = Chip::default();

    chip.ld_vx_byte(2, 10);
    chip.ld_vx_vy(1, 2);

    assert_eq!(chip.registers()[1], 10);
}

#[test]
fn opcode_or_vx_vy() {
    let mut chip = Chip::default();

    chip.ld_vx_byte(1, 9);
    chip.ld_vx_byte(2, 17);
    chip.or_vx_vy(1, 2);

    assert_eq!(chip.registers()[1], 25);
}

#[test]
fn opcode_and_vx_vy() {
    let mut chip = Chip::default();

    chip.ld_vx_byte(1, 9);
    chip.ld_vx_byte(2, 17);
    chip.and_vx_vy(1, 2);

    assert_eq!(chip.registers()[1], 1);
}

#[test]
fn opcode_xor_vx_vy() {
    let mut chip = Chip::default();

    chip.ld_vx_byte(1, 9);
    chip.ld_vx_byte(2, 17);
    chip.xor_vx_vy(1, 2);

    assert_eq!(chip.registers()[1], 24);
}

#[test]
fn opcode_add_vx_vy_without_carry() {
    let mut chip = Chip::default();

    chip.ld_vx_byte(1, 9);
    chip.ld_vx_byte(2, 17);
    chip.add_vx_vy(1, 2);

    assert_eq!(chip.registers()[1], 26);
    assert_eq!(chip.registers()[FLAG], 0);
}

#[test]
fn opcode_add_vx_vy_with_carry() {
    let mut chip = Chip::default();

    chip.ld_vx_byte(1, 240);
    chip.ld_vx_byte(2, 40);
    chip.add_vx_vy(1, 2);

    assert_eq!(chip.registers()[1], 24);
    assert_eq!(chip.registers()[FLAG], 1);
}

#[test]
fn opcode_sub_vx_vy_without_borrow() {
    let mut chip = Chip::default();

    chip.ld_vx_byte(1, 40);
    chip.ld_vx_byte(2, 20);
    chip.sub_vx_vy(1, 2);

    assert_eq!(chip.registers()[1], 20);
    assert_eq!(chip.registers()[FLAG], 1);
}

#[test]
fn opcode_sub_vx_vy_with_borrow() {
    let mut chip = Chip::default();

    chip.ld_vx_byte(1, 20);
    chip.ld_vx_byte(2, 40);
    chip.sub_vx_vy(1, 2);

    assert_eq!(chip.registers()[1], 236);
    assert_eq!(chip.registers()[FLAG], 0);
}

#[test]
fn opcode_shr_vx_vy_without_bit() {
    let mut chip = Chip::default();

    chip.ld_vx_byte(1, 8);
    chip.shr_vx(1);

    assert_eq!(chip.registers()[1], 4);
    assert_eq!(chip.registers()[FLAG], 0);
}

#[test]
fn opcode_shr_vx_vy_with_bit() {
    let mut chip = Chip::default();

    chip.ld_vx_byte(1, 9);
    chip.shr_vx(1);

    assert_eq!(chip.registers()[1], 4);
    assert_eq!(chip.registers()[FLAG], 1);
}

#[test]
fn opcode_subn_vx_vy_without_borrow() {
    let mut chip = Chip::default();

    chip.ld_vx_byte(1, 20);
    chip.ld_vx_byte(2, 40);
    chip.subn_vx_vy(1, 2);

    assert_eq!(chip.registers()[1], 20);
    assert_eq!(chip.registers()[FLAG], 1);
}

#[test]
fn opcode_subn_vx_vy_with_borrow() {
    let mut chip = Chip::default();

    chip.ld_vx_byte(1, 40);
    chip.ld_vx_byte(2, 20);
    chip.subn_vx_vy(1, 2);

    assert_eq!(chip.registers()[1], 236);
    assert_eq!(chip.registers()[FLAG], 0);
}

#[test]
fn opcode_shl_vx_vy_without_bit() {
    let mut chip = Chip::default();

    chip.ld_vx_byte(1, 8);
    chip.shl_vx(1);

    assert_eq!(chip.registers()[1], 16);
    assert_eq!(chip.registers()[FLAG], 0);
}

#[test]
fn opcode_shl_vx_vy_with_bit() {
    let mut chip = Chip::default();

    chip.ld_vx_byte(1, 136);
    chip.shl_vx(1);

    assert_eq!(chip.registers()[1], 16);
    assert_eq!(chip.registers()[FLAG], 1);
}

#[test]
fn opcode_sne_vx_vy_with_skip() {
    let mut chip = Chip::default();

    chip.ld_vx_byte(1, 2);
    chip.ld_vx_byte(2, 4);
    chip.sne_vx_vy(1, 2);

    assert_eq!(chip.ip() as usize, PROG_START + 2);
}

#[test]
fn opcode_ld_i_addr() {
    let mut chip = Chip::default();

    chip.ld_i_addr(0x205);

    assert_eq!(chip.i(), 0x205);
}

#[test]
fn opcode_jmp_v0_addr() {
    let mut chip = Chip::default();

    chip.ld_vx_byte(0, 2);
    chip.jmp_v0_addr(0x205);

    assert_eq!(chip.ip(), 0x207);
}

#[test]
fn opcode_ld_vx_dt() {
    let mut chip = chip_with_delay_timer(6);

    chip.ld_vx_dt(2);

    assert_eq!(chip.registers()[2], 6);
}

#[test]
fn opcode_ld_dt_vx() {
    let mut chip = Chip::default();

    chip.ld_vx_byte(2, 6);
    chip.ld_dt_vx(2);

    assert_eq!(chip.timers()[DELAY_TIMER], 6);
}

#[test]
fn opcode_ld_st_vx() {
    let mut chip = Chip::default();

    chip.ld_vx_byte(2, 6);
    chip.ld_st_vx(2);

    assert_eq!(chip.timers()[SOUND_TIMER], 6);
}

#[test]
fn opcode_add_i_vx() {
    let mut chip = Chip::default();

    chip.ld_vx_byte(2, 6);
    chip.ld_st_vx(2);

    assert_eq!(chip.timers()[SOUND_TIMER], 6);
}

#[test]
fn opcode_ld_f_vx() {
    let mut chip = Chip::default();

    chip.ld_vx_byte(2, 6);
    chip.ld_f_vx(2);

    assert_eq!(chip.i(), (chip.registers()[2] * CHARACTER_SIZE as u8) as u16);
}

#[test]
fn opcode_ld_b_vx() {
    let mut chip = Chip::default();

    chip.ld_vx_byte(2, 128);
    chip.ld_b_vx(2).unwrap();

    assert_eq!(chip.memory()[chip.i() as usize], 1);
    assert_eq!(chip.memory()[(chip.i() + 1) as usize], 2);
    assert_eq!(chip.memory()[(chip.i() + 2) as usize], 8);
}

#[test]
fn opcode_ld_vi_vx() {
    let mut chip = Chip::default();

    chip.ld_vx_byte(0, 32);
    chip.ld_vx_byte(6, 64);
    chip.ld_vx_byte(FLAG as u8, 128);
    chip.ld_i_addr(0x200);
    chip.ld_vi_vx(FLAG as u8).unwrap();

    assert_eq!(chip.memory()[0x200], 32);
    assert_eq!(chip.memory()[0x201], 0);
    assert_eq!(chip.memory()[0x202], 0);
    assert_eq!(chip.memory()[0x203], 0);
    assert_eq!(chip.memory()[0x204], 0);
    assert_eq!(chip.memory()[0x205], 0);
    assert_eq!(chip.memory()[0x206], 64);
    assert_eq!(chip.memory()[0x207], 0);
    assert_eq!(chip.memory()[0x208], 0);
    assert_eq!(chip.memory()[0x209], 0);
    assert_eq!(chip.memory()[0x20A], 0);
    assert_eq!(chip.memory()[0x20B], 0);
    assert_eq!(chip.memory()[0x20C], 0);
    assert_eq!(chip.memory()[0x20D], 0);
    assert_eq!(chip.memory()[0x20E], 0);
    assert_eq!(chip.memory()[0x20F], 128);
    assert_eq!(chip.i(), 0x210);
}

#[test]
fn opcode_ld_vx_vi() {
    let mut chip = Chip::default();
    let mut program = [0u8; 16];
    program[0x0] = 32;
    program[0x6] = 64;
    program[0xF] = 128;
    chip.load_program(&program).unwrap();
    chip.ld_i_addr(0x200);
    chip.ld_vx_vi(FLAG as u8).unwrap();

    assert_eq!(chip.registers()[0x0], 32);
    assert_eq!(chip.registers()[0x1], 0);
    assert_eq!(chip.registers()[0x2], 0);
    assert_eq!(chip.registers()[0x2], 0);
    assert_eq!(chip.registers()[0x3], 0);
    assert_eq!(chip.registers()[0x4], 0);
    assert_eq!(chip.registers()[0x5], 0);
    assert_eq!(chip.registers()[0x6], 64);
    assert_eq!(chip.registers()[0x7], 0);
    assert_eq!(chip.registers()[0x8], 0);
    assert_eq!(chip.registers()[0x9], 0);
    assert_eq!(chip.registers()[0xA], 0);
    assert_eq!(chip.registers()[0xB], 0);
    assert_eq!(chip.registers()[0xC], 0);
    assert_eq!(chip.registers()[0xD], 0);
    assert_eq!(chip.registers()[0xE], 0);
    assert_eq!(chip.registers()[0xF], 128);
    assert_eq!(chip.i(), 0x210);
}
