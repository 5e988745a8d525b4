use chip8::engine::{Chip8Interpreter, PlatformAdapter};
use chip8::interpreter::{key_for_code, Interpreter};
use chip8::machine::{Chip8Error, Config, DISPLAY_SIZE, PROGRAM_START, RES_X, RES_Y};
use chip8::opcode::{decode, Opcode, Quirks};

struct FakePlatform {
    random: u8,
    plays: u32,
    pauses: u32,
}

impl PlatformAdapter for FakePlatform {
    fn play_sound(&mut self) {
        self.plays += 1;
    }

    fn pause_sound(&mut self) {
        self.pauses += 1;
    }

    fn get_random_val(&self) -> u8 {
        self.random
    }
}

fn platform() -> FakePlatform {
    FakePlatform { random: 0xA5, plays: 0, pauses: 0 }
}

fn config(quirks: Quirks) -> Config {
    Config { quirks, cpu_hz: 1000, timer_hz: 60, stack_depth: 16, fail_on_unknown: true }
}

fn engine(rom: &[u8]) -> Chip8Interpreter<FakePlatform> {
    Chip8Interpreter::with_config(platform(), rom, config(Quirks::cosmac())).unwrap()
}

fn engine_with(rom: &[u8], cfg: Config) -> Chip8Interpreter<FakePlatform> {
    Chip8Interpreter::with_config(platform(), rom, cfg).unwrap()
}

fn lit(e: &Chip8Interpreter<FakePlatform>) -> usize {
    e.machine.display.iter().filter(|p| **p).count()
}

#[test]
fn add_registers_scenario() {
    let mut e = engine(&[0x60, 0x0A, 0x61, 0x05, 0x80, 0x14]);
    assert_eq!(e.step(3), Ok(()));
    assert_eq!(e.machine.v_regs[0], 0x0F);
    assert_eq!(e.machine.v_regs[0xF], 0);
    assert_eq!(e.machine.pc as usize, PROGRAM_START + 6);
}

#[test]
fn call_and_return_scenario() {
    let mut e = engine(&[0x22, 0x04, 0x00, 0x00, 0x00, 0xEE]);
    assert_eq!(e.step(1), Ok(()));
    assert_eq!(e.machine.pc, 0x204);
    assert_eq!(e.machine.stack, vec![0x202]);
    assert_eq!(e.step(1), Ok(()));
    assert_eq!(e.machine.pc, 0x202);
    assert!(e.machine.stack.is_empty());
}

#[test]
fn largest_program_loads() {
    let rom = vec![0x12u8; 4096 - 0x200];
    let e = Chip8Interpreter::new(platform(), rom.clone()).unwrap();
    assert_eq!(e.machine.memory[4095], 0x12);
    assert_eq!(e.machine.memory[0x200], 0x12);
    let mut longer = rom;
    longer.push(0);
    assert_eq!(Chip8Interpreter::new(platform(), longer).err(), Some(Chip8Error::ProgramTooLarge));
}

#[test]
fn font_is_loaded_at_its_offset() {
    let e = engine(&[]);
    assert_eq!(&e.machine.memory[0x50..0x55], &[0xF0, 0x90, 0x90, 0x90, 0xF0]);
    assert_eq!(e.machine.memory[0x4F], 0);
    assert_eq!(e.machine.memory[0xA0], 0);
    assert_eq!(e.machine.pc, 0x200);
}

#[test]
fn clear_screen_unsets_every_pixel() {
    // V0 = 0; I = glyph 0; draw at (0,0); clear screen.
    let mut e = engine(&[0x60, 0x00, 0xF0, 0x29, 0xD0, 0x05, 0x00, 0xE0]);
    assert_eq!(e.step(3), Ok(()));
    assert_eq!(lit(&e), 14);
    e.machine.v_regs[0xF] = 7;
    assert_eq!(e.step(1), Ok(()));
    assert_eq!(lit(&e), 0);
    assert_eq!(e.machine.v_regs[0xF], 7);
}

#[test]
fn stack_overflow_on_call_past_depth() {
    // 0x200: call 0x200, forever.
    let mut e = engine(&[0x22, 0x00]);
    assert_eq!(e.step(16), Ok(()));
    assert_eq!(e.machine.stack.len(), 16);
    assert_eq!(e.step(1), Err(Chip8Error::StackOverflow));
    assert_eq!(e.machine.stack.len(), 16);
}

#[test]
fn stack_underflow_on_return_with_empty_stack() {
    let mut e = engine(&[0x00, 0xEE]);
    assert_eq!(e.step(1), Err(Chip8Error::StackUnderflow));
    assert_eq!(e.machine.pc, 0x200);
}

#[test]
fn one_second_lowers_delay_by_sixty() {
    // V0 = 100; DT = V0; loop.
    let mut e = engine(&[0x60, 100, 0xF0, 0x15, 0x12, 0x04]);
    assert_eq!(e.step(2), Ok(()));
    assert_eq!(e.machine.delay_timer, 100);
    assert_eq!(e.step(1000), Ok(()));
    assert_eq!(e.machine.delay_timer, 40);
}

#[test]
fn one_second_clamps_delay_at_zero() {
    let mut e = engine(&[0x60, 30, 0xF0, 0x15, 0x12, 0x04]);
    assert_eq!(e.step(2), Ok(()));
    assert_eq!(e.step(1000), Ok(()));
    assert_eq!(e.machine.delay_timer, 0);
}

#[test]
fn timer_ticks_do_not_depend_on_cpu_rate() {
    let rom = [0x60, 100, 0xF0, 0x15, 0x12, 0x04];
    let mut slow = engine_with(&rom, Config { cpu_hz: 2, ..config(Quirks::cosmac()) });
    assert_eq!(slow.step(1000), Ok(()));
    assert_eq!(slow.machine.pc, 0x204);
    assert_eq!(slow.step(1000), Ok(()));
    assert_eq!(slow.machine.delay_timer, 40);
}

#[test]
fn draw_twice_restores_display_and_collides() {
    let mut e = engine(&[0x60, 0x00, 0xF0, 0x29, 0xD0, 0x05, 0xD0, 0x05]);
    assert_eq!(e.step(3), Ok(()));
    assert_eq!(e.machine.v_regs[0xF], 0);
    assert!(e.machine.display[0]);
    assert!(!e.machine.display[RES_X + 1]);
    assert_eq!(e.step(1), Ok(()));
    assert_eq!(e.machine.v_regs[0xF], 1);
    assert_eq!(lit(&e), 0);
}

#[test]
fn draw_of_empty_sprite_reports_no_collision() {
    // I = 0x300 (zeros); draw twice.
    let mut e = engine(&[0xA3, 0x00, 0xD0, 0x05, 0xD0, 0x05]);
    assert_eq!(e.step(3), Ok(()));
    assert_eq!(e.machine.v_regs[0xF], 0);
    assert_eq!(lit(&e), 0);
}

#[test]
fn draw_clips_or_wraps_at_edges() {
    // V0 = 62, V1 = 0, I = glyph 0, draw 5 rows at (62, 0).
    let rom = [0x60, 62, 0x61, 0x00, 0xA0, 0x50, 0xD0, 0x15];
    let mut clip = engine(&rom);
    assert_eq!(clip.step(4), Ok(()));
    assert_eq!(lit(&clip), 7);
    assert!(clip.machine.display[62]);
    let mut wrap = engine_with(&rom, config(Quirks { draw_wraps: true, ..Quirks::cosmac() }));
    assert_eq!(wrap.step(4), Ok(()));
    assert_eq!(lit(&wrap), 14);
    assert!(wrap.machine.display[0]);
}

#[test]
fn unknown_opcode_policy() {
    let mut strict = engine(&[0xFF, 0xFF]);
    assert_eq!(strict.step(1), Err(Chip8Error::UnknownOpcode { instr: 0xFFFF }));
    assert_eq!(strict.machine.pc, 0x200);
    let mut lenient = engine_with(&[0xFF, 0xFF], Config { fail_on_unknown: false, ..config(Quirks::cosmac()) });
    assert_eq!(lenient.step(1), Ok(()));
    assert_eq!(lenient.machine.pc, 0x202);
}

#[test]
fn pc_past_memory_is_an_error() {
    let mut e = engine(&[0x1F, 0xFF]);
    assert_eq!(e.step(1), Ok(()));
    assert_eq!(e.machine.pc, 0xFFF);
    assert_eq!(e.step(1), Err(Chip8Error::MemoryOutOfBounds));
}

#[test]
fn index_relative_access_past_memory_is_an_error() {
    // I = 0xFFF; BCD of V0 needs three bytes.
    let mut e = engine(&[0xAF, 0xFF, 0xF0, 0x33]);
    assert_eq!(e.step(2), Err(Chip8Error::MemoryOutOfBounds));
    assert_eq!(e.machine.pc, 0x202);
}

#[test]
fn arithmetic_flags() {
    // V0 = 0xFF, V1 = 0x02, V0 += V1 -> 0x01 carry; V2 = 5, V3 = 7, V2 -= V3 -> 0xFE no borrow flag.
    let mut e = engine(&[0x60, 0xFF, 0x61, 0x02, 0x80, 0x14, 0x62, 0x05, 0x63, 0x07, 0x82, 0x35]);
    assert_eq!(e.step(3), Ok(()));
    assert_eq!(e.machine.v_regs[0], 0x01);
    assert_eq!(e.machine.v_regs[0xF], 1);
    assert_eq!(e.step(3), Ok(()));
    assert_eq!(e.machine.v_regs[2], 0xFE);
    assert_eq!(e.machine.v_regs[0xF], 0);
}

#[test]
fn subn_and_add_immediate_wrap() {
    // V0 = 3, V1 = 10, V0 = V1 - V0 -> 7 flag 1; V0 += 0xFF -> 6, VF untouched.
    let mut e = engine(&[0x60, 3, 0x61, 10, 0x80, 0x17, 0x70, 0xFF]);
    assert_eq!(e.step(4), Ok(()));
    assert_eq!(e.machine.v_regs[0], 6);
    assert_eq!(e.machine.v_regs[0xF], 1);
}

#[test]
fn shift_quirk_selects_source() {
    // V0 = 0x01, V1 = 0x81, V0 >>= (V1 or V0).
    let rom = [0x60, 0x01, 0x61, 0x81, 0x80, 0x16];
    let mut cosmac = engine(&rom);
    assert_eq!(cosmac.step(3), Ok(()));
    assert_eq!(cosmac.machine.v_regs[0], 0x40);
    assert_eq!(cosmac.machine.v_regs[0xF], 1);
    let mut schip = engine_with(&rom, config(Quirks::schip()));
    assert_eq!(schip.step(3), Ok(()));
    assert_eq!(schip.machine.v_regs[0], 0x00);
    assert_eq!(schip.machine.v_regs[0xF], 1);
    // Shift left: V0 = 0x81 << 1.
    let mut left = engine_with(&[0x60, 0x81, 0x80, 0x0E], config(Quirks::schip()));
    assert_eq!(left.step(2), Ok(()));
    assert_eq!(left.machine.v_regs[0], 0x02);
    assert_eq!(left.machine.v_regs[0xF], 1);
}

#[test]
fn logic_quirk_resets_vf() {
    let rom = [0x6F, 0x09, 0x60, 0x0C, 0x61, 0x0A, 0x80, 0x11];
    let mut cosmac = engine(&rom);
    assert_eq!(cosmac.step(4), Ok(()));
    assert_eq!(cosmac.machine.v_regs[0], 0x0E);
    assert_eq!(cosmac.machine.v_regs[0xF], 0);
    let mut schip = engine_with(&rom, config(Quirks::schip()));
    assert_eq!(schip.step(4), Ok(()));
    assert_eq!(schip.machine.v_regs[0xF], 9);
}

#[test]
fn bcd_store_and_load() {
    // V0 = 234; I = 0x300; BCD; load V0..V2 from I.
    let mut e = engine_with(&[0x60, 234, 0xA3, 0x00, 0xF0, 0x33, 0xF2, 0x65], config(Quirks::schip()));
    assert_eq!(e.step(3), Ok(()));
    assert_eq!(&e.machine.memory[0x300..0x303], &[2, 3, 4]);
    assert_eq!(e.step(1), Ok(()));
    assert_eq!(&e.machine.v_regs[0..3], &[2, 3, 4]);
    assert_eq!(e.machine.i_reg, 0x300);
}

#[test]
fn store_increments_index_under_quirk() {
    let mut e = engine(&[0x60, 7, 0x61, 8, 0xA3, 0x00, 0xF1, 0x55]);
    assert_eq!(e.step(4), Ok(()));
    assert_eq!(&e.machine.memory[0x300..0x303], &[7, 8, 0]);
    assert_eq!(e.machine.i_reg, 0x302);
}

#[test]
fn jump_with_offset_quirk() {
    let rom = [0x60, 0x04, 0x62, 0x10, 0xB2, 0x00];
    let mut cosmac = engine(&rom);
    assert_eq!(cosmac.step(3), Ok(()));
    assert_eq!(cosmac.machine.pc, 0x204);
    let mut schip = engine_with(&rom, config(Quirks::schip()));
    assert_eq!(schip.step(3), Ok(()));
    assert_eq!(schip.machine.pc, 0x210);
}

#[test]
fn skips_on_equal_values() {
    // V0 = 5; skip if V0 == 5 (skips 0x204); 0x206: V1 = 1.
    let mut e = engine(&[0x60, 5, 0x30, 5, 0x00, 0x00, 0x61, 1]);
    assert_eq!(e.step(3), Ok(()));
    assert_eq!(e.machine.v_regs[1], 1);
    assert_eq!(e.machine.pc, 0x208);
}

#[test]
fn random_byte_is_masked() {
    let mut e = engine(&[0xC0, 0x0F]);
    assert_eq!(e.step(1), Ok(()));
    assert_eq!(e.machine.v_regs[0], 0x05);
}

#[test]
fn sound_timer_notifies_platform() {
    // V0 = 2; ST = V0; loop.
    let mut e = engine(&[0x60, 2, 0xF0, 0x18, 0x12, 0x04]);
    assert_eq!(e.step(2), Ok(()));
    assert_eq!(e.platform.plays, 1);
    assert_eq!(e.platform.pauses, 0);
    assert_eq!(e.step(100), Ok(()));
    assert_eq!(e.machine.sound_timer, 0);
    assert_eq!(e.platform.pauses, 1);
}

#[test]
fn key_wait_blocks_until_press() {
    // Wait for a key into V3, then V4 = 1.
    let mut e = engine(&[0xF3, 0x0A, 0x64, 0x01]);
    assert_eq!(e.step(5), Ok(()));
    assert_eq!(e.machine.pc, 0x202);
    assert_eq!(e.machine.awaiting_key, Some(3));
    assert_eq!(e.step(5), Ok(()));
    assert_eq!(e.machine.pc, 0x202);
    e.press_key(0xB);
    assert_eq!(e.step(1), Ok(()));
    assert_eq!(e.machine.v_regs[3], 0xB);
    assert_eq!(e.machine.v_regs[4], 1);
    assert_eq!(e.machine.awaiting_key, None);
}

#[test]
fn key_skip_reads_key_state() {
    // V0 = 4; skip if key V0 down; V1 = 1; V2 = 1.
    let rom = [0x60, 4, 0xE0, 0x9E, 0x61, 1, 0x62, 1];
    let mut up = engine(&rom);
    assert_eq!(up.step(3), Ok(()));
    assert_eq!(up.machine.v_regs[1], 1);
    let mut down = engine(&rom);
    down.press_key(4);
    assert_eq!(down.step(3), Ok(()));
    assert_eq!(down.machine.v_regs[1], 0);
    assert_eq!(down.machine.v_regs[2], 1);
}

#[test]
fn release_clears_last_pressed_only_when_it_matches() {
    let mut e = engine(&[]);
    e.press_key(1);
    e.press_key(2);
    e.release_key(1);
    assert_eq!(e.machine.last_key, Some(2));
    assert!(!e.machine.keys[1]);
    assert!(e.machine.keys[2]);
    e.release_key(2);
    assert_eq!(e.machine.last_key, None);
    e.press_key(16);
    assert_eq!(e.machine.last_key, None);
}

#[test]
fn decode_extracts_fields() {
    let q = Quirks::cosmac();
    assert_eq!(decode(0x00E0, q).opcode, Opcode::Cls);
    assert_eq!(decode(0x00EE, q).opcode, Opcode::Ret);
    assert_eq!(decode(0x1ABC, q).opcode, Opcode::Jp { nnn: 0xABC });
    assert_eq!(decode(0xD123, q).opcode, Opcode::Drw { x: 1, y: 2, n: 3 });
    assert_eq!(decode(0x8AB6, q).opcode, Opcode::Shr { x: 0xA, y: 0xB });
    assert_eq!(decode(0x7F42, q).opcode, Opcode::AddImm { x: 0xF, kk: 0x42 });
    assert_eq!(decode(0xB345, q).opcode, Opcode::JpOffset { x: 0, nnn: 0x345 });
    assert_eq!(decode(0xB345, Quirks::schip()).opcode, Opcode::JpOffset { x: 3, nnn: 0x345 });
    assert_eq!(decode(0x5121, q).opcode, Opcode::Unknown);
    assert_eq!(decode(0x0123, q).opcode, Opcode::Unknown);
    assert_eq!(decode(0xE1FF, q).opcode, Opcode::Unknown);
    assert_eq!(decode(0xF265, q).opcode, Opcode::Load { x: 2 });
    assert_eq!(decode(0xF265, q).instr, 0xF265);
}

#[test]
fn decode_is_total_and_repeatable() {
    let q = Quirks::cosmac();
    for w in 0..=u16::MAX {
        assert_eq!(decode(w, q), decode(w, q));
    }
}

#[test]
fn mnemonics() {
    assert_eq!(Opcode::Cls.mnemonic(), "CLS");
    assert_eq!(Opcode::Drw { x: 0, y: 0, n: 1 }.mnemonic(), "DRW");
    assert_eq!(Opcode::Unknown.mnemonic(), "UNKNOWN");
}

#[test]
fn host_key_codes() {
    assert_eq!(key_for_code(&"Digit1".to_string()), Some(1));
    assert_eq!(key_for_code(&"Digit4".to_string()), Some(0xC));
    assert_eq!(key_for_code(&"KeyX".to_string()), Some(0));
    assert_eq!(key_for_code(&"KeyV".to_string()), Some(0xF));
    assert_eq!(key_for_code(&"KeyP".to_string()), None);
}

#[test]
fn interpreter_front_end() {
    let mut it = Interpreter::new(platform(), &[0x60, 0x00, 0xF0, 0x29, 0xD0, 0x05]).unwrap();
    assert_eq!(Interpreter::<FakePlatform>::get_x_res(), 64);
    assert_eq!(Interpreter::<FakePlatform>::get_y_res(), 32);
    assert_eq!(RES_X * RES_Y, DISPLAY_SIZE);
    assert_eq!(it.step(1), Ok(()));
    let it_cfg = it.interpreter.config;
    assert_eq!(it_cfg.cpu_hz, 700);
    assert_eq!(it.interpreter.machine.pc, 0x200);
    assert_eq!(it.step(2), Ok(()));
    assert_eq!(it.interpreter.machine.pc, 0x204);
    assert_eq!(it.step(2), Ok(()));
    assert_eq!(it.step_number, 3);
    let mut buf = vec![9u8; DISPLAY_SIZE + 1];
    it.fill_display_buffer(&mut buf);
    assert_eq!(&buf[0..4], &[1, 1, 1, 1]);
    assert_eq!(buf[4], 0);
    assert_eq!(buf[DISPLAY_SIZE], 9);
    let dump = it.dump_state();
    assert_eq!(dump.pc, 0x206);
    assert_eq!(dump.i, 0x50);
    assert_eq!(dump.opcode, 0xD005);
    assert_eq!(dump.mnemonic, "DRW");
    assert_eq!(dump.step_number, 3);
    assert_eq!(dump.memory.len(), 4096);
    assert_eq!(dump.v.len(), 16);
    assert!(dump.stack.is_empty());
    assert_eq!(it.decode_instruction(0x00E0), "CLS");
    it.register_key_down("KeyQ".to_string());
    assert!(it.interpreter.machine.keys[4]);
    it.register_key_up("KeyQ".to_string());
    assert!(!it.interpreter.machine.keys[4]);
    assert!(Interpreter::new(platform(), &vec![0u8; 3585]).is_err());
}

#[test]
fn unmapped_key_down_clears_last_pressed() {
    let mut it = Interpreter::new(platform(), &[]).unwrap();
    it.register_key_down("KeyQ".to_string());
    assert_eq!(it.interpreter.machine.last_key, Some(4));
    it.register_key_down("Space".to_string());
    assert_eq!(it.interpreter.machine.last_key, None);
    assert!(it.interpreter.machine.keys[4]);
    it.register_key_up("Space".to_string());
    assert!(it.interpreter.machine.keys[4]);
}

#[test]
fn fresh_engine_reports_no_instruction() {
    let it = Interpreter::new(platform(), &[0x00, 0xE0]).unwrap();
    let dump = it.dump_state();
    assert_eq!(dump.opcode, 0);
    assert_eq!(dump.mnemonic, "UNKNOWN");
    assert_eq!(dump.step_number, 0);
    assert!(!it.interpreter.sound_on);
    assert_eq!(it.interpreter.config.stack_depth, 16);
}

#[test]
fn sound_pauses_when_timer_is_cleared_by_opcode() {
    // V0 = 5; ST = V0; V1 = 0; ST = V1.
    let mut e = engine(&[0x60, 5, 0xF0, 0x18, 0x61, 0, 0xF1, 0x18]);
    assert_eq!(e.step(2), Ok(()));
    assert!(e.sound_on);
    assert_eq!((e.platform.plays, e.platform.pauses), (1, 0));
    assert_eq!(e.step(2), Ok(()));
    assert!(!e.sound_on);
    assert_eq!((e.platform.plays, e.platform.pauses), (1, 1));
}

#[test]
fn failed_step_keeps_last_instruction() {
    // V0 = 1, then an unknown word.
    let mut e = engine(&[0x60, 0x01, 0xFF, 0xFF]);
    assert_eq!(e.step(2), Err(Chip8Error::UnknownOpcode { instr: 0xFFFF }));
    assert_eq!(e.last_instr.instr, 0x6001);
    assert_eq!(e.last_instr.opcode, Opcode::LdImm { x: 0, kk: 1 });
}
