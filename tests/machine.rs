use chip8::chip8::Chip8;
use chip8::cpu::{Fault, CPU, FONT, PROGRAM_START};
use chip8::instruction::Instruction;

fn with_program(words: &[u16]) -> CPU {
    let mut cpu = CPU::default();
    let mut bytes = Vec::new();
    for w in words {
        bytes.push((w >> 8) as u8);
        bytes.push((w & 0xFF) as u8);
    }
    cpu.load_program(&bytes).unwrap();
    cpu
}

#[test]
fn fetch_advances_pc_by_two() {
    let mut cpu = with_program(&[0x1AFA]);
    assert_eq!(cpu.fetch(), Ok(0x1AFA));
    assert_eq!(cpu.pc, PROGRAM_START + 2);
}

#[test]
fn fetch_past_memory_end_fails() {
    let mut cpu = CPU::default();
    cpu.pc = 0x0FFF;
    assert_eq!(cpu.fetch(), Err(Fault::OutOfBounds));
    assert_eq!(cpu.pc, 0x0FFF);
    assert_eq!(cpu.execute(), Err(Fault::OutOfBounds));
    assert_eq!(cpu.ticks, 0);
}

#[test]
fn jump_ignores_prior_pc() {
    let mut cpu = CPU::default();
    cpu.pc = 0x0700;
    cpu.memory[0x0700] = 0x1F;
    cpu.memory[0x0701] = 0x4C;
    cpu.execute().unwrap();
    assert_eq!(cpu.pc, 0x0F4C);
}

#[test]
fn skip_equal_not_taken() {
    let mut cpu = with_program(&[0x3B4C]);
    cpu.v[0xB] = 0x4D;
    cpu.execute().unwrap();
    assert_eq!(cpu.pc, PROGRAM_START + 2);
}

#[test]
fn add_immediate_leaves_flag() {
    let mut cpu = with_program(&[0x7AEC]);
    cpu.v[0xA] = 0xFA;
    cpu.v[0xF] = 0x77;
    cpu.execute().unwrap();
    assert_eq!(cpu.v[0xA], 0xE6);
    assert_eq!(cpu.v[0xF], 0x77);
}

#[test]
fn or_clears_set_flag() {
    let mut cpu = with_program(&[0x8EC1]);
    cpu.v[0xE] = 0xCA;
    cpu.v[0xC] = 0xAA;
    cpu.v[0xF] = 1;
    cpu.execute().unwrap();
    assert_eq!(cpu.v[0xE], 0xEA);
    assert_eq!(cpu.v[0xF], 0);
}

#[test]
fn sub_with_borrow_clears_flag() {
    let mut cpu = with_program(&[0x8015]);
    cpu.v[0x0] = 0x10;
    cpu.v[0x1] = 0x20;
    cpu.execute().unwrap();
    assert_eq!(cpu.v[0x0], 0xF0);
    assert_eq!(cpu.v[0xF], 0);
}

#[test]
fn subn_with_borrow_clears_flag() {
    let mut cpu = with_program(&[0x8017]);
    cpu.v[0x0] = 0x20;
    cpu.v[0x1] = 0x10;
    cpu.execute().unwrap();
    assert_eq!(cpu.v[0x0], 0xF0);
    assert_eq!(cpu.v[0xF], 0);
}

#[test]
fn shifts_report_lost_bit() {
    let mut cpu = with_program(&[0x8016, 0x801E]);
    cpu.v[0x0] = 0x42;
    cpu.execute().unwrap();
    assert_eq!(cpu.v[0x0], 0x21);
    assert_eq!(cpu.v[0xF], 0);
    cpu.v[0x0] = 0x41;
    cpu.execute().unwrap();
    assert_eq!(cpu.v[0x0], 0x82);
    assert_eq!(cpu.v[0xF], 0);
}

#[test]
fn call_then_return_restores_pc_and_sp() {
    let mut cpu = with_program(&[0x2A00]);
    cpu.memory[0x0A00] = 0x00;
    cpu.memory[0x0A01] = 0xEE;
    cpu.execute().unwrap();
    assert_eq!(cpu.sp, 1);
    assert_eq!(cpu.stack[0], PROGRAM_START + 2);
    cpu.execute().unwrap();
    assert_eq!(cpu.pc, PROGRAM_START + 2);
    assert_eq!(cpu.sp, 0);
}

#[test]
fn return_on_empty_stack_underflows() {
    let mut cpu = with_program(&[0x00EE]);
    assert_eq!(cpu.execute(), Err(Fault::StackUnderflow));
    assert_eq!(cpu.sp, 0);
}

#[test]
fn call_on_full_stack_overflows() {
    // Calls itself until all sixteen slots are used.
    let mut cpu = with_program(&[0x2200]);
    for _ in 0..16 {
        cpu.execute().unwrap();
    }
    assert_eq!(cpu.sp, 16);
    assert_eq!(cpu.execute(), Err(Fault::StackOverflow));
    assert_eq!(cpu.sp, 16);
}

#[test]
fn draw_twice_erases_and_reports_collision() {
    let mut cpu = with_program(&[0xD015, 0xD015]);
    cpu.load_sprites();
    cpu.i = 0;
    cpu.execute().unwrap();
    assert_eq!(cpu.v[0xF], 0);
    assert!(cpu.redraw);
    assert!(cpu.display[0][0]);
    assert!(!cpu.display[1][1]);
    cpu.execute().unwrap();
    assert_eq!(cpu.v[0xF], 1);
    assert!(cpu.display.iter().all(|row| row.iter().all(|&p| !p)));
}

#[test]
fn draw_wraps_at_both_edges() {
    let mut cpu = with_program(&[0xD012]);
    cpu.memory[0x300] = 0xFF;
    cpu.memory[0x301] = 0x81;
    cpu.i = 0x300;
    cpu.v[0x0] = 60;
    cpu.v[0x1] = 31;
    cpu.execute().unwrap();
    for c in [60, 61, 62, 63, 0, 1, 2, 3] {
        assert!(cpu.display[31][c]);
    }
    assert!(cpu.display[0][60]);
    assert!(cpu.display[0][3]);
    assert!(!cpu.display[0][61]);
    assert!(!cpu.display[0][0]);
}

#[test]
fn draw_past_memory_end_fails() {
    let mut cpu = with_program(&[0xD005]);
    cpu.i = 0x0FFE;
    assert_eq!(cpu.execute(), Err(Fault::OutOfBounds));
    assert!(!cpu.redraw);
}

#[test]
fn clear_after_draw_blanks_screen() {
    let mut cpu = with_program(&[0xD008, 0x00E0]);
    cpu.load_sprites();
    cpu.execute().unwrap();
    cpu.execute().unwrap();
    assert!(cpu.display.iter().all(|row| row.iter().all(|&p| !p)));
}

#[test]
fn key_wait_repeats_until_pressed() {
    let mut cpu = with_program(&[0xF30A]);
    for _ in 0..5 {
        cpu.execute().unwrap();
        assert_eq!(cpu.pc, PROGRAM_START);
    }
    cpu.keyboard[0x9] = true;
    cpu.keyboard[0xC] = true;
    cpu.execute().unwrap();
    assert_eq!(cpu.pc, PROGRAM_START + 2);
    assert_eq!(cpu.v[0x3], 0x9);
}

#[test]
fn key_skips_follow_keyboard() {
    let mut cpu = with_program(&[0xE09E, 0x0000, 0xE1A1, 0x0000, 0xE29E]);
    cpu.v[0x0] = 0x5;
    cpu.v[0x1] = 0x5;
    cpu.v[0x2] = 0x20;
    cpu.keyboard[0x5] = true;
    cpu.execute().unwrap();
    assert_eq!(cpu.pc, PROGRAM_START + 4);
    cpu.execute().unwrap();
    assert_eq!(cpu.pc, PROGRAM_START + 6);
    cpu.pc = PROGRAM_START + 8;
    cpu.execute().unwrap();
    assert_eq!(cpu.pc, PROGRAM_START + 10);
}

#[test]
fn timers_count_down_every_ninth_cycle() {
    let mut cpu = with_program(&[0x1200]);
    cpu.dt = 2;
    cpu.st = 1;
    for _ in 0..8 {
        cpu.execute().unwrap();
    }
    assert_eq!((cpu.dt, cpu.st), (2, 1));
    cpu.execute().unwrap();
    assert_eq!((cpu.dt, cpu.st), (1, 0));
    for _ in 0..9 {
        cpu.execute().unwrap();
    }
    assert_eq!((cpu.dt, cpu.st), (0, 0));
    assert_eq!(cpu.ticks, 18);
}

#[test]
fn timer_registers_load_and_store() {
    let mut cpu = with_program(&[0xF015, 0xF118, 0xF207]);
    cpu.v[0x0] = 40;
    cpu.v[0x1] = 30;
    cpu.execute().unwrap();
    cpu.execute().unwrap();
    cpu.execute().unwrap();
    assert_eq!((cpu.dt, cpu.st, cpu.v[0x2]), (40, 30, 40));
}

#[test]
fn bcd_stores_decimal_digits() {
    let mut cpu = with_program(&[0xF433]);
    cpu.v[0x4] = 254;
    cpu.i = 0x400;
    cpu.execute().unwrap();
    assert_eq!(&cpu.memory[0x400..0x403], &[2, 5, 4]);
}

#[test]
fn bcd_past_memory_end_fails() {
    let mut cpu = with_program(&[0xF433]);
    cpu.i = 0x0FFE;
    assert_eq!(cpu.execute(), Err(Fault::OutOfBounds));
}

#[test]
fn registers_store_and_load_round_trip() {
    let mut cpu = with_program(&[0xF255, 0xF265]);
    cpu.v[0x0] = 7;
    cpu.v[0x1] = 8;
    cpu.v[0x2] = 9;
    cpu.v[0x3] = 10;
    cpu.i = 0x500;
    cpu.execute().unwrap();
    assert_eq!(&cpu.memory[0x500..0x504], &[7, 8, 9, 0]);
    cpu.v = [0; 16];
    cpu.execute().unwrap();
    assert_eq!(&cpu.v[0..4], &[7, 8, 9, 0]);
}

#[test]
fn font_address_and_index_add() {
    let mut cpu = with_program(&[0xF029, 0xF11E, 0xF229]);
    cpu.v[0x0] = 0xA;
    cpu.v[0x1] = 3;
    cpu.v[0x2] = 0x10;
    cpu.execute().unwrap();
    assert_eq!(cpu.i, 50);
    cpu.execute().unwrap();
    assert_eq!(cpu.i, 53);
    cpu.execute().unwrap();
    assert_eq!(cpu.i, 53);
}

#[test]
fn index_add_wraps() {
    let mut cpu = with_program(&[0xF01E]);
    cpu.i = 0xFFFF;
    cpu.v[0x0] = 2;
    cpu.execute().unwrap();
    assert_eq!(cpu.i, 1);
}

#[test]
fn random_byte_is_masked() {
    let mut cpu = with_program(&[0xC50F, 0xC600]);
    cpu.execute_with(0xAB).unwrap();
    assert_eq!(cpu.v[0x5], 0x0B);
    cpu.v[0x6] = 0x55;
    cpu.execute().unwrap();
    assert_eq!(cpu.v[0x6], 0);
}

#[test]
fn unknown_opcodes_are_no_ops() {
    let mut cpu = with_program(&[0x0123, 0x800F, 0xE0FF, 0xF0FF]);
    let v = cpu.v;
    for _ in 0..4 {
        cpu.execute().unwrap();
    }
    assert_eq!(cpu.pc, PROGRAM_START + 8);
    assert_eq!(cpu.v, v);
}

#[test]
fn decode_reads_nibbles() {
    assert_eq!(Instruction::decode(0xD3A7), Instruction::DrwVxVy { x: 3, y: 0xA, n: 7 });
    assert_eq!(Instruction::decode(0x8AB7), Instruction::SubnVxVy { x: 0xA, y: 0xB });
    assert_eq!(Instruction::decode(0xB123), Instruction::JpV0 { addr: 0x123 });
    assert_eq!(Instruction::decode(0xF465), Instruction::LoadRegs { x: 4 });
    assert_eq!(Instruction::decode(0x00E0), Instruction::Cls);
    assert_eq!(Instruction::decode(0x0000), Instruction::Nop);
    assert_eq!(Instruction::decode(0x5120), Instruction::SeVxVy { x: 1, y: 2 });
}

#[test]
fn load_program_rejects_oversized_image() {
    let mut cpu = CPU::default();
    let rom = vec![0xAAu8; 4096 - 0x200 + 1];
    assert_eq!(cpu.load_program(&rom), Err(Fault::OutOfBounds));
    assert!(cpu.memory.iter().all(|&b| b == 0));
    let rom = vec![0xAAu8; 4096 - 0x200];
    assert_eq!(cpu.load_program(&rom), Ok(()));
    assert_eq!(cpu.memory[0xFFF], 0xAA);
    assert_eq!(cpu.memory[0x1FF], 0);
}

#[test]
fn load_sprites_writes_font() {
    let mut cpu = CPU::default();
    cpu.load_sprites();
    assert_eq!(&cpu.memory[0..80], &FONT[..]);
    assert_eq!(&cpu.memory[5..10], &[0x20, 0x60, 0x20, 0x20, 0x70]);
}

#[test]
fn chip8_step_copies_screen_and_keys() {
    let mut emu = Chip8::new();
    emu.init();
    assert_eq!(emu.cpu.memory[0], 0xF0);
    emu.cpu.memory[0x200] = 0xD0;
    emu.cpu.memory[0x201] = 0x05;
    emu.step().unwrap();
    assert!(emu.display[0][0]);
    emu.update_keyboard(&[0, 1, 0, 2, 1, 1, 1, 1, 1, 1, 1, 1, 1, 1, 1, 1, 1, 1]);
    assert!(!emu.cpu.keyboard[0]);
    assert!(emu.cpu.keyboard[1]);
    assert!(emu.cpu.keyboard[3]);
    emu.update_keyboard(&[1]);
    assert!(emu.cpu.keyboard[0]);
    assert!(emu.cpu.keyboard[15]);
}

#[test]
fn reset_clears_registers_timers_and_screen() {
    let mut cpu = with_program(&[0xA123, 0xD005]);
    cpu.load_sprites();
    cpu.execute().unwrap();
    cpu.i = 0;
    cpu.execute().unwrap();
    cpu.v[0x3] = 4;
    cpu.dt = 5;
    cpu.st = 6;
    cpu.reset();
    assert_eq!((cpu.pc, cpu.sp, cpu.i), (PROGRAM_START, 0, 0));
    assert_eq!(cpu.v, [0; 16]);
    assert_eq!((cpu.dt, cpu.st), (0, 0));
    assert!(cpu.display.iter().all(|row| row.iter().all(|&p| !p)));
    assert_eq!(cpu.memory[0x200], 0xA1);
    assert_eq!(cpu.memory[0], 0xF0);
}

#[test]
fn chip8_init_resets_machine() {
    let mut emu = Chip8::new();
    emu.cpu.v[0x0] = 1;
    emu.cpu.dt = 5;
    emu.cpu.pc = 0x300;
    emu.cpu.display[3][4] = true;
    emu.init();
    assert_eq!(emu.cpu.v[0x0], 0);
    assert_eq!(emu.cpu.dt, 0);
    assert_eq!(emu.cpu.pc, PROGRAM_START);
    assert!(!emu.cpu.display[3][4]);
    assert_eq!(&emu.cpu.memory[0..5], &[0xF0, 0x90, 0x90, 0x90, 0xF0]);
}

#[test]
fn register_skips_need_zero_low_nibble() {
    let mut cpu = with_program(&[0x5011, 0x9011]);
    cpu.v[0x0] = 3;
    cpu.v[0x1] = 3;
    cpu.execute().unwrap();
    assert_eq!(cpu.pc, PROGRAM_START + 2);
    cpu.v[0x1] = 4;
    cpu.execute().unwrap();
    assert_eq!(cpu.pc, PROGRAM_START + 4);
    assert_eq!(Instruction::decode(0x5011), Instruction::Nop);
    assert_eq!(Instruction::decode(0x9AB3), Instruction::Nop);
    assert_eq!(Instruction::decode(0x9AB0), Instruction::SneVxVy { x: 0xA, y: 0xB });
}

#[test]
fn empty_sprite_draws_nothing_anywhere() {
    let mut cpu = with_program(&[0xD010]);
    cpu.i = 0xFFFF;
    cpu.v[0xF] = 1;
    assert_eq!(cpu.execute(), Ok(()));
    assert_eq!(cpu.v[0xF], 0);
    assert!(cpu.redraw);
    assert!(cpu.display.iter().all(|row| row.iter().all(|&p| !p)));
}
