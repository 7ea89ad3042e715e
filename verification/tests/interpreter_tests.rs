use chip8::decode::{decode, Instr};
use chip8::vm::{Chip8, CycleOutcome, FaultKind, Key, LoadError, CPU};

/// A machine with `program` loaded and the program counter at 0x200.
fn loaded(program: &[u8]) -> CPU {
    let mut chip8 = Chip8::new();
    chip8.load(program).unwrap();
    chip8.cpu
}

#[test]
fn add_with_carry_sets_flag_on_overflow() {
    let mut cpu = loaded(&[0x80, 0x14]);
    cpu.registers[0] = 0xFF;
    cpu.registers[1] = 0x01;
    let out = cpu.emulate_cycle();
    assert_eq!(out, CycleOutcome::Continue { drew: false });
    assert_eq!(cpu.registers[0], 0x00);
    assert_eq!(cpu.registers[0xF], 1);
}

#[test]
fn add_without_carry_clears_flag() {
    let mut cpu = loaded(&[0x80, 0x14]);
    cpu.registers[0] = 0x01;
    cpu.registers[1] = 0x01;
    cpu.registers[0xF] = 1;
    cpu.emulate_cycle();
    assert_eq!(cpu.registers[0], 0x02);
    assert_eq!(cpu.registers[0xF], 0);
}

#[test]
fn sub_without_borrow_sets_flag() {
    let mut cpu = loaded(&[0x80, 0x15]);
    cpu.registers[0] = 0x05;
    cpu.registers[1] = 0x03;
    cpu.emulate_cycle();
    assert_eq!(cpu.registers[0], 0x02);
    assert_eq!(cpu.registers[0xF], 1);
}

#[test]
fn sub_with_borrow_wraps_and_clears_flag() {
    let mut cpu = loaded(&[0x80, 0x15]);
    cpu.registers[0] = 0x03;
    cpu.registers[1] = 0x05;
    cpu.emulate_cycle();
    assert_eq!(cpu.registers[0], 0xFE);
    assert_eq!(cpu.registers[0xF], 0);
}

#[test]
fn sub_reversed_follows_same_borrow_rule() {
    let mut cpu = loaded(&[0x80, 0x17]);
    cpu.registers[0] = 0x03;
    cpu.registers[1] = 0x05;
    cpu.emulate_cycle();
    assert_eq!(cpu.registers[0], 0x02);
    assert_eq!(cpu.registers[0xF], 1);
}

#[test]
fn shift_right_keeps_low_bit_in_flag() {
    let mut cpu = loaded(&[0x80, 0x06]);
    cpu.registers[0] = 0x05;
    cpu.emulate_cycle();
    assert_eq!(cpu.registers[0], 0x02);
    assert_eq!(cpu.registers[0xF], 1);
}

#[test]
fn shift_left_keeps_high_bit_in_flag() {
    let mut cpu = loaded(&[0x80, 0x0E]);
    cpu.registers[0] = 0x81;
    cpu.emulate_cycle();
    assert_eq!(cpu.registers[0], 0x02);
    assert_eq!(cpu.registers[0xF], 1);
}

#[test]
fn add_immediate_wraps_without_flag() {
    let mut cpu = loaded(&[0x70, 0x02]);
    cpu.registers[0] = 0xFF;
    cpu.emulate_cycle();
    assert_eq!(cpu.registers[0], 0x01);
    assert_eq!(cpu.registers[0xF], 0);
}

#[test]
fn bitwise_ops_follow_their_tables() {
    let mut cpu = loaded(&[0x80, 0x11, 0x80, 0x12, 0x80, 0x13]);
    cpu.registers[0] = 0b1100;
    cpu.registers[1] = 0b1010;
    cpu.emulate_cycle();
    assert_eq!(cpu.registers[0], 0b1110);
    cpu.emulate_cycle();
    assert_eq!(cpu.registers[0], 0b1010);
    cpu.emulate_cycle();
    assert_eq!(cpu.registers[0], 0b0000);
}

#[test]
fn store_load_round_trip_restores_registers() {
    let mut cpu = loaded(&[0xF3, 0x55, 0xF3, 0x65]);
    cpu.registers[0] = 10;
    cpu.registers[1] = 20;
    cpu.registers[2] = 30;
    cpu.registers[3] = 40;
    cpu.index = 0x900;
    cpu.emulate_cycle();
    for i in 0..4 {
        cpu.registers[i] = 0;
    }
    cpu.emulate_cycle();
    assert_eq!(&cpu.registers[0..4], &[10, 20, 30, 40]);
}

#[test]
fn draw_collision_clears_pixel_and_sets_flag() {
    let mut cpu = loaded(&[0xD0, 0x11, 0xD0, 0x11]);
    cpu.index = 0x300;
    cpu.write_memory(&[0x80], 0x300);
    let first = cpu.emulate_cycle();
    assert_eq!(first, CycleOutcome::Continue { drew: true });
    assert_eq!(cpu.gfx[0], 1);
    assert_eq!(cpu.registers[0xF], 0);
    let second = cpu.emulate_cycle();
    assert_eq!(second, CycleOutcome::Continue { drew: true });
    assert_eq!(cpu.gfx[0], 0);
    assert_eq!(cpu.registers[0xF], 1);
}

#[test]
fn sprite_coordinates_wrap_at_screen_edges() {
    let mut cpu = loaded(&[0xD0, 0x11]);
    cpu.registers[0] = 63;
    cpu.registers[1] = 31;
    cpu.index = 0x300;
    cpu.write_memory(&[0xFF], 0x300);
    cpu.emulate_cycle();
    let row = 31 * 64;
    assert_eq!(cpu.gfx[row + 63], 1);
    for c in 0..7 {
        assert_eq!(cpu.gfx[row + c], 1);
    }
    assert_eq!(cpu.gfx[row + 7], 0);
    for c in 0..64 {
        assert_eq!(cpu.gfx[c], 0);
    }
    assert_eq!(cpu.registers[0xF], 0);
}

#[test]
fn call_then_return_resumes_after_call() {
    let mut cpu = loaded(&[0x22, 0x00]);
    cpu.emulate_cycle();
    assert_eq!(cpu.pc, 0x200);
    cpu.write_memory(&[0x00, 0xEE], 0x200);
    let out = cpu.emulate_cycle();
    assert_eq!(out, CycleOutcome::Continue { drew: false });
    assert_eq!(cpu.pc, 0x202);
}

#[test]
fn clear_screen_publishes_blank_frame() {
    let mut cpu = loaded(&[0xD0, 0x11, 0x00, 0xE0]);
    cpu.index = 0x300;
    cpu.write_memory(&[0x80], 0x300);
    cpu.emulate_cycle();
    assert_eq!(cpu.gfx[0], 1);
    let out = cpu.emulate_cycle();
    assert_eq!(out, CycleOutcome::Continue { drew: true });
    let frame = cpu.display_frame();
    assert_eq!(frame.len(), 2048);
    assert!(frame.iter().all(|&p| p == 0));
}

#[test]
fn unknown_instruction_is_a_fault() {
    let mut cpu = loaded(&[0x50, 0x01]);
    let out = cpu.emulate_cycle();
    assert_eq!(
        out,
        CycleOutcome::Fault { kind: FaultKind::UnknownInstruction, opcode: 0x5001, pc: 0x200 }
    );
}

#[test]
fn return_on_empty_stack_is_a_fault() {
    let mut cpu = loaded(&[0x00, 0xEE]);
    let out = cpu.emulate_cycle();
    assert_eq!(
        out,
        CycleOutcome::Fault { kind: FaultKind::StackUnderflow, opcode: 0x00EE, pc: 0x200 }
    );
}

#[test]
fn seventeenth_nested_call_overflows_the_stack() {
    let mut cpu = loaded(&[0x22, 0x00]);
    for _ in 0..16 {
        let out = cpu.emulate_cycle();
        assert_eq!(out, CycleOutcome::Continue { drew: false });
    }
    let out = cpu.emulate_cycle();
    assert_eq!(
        out,
        CycleOutcome::Fault { kind: FaultKind::StackOverflow, opcode: 0x2200, pc: 0x200 }
    );
}

#[test]
fn draw_past_end_of_memory_is_a_fault() {
    let mut cpu = loaded(&[0xD0, 0x1F]);
    cpu.index = 4090;
    let out = cpu.emulate_cycle();
    assert_eq!(
        out,
        CycleOutcome::Fault { kind: FaultKind::OutOfRange, opcode: 0xD01F, pc: 0x200 }
    );
    assert_eq!(cpu.pc, 0x200);
}

#[test]
fn store_past_end_of_memory_is_a_fault() {
    let mut cpu = loaded(&[0xFF, 0x55]);
    cpu.index = 4090;
    let out = cpu.emulate_cycle();
    assert_eq!(
        out,
        CycleOutcome::Fault { kind: FaultKind::OutOfRange, opcode: 0xFF55, pc: 0x200 }
    );
}

#[test]
fn jump_to_odd_address_is_a_fault() {
    let mut cpu = loaded(&[0x12, 0x01]);
    let out = cpu.emulate_cycle();
    assert_eq!(
        out,
        CycleOutcome::Fault { kind: FaultKind::OutOfRange, opcode: 0x1201, pc: 0x200 }
    );
}

#[test]
fn oversized_image_is_rejected_at_load() {
    let mut chip8 = Chip8::new();
    let too_big = vec![0u8; 3585];
    assert_eq!(chip8.load(&too_big), Err(LoadError::ImageTooLarge));
    assert_eq!(chip8.cpu.pc, 0);
    let just_fits = vec![0u8; 3584];
    assert_eq!(chip8.load(&just_fits), Ok(()));
    assert_eq!(chip8.cpu.pc, 0x200);
}

#[test]
fn skip_if_key_pressed_reads_the_keypad() {
    let mut cpu = loaded(&[0xE0, 0x9E]);
    cpu.registers[0] = 5;
    cpu.deal_with_input(Some((Key::K5, true)));
    cpu.emulate_cycle();
    assert_eq!(cpu.pc, 0x204);

    let mut cpu = loaded(&[0xE0, 0x9E]);
    cpu.registers[0] = 5;
    cpu.deal_with_input(None);
    cpu.emulate_cycle();
    assert_eq!(cpu.pc, 0x202);
}

#[test]
fn skip_if_key_not_pressed_reads_the_keypad() {
    let mut cpu = loaded(&[0xE0, 0xA1]);
    cpu.registers[0] = 0xA;
    cpu.emulate_cycle();
    assert_eq!(cpu.pc, 0x204);

    let mut cpu = loaded(&[0xE0, 0xA1]);
    cpu.registers[0] = 0xA;
    cpu.deal_with_input(Some((Key::A, true)));
    cpu.emulate_cycle();
    assert_eq!(cpu.pc, 0x202);
}

#[test]
fn key_skip_with_bad_symbol_is_a_fault() {
    let mut cpu = loaded(&[0xE0, 0x9E]);
    cpu.registers[0] = 16;
    let out = cpu.emulate_cycle();
    assert_eq!(
        out,
        CycleOutcome::Fault { kind: FaultKind::OutOfRange, opcode: 0xE09E, pc: 0x200 }
    );
}

#[test]
fn released_key_event_clears_the_keypad() {
    let mut cpu = loaded(&[0xE0, 0x9E]);
    cpu.registers[0] = 7;
    cpu.deal_with_input(Some((Key::K7, true)));
    cpu.deal_with_input(Some((Key::K7, false)));
    cpu.emulate_cycle();
    assert_eq!(cpu.pc, 0x202);
}

#[test]
fn wait_key_suspends_until_a_press_arrives() {
    let mut cpu = loaded(&[0xF2, 0x0A]);
    let out = cpu.emulate_cycle();
    assert_eq!(out, CycleOutcome::AwaitKey);
    assert_eq!(cpu.pc, 0x200);
    let out = cpu.feed_awaited_key(Key::B, false);
    assert_eq!(out, CycleOutcome::AwaitKey);
    let out = cpu.feed_awaited_key(Key::B, true);
    assert_eq!(out, CycleOutcome::Continue { drew: false });
    assert_eq!(cpu.registers[2], 0xB);
    assert_eq!(cpu.pc, 0x202);
}

#[test]
fn timers_set_read_and_tick_down_to_zero() {
    let mut cpu = loaded(&[0xF0, 0x15, 0xF1, 0x07]);
    cpu.registers[0] = 2;
    cpu.emulate_cycle();
    assert_eq!(cpu.delay_timer, 2);
    cpu.tick_timers();
    assert_eq!(cpu.delay_timer, 1);
    cpu.emulate_cycle();
    assert_eq!(cpu.registers[1], 1);
    cpu.tick_timers();
    cpu.tick_timers();
    assert_eq!(cpu.delay_timer, 0);
    assert_eq!(cpu.sound_timer, 0);
}

#[test]
fn random_mask_with_zero_mask_always_clears() {
    let mut cpu = loaded(&[0xC0, 0x00]);
    cpu.registers[0] = 0xAA;
    let out = cpu.emulate_cycle();
    assert_eq!(out, CycleOutcome::Continue { drew: false });
    assert_eq!(cpu.registers[0], 0);
    assert_eq!(cpu.pc, 0x202);
}

#[test]
fn glyph_index_points_at_the_requested_glyph() {
    let mut cpu = loaded(&[0xF1, 0x29, 0xF4, 0x65]);
    cpu.registers[1] = 0xF;
    cpu.emulate_cycle();
    assert_eq!(cpu.index, 75);
    cpu.emulate_cycle();
    assert_eq!(&cpu.registers[0..5], &[0xF0, 0x80, 0xF0, 0x80, 0x80]);
}

#[test]
fn jump_with_offset_adds_v0() {
    let mut cpu = loaded(&[0xB3, 0x00]);
    cpu.registers[0] = 4;
    cpu.emulate_cycle();
    assert_eq!(cpu.pc, 0x304);
}

#[test]
fn index_addition_wraps_at_sixteen_bits() {
    let mut cpu = loaded(&[0xF0, 0x1E]);
    cpu.registers[0] = 2;
    cpu.index = 0xFFFF;
    cpu.emulate_cycle();
    assert_eq!(cpu.index, 1);
}

#[test]
fn skip_equal_immediate_both_ways() {
    let mut cpu = loaded(&[0x30, 0x2A]);
    cpu.registers[0] = 0x2A;
    cpu.emulate_cycle();
    assert_eq!(cpu.pc, 0x204);

    let mut cpu = loaded(&[0x30, 0x2A]);
    cpu.registers[0] = 0x2B;
    cpu.emulate_cycle();
    assert_eq!(cpu.pc, 0x202);
}

#[test]
fn decode_classifies_by_the_pattern_table() {
    assert_eq!(decode(0x00E0), Some(Instr::ClearScreen));
    assert_eq!(decode(0x00EE), Some(Instr::SubReturn));
    assert_eq!(decode(0x1234), Some(Instr::JumpTo { nnn: 0x234 }));
    assert_eq!(decode(0x8AB4), Some(Instr::AddReg { x: 0xA, y: 0xB }));
    assert_eq!(decode(0xD123), Some(Instr::DrawSprite { x: 1, y: 2, n: 3 }));
    assert_eq!(decode(0xF129), Some(Instr::GlyphIndex { x: 1 }));
    assert_eq!(decode(0x5123), None);
    assert_eq!(decode(0x800F), None);
    assert_eq!(decode(0xE19F), None);
    assert_eq!(decode(0xF1FF), None);
}

#[test]
fn fresh_machine_is_zeroed() {
    let cpu = CPU::new();
    assert_eq!(cpu.pc, 0);
    assert_eq!(cpu.index, 0);
    assert!(cpu.registers.iter().all(|&r| r == 0));
    assert!(cpu.display_frame().iter().all(|&p| p == 0));
    assert!(cpu.read_memory(0, 4096).iter().all(|&b| b == 0));
}

#[test]
fn write_memory_then_read_memory_round_trips() {
    let mut cpu = CPU::new();
    cpu.write_memory(&[1, 2, 3], 100);
    assert_eq!(cpu.read_memory(100, 103), &[1, 2, 3]);
    assert_eq!(cpu.read_memory(99, 100), &[0]);
    assert_eq!(cpu.read_memory(103, 104), &[0]);
}

#[test]
fn key_symbols_map_to_their_values() {
    assert_eq!(Key::K0.to_byte(), 0x0);
    assert_eq!(Key::K9.to_byte(), 0x9);
    assert_eq!(Key::A.to_byte(), 0xA);
    assert_eq!(Key::F.to_byte(), 0xF);
}
