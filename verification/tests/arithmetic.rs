use chip8_core::Emulator;

/// A machine with `vx` in V1 and `vy` in V2 on which `op` has been executed.
fn after(op: u16, vx: u8, vy: u8) -> Emulator {
    let mut emulator = Emulator::new();
    emulator.execute(0x6100 | vx as u16, 0);
    emulator.execute(0x6200 | vy as u16, 0);
    assert_eq!(emulator.opcode_fault(op), None);
    emulator.execute(op, 0);
    emulator
}

fn v1_and_flag(emulator: &Emulator) -> (u8, u8) {
    (emulator.register(1).unwrap(), emulator.register(0xF).unwrap())
}

#[test]
fn load_immediate_takes_the_low_byte() {
    let mut emulator = Emulator::new();
    emulator.execute(0x6A05, 0);
    assert_eq!(emulator.register(0xA), Some(5));
    emulator.execute(0x6AFF, 0);
    assert_eq!(emulator.register(0xA), Some(0xFF));
    emulator.execute(0x6A10, 0);
    assert_eq!(emulator.register(0xA), Some(0x10));
}

#[test]
fn load_then_add_immediate() {
    let mut emulator = Emulator::new();
    emulator.load(&[0x6A, 0x05, 0x7A, 0x03]);
    emulator.tick();
    emulator.tick();
    assert_eq!(emulator.register(0xA), Some(8));
    assert_eq!(emulator.program_counter(), 0x204);
}

#[test]
fn add_immediate_wraps_and_leaves_the_flag() {
    let emulator = after(0x710A, 250, 0);
    assert_eq!(v1_and_flag(&emulator), (4, 0));

    let mut flagged = after(0x8124, 255, 1);
    assert_eq!(flagged.register(0xF), Some(1));
    flagged.execute(0x71FF, 0);
    assert_eq!(v1_and_flag(&flagged), (255, 1));
}

#[test]
fn move_copies_vy() {
    assert_eq!(after(0x8120, 3, 77).register(1), Some(77));
}

#[test]
fn or_and_xor_work_bitwise() {
    assert_eq!(after(0x8121, 0b1100_1010, 0b1010_0110).register(1), Some(0b1110_1110));
    assert_eq!(after(0x8122, 0b1100_1010, 0b1010_0110).register(1), Some(0b1000_0010));
    assert_eq!(after(0x8123, 0b1100_1010, 0b1010_0110).register(1), Some(0b0110_1100));
}

#[test]
fn add_sets_carry_exactly_on_overflow() {
    assert_eq!(v1_and_flag(&after(0x8124, 1, 2)), (3, 0));
    assert_eq!(v1_and_flag(&after(0x8124, 200, 55)), (255, 0));
    assert_eq!(v1_and_flag(&after(0x8124, 200, 56)), (0, 1));
    assert_eq!(v1_and_flag(&after(0x8124, 200, 100)), (44, 1));
    assert_eq!(v1_and_flag(&after(0x8124, 255, 255)), (254, 1));
    assert_eq!(v1_and_flag(&after(0x8124, 0, 0)), (0, 0));
}

#[test]
fn add_agrees_with_the_sum_for_all_bytes() {
    for a in 0..=255u16 {
        for b in 0..=255u16 {
            let emulator = after(0x8124, a as u8, b as u8);
            let expected = (((a + b) % 256) as u8, if a + b >= 256 { 1 } else { 0 });
            assert_eq!(v1_and_flag(&emulator), expected);
        }
    }
}

#[test]
fn sub_sets_flag_exactly_without_borrow() {
    assert_eq!(v1_and_flag(&after(0x8125, 5, 3)), (2, 1));
    assert_eq!(v1_and_flag(&after(0x8125, 3, 5)), (254, 0));
    assert_eq!(v1_and_flag(&after(0x8125, 7, 7)), (0, 1));
    assert_eq!(v1_and_flag(&after(0x8125, 0, 255)), (1, 0));
    assert_eq!(v1_and_flag(&after(0x8125, 255, 0)), (255, 1));
}

#[test]
fn sub_agrees_with_the_difference_for_all_bytes() {
    for a in 0..=255i32 {
        for b in 0..=255i32 {
            let emulator = after(0x8125, a as u8, b as u8);
            let expected = ((a - b).rem_euclid(256) as u8, if a >= b { 1 } else { 0 });
            assert_eq!(v1_and_flag(&emulator), expected);
        }
    }
}

#[test]
fn reversed_sub_computes_vy_minus_vx() {
    assert_eq!(v1_and_flag(&after(0x8127, 3, 5)), (2, 1));
    assert_eq!(v1_and_flag(&after(0x8127, 5, 3)), (254, 0));
    assert_eq!(v1_and_flag(&after(0x8127, 9, 9)), (0, 1));
}

#[test]
fn shift_right_drops_the_low_bit_into_the_flag() {
    assert_eq!(v1_and_flag(&after(0x8126, 0b0000_0101, 0)), (0b0000_0010, 1));
    assert_eq!(v1_and_flag(&after(0x8126, 0b1000_0100, 0)), (0b0100_0010, 0));
    assert_eq!(v1_and_flag(&after(0x8126, 255, 0)), (127, 1));
    assert_eq!(v1_and_flag(&after(0x8126, 0, 0)), (0, 0));
}

#[test]
fn shift_left_drops_the_high_bit_into_the_flag() {
    assert_eq!(v1_and_flag(&after(0x812E, 0b1000_0101, 0)), (0b0000_1010, 1));
    assert_eq!(v1_and_flag(&after(0x812E, 0b0100_0001, 0)), (0b1000_0010, 0));
    assert_eq!(v1_and_flag(&after(0x812E, 255, 0)), (254, 1));
    assert_eq!(v1_and_flag(&after(0x812E, 0, 0)), (0, 0));
}

#[test]
fn shifts_ignore_an_earlier_carry() {
    // 255 + 1 leaves the flag at 1; the shifts then overwrite it.
    let mut emulator = after(0x8124, 255, 1);
    assert_eq!(v1_and_flag(&emulator), (0, 1));
    emulator.execute(0x6104, 0);
    emulator.execute(0x8126, 0);
    assert_eq!(v1_and_flag(&emulator), (2, 0));

    let mut emulator = after(0x8124, 255, 1);
    emulator.execute(0x6104, 0);
    emulator.execute(0x812E, 0);
    assert_eq!(v1_and_flag(&emulator), (8, 0));
}

#[test]
fn flag_wins_when_the_target_is_the_flag_register() {
    let mut emulator = Emulator::new();
    emulator.execute(0x6FC8, 0);
    emulator.execute(0x6264, 0);
    emulator.execute(0x8F24, 0);
    assert_eq!(emulator.register(0xF), Some(1));

    emulator.execute(0x6F03, 0);
    emulator.execute(0x8F06, 0);
    assert_eq!(emulator.register(0xF), Some(1));
}

#[test]
fn random_is_masked_by_the_constant() {
    let mut emulator = Emulator::new();
    emulator.execute(0xC10F, 0xAB);
    assert_eq!(emulator.register(1), Some(0x0B));
    emulator.execute(0xC1F0, 0xAB);
    assert_eq!(emulator.register(1), Some(0xA0));
    emulator.execute(0xC1FF, 0x5C);
    assert_eq!(emulator.register(1), Some(0x5C));
    emulator.execute(0xC100, 0xFF);
    assert_eq!(emulator.register(1), Some(0));
}

#[test]
fn tick_with_hands_its_byte_to_the_random_instruction() {
    let mut emulator = Emulator::new();
    emulator.load(&[0xC1, 0x3C]);
    emulator.tick_with(0xFF);
    assert_eq!(emulator.register(1), Some(0x3C));
    assert_eq!(emulator.program_counter(), 0x202);
}

#[test]
fn tick_keeps_the_random_byte_under_the_mask() {
    let mut program = Vec::new();
    for _ in 0..64 {
        program.extend_from_slice(&[0xC1, 0x0F, 0xC2, 0x00]);
    }
    let mut emulator = Emulator::new();
    emulator.load(&program);
    for _ in 0..64 {
        emulator.tick();
        assert_eq!(emulator.register(1).unwrap() & 0xF0, 0);
        emulator.tick();
        assert_eq!(emulator.register(2), Some(0));
    }
    assert_eq!(emulator.program_counter(), 0x200 + 256);
}

#[test]
fn delay_timer_moves_through_registers() {
    let mut emulator = Emulator::new();
    emulator.execute(0x612A, 0);
    emulator.execute(0xF115, 0);
    assert_eq!(emulator.delay_timer(), 0x2A);
    emulator.tick_timers();
    emulator.execute(0xF207, 0);
    assert_eq!(emulator.register(2), Some(0x29));
    emulator.execute(0xF118, 0);
    assert_eq!(emulator.sound_timer(), 0x2A);
}

#[test]
fn index_register_is_set_and_advanced() {
    let mut emulator = Emulator::new();
    emulator.execute(0xAFFF, 0);
    assert_eq!(emulator.index_register(), 0xFFF);
    emulator.execute(0x61FF, 0);
    emulator.execute(0xF11E, 0);
    assert_eq!(emulator.index_register(), 0xFFF + 0xFF);
}

#[test]
fn index_register_wraps_at_sixteen_bits() {
    let mut emulator = Emulator::new();
    emulator.execute(0xAFFF, 0);
    emulator.execute(0x61FF, 0);
    // 4095 + 240 * 255 = 65295; one more step of 255 wraps to 14.
    for _ in 0..240 {
        emulator.execute(0xF11E, 0);
    }
    assert_eq!(emulator.index_register(), 65295);
    emulator.execute(0xF11E, 0);
    assert_eq!(emulator.index_register(), 14);
}

#[test]
fn font_address_is_five_times_the_digit() {
    let mut emulator = Emulator::new();
    emulator.execute(0x610A, 0);
    emulator.execute(0xF129, 0);
    assert_eq!(emulator.index_register(), 50);
    emulator.execute(0x6100, 0);
    emulator.execute(0xF129, 0);
    assert_eq!(emulator.index_register(), 0);
    emulator.execute(0x61FF, 0);
    emulator.execute(0xF129, 0);
    assert_eq!(emulator.index_register(), 1275);
}

#[test]
fn bcd_stores_hundreds_tens_and_ones() {
    for (value, digits) in [(254u8, [2u8, 5, 4]), (0, [0, 0, 0]), (7, [0, 0, 7]), (99, [0, 9, 9]), (100, [1, 0, 0]), (255, [2, 5, 5])] {
        let mut emulator = Emulator::new();
        emulator.execute(0x6100 | value as u16, 0);
        emulator.execute(0xA300, 0);
        emulator.execute(0xF133, 0);
        assert_eq!(emulator.memory(0x300), Some(digits[0]));
        assert_eq!(emulator.memory(0x301), Some(digits[1]));
        assert_eq!(emulator.memory(0x302), Some(digits[2]));
        assert_eq!(emulator.memory(0x303), Some(0));
        assert_eq!(emulator.index_register(), 0x300);
    }
}

#[test]
fn store_registers_is_inclusive_of_vx() {
    let mut emulator = Emulator::new();
    for x in 0..16u16 {
        emulator.execute(0x6000 | (x << 8) | (0x10 + x), 0);
    }
    emulator.execute(0xA400, 0);
    emulator.execute(0xF355, 0);
    assert_eq!(emulator.memory(0x3FF), Some(0));
    assert_eq!(emulator.memory(0x400), Some(0x10));
    assert_eq!(emulator.memory(0x401), Some(0x11));
    assert_eq!(emulator.memory(0x402), Some(0x12));
    assert_eq!(emulator.memory(0x403), Some(0x13));
    assert_eq!(emulator.memory(0x404), Some(0));
    assert_eq!(emulator.index_register(), 0x400);
}

#[test]
fn load_registers_is_inclusive_of_vx() {
    let mut emulator = Emulator::new();
    emulator.load(&[0xAA, 0xBB, 0xCC, 0xDD]);
    emulator.execute(0xA200, 0);
    emulator.execute(0xF265, 0);
    assert_eq!(emulator.register(0), Some(0xAA));
    assert_eq!(emulator.register(1), Some(0xBB));
    assert_eq!(emulator.register(2), Some(0xCC));
    assert_eq!(emulator.register(3), Some(0));
    assert_eq!(emulator.index_register(), 0x200);
}

#[test]
fn store_then_load_restores_the_registers() {
    for x in 0..16u16 {
        let mut emulator = Emulator::new();
        for r in 0..16u16 {
            emulator.execute(0x6000 | (r << 8) | (0xA0 + r), 0);
        }
        emulator.execute(0xA500, 0);
        emulator.execute(0xF055 | (x << 8), 0);
        emulator.execute(0xF065 | (x << 8), 0);
        for r in 0..16usize {
            assert_eq!(emulator.register(r), Some(0xA0 + r as u8));
        }
    }
}

#[test]
fn load_after_store_undoes_a_change_in_between() {
    let mut emulator = Emulator::new();
    emulator.load(&[0x60, 0x11, 0x61, 0x22, 0xA3, 0x00, 0xF1, 0x55, 0x60, 0x99, 0xF1, 0x65]);
    for _ in 0..6 {
        emulator.tick();
    }
    assert_eq!(emulator.register(0), Some(0x11));
    assert_eq!(emulator.register(1), Some(0x22));
}
