use chip8_core::decode;
use chip8_core::font::FONTSET;
use chip8_core::Emulator;
use chip8_core::Instruction;
use chip8_core::InvalidKey;
use chip8_core::SCREEN_HEIGHT;
use chip8_core::SCREEN_WIDTH;

fn loaded(program: &[u8]) -> Emulator {
    let mut emulator = Emulator::new();
    emulator.load(program);
    emulator
}

fn run(emulator: &mut Emulator, cycles: usize) {
    for _ in 0..cycles {
        assert_eq!(emulator.pending_fault(), None);
        emulator.tick();
    }
}

fn assert_power_on(emulator: &Emulator) {
    assert_eq!(emulator.program_counter(), 0x200);
    assert_eq!(emulator.index_register(), 0);
    assert_eq!(emulator.delay_timer(), 0);
    assert_eq!(emulator.sound_timer(), 0);
    assert_eq!(emulator.stack_depth(), 0);
    for addr in 0..4096 {
        let expected = if addr < 80 { FONTSET[addr] } else { 0 };
        assert_eq!(emulator.memory(addr), Some(expected));
    }
    for x in 0..16 {
        assert_eq!(emulator.register(x), Some(0));
        assert_eq!(emulator.key(x), Some(false));
    }
    assert_eq!(emulator.get_display().len(), 2048);
    assert!(emulator.get_display().iter().all(|cell| !cell));
}

#[test]
fn screen_is_64_by_32() {
    assert_eq!(SCREEN_WIDTH, 64);
    assert_eq!(SCREEN_HEIGHT, 32);
    assert_eq!(Emulator::new().get_display().len(), SCREEN_WIDTH * SCREEN_HEIGHT);
}

#[test]
fn new_machine_is_in_power_on_state() {
    assert_power_on(&Emulator::new());
}

#[test]
fn font_glyphs_are_preloaded() {
    let emulator = Emulator::new();
    assert_eq!(emulator.memory(0), Some(0xF0));
    assert_eq!(emulator.memory(4), Some(0xF0));
    assert_eq!(emulator.memory(5), Some(0x20));
    assert_eq!(emulator.memory(9), Some(0x70));
    assert_eq!(emulator.memory(75), Some(0xF0));
    assert_eq!(emulator.memory(79), Some(0x80));
    assert_eq!(emulator.memory(80), Some(0));
}

#[test]
fn load_copies_from_start_address() {
    let emulator = loaded(&[0x12, 0x34, 0x56]);
    assert_eq!(emulator.memory(0x1FF), Some(0));
    assert_eq!(emulator.memory(0x200), Some(0x12));
    assert_eq!(emulator.memory(0x201), Some(0x34));
    assert_eq!(emulator.memory(0x202), Some(0x56));
    assert_eq!(emulator.memory(0x203), Some(0));
    assert_eq!(emulator.memory(0), Some(0xF0));
    assert_eq!(emulator.program_counter(), 0x200);
}

#[test]
fn load_fills_memory_to_its_end() {
    let program = vec![0xAB; 4096 - 0x200];
    let emulator = loaded(&program);
    assert_eq!(emulator.memory(0x200), Some(0xAB));
    assert_eq!(emulator.memory(4095), Some(0xAB));
    assert_eq!(emulator.memory(4096), None);
}

#[test]
fn second_load_overwrites_the_first() {
    let mut emulator = loaded(&[1, 2, 3, 4]);
    emulator.load(&[9, 8]);
    assert_eq!(emulator.memory(0x200), Some(9));
    assert_eq!(emulator.memory(0x201), Some(8));
    assert_eq!(emulator.memory(0x202), Some(3));
    assert_eq!(emulator.memory(0x203), Some(4));
}

#[test]
fn load_of_nothing_changes_nothing() {
    let emulator = loaded(&[]);
    assert_power_on(&emulator);
}

#[test]
fn reset_restores_power_on_state() {
    // V1 := 7, I := 0x300, store V0..V1, draw, call, set both timers.
    let mut emulator = loaded(&[
        0x61, 0x07, 0xA3, 0x00, 0xF1, 0x55, 0xD0, 0x05, 0xF1, 0x15, 0xF1, 0x18, 0x22, 0x10,
    ]);
    run(&mut emulator, 7);
    assert_eq!(emulator.keypress(5, true), Ok(()));
    assert_eq!(emulator.program_counter(), 0x210);
    assert_eq!(emulator.stack_depth(), 1);
    assert_eq!(emulator.memory(0x301), Some(7));
    assert!(emulator.get_display().iter().any(|cell| *cell));

    emulator.reset();
    assert_power_on(&emulator);
}

#[test]
fn keypress_sets_and_clears_a_key() {
    let mut emulator = Emulator::new();
    assert_eq!(emulator.keypress(0, true), Ok(()));
    assert_eq!(emulator.keypress(15, true), Ok(()));
    assert_eq!(emulator.key(0), Some(true));
    assert_eq!(emulator.key(15), Some(true));
    assert_eq!(emulator.key(7), Some(false));
    assert_eq!(emulator.keypress(0, false), Ok(()));
    assert_eq!(emulator.key(0), Some(false));
    assert_eq!(emulator.key(15), Some(true));
}

#[test]
fn keypress_rejects_an_index_out_of_range() {
    let mut emulator = Emulator::new();
    assert_eq!(emulator.keypress(16, true), Err(InvalidKey { index: 16 }));
    assert_eq!(emulator.keypress(usize::MAX, true), Err(InvalidKey { index: usize::MAX }));
    for idx in 0..16 {
        assert_eq!(emulator.key(idx), Some(false));
    }
    assert_eq!(emulator.key(16), None);
}

#[test]
fn getters_reject_indices_out_of_range() {
    let emulator = Emulator::new();
    assert_eq!(emulator.register(16), None);
    assert_eq!(emulator.memory(4096), None);
    assert_eq!(emulator.key(16), None);
}

#[test]
fn tone_sounds_once_when_sound_timer_leaves_one() {
    // V0 := 3, sound timer := V0.
    let mut emulator = loaded(&[0x60, 0x03, 0xF0, 0x18]);
    run(&mut emulator, 2);
    assert_eq!(emulator.sound_timer(), 3);

    assert!(!emulator.tick_timers());
    assert_eq!(emulator.sound_timer(), 2);
    assert!(!emulator.tick_timers());
    assert_eq!(emulator.sound_timer(), 1);
    assert!(emulator.tick_timers());
    assert_eq!(emulator.sound_timer(), 0);
    for _ in 0..5 {
        assert!(!emulator.tick_timers());
        assert_eq!(emulator.sound_timer(), 0);
    }
}

#[test]
fn timers_count_down_independently() {
    // V0 := 2, V1 := 4, delay timer := V0, sound timer := V1.
    let mut emulator = loaded(&[0x60, 0x02, 0x61, 0x04, 0xF0, 0x15, 0xF1, 0x18]);
    run(&mut emulator, 4);
    assert_eq!((emulator.delay_timer(), emulator.sound_timer()), (2, 4));
    assert!(!emulator.tick_timers());
    assert_eq!((emulator.delay_timer(), emulator.sound_timer()), (1, 3));
    assert!(!emulator.tick_timers());
    assert_eq!((emulator.delay_timer(), emulator.sound_timer()), (0, 2));
    assert!(!emulator.tick_timers());
    assert_eq!((emulator.delay_timer(), emulator.sound_timer()), (0, 1));
    assert!(emulator.tick_timers());
    assert_eq!((emulator.delay_timer(), emulator.sound_timer()), (0, 0));
}

#[test]
fn timers_at_zero_stay_at_zero() {
    let mut emulator = Emulator::new();
    assert!(!emulator.tick_timers());
    assert_eq!((emulator.delay_timer(), emulator.sound_timer()), (0, 0));
}

#[test]
fn ticking_timers_does_not_step() {
    let mut emulator = loaded(&[0x60, 0x03]);
    emulator.tick_timers();
    assert_eq!(emulator.program_counter(), 0x200);
    assert_eq!(emulator.register(0), Some(0));
}

#[test]
fn decode_takes_operands_from_the_opcode() {
    assert_eq!(decode(0x0000), Some(Instruction::Nop));
    assert_eq!(decode(0x00E0), Some(Instruction::ClearScreen));
    assert_eq!(decode(0x00EE), Some(Instruction::Return));
    assert_eq!(decode(0x1ABC), Some(Instruction::Jump { addr: 0xABC }));
    assert_eq!(decode(0x2FFF), Some(Instruction::Call { addr: 0xFFF }));
    assert_eq!(decode(0x3A12), Some(Instruction::SkipEqImm { x: 0xA, nn: 0x12 }));
    assert_eq!(decode(0x4B34), Some(Instruction::SkipNeImm { x: 0xB, nn: 0x34 }));
    assert_eq!(decode(0x5120), Some(Instruction::SkipEqReg { x: 1, y: 2 }));
    assert_eq!(decode(0x6A05), Some(Instruction::LoadImm { x: 0xA, nn: 5 }));
    assert_eq!(decode(0x7A03), Some(Instruction::AddImm { x: 0xA, nn: 3 }));
    assert_eq!(decode(0x8120), Some(Instruction::Move { x: 1, y: 2 }));
    assert_eq!(decode(0x8121), Some(Instruction::Or { x: 1, y: 2 }));
    assert_eq!(decode(0x8122), Some(Instruction::And { x: 1, y: 2 }));
    assert_eq!(decode(0x8123), Some(Instruction::Xor { x: 1, y: 2 }));
    assert_eq!(decode(0x8124), Some(Instruction::Add { x: 1, y: 2 }));
    assert_eq!(decode(0x8125), Some(Instruction::Sub { x: 1, y: 2 }));
    assert_eq!(decode(0x8126), Some(Instruction::ShiftRight { x: 1 }));
    assert_eq!(decode(0x8127), Some(Instruction::SubFrom { x: 1, y: 2 }));
    assert_eq!(decode(0x812E), Some(Instruction::ShiftLeft { x: 1 }));
    assert_eq!(decode(0x9120), Some(Instruction::SkipNeReg { x: 1, y: 2 }));
    assert_eq!(decode(0xA200), Some(Instruction::LoadIndex { addr: 0x200 }));
    assert_eq!(decode(0xB123), Some(Instruction::JumpOffset { addr: 0x123 }));
    assert_eq!(decode(0xC5F0), Some(Instruction::Random { x: 5, nn: 0xF0 }));
    assert_eq!(decode(0xD125), Some(Instruction::Draw { x: 1, y: 2, rows: 5 }));
    assert_eq!(decode(0xE39E), Some(Instruction::SkipKeyDown { x: 3 }));
    assert_eq!(decode(0xE3A1), Some(Instruction::SkipKeyUp { x: 3 }));
    assert_eq!(decode(0xF407), Some(Instruction::ReadDelay { x: 4 }));
    assert_eq!(decode(0xF40A), Some(Instruction::WaitKey { x: 4 }));
    assert_eq!(decode(0xF415), Some(Instruction::SetDelay { x: 4 }));
    assert_eq!(decode(0xF418), Some(Instruction::SetSound { x: 4 }));
    assert_eq!(decode(0xF41E), Some(Instruction::AddIndex { x: 4 }));
    assert_eq!(decode(0xF429), Some(Instruction::FontAddr { x: 4 }));
    assert_eq!(decode(0xF433), Some(Instruction::StoreBcd { x: 4 }));
    assert_eq!(decode(0xF455), Some(Instruction::StoreRegs { x: 4 }));
    assert_eq!(decode(0xF465), Some(Instruction::LoadRegs { x: 4 }));
}

#[test]
fn decode_rejects_undefined_opcodes() {
    for op in [
        0x0001u16, 0x00E1, 0x00EF, 0x0123, 0x5121, 0x512F, 0x8128, 0x812D, 0x812F, 0x9121, 0xE000,
        0xE39F, 0xE3A0, 0xE200, 0xF000, 0xF408, 0xF456, 0xF4FF, 0xFFFF,
    ] {
        assert_eq!(decode(op), None, "opcode {:#06x}", op);
    }
}

#[test]
fn decode_defines_each_opcode_family_in_full() {
    let mut defined = 0usize;
    for op in 0..=0xFFFFu16 {
        if decode(op).is_some() {
            defined += 1;
        }
    }
    // 3 special opcodes; 10 families of 4096; 5XY0 and 9XY0; nine 8XY_ forms;
    // two EX__ and nine FX__ forms.
    assert_eq!(defined, 3 + 10 * 4096 + 2 * 256 + 9 * 256 + 2 * 16 + 9 * 16);
}
