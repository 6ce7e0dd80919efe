//! The instruction set, and the dispatch from a 16-bit opcode to the
//! instruction it encodes.

use vstd::prelude::*;

verus! {

/// One instruction, with its operands taken out of the opcode.
///
/// `x` and `y` select registers, `nn` is an 8-bit constant, `addr` a 12-bit
/// address and `rows` the height of a sprite.
#[derive(Clone, Copy, Debug, PartialEq, Eq, Structural)]
pub enum Instruction {
    /// `0000`: do nothing.
    Nop,
    /// `00E0`: switch every display cell off.
    ClearScreen,
    /// `00EE`: return to the address on top of the call stack.
    Return,
    /// `1NNN`: continue at `addr`.
    Jump { addr: u16 },
    /// `2NNN`: remember the program counter and continue at `addr`.
    Call { addr: u16 },
    /// `3XNN`: skip the next instruction if `VX == nn`.
    SkipEqImm { x: u8, nn: u8 },
    /// `4XNN`: skip the next instruction if `VX != nn`.
    SkipNeImm { x: u8, nn: u8 },
    /// `5XY0`: skip the next instruction if `VX == VY`.
    SkipEqReg { x: u8, y: u8 },
    /// `6XNN`: `VX := nn`.
    LoadImm { x: u8, nn: u8 },
    /// `7XNN`: `VX := VX + nn`, wrapping, with no effect on the flag.
    AddImm { x: u8, nn: u8 },
    /// `8XY0`: `VX := VY`.
    Move { x: u8, y: u8 },
    /// `8XY1`: `VX := VX | VY`.
    Or { x: u8, y: u8 },
    /// `8XY2`: `VX := VX & VY`.
    And { x: u8, y: u8 },
    /// `8XY3`: `VX := VX ^ VY`.
    Xor { x: u8, y: u8 },
    /// `8XY4`: `VX := VX + VY`, wrapping; the flag is the carry.
    Add { x: u8, y: u8 },
    /// `8XY5`: `VX := VX - VY`, wrapping; the flag is 1 unless a borrow occurred.
    Sub { x: u8, y: u8 },
    /// `8XY6`: `VX := VX >> 1`; the flag is the bit shifted out.
    ShiftRight { x: u8 },
    /// `8XY7`: `VX := VY - VX`, wrapping; the flag is 1 unless a borrow occurred.
    SubFrom { x: u8, y: u8 },
    /// `8XYE`: `VX := VX << 1`; the flag is the bit shifted out.
    ShiftLeft { x: u8 },
    /// `9XY0`: skip the next instruction if `VX != VY`.
    SkipNeReg { x: u8, y: u8 },
    /// `ANNN`: `I := addr`.
    LoadIndex { addr: u16 },
    /// `BNNN`: continue at `V0 + addr`.
    JumpOffset { addr: u16 },
    /// `CXNN`: `VX := random byte & nn`.
    Random { x: u8, nn: u8 },
    /// `DXYN`: draw the sprite of `rows` rows that starts at `I`, at column
    /// `VX` and row `VY`.
    Draw { x: u8, y: u8, rows: u8 },
    /// `EX9E`: skip the next instruction if key `VX` is down.
    SkipKeyDown { x: u8 },
    /// `EXA1`: skip the next instruction if key `VX` is up.
    SkipKeyUp { x: u8 },
    /// `FX07`: `VX := delay timer`.
    ReadDelay { x: u8 },
    /// `FX0A`: wait until a key is down, then put its index in `VX`.
    WaitKey { x: u8 },
    /// `FX15`: `delay timer := VX`.
    SetDelay { x: u8 },
    /// `FX18`: `sound timer := VX`.
    SetSound { x: u8 },
    /// `FX1E`: `I := I + VX`, wrapping at 16 bits.
    AddIndex { x: u8 },
    /// `FX29`: `I :=` the address of the font glyph for the digit `VX`.
    FontAddr { x: u8 },
    /// `FX33`: store the three decimal digits of `VX` at `I`, `I + 1`, `I + 2`.
    StoreBcd { x: u8 },
    /// `FX55`: store `V0..=VX` in memory from `I` on.
    StoreRegs { x: u8 },
    /// `FX65`: load `V0..=VX` from memory from `I` on.
    LoadRegs { x: u8 },
}

/// The instruction that `op` encodes, or `None` where the instruction set
/// defines none for it.
pub open spec fn decoded(op: u16) -> Option<Instruction> {
    let d1 = op / 0x1000;
    let x = ((op / 0x100) % 0x10) as u8;
    let y = ((op / 0x10) % 0x10) as u8;
    let n = (op % 0x10) as u8;
    let nn = (op % 0x100) as u8;
    let addr = (op % 0x1000) as u16;
    if op == 0x0000 {
        Some(Instruction::Nop)
    } else if op == 0x00E0 {
        Some(Instruction::ClearScreen)
    } else if op == 0x00EE {
        Some(Instruction::Return)
    } else if d1 == 0x1 {
        Some(Instruction::Jump { addr })
    } else if d1 == 0x2 {
        Some(Instruction::Call { addr })
    } else if d1 == 0x3 {
        Some(Instruction::SkipEqImm { x, nn })
    } else if d1 == 0x4 {
        Some(Instruction::SkipNeImm { x, nn })
    } else if d1 == 0x5 && n == 0x0 {
        Some(Instruction::SkipEqReg { x, y })
    } else if d1 == 0x6 {
        Some(Instruction::LoadImm { x, nn })
    } else if d1 == 0x7 {
        Some(Instruction::AddImm { x, nn })
    } else if d1 == 0x8 && n == 0x0 {
        Some(Instruction::Move { x, y })
    } else if d1 == 0x8 && n == 0x1 {
        Some(Instruction::Or { x, y })
    } else if d1 == 0x8 && n == 0x2 {
        Some(Instruction::And { x, y })
    } else if d1 == 0x8 && n == 0x3 {
        Some(Instruction::Xor { x, y })
    } else if d1 == 0x8 && n == 0x4 {
        Some(Instruction::Add { x, y })
    } else if d1 == 0x8 && n == 0x5 {
        Some(Instruction::Sub { x, y })
    } else if d1 == 0x8 && n == 0x6 {
        Some(Instruction::ShiftRight { x })
    } else if d1 == 0x8 && n == 0x7 {
        Some(Instruction::SubFrom { x, y })
    } else if d1 == 0x8 && n == 0xE {
        Some(Instruction::ShiftLeft { x })
    } else if d1 == 0x9 && n == 0x0 {
        Some(Instruction::SkipNeReg { x, y })
    } else if d1 == 0xA {
        Some(Instruction::LoadIndex { addr })
    } else if d1 == 0xB {
        Some(Instruction::JumpOffset { addr })
    } else if d1 == 0xC {
        Some(Instruction::Random { x, nn })
    } else if d1 == 0xD {
        Some(Instruction::Draw { x, y, rows: n })
    } else if d1 == 0xE && nn == 0x9E {
        Some(Instruction::SkipKeyDown { x })
    } else if d1 == 0xE && nn == 0xA1 {
        Some(Instruction::SkipKeyUp { x })
    } else if d1 == 0xF && nn == 0x07 {
        Some(Instruction::ReadDelay { x })
    } else if d1 == 0xF && nn == 0x0A {
        Some(Instruction::WaitKey { x })
    } else if d1 == 0xF && nn == 0x15 {
        Some(Instruction::SetDelay { x })
    } else if d1 == 0xF && nn == 0x18 {
        Some(Instruction::SetSound { x })
    } else if d1 == 0xF && nn == 0x1E {
        Some(Instruction::AddIndex { x })
    } else if d1 == 0xF && nn == 0x29 {
        Some(Instruction::FontAddr { x })
    } else if d1 == 0xF && nn == 0x33 {
        Some(Instruction::StoreBcd { x })
    } else if d1 == 0xF && nn == 0x55 {
        Some(Instruction::StoreRegs { x })
    } else if d1 == 0xF && nn == 0x65 {
        Some(Instruction::LoadRegs { x })
    } else {
        None
    }
}

/// The digits of `op` as the shifts and masks compute them are its digits in
/// base sixteen, and its low byte and low twelve bits are its remainders.
proof fn lemma_digits(op: u16)
    by (bit_vector)
    ensures
        (op & 0xF000) >> 12 == op / 0x1000,
        (op & 0x0F00) >> 8 == (op / 0x100) % 0x10,
        (op & 0x00F0) >> 4 == (op / 0x10) % 0x10,
        op & 0x000F == op % 0x10,
        op & 0xFF == op % 0x100,
        op & 0xFFF == op % 0x1000,
{
}

/// Splits `op` into its four digits and dispatches on them.
pub fn decode(op: u16) -> (instruction: Option<Instruction>)
    ensures
        instruction == decoded(op),
{
    proof {
        lemma_digits(op);
    }
    let digit1: u16 = (op & 0xF000) >> 12;
    let digit2: u16 = (op & 0x0F00) >> 8;
    let digit3: u16 = (op & 0x00F0) >> 4;
    let digit4: u16 = op & 0x000F;
    let x: u8 = digit2 as u8;
    let y: u8 = digit3 as u8;
    let n: u8 = digit4 as u8;
    let nn: u8 = (op & 0xFF) as u8;
    let addr: u16 = op & 0xFFF;

    match (digit1, digit2, digit3, digit4) {
        (0, 0, 0, 0) => Some(Instruction::Nop),
        (0, 0, 0xE, 0) => Some(Instruction::ClearScreen),
        (0, 0, 0xE, 0xE) => Some(Instruction::Return),
        (1, _, _, _) => Some(Instruction::Jump { addr }),
        (2, _, _, _) => Some(Instruction::Call { addr }),
        (3, _, _, _) => Some(Instruction::SkipEqImm { x, nn }),
        (4, _, _, _) => Some(Instruction::SkipNeImm { x, nn }),
        (5, _, _, 0) => Some(Instruction::SkipEqReg { x, y }),
        (6, _, _, _) => Some(Instruction::LoadImm { x, nn }),
        (7, _, _, _) => Some(Instruction::AddImm { x, nn }),
        (8, _, _, 0) => Some(Instruction::Move { x, y }),
        (8, _, _, 1) => Some(Instruction::Or { x, y }),
        (8, _, _, 2) => Some(Instruction::And { x, y }),
        (8, _, _, 3) => Some(Instruction::Xor { x, y }),
        (8, _, _, 4) => Some(Instruction::Add { x, y }),
        (8, _, _, 5) => Some(Instruction::Sub { x, y }),
        (8, _, _, 6) => Some(Instruction::ShiftRight { x }),
        (8, _, _, 7) => Some(Instruction::SubFrom { x, y }),
        (8, _, _, 0xE) => Some(Instruction::ShiftLeft { x }),
        (9, _, _, 0) => Some(Instruction::SkipNeReg { x, y }),
        (0xA, _, _, _) => Some(Instruction::LoadIndex { addr }),
        (0xB, _, _, _) => Some(Instruction::JumpOffset { addr }),
        (0xC, _, _, _) => Some(Instruction::Random { x, nn }),
        (0xD, _, _, _) => Some(Instruction::Draw { x, y, rows: n }),
        (0xE, _, 9, 0xE) => Some(Instruction::SkipKeyDown { x }),
        (0xE, _, 0xA, 1) => Some(Instruction::SkipKeyUp { x }),
        (0xF, _, 0, 7) => Some(Instruction::ReadDelay { x }),
        (0xF, _, 0, 0xA) => Some(Instruction::WaitKey { x }),
        (0xF, _, 1, 5) => Some(Instruction::SetDelay { x }),
        (0xF, _, 1, 8) => Some(Instruction::SetSound { x }),
        (0xF, _, 1, 0xE) => Some(Instruction::AddIndex { x }),
        (0xF, _, 2, 9) => Some(Instruction::FontAddr { x }),
        (0xF, _, 3, 3) => Some(Instruction::StoreBcd { x }),
        (0xF, _, 5, 5) => Some(Instruction::StoreRegs { x }),
        (0xF, _, 6, 5) => Some(Instruction::LoadRegs { x }),
        (_, _, _, _) => None,
    }
}

} // verus!
