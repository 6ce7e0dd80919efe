//! What each instruction does to the machine state, which faults stop it, and
//! what one whole fetch-decode-execute cycle amounts to.

use vstd::prelude::*;
use crate::font::GLYPH_SIZE;
use crate::instruction::decoded;
use crate::instruction::Instruction;
use crate::state::MachineState;
use crate::state::FLAG_REGISTER;
use crate::state::NUM_KEYS;
use crate::state::RAM_SIZE;
use crate::state::SCREEN_HEIGHT;
use crate::state::SCREEN_SIZE;
use crate::state::SCREEN_WIDTH;
use crate::state::STACK_SIZE;

verus! {

/// A condition that stops the machine instead of executing an instruction.
#[derive(Clone, Copy, Debug, PartialEq, Eq, Structural)]
pub enum Fault {
    /// The fetched opcode encodes no instruction.
    UnimplementedOpcode { opcode: u16 },
    /// The program counter, or a range that starts at the index register,
    /// reaches outside memory.
    OutOfBounds,
    /// A call with sixteen return addresses already pending.
    StackOverflow,
    /// A return with no return address pending.
    StackUnderflow,
    /// A key instruction whose register names no key of the keypad.
    InvalidKey,
}

/// The weight of the bit that holds the pixel of `column` in a sprite row:
/// column 0 is the most significant bit.
pub open spec fn column_weight(column: int) -> int {
    if column == 0 {
        128
    } else if column == 1 {
        64
    } else if column == 2 {
        32
    } else if column == 3 {
        16
    } else if column == 4 {
        8
    } else if column == 5 {
        4
    } else if column == 6 {
        2
    } else {
        1
    }
}

/// Whether the sprite row `byte` has its pixel in `column` set.
pub open spec fn sprite_bit(byte: u8, column: int) -> bool {
    (byte as int / column_weight(column)) % 2 == 1
}

/// The column of the sprite at `vx` that falls on the display column of
/// `cell`.
pub open spec fn sprite_column(vx: u8, cell: int) -> int {
    (cell % (SCREEN_WIDTH as int) - vx) % (SCREEN_WIDTH as int)
}

/// The row of the sprite at `vy` that falls on the display row of `cell`.
pub open spec fn sprite_row(vy: u8, cell: int) -> int {
    (cell / (SCREEN_WIDTH as int) - vy) % (SCREEN_HEIGHT as int)
}

/// The display cell on which the pixel in `column` of `row` of a sprite at
/// (`vx`, `vy`) falls, both coordinates wrapping.
pub open spec fn pixel_cell(vx: u8, vy: u8, row: int, column: int) -> int {
    (vx + column) % (SCREEN_WIDTH as int) + SCREEN_WIDTH * ((vy + row) % (SCREEN_HEIGHT as int))
}

impl MachineState {
    /// The state with register `x` set to `value`.
    pub open spec fn set_register(self, x: u8, value: u8) -> MachineState {
        MachineState { registers: self.registers.update(x as int, value), ..self }
    }

    /// The state with the flag register set to 1 if `flag` holds, else to 0.
    pub open spec fn set_flag(self, flag: bool) -> MachineState {
        self.set_register(FLAG_REGISTER, if flag { 1u8 } else { 0u8 })
    }

    /// The state with the program counter moved past one more instruction if
    /// `condition` holds.
    pub open spec fn skip_if(self, condition: bool) -> MachineState {
        if condition {
            MachineState { program_counter: (self.program_counter + 2) as u16, ..self }
        } else {
            self
        }
    }

    /// Whether the sprite of `rows` rows at the index register, drawn with
    /// its top-left corner at column `vx` and row `vy`, has a set pixel on
    /// display cell `cell`. Columns wrap at the display's width and rows at
    /// its height.
    pub open spec fn sprite_covers(self, vx: u8, vy: u8, rows: u8, cell: int) -> bool {
        let column = sprite_column(vx, cell);
        let row = sprite_row(vy, cell);
        &&& 0 <= cell < SCREEN_SIZE
        &&& column < 8
        &&& row < rows
        &&& sprite_bit(self.memory[self.index_register + row], column)
    }

    /// Whether drawing that sprite switches off a cell that is on.
    pub open spec fn sprite_collides(self, vx: u8, vy: u8, rows: u8) -> bool {
        exists|cell: int| self.sprite_covers(vx, vy, rows, cell) && self.display[cell]
    }

    /// The state after drawing that sprite: every covered cell is flipped,
    /// and the flag tells whether any cell went from on to off.
    pub open spec fn drawn(self, vx: u8, vy: u8, rows: u8) -> MachineState {
        MachineState {
            display: Seq::new(
                self.display.len(),
                |cell: int| self.display[cell] != self.sprite_covers(vx, vy, rows, cell),
            ),
            ..self
        }.set_flag(self.sprite_collides(vx, vy, rows))
    }

    /// Whether any key is down.
    pub open spec fn any_key_down(self) -> bool {
        exists|k: int| 0 <= k < NUM_KEYS && self.keys[k]
    }

    /// Whether `k` is the lowest key that is down.
    pub open spec fn is_lowest_key_down(self, k: int) -> bool {
        &&& 0 <= k < NUM_KEYS
        &&& self.keys[k]
        &&& forall|j: int| 0 <= j < k ==> !self.keys[j]
    }

    /// The lowest key that is down, where there is one.
    pub open spec fn lowest_key_down(self) -> u8 {
        (choose|k: int| self.is_lowest_key_down(k)) as u8
    }

    /// The state after waiting for a key: with a key down, its index is in
    /// register `x`; with none down, the program counter is back on the
    /// instruction, so that the next cycle waits again.
    pub open spec fn key_awaited(self, x: u8) -> MachineState {
        if self.any_key_down() {
            self.set_register(x, self.lowest_key_down())
        } else {
            MachineState { program_counter: (self.program_counter - 2) as u16, ..self }
        }
    }

    /// Whether the program counter stands behind an opcode that was fetched
    /// from memory.
    pub open spec fn behind_opcode(self) -> bool {
        2 <= self.program_counter <= RAM_SIZE
    }

    /// The state after storing the hundreds, tens and ones of `value` at the
    /// index register and the two addresses after it.
    pub open spec fn bcd_stored(self, value: u8) -> MachineState {
        let i = self.index_register as int;
        MachineState {
            memory: self.memory.update(i, (value / 100) as u8).update(
                i + 1,
                ((value / 10) % 10) as u8,
            ).update(i + 2, (value % 10) as u8),
            ..self
        }
    }

    /// The state after storing the registers `V0..=VX` in memory from the
    /// index register on.
    pub open spec fn registers_stored(self, x: u8) -> MachineState {
        let i = self.index_register as int;
        MachineState {
            memory: Seq::new(
                self.memory.len(),
                |a: int|
                    if i <= a <= i + x {
                        self.registers[a - i]
                    } else {
                        self.memory[a]
                    },
            ),
            ..self
        }
    }

    /// The state after loading the registers `V0..=VX` from memory from the
    /// index register on.
    pub open spec fn registers_loaded(self, x: u8) -> MachineState {
        let i = self.index_register as int;
        MachineState {
            registers: Seq::new(
                self.registers.len(),
                |k: int|
                    if k <= x {
                        self.memory[i + k]
                    } else {
                        self.registers[k]
                    },
            ),
            ..self
        }
    }

    /// The state after executing `instruction`, the program counter already
    /// standing behind it. `random` is the byte that the random instruction
    /// uses; no other instruction looks at it.
    pub open spec fn apply(self, instruction: Instruction, random: u8) -> MachineState {
        let v = self.registers;
        match instruction {
            Instruction::Nop => self,
            Instruction::ClearScreen => MachineState {
                display: Seq::new(self.display.len(), |cell: int| false),
                ..self
            },
            Instruction::Return => MachineState {
                program_counter: self.call_stack.last(),
                call_stack: self.call_stack.drop_last(),
                ..self
            },
            Instruction::Jump { addr } => MachineState { program_counter: addr, ..self },
            Instruction::Call { addr } => MachineState {
                program_counter: addr,
                call_stack: self.call_stack.push(self.program_counter),
                ..self
            },
            Instruction::SkipEqImm { x, nn } => self.skip_if(v[x as int] == nn),
            Instruction::SkipNeImm { x, nn } => self.skip_if(v[x as int] != nn),
            Instruction::SkipEqReg { x, y } => self.skip_if(v[x as int] == v[y as int]),
            Instruction::LoadImm { x, nn } => self.set_register(x, nn),
            Instruction::AddImm { x, nn } => self.set_register(
                x,
                ((v[x as int] + nn) % 256) as u8,
            ),
            Instruction::Move { x, y } => self.set_register(x, v[y as int]),
            Instruction::Or { x, y } => self.set_register(x, v[x as int] | v[y as int]),
            Instruction::And { x, y } => self.set_register(x, v[x as int] & v[y as int]),
            Instruction::Xor { x, y } => self.set_register(x, v[x as int] ^ v[y as int]),
            Instruction::Add { x, y } => self.set_register(
                x,
                ((v[x as int] + v[y as int]) % 256) as u8,
            ).set_flag(v[x as int] + v[y as int] >= 256),
            Instruction::Sub { x, y } => self.set_register(
                x,
                ((v[x as int] - v[y as int]) % 256) as u8,
            ).set_flag(v[x as int] >= v[y as int]),
            Instruction::ShiftRight { x } => self.set_register(x, (v[x as int] / 2) as u8).set_flag(
                v[x as int] % 2 == 1,
            ),
            Instruction::SubFrom { x, y } => self.set_register(
                x,
                ((v[y as int] - v[x as int]) % 256) as u8,
            ).set_flag(v[y as int] >= v[x as int]),
            Instruction::ShiftLeft { x } => self.set_register(
                x,
                ((v[x as int] * 2) % 256) as u8,
            ).set_flag(v[x as int] >= 128),
            Instruction::SkipNeReg { x, y } => self.skip_if(v[x as int] != v[y as int]),
            Instruction::LoadIndex { addr } => MachineState { index_register: addr, ..self },
            Instruction::JumpOffset { addr } => MachineState {
                program_counter: (v[0] + addr) as u16,
                ..self
            },
            Instruction::Random { x, nn } => self.set_register(x, random & nn),
            Instruction::Draw { x, y, rows } => self.drawn(v[x as int], v[y as int], rows),
            Instruction::SkipKeyDown { x } => self.skip_if(self.keys[v[x as int] as int]),
            Instruction::SkipKeyUp { x } => self.skip_if(!self.keys[v[x as int] as int]),
            Instruction::ReadDelay { x } => self.set_register(x, self.delay_timer),
            Instruction::WaitKey { x } => self.key_awaited(x),
            Instruction::SetDelay { x } => MachineState { delay_timer: v[x as int], ..self },
            Instruction::SetSound { x } => MachineState { sound_timer: v[x as int], ..self },
            Instruction::AddIndex { x } => MachineState {
                index_register: ((self.index_register + v[x as int]) % 0x10000) as u16,
                ..self
            },
            Instruction::FontAddr { x } => MachineState {
                index_register: (v[x as int] * GLYPH_SIZE) as u16,
                ..self
            },
            Instruction::StoreBcd { x } => self.bcd_stored(v[x as int]),
            Instruction::StoreRegs { x } => self.registers_stored(x),
            Instruction::LoadRegs { x } => self.registers_loaded(x),
        }
    }

    /// The fault that stops `instruction` in this state, if any. It does not
    /// depend on the program counter.
    pub open spec fn instruction_fault(self, instruction: Instruction) -> Option<Fault> {
        let i = self.index_register as int;
        match instruction {
            Instruction::Return => if self.call_stack.len() == 0 {
                Some(Fault::StackUnderflow)
            } else {
                None
            },
            Instruction::Call { .. } => if self.call_stack.len() >= STACK_SIZE {
                Some(Fault::StackOverflow)
            } else {
                None
            },
            Instruction::Draw { rows, .. } => if rows > 0 && i + rows > RAM_SIZE {
                Some(Fault::OutOfBounds)
            } else {
                None
            },
            Instruction::SkipKeyDown { x } => if self.registers[x as int] >= NUM_KEYS {
                Some(Fault::InvalidKey)
            } else {
                None
            },
            Instruction::SkipKeyUp { x } => if self.registers[x as int] >= NUM_KEYS {
                Some(Fault::InvalidKey)
            } else {
                None
            },
            Instruction::StoreBcd { .. } => if i + 3 > RAM_SIZE {
                Some(Fault::OutOfBounds)
            } else {
                None
            },
            Instruction::StoreRegs { x } => if i + x >= RAM_SIZE {
                Some(Fault::OutOfBounds)
            } else {
                None
            },
            Instruction::LoadRegs { x } => if i + x >= RAM_SIZE {
                Some(Fault::OutOfBounds)
            } else {
                None
            },
            _ => None,
        }
    }

    /// The fault that stops the opcode `op` in this state, if any: `op`
    /// encodes no instruction, or the instruction it encodes faults.
    pub open spec fn opcode_fault(self, op: u16) -> Option<Fault> {
        match decoded(op) {
            None => Some(Fault::UnimplementedOpcode { opcode: op }),
            Some(instruction) => self.instruction_fault(instruction),
        }
    }

    /// The state after executing the opcode `op`, the program counter
    /// already standing behind it.
    pub open spec fn executed(self, op: u16, random: u8) -> MachineState {
        match decoded(op) {
            None => self,
            Some(instruction) => self.apply(instruction, random),
        }
    }

    /// Whether both bytes of the next opcode lie in memory.
    pub open spec fn can_fetch(self) -> bool {
        self.program_counter + 1 < RAM_SIZE
    }

    /// The opcode at the program counter: two bytes, the high one first.
    pub open spec fn opcode(self) -> u16 {
        (self.memory[self.program_counter as int] * 0x100 + self.memory[self.program_counter
            + 1]) as u16
    }

    /// The state with the program counter moved past the opcode it stands at.
    pub open spec fn fetched(self) -> MachineState {
        MachineState { program_counter: (self.program_counter + 2) as u16, ..self }
    }

    /// Whether the next cycle executes the random instruction.
    pub open spec fn draws_random(self) -> bool {
        self.can_fetch() && decoded(self.opcode()) matches Some(Instruction::Random { .. })
    }

    /// The fault that stops the next cycle, if any.
    pub open spec fn fault(self) -> Option<Fault> {
        if !self.can_fetch() {
            Some(Fault::OutOfBounds)
        } else {
            self.opcode_fault(self.opcode())
        }
    }

    /// The state after one fetch-decode-execute cycle. A cycle that faults
    /// leaves the state as it is.
    pub open spec fn step(self, random: u8) -> MachineState {
        if self.fault() is None {
            self.fetched().executed(self.opcode(), random)
        } else {
            self
        }
    }
}

} // verus!
