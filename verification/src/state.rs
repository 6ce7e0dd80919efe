//! The mathematical model of the machine: every piece of architectural state
//! as a plain value, and the states that the lifecycle operations produce.

use vstd::prelude::*;
use crate::font::FONTSET;
use crate::font::FONTSET_SIZE;

verus! {

/// Width of the display, in cells.
pub const SCREEN_WIDTH: usize = 64;

/// Height of the display, in cells.
pub const SCREEN_HEIGHT: usize = 32;

/// Number of cells of the display.
pub const SCREEN_SIZE: usize = 2048;

/// Number of bytes of memory.
pub const RAM_SIZE: usize = 4096;

/// Number of general-purpose registers.
pub const NUM_V_REGS: usize = 16;

/// Number of return addresses the call stack can hold.
pub const STACK_SIZE: usize = 16;

/// Number of keys of the keypad.
pub const NUM_KEYS: usize = 16;

/// Address at which programs are loaded and at which execution starts.
pub const START_ADDR: u16 = 0x200;

/// Index of the register that instructions overwrite with their flag output.
pub const FLAG_REGISTER: u8 = 0xF;

/// The whole architectural state of the machine.
///
/// The display is a row-major grid: the cell in column `x` of row `y` is
/// `display[x + 64 * y]`. The call stack holds the pending return addresses
/// only, the most recent one last.
pub struct MachineState {
    pub program_counter: u16,
    pub memory: Seq<u8>,
    pub display: Seq<bool>,
    pub registers: Seq<u8>,
    pub index_register: u16,
    pub call_stack: Seq<u16>,
    pub keys: Seq<bool>,
    pub delay_timer: u8,
    pub sound_timer: u8,
}

impl MachineState {
    /// Every component has its fixed size, and the call stack is within its
    /// capacity.
    pub open spec fn wf(self) -> bool {
        &&& self.memory.len() == RAM_SIZE
        &&& self.display.len() == SCREEN_SIZE
        &&& self.registers.len() == NUM_V_REGS
        &&& self.call_stack.len() <= STACK_SIZE
        &&& self.keys.len() == NUM_KEYS
    }

    /// The power-on state: the font at the bottom of memory, the program
    /// counter at the start address, everything else zero.
    pub open spec fn initial() -> MachineState {
        MachineState {
            program_counter: START_ADDR,
            memory: Seq::new(
                RAM_SIZE as nat,
                |a: int| if a < FONTSET_SIZE { FONTSET@[a] } else { 0u8 },
            ),
            display: Seq::new(SCREEN_SIZE as nat, |i: int| false),
            registers: Seq::new(NUM_V_REGS as nat, |i: int| 0u8),
            index_register: 0,
            call_stack: Seq::empty(),
            keys: Seq::new(NUM_KEYS as nat, |i: int| false),
            delay_timer: 0,
            sound_timer: 0,
        }
    }

    /// The state after copying `data` into memory from the start address on.
    pub open spec fn loaded(self, data: Seq<u8>) -> MachineState {
        MachineState {
            memory: Seq::new(
                self.memory.len(),
                |a: int|
                    if START_ADDR <= a < START_ADDR + data.len() {
                        data[a - START_ADDR]
                    } else {
                        self.memory[a]
                    },
            ),
            ..self
        }
    }

    /// The state after key `idx` was reported as down (`pressed`) or up.
    pub open spec fn with_key(self, idx: int, pressed: bool) -> MachineState {
        MachineState { keys: self.keys.update(idx, pressed), ..self }
    }

    /// Whether the next timer tick is the one on which the tone sounds.
    pub open spec fn tone_due(self) -> bool {
        self.sound_timer == 1
    }

    /// The state after one timer tick: each timer that is not yet zero goes
    /// down by one.
    pub open spec fn timers_ticked(self) -> MachineState {
        MachineState {
            delay_timer: if self.delay_timer > 0 {
                (self.delay_timer - 1) as u8
            } else {
                0
            },
            sound_timer: if self.sound_timer > 0 {
                (self.sound_timer - 1) as u8
            } else {
                0
            },
            ..self
        }
    }
}

} // verus!
