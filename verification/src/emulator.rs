//! The machine itself: its state in fixed-size arrays, its lifecycle, and the
//! operations through which a host drives it.

use vstd::prelude::*;
use crate::font::FONTSET;
use crate::font::FONTSET_SIZE;
use crate::state::MachineState;
use crate::state::NUM_KEYS;
use crate::state::NUM_V_REGS;
use crate::state::RAM_SIZE;
use crate::state::SCREEN_SIZE;
use crate::state::STACK_SIZE;
use crate::state::START_ADDR;

verus! {

/// A `keypress` call that named no key of the keypad.
#[derive(Clone, Copy, Debug, PartialEq, Eq, Structural)]
pub struct InvalidKey {
    /// The index that was passed.
    pub index: usize,
}

/// The machine. Its state is read through the view, a [`MachineState`].
pub struct Emulator {
    pub(crate) program_counter: u16,
    pub(crate) ram: [u8; RAM_SIZE],
    pub(crate) screen: [bool; SCREEN_SIZE],
    pub(crate) v_registers: [u8; NUM_V_REGS],
    pub(crate) i_register: u16,
    pub(crate) stack: [u16; STACK_SIZE],
    pub(crate) stack_pointer: u16,
    pub(crate) keys: [bool; NUM_KEYS],
    pub(crate) delay_timer: u8,
    pub(crate) sound_timer: u8,
}

impl View for Emulator {
    type V = MachineState;

    open(crate) spec fn view(&self) -> MachineState {
        MachineState {
            program_counter: self.program_counter,
            memory: self.ram@,
            display: self.screen@,
            registers: self.v_registers@,
            index_register: self.i_register,
            call_stack: self.stack@.subrange(0, self.stack_pointer as int),
            keys: self.keys@,
            delay_timer: self.delay_timer,
            sound_timer: self.sound_timer,
        }
    }
}

impl Emulator {
    /// The stack pointer never passes the end of the stack.
    #[verifier::type_invariant]
    pub open(crate) spec fn inv(&self) -> bool {
        self.stack_pointer <= STACK_SIZE
    }

    /// A machine in its power-on state.
    pub fn new() -> (emulator: Emulator)
        ensures
            emulator@ == MachineState::initial(),
    {
        let mut emulator = Emulator {
            program_counter: START_ADDR,
            ram: [0; RAM_SIZE],
            screen: [false; SCREEN_SIZE],
            v_registers: [0; NUM_V_REGS],
            i_register: 0,
            stack_pointer: 0,
            stack: [0; STACK_SIZE],
            keys: [false; NUM_KEYS],
            delay_timer: 0,
            sound_timer: 0,
        };
        emulator.install_font();
        assert(emulator@.memory =~= MachineState::initial().memory);
        assert(emulator@.display =~= MachineState::initial().display);
        assert(emulator@.registers =~= MachineState::initial().registers);
        assert(emulator@.call_stack =~= MachineState::initial().call_stack);
        assert(emulator@.keys =~= MachineState::initial().keys);
        emulator
    }

    /// Copies the font to the bottom of memory.
    fn install_font(&mut self)
        ensures
            final(self)@.memory == Seq::new(
                RAM_SIZE as nat,
                |a: int| if a < FONTSET_SIZE { FONTSET@[a] } else { old(self)@.memory[a] },
            ),
            final(self)@ == (MachineState { memory: final(self)@.memory, ..old(self)@ }),
    {
        proof {
            use_type_invariant(&*self);
        }
        let mut i: usize = 0;
        while i < FONTSET_SIZE
            invariant
                self.inv(),
                i <= FONTSET_SIZE,
                forall|a: int| 0 <= a < i ==> self.ram@[a] == FONTSET@[a],
                forall|a: int| i <= a < RAM_SIZE ==> self.ram@[a] == old(self).ram@[a],
                self@ == (MachineState { memory: self@.memory, ..old(self)@ }),
            decreases FONTSET_SIZE - i,
        {
            self.ram[i] = FONTSET[i];
            i += 1;
        }
        assert(self@.memory =~= Seq::new(
            RAM_SIZE as nat,
            |a: int| if a < FONTSET_SIZE { FONTSET@[a] } else { old(self)@.memory[a] },
        ));
    }

    /// Puts the machine back into its power-on state.
    pub fn reset(&mut self)
        ensures
            final(self)@ == MachineState::initial(),
    {
        proof {
            use_type_invariant(&*self);
        }
        self.stack_pointer = 0;
        self.program_counter = START_ADDR;
        self.ram = [0; RAM_SIZE];
        self.screen = [false; SCREEN_SIZE];
        self.v_registers = [0; NUM_V_REGS];
        self.i_register = 0;
        self.stack = [0; STACK_SIZE];
        self.keys = [false; NUM_KEYS];
        self.delay_timer = 0;
        self.sound_timer = 0;
        self.install_font();
        assert(self@.memory =~= MachineState::initial().memory);
        assert(self@.display =~= MachineState::initial().display);
        assert(self@.registers =~= MachineState::initial().registers);
        assert(self@.call_stack =~= MachineState::initial().call_stack);
        assert(self@.keys =~= MachineState::initial().keys);
    }

    /// Copies `data` into memory from the start address on. The program must
    /// fit between the start address and the end of memory.
    pub fn load(&mut self, data: &[u8])
        requires
            START_ADDR + data@.len() <= RAM_SIZE,
        ensures
            final(self)@ == old(self)@.loaded(data@),
    {
        proof {
            use_type_invariant(&*self);
        }
        let start: usize = START_ADDR as usize;
        let mut i: usize = 0;
        while i < data.len()
            invariant
                self.inv(),
                start == START_ADDR,
                i <= data@.len(),
                start + data@.len() <= RAM_SIZE,
                forall|a: int| start <= a < start + i ==> self.ram@[a] == data@[a - start],
                forall|a: int|
                    0 <= a < RAM_SIZE && !(start <= a < start + i) ==> self.ram@[a] == old(
                        self,
                    ).ram@[a],
                self@ == (MachineState { memory: self@.memory, ..old(self)@ }),
            decreases data@.len() - i,
        {
            self.ram[start + i] = data[i];
            i += 1;
        }
        assert(self@.memory =~= old(self)@.loaded(data@).memory);
    }

    /// The display, row by row: the cell in column `x` of row `y` is at
    /// `x + 64 * y`.
    pub fn get_display(&self) -> (display: &[bool])
        ensures
            display@ == self@.display,
    {
        &self.screen
    }

    /// Records that key `idx` is down (`pressed`) or up. An index that names
    /// no key is rejected and changes nothing.
    pub fn keypress(&mut self, idx: usize, pressed: bool) -> (result: Result<(), InvalidKey>)
        ensures
            idx < NUM_KEYS ==> result is Ok && final(self)@ == old(self)@.with_key(
                idx as int,
                pressed,
            ),
            idx >= NUM_KEYS ==> result == Err::<(), InvalidKey>(InvalidKey { index: idx })
                && final(self)@ == old(self)@,
    {
        proof {
            use_type_invariant(&*self);
        }
        if idx < NUM_KEYS {
            self.keys[idx] = pressed;
            Ok(())
        } else {
            Err(InvalidKey { index: idx })
        }
    }

    /// Counts both timers down by one where they are not yet zero. Returns
    /// whether the tone is to sound for this tick: it does on the tick that
    /// takes the sound timer from 1 to 0.
    pub fn tick_timers(&mut self) -> (tone: bool)
        ensures
            tone == old(self)@.tone_due(),
            final(self)@ == old(self)@.timers_ticked(),
    {
        proof {
            use_type_invariant(&*self);
        }
        let mut tone = false;
        if self.delay_timer > 0 {
            self.delay_timer -= 1;
        }
        if self.sound_timer > 0 {
            if self.sound_timer == 1 {
                tone = true;
            }
            self.sound_timer -= 1;
        }
        tone
    }

    /// The address of the next opcode.
    pub fn program_counter(&self) -> (value: u16)
        ensures
            value == self@.program_counter,
    {
        self.program_counter
    }

    /// The index register.
    pub fn index_register(&self) -> (value: u16)
        ensures
            value == self@.index_register,
    {
        self.i_register
    }

    /// The delay timer.
    pub fn delay_timer(&self) -> (value: u8)
        ensures
            value == self@.delay_timer,
    {
        self.delay_timer
    }

    /// The sound timer.
    pub fn sound_timer(&self) -> (value: u8)
        ensures
            value == self@.sound_timer,
    {
        self.sound_timer
    }

    /// The number of return addresses that are pending.
    pub fn stack_depth(&self) -> (depth: usize)
        ensures
            depth == self@.call_stack.len(),
    {
        proof {
            use_type_invariant(self);
        }
        self.stack_pointer as usize
    }

    /// Register `x`, or `None` where there is no such register.
    pub fn register(&self, x: usize) -> (value: Option<u8>)
        ensures
            value == if x < NUM_V_REGS {
                Some(self@.registers[x as int])
            } else {
                None
            },
    {
        if x < NUM_V_REGS {
            Some(self.v_registers[x])
        } else {
            None
        }
    }

    /// The byte at `addr`, or `None` where `addr` lies outside memory.
    pub fn memory(&self, addr: usize) -> (value: Option<u8>)
        ensures
            value == if addr < RAM_SIZE {
                Some(self@.memory[addr as int])
            } else {
                None
            },
    {
        if addr < RAM_SIZE {
            Some(self.ram[addr])
        } else {
            None
        }
    }

    /// Whether key `idx` is down, or `None` where there is no such key.
    pub fn key(&self, idx: usize) -> (down: Option<bool>)
        ensures
            down == if idx < NUM_KEYS {
                Some(self@.keys[idx as int])
            } else {
                None
            },
    {
        if idx < NUM_KEYS {
            Some(self.keys[idx])
        } else {
            None
        }
    }
}

} // verus!
