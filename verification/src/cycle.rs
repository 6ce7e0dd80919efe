//! The fetch-decode-execute cycle: which fault would stop it, and the
//! dispatch from a decoded instruction to its handler.

use vstd::prelude::*;
use crate::emulator::Emulator;
use crate::instruction::decode;
use crate::instruction::Instruction;
use crate::random::random_byte;
use crate::semantics::Fault;
use crate::state::RAM_SIZE;
use crate::state::STACK_SIZE;

verus! {

/// An opcode has the top digit `C` exactly if its top four bits are `1100`.
proof fn lemma_top_digit(op: u16)
    by (bit_vector)
    ensures
        (op & 0xF000 == 0xC000) == (op / 0x1000 == 0xC),
{
}

impl Emulator {
    /// The fault that would stop `op` in the present state, if any.
    pub fn opcode_fault(&self, op: u16) -> (fault: Option<Fault>)
        ensures
            fault == self@.opcode_fault(op),
    {
        proof {
            use_type_invariant(self);
        }
        let i: usize = self.i_register as usize;
        match decode(op) {
            None => Some(Fault::UnimplementedOpcode { opcode: op }),
            Some(Instruction::Return) => if self.stack_pointer == 0 {
                Some(Fault::StackUnderflow)
            } else {
                None
            },
            Some(Instruction::Call { .. }) => if self.stack_pointer as usize >= STACK_SIZE {
                Some(Fault::StackOverflow)
            } else {
                None
            },
            Some(Instruction::Draw { rows, .. }) => if rows > 0 && i + rows as usize > RAM_SIZE {
                Some(Fault::OutOfBounds)
            } else {
                None
            },
            Some(Instruction::SkipKeyDown { x }) => self.key_fault(x),
            Some(Instruction::SkipKeyUp { x }) => self.key_fault(x),
            Some(Instruction::StoreBcd { .. }) => if i + 3 > RAM_SIZE {
                Some(Fault::OutOfBounds)
            } else {
                None
            },
            Some(Instruction::StoreRegs { x }) => if i + x as usize >= RAM_SIZE {
                Some(Fault::OutOfBounds)
            } else {
                None
            },
            Some(Instruction::LoadRegs { x }) => if i + x as usize >= RAM_SIZE {
                Some(Fault::OutOfBounds)
            } else {
                None
            },
            Some(_) => None,
        }
    }

    /// The fault of a key instruction on register `x`: the register must
    /// name a key.
    fn key_fault(&self, x: u8) -> (fault: Option<Fault>)
        requires
            x < 16,
        ensures
            fault == if self@.registers[x as int] >= 16 {
                Some(Fault::InvalidKey)
            } else {
                None::<Fault>
            },
    {
        if self.v_registers[x as usize] >= 16 {
            Some(Fault::InvalidKey)
        } else {
            None
        }
    }

    /// The fault that would stop the next cycle, if any. A host calls this
    /// before `tick` to learn whether the cycle can run.
    pub fn pending_fault(&self) -> (fault: Option<Fault>)
        ensures
            fault == self@.fault(),
    {
        if self.program_counter as usize + 1 >= RAM_SIZE {
            Some(Fault::OutOfBounds)
        } else {
            let op: u16 = self.peek();
            self.opcode_fault(op)
        }
    }

    /// Executes the opcode `op`, as if it had just been fetched: the program
    /// counter stands behind an opcode, and no fault stops `op`. `random` is
    /// the byte that the random instruction uses.
    pub fn execute(&mut self, op: u16, random: u8)
        requires
            old(self)@.behind_opcode(),
            old(self)@.opcode_fault(op) is None,
        ensures
            final(self)@ == old(self)@.executed(op, random),
            final(self)@.wf(),
    {
        match decode(op) {
            Some(Instruction::Nop) => {},
            Some(Instruction::ClearScreen) => self.op_00e0(),
            Some(Instruction::Return) => self.op_00ee(),
            Some(Instruction::Jump { addr }) => self.op_1nnn(addr),
            Some(Instruction::Call { addr }) => self.op_2nnn(addr),
            Some(Instruction::SkipEqImm { x, nn }) => self.op_3xnn(x, nn),
            Some(Instruction::SkipNeImm { x, nn }) => self.op_4xnn(x, nn),
            Some(Instruction::SkipEqReg { x, y }) => self.op_5xy0(x, y),
            Some(Instruction::LoadImm { x, nn }) => self.op_6xnn(x, nn),
            Some(Instruction::AddImm { x, nn }) => self.op_7xnn(x, nn),
            Some(Instruction::Move { x, y }) => self.op_8xy0(x, y),
            Some(Instruction::Or { x, y }) => self.op_8xy1(x, y),
            Some(Instruction::And { x, y }) => self.op_8xy2(x, y),
            Some(Instruction::Xor { x, y }) => self.op_8xy3(x, y),
            Some(Instruction::Add { x, y }) => self.op_8xy4(x, y),
            Some(Instruction::Sub { x, y }) => self.op_8xy5(x, y),
            Some(Instruction::ShiftRight { x }) => self.op_8xy6(x),
            Some(Instruction::SubFrom { x, y }) => self.op_8xy7(x, y),
            Some(Instruction::ShiftLeft { x }) => self.op_8xye(x),
            Some(Instruction::SkipNeReg { x, y }) => self.op_9xy0(x, y),
            Some(Instruction::LoadIndex { addr }) => self.op_annn(addr),
            Some(Instruction::JumpOffset { addr }) => self.op_bnnn(addr),
            Some(Instruction::Random { x, nn }) => self.op_cxnn(x, nn, random),
            Some(Instruction::Draw { x, y, rows }) => self.op_dxyn(x, y, rows),
            Some(Instruction::SkipKeyDown { x }) => self.op_ex9e(x),
            Some(Instruction::SkipKeyUp { x }) => self.op_exa1(x),
            Some(Instruction::ReadDelay { x }) => self.op_fx07(x),
            Some(Instruction::WaitKey { x }) => self.op_fx0a(x),
            Some(Instruction::SetDelay { x }) => self.op_fx15(x),
            Some(Instruction::SetSound { x }) => self.op_fx18(x),
            Some(Instruction::AddIndex { x }) => self.op_fx1e(x),
            Some(Instruction::FontAddr { x }) => self.op_fx29(x),
            Some(Instruction::StoreBcd { x }) => self.op_fx33(x),
            Some(Instruction::StoreRegs { x }) => self.op_fx55(x),
            Some(Instruction::LoadRegs { x }) => self.op_fx65(x),
            None => {},
        }
        proof {
            use_type_invariant(&*self);
        }
    }

    /// Runs one cycle that no fault stops, with `random` as the byte that the
    /// random instruction uses.
    pub fn tick_with(&mut self, random: u8)
        requires
            old(self)@.fault() is None,
        ensures
            final(self)@ == old(self)@.step(random),
            final(self)@.wf(),
    {
        let operation: u16 = self.fetch();

        self.execute(operation, random);
    }

    /// Runs one cycle that no fault stops. The random instruction draws its
    /// byte from the thread-local generator; every other instruction is
    /// deterministic.
    pub fn tick(&mut self)
        requires
            old(self)@.fault() is None,
        ensures
            exists|random: u8| final(self)@ == old(self)@.step(random),
            !old(self)@.draws_random() ==> forall|random: u8|
                final(self)@ == #[trigger] old(self)@.step(random),
            final(self)@.wf(),
    {
        let operation: u16 = self.fetch();
        proof {
            lemma_top_digit(operation);
        }
        let random: u8 = if operation & 0xF000 == 0xC000 {
            random_byte()
        } else {
            0
        };

        self.execute(operation, random);
        assert(self@ == old(self)@.step(random));
    }

    /// Runs one cycle if no fault stops it, and reports the fault if one
    /// does; the state is then as it was.
    pub fn try_tick(&mut self) -> (result: Result<(), Fault>)
        ensures
            result == match old(self)@.fault() {
                Some(fault) => Err::<(), Fault>(fault),
                None => Ok::<(), Fault>(()),
            },
            exists|random: u8| final(self)@ == old(self)@.step(random),
            !old(self)@.draws_random() ==> forall|random: u8|
                final(self)@ == #[trigger] old(self)@.step(random),
            final(self)@.wf(),
    {
        proof {
            use_type_invariant(&*self);
        }
        match self.pending_fault() {
            Some(fault) => {
                assert(self@ == old(self)@.step(0));
                Err(fault)
            },
            None => {
                self.tick();
                Ok(())
            },
        }
    }
}

} // verus!
