//! An interpreter core for the CHIP-8 virtual machine.
//!
//! The crate owns the machine state and the meaning of every instruction.
//! Rendering, sound, input polling, pacing and program loading belong to the
//! host, which drives the machine through [`Emulator`].

mod cycle;
pub mod emulator;
pub mod font;
pub mod instruction;
pub mod laws;
mod ops;
mod random;
pub mod semantics;
pub mod state;

pub use crate::emulator::Emulator;
pub use crate::emulator::InvalidKey;
pub use crate::instruction::decode;
pub use crate::instruction::Instruction;
pub use crate::semantics::Fault;
pub use crate::state::MachineState;
pub use crate::state::SCREEN_HEIGHT;
pub use crate::state::SCREEN_WIDTH;
