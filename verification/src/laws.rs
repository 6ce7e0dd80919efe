//! Laws of the instruction set, each stated of one or two whole cycles and
//! proved from the definition of a cycle.

use vstd::prelude::*;
use crate::instruction::decoded;
use crate::instruction::Instruction;
use crate::state::MachineState;

verus! {

/// Whether `instruction` is one of the six skip instructions.
pub open spec fn is_skip(instruction: Instruction) -> bool {
    match instruction {
        Instruction::SkipEqImm { .. } => true,
        Instruction::SkipNeImm { .. } => true,
        Instruction::SkipEqReg { .. } => true,
        Instruction::SkipNeReg { .. } => true,
        Instruction::SkipKeyDown { .. } => true,
        Instruction::SkipKeyUp { .. } => true,
        _ => false,
    }
}

/// Whether the condition of the skip instruction `instruction` holds in
/// `state`.
pub open spec fn skip_condition(state: MachineState, instruction: Instruction) -> bool {
    let v = state.registers;
    match instruction {
        Instruction::SkipEqImm { x, nn } => v[x as int] == nn,
        Instruction::SkipNeImm { x, nn } => v[x as int] != nn,
        Instruction::SkipEqReg { x, y } => v[x as int] == v[y as int],
        Instruction::SkipNeReg { x, y } => v[x as int] != v[y as int],
        Instruction::SkipKeyDown { x } => state.keys[v[x as int] as int],
        Instruction::SkipKeyUp { x } => !state.keys[v[x as int] as int],
        _ => false,
    }
}

/// Whether `instruction` sets the program counter to a target of its own.
pub open spec fn is_branch(instruction: Instruction) -> bool {
    match instruction {
        Instruction::Return => true,
        Instruction::Jump { .. } => true,
        Instruction::Call { .. } => true,
        Instruction::JumpOffset { .. } => true,
        _ => false,
    }
}

/// A cycle keeps a well-formed state well-formed.
pub proof fn law_step_preserves_wf(state: MachineState, random: u8)
    requires
        state.wf(),
    ensures
        state.step(random).wf(),
{
}

/// Only the random instruction looks at the random byte.
pub proof fn law_random_byte_unused(state: MachineState, first: u8, second: u8)
    requires
        !state.draws_random(),
    ensures
        state.step(first) == state.step(second),
{
}

/// A cycle that does not branch leaves an even program counter even.
pub proof fn law_counter_stays_even(state: MachineState, instruction: Instruction, random: u8)
    requires
        state.wf(),
        state.fault() is None,
        decoded(state.opcode()) == Some(instruction),
        !is_branch(instruction),
        state.program_counter % 2 == 0,
    ensures
        state.step(random).program_counter % 2 == 0,
{
}

/// Addition leaves the sum modulo 256 in `VX`, and sets the flag to 1
/// exactly if the sum does not fit in a byte. Where `VX` is the flag
/// register itself, the flag is what it holds afterwards.
pub proof fn law_add_carry(state: MachineState, x: u8, y: u8, random: u8)
    requires
        state.wf(),
        state.fault() is None,
        decoded(state.opcode()) == Some(Instruction::Add { x, y }),
    ensures
        x != 0xF ==> state.step(random).registers[x as int] == (state.registers[x as int]
            + state.registers[y as int]) % 256,
        state.step(random).registers[0xF] == 1 <==> state.registers[x as int]
            + state.registers[y as int] >= 256,
        state.step(random).registers[0xF] == 0 <==> state.registers[x as int]
            + state.registers[y as int] < 256,
{
}

/// Subtraction leaves `VX - VY` modulo 256 in `VX`, and sets the flag to 1
/// exactly if `VX >= VY`, that is if no borrow occurred, and to 0 otherwise.
pub proof fn law_sub_borrow(state: MachineState, x: u8, y: u8, random: u8)
    requires
        state.wf(),
        state.fault() is None,
        decoded(state.opcode()) == Some(Instruction::Sub { x, y }),
    ensures
        x != 0xF ==> state.step(random).registers[x as int] == (state.registers[x as int]
            - state.registers[y as int]) % 256,
        state.step(random).registers[0xF] == 1 <==> state.registers[x as int]
            >= state.registers[y as int],
        state.step(random).registers[0xF] == 0 <==> state.registers[x as int]
            < state.registers[y as int],
{
}

/// Reversed subtraction leaves `VY - VX` modulo 256 in `VX`, and sets the
/// flag to 1 exactly if `VY >= VX`, and to 0 otherwise.
pub proof fn law_sub_from_borrow(state: MachineState, x: u8, y: u8, random: u8)
    requires
        state.wf(),
        state.fault() is None,
        decoded(state.opcode()) == Some(Instruction::SubFrom { x, y }),
    ensures
        x != 0xF ==> state.step(random).registers[x as int] == (state.registers[y as int]
            - state.registers[x as int]) % 256,
        state.step(random).registers[0xF] == 1 <==> state.registers[y as int]
            >= state.registers[x as int],
        state.step(random).registers[0xF] == 0 <==> state.registers[y as int]
            < state.registers[x as int],
{
}

/// A right shift sets the flag to the lowest bit that `VX` had, whatever the
/// flag held before, and halves `VX`.
pub proof fn law_shift_right(state: MachineState, x: u8, random: u8)
    requires
        state.wf(),
        state.fault() is None,
        decoded(state.opcode()) == Some(Instruction::ShiftRight { x }),
    ensures
        state.step(random).registers[0xF] == state.registers[x as int] % 2,
        x != 0xF ==> state.step(random).registers[x as int] == state.registers[x as int] / 2,
{
}

/// A left shift sets the flag to the highest bit that `VX` had, whatever the
/// flag held before, and doubles `VX` modulo 256.
pub proof fn law_shift_left(state: MachineState, x: u8, random: u8)
    requires
        state.wf(),
        state.fault() is None,
        decoded(state.opcode()) == Some(Instruction::ShiftLeft { x }),
    ensures
        state.step(random).registers[0xF] == state.registers[x as int] / 128,
        x != 0xF ==> state.step(random).registers[x as int] == (state.registers[x as int] * 2)
            % 256,
{
}

/// A skip instruction moves the program counter by 4 if its condition
/// holds and by 2 if it does not, and changes nothing else.
pub proof fn law_skip(state: MachineState, instruction: Instruction, random: u8)
    requires
        state.wf(),
        state.fault() is None,
        decoded(state.opcode()) == Some(instruction),
        is_skip(instruction),
    ensures
        state.step(random).program_counter == state.program_counter + if skip_condition(
            state,
            instruction,
        ) {
            4int
        } else {
            2int
        },
        state.step(random) == (MachineState {
            program_counter: state.step(random).program_counter,
            ..state
        }),
{
}

/// Waiting for a key with no key down changes nothing: the program counter
/// is back where it was, so the next cycle waits again.
pub proof fn law_wait_without_key(state: MachineState, x: u8, random: u8)
    requires
        state.wf(),
        state.fault() is None,
        decoded(state.opcode()) == Some(Instruction::WaitKey { x }),
        !state.any_key_down(),
    ensures
        state.step(random) == state,
{
}

/// Waiting for a key with a key down moves the program counter on by 2 and
/// leaves in `VX` the lowest key that is down.
pub proof fn law_wait_with_key(state: MachineState, x: u8, random: u8)
    requires
        state.wf(),
        state.fault() is None,
        decoded(state.opcode()) == Some(Instruction::WaitKey { x }),
        state.any_key_down(),
    ensures
        state.step(random).program_counter == state.program_counter + 2,
        state.is_lowest_key_down(state.step(random).registers[x as int] as int),
{
    let fetched = state.fetched();
    assert(fetched.any_key_down()) by {
        let k = choose|k: int| 0 <= k < 16 && state.keys[k];
        assert(0 <= k < 16 && fetched.keys[k]);
    }
    lemma_lowest_key_down(fetched);
    assert(state.is_lowest_key_down(fetched.lowest_key_down() as int));
}

/// Where a key is down, `lowest_key_down` is the lowest such key.
pub proof fn lemma_lowest_key_down(state: MachineState)
    requires
        state.wf(),
        state.any_key_down(),
    ensures
        state.is_lowest_key_down(state.lowest_key_down() as int),
{
    let some = choose|k: int| 0 <= k < 16 && state.keys[k];
    lemma_lowest_exists(state, some);
}

/// Below any key that is down there is a lowest one.
proof fn lemma_lowest_exists(state: MachineState, k: int)
    requires
        0 <= k < 16,
        state.keys[k],
    ensures
        exists|lowest: int| state.is_lowest_key_down(lowest),
    decreases k,
{
    if exists|j: int| 0 <= j < k && state.keys[j] {
        let j = choose|j: int| 0 <= j < k && state.keys[j];
        lemma_lowest_exists(state, j);
    } else {
        assert(state.is_lowest_key_down(k));
    }
}

/// Storing `V0..=VX` at `I` and loading them back at once from the same `I`
/// restores every register.
pub proof fn law_store_load_round_trip(state: MachineState, x: u8, first: u8, second: u8)
    requires
        state.wf(),
        state.fault() is None,
        decoded(state.opcode()) == Some(Instruction::StoreRegs { x }),
        state.step(first).fault() is None,
        decoded(state.step(first).opcode()) == Some(Instruction::LoadRegs { x }),
    ensures
        state.step(first).step(second).registers == state.registers,
{
    assert(state.step(first).step(second).registers =~= state.registers);
}

/// Drawing the same sprite twice at the same position restores the display.
/// The first draw sets the flag exactly if the sprite has a pixel on a cell
/// that was on; the second exactly if it has one on a cell that was off.
pub proof fn law_draw_twice(
    state: MachineState,
    x: u8,
    y: u8,
    rows: u8,
    first: u8,
    second: u8,
)
    requires
        state.wf(),
        state.fault() is None,
        decoded(state.opcode()) == Some(Instruction::Draw { x, y, rows }),
        state.step(first).fault() is None,
        decoded(state.step(first).opcode()) == Some(Instruction::Draw { x, y, rows }),
        state.step(first).registers[x as int] == state.registers[x as int],
        state.step(first).registers[y as int] == state.registers[y as int],
    ensures
        state.step(first).step(second).display == state.display,
        state.step(first).registers[0xF] == 1 <==> exists|cell: int|
            state.sprite_covers(state.registers[x as int], state.registers[y as int], rows, cell)
                && state.display[cell],
        state.step(first).step(second).registers[0xF] == 1 <==> exists|cell: int|
            state.sprite_covers(state.registers[x as int], state.registers[y as int], rows, cell)
                && !state.display[cell],
{
    let vx = state.registers[x as int];
    let vy = state.registers[y as int];
    let once = state.step(first);
    let twice = once.step(second);
    assert(once == state.fetched().drawn(vx, vy, rows));
    assert(twice == once.fetched().drawn(vx, vy, rows));
    assert forall|cell: int|
        once.sprite_covers(vx, vy, rows, cell) == state.sprite_covers(vx, vy, rows, cell) by {}
    assert(twice.display =~= state.display);
    if once.sprite_collides(vx, vy, rows) {
        let cell = choose|cell: int| once.sprite_covers(vx, vy, rows, cell) && once.display[cell];
        assert(state.sprite_covers(vx, vy, rows, cell) && !state.display[cell]);
    }
    if exists|cell: int| state.sprite_covers(vx, vy, rows, cell) && !state.display[cell] {
        let cell = choose|cell: int|
            state.sprite_covers(vx, vy, rows, cell) && !state.display[cell];
        assert(once.sprite_covers(vx, vy, rows, cell) && once.display[cell]);
    }
}

} // verus!
