//! One handler for each instruction, and the stack and fetch primitives they
//! are built on.

use vstd::prelude::*;
use crate::emulator::Emulator;
use crate::font::GLYPH_SIZE;
use crate::semantics::pixel_cell;
use crate::semantics::sprite_bit;
use crate::semantics::sprite_column;
use crate::semantics::sprite_row;
use crate::state::MachineState;
use crate::state::NUM_KEYS;
use crate::state::NUM_V_REGS;
use crate::state::RAM_SIZE;
use crate::state::SCREEN_HEIGHT;
use crate::state::SCREEN_SIZE;
use crate::state::SCREEN_WIDTH;
use crate::state::STACK_SIZE;

verus! {

/// Two bytes joined by shift and or form the number whose quotient by 256 is
/// the high byte and whose remainder is the low byte.
proof fn lemma_join_bytes(high: u16, low: u16)
    by (bit_vector)
    requires
        high < 0x100,
        low < 0x100,
    ensures
        ((high << 8) | low) / 0x100 == high,
        ((high << 8) | low) % 0x100 == low,
{
}

/// Shifting a byte right by one place halves it and drops its parity;
/// shifting it left by one place doubles its low seven bits and drops its
/// top bit.
proof fn lemma_shift_byte(value: u8)
    by (bit_vector)
    ensures
        value & 1 == value % 2,
        value >> 1 == value / 2,
        (value >> 7) & 1 == value / 128,
        (value << 1) / 2 == value % 128,
        (value << 1) % 2 == 0,
{
}

/// Masking a sprite row with the bit of a column tells whether the pixel of
/// that column is set.
proof fn lemma_sprite_bit(byte: u8, column: u8)
    requires
        column < 8,
    ensures
        (byte & (0x80u8 >> column) != 0) == sprite_bit(byte, column as int),
{
    assert(column == 0 ==> (byte & (0x80u8 >> column) != 0) == ((byte / 128) % 2 == 1))
        by (bit_vector);
    assert(column == 1 ==> (byte & (0x80u8 >> column) != 0) == ((byte / 64) % 2 == 1))
        by (bit_vector);
    assert(column == 2 ==> (byte & (0x80u8 >> column) != 0) == ((byte / 32) % 2 == 1))
        by (bit_vector);
    assert(column == 3 ==> (byte & (0x80u8 >> column) != 0) == ((byte / 16) % 2 == 1))
        by (bit_vector);
    assert(column == 4 ==> (byte & (0x80u8 >> column) != 0) == ((byte / 8) % 2 == 1))
        by (bit_vector);
    assert(column == 5 ==> (byte & (0x80u8 >> column) != 0) == ((byte / 4) % 2 == 1))
        by (bit_vector);
    assert(column == 6 ==> (byte & (0x80u8 >> column) != 0) == ((byte / 2) % 2 == 1))
        by (bit_vector);
    assert(column == 7 ==> (byte & (0x80u8 >> column) != 0) == ((byte / 1) % 2 == 1))
        by (bit_vector);
}

/// Whether `cell` is covered by one of the sprite pixels that a draw has
/// handled once it stands at `column` of `row`: those of the rows above, and
/// those to the left in `row` itself.
spec fn covered_so_far(
    state: MachineState,
    vx: u8,
    vy: u8,
    rows: u8,
    row: int,
    column: int,
    cell: int,
) -> bool {
    &&& state.sprite_covers(vx, vy, rows, cell)
    &&& (sprite_row(vy, cell) < row || (sprite_row(vy, cell) == row && sprite_column(vx, cell)
        < column))
}

/// A sprite pixel falls on exactly one cell, and that cell lies on the
/// display.
proof fn lemma_pixel_cell(vx: u8, vy: u8, row: int, column: int)
    requires
        0 <= row < 32,
        0 <= column < 8,
    ensures
        0 <= pixel_cell(vx, vy, row, column) < SCREEN_SIZE,
        forall|cell: int|
            0 <= cell < SCREEN_SIZE ==> ((sprite_column(vx, cell) == column && sprite_row(
                vy,
                cell,
            ) == row) <==> cell == pixel_cell(vx, vy, row, column)),
{
    let target = pixel_cell(vx, vy, row, column);
    let tx = (vx + column) % 64;
    let ty = (vy + row) % 32;
    assert(target % 64 == tx && target / 64 == ty);
    assert((tx - vx) % 64 == column);
    assert((ty - vy) % 32 == row);
    assert forall|cell: int|
        0 <= cell < SCREEN_SIZE && sprite_column(vx, cell) == column && sprite_row(vy, cell)
            == row implies cell == target by {
        let cx = cell % 64;
        let cy = cell / 64;
        assert((cx - vx) % 64 == column);
        assert((cy - vy) % 32 == row);
        assert(cx == tx);
        assert(cy == ty);
    }
}

/// Handling one more pixel of a row adds at most the cell of that pixel to
/// the covered cells: it does if the pixel is set.
proof fn lemma_cover_next_column(
    state: MachineState,
    vx: u8,
    vy: u8,
    rows: u8,
    row: int,
    column: int,
)
    requires
        0 <= row < rows <= 0xF,
        0 <= column < 8,
    ensures
        forall|cell: int|
            0 <= cell < SCREEN_SIZE ==> (#[trigger] covered_so_far(
                state,
                vx,
                vy,
                rows,
                row,
                column + 1,
                cell,
            ) <==> covered_so_far(state, vx, vy, rows, row, column, cell) || (cell == pixel_cell(
                vx,
                vy,
                row,
                column,
            ) && sprite_bit(state.memory[state.index_register + row], column))),
{
    lemma_pixel_cell(vx, vy, row, column);
}

/// Once a row is handled, the covered cells are those of the rows up to it.
proof fn lemma_cover_next_row(state: MachineState, vx: u8, vy: u8, rows: u8, row: int)
    requires
        0 <= row < rows <= 0xF,
    ensures
        forall|cell: int|
            0 <= cell < SCREEN_SIZE ==> (#[trigger] covered_so_far(
                state,
                vx,
                vy,
                rows,
                row + 1,
                0,
                cell,
            ) <==> covered_so_far(state, vx, vy, rows, row, 8, cell)),
{
}

/// Once every row is handled, the covered cells are those of the sprite.
proof fn lemma_cover_all(state: MachineState, vx: u8, vy: u8, rows: u8)
    ensures
        forall|cell: int|
            (#[trigger] covered_so_far(state, vx, vy, rows, rows as int, 0, cell)
                <==> state.sprite_covers(vx, vy, rows, cell)),
{
}

impl Emulator {
    /// `DXYN`: draws the sprite of `rows` rows that starts at `I` with its
    /// top-left corner at column `VX` and row `VY`. Each set pixel flips its
    /// cell; the flag is 1 exactly if some cell went from on to off.
    pub(crate) fn op_dxyn(&mut self, x: u8, y: u8, rows: u8)
        requires
            x < NUM_V_REGS,
            y < NUM_V_REGS,
            rows <= 0xF,
            rows == 0 || old(self)@.index_register + rows <= RAM_SIZE,
        ensures
            final(self)@ == old(self)@.drawn(
                old(self)@.registers[x as int],
                old(self)@.registers[y as int],
                rows,
            ),
    {
        proof {
            use_type_invariant(&*self);
        }
        let ghost before = self@;
        let vx: u8 = self.v_registers[x as usize];
        let vy: u8 = self.v_registers[y as usize];
        let x_coord: u16 = vx as u16;
        let y_coord: u16 = vy as u16;

        let mut flipped = false;

        let mut y_line: u16 = 0;
        while y_line < rows as u16
            invariant
                self.inv(),
                before == old(self)@,
                x_coord == vx,
                y_coord == vy,
                rows <= 0xF,
                y_line <= rows,
                rows == 0 || before.index_register + rows <= RAM_SIZE,
                self@ == (MachineState { display: self@.display, ..before }),
                forall|cell: int|
                    0 <= cell < SCREEN_SIZE ==> self.screen@[cell] == (before.display[cell]
                        != covered_so_far(before, vx, vy, rows, y_line as int, 0, cell)),
                flipped == (exists|cell: int|
                    covered_so_far(before, vx, vy, rows, y_line as int, 0, cell)
                        && before.display[cell]),
            decreases rows - y_line,
        {
            let address: u16 = self.i_register + y_line;
            let pixels: u8 = self.ram[address as usize];

            let mut x_line: u16 = 0;
            while x_line < 8
                invariant
                    self.inv(),
                    before == old(self)@,
                    x_coord == vx,
                    y_coord == vy,
                    rows <= 0xF,
                    y_line < rows,
                    x_line <= 8,
                    pixels == before.memory[before.index_register + y_line],
                    self@ == (MachineState { display: self@.display, ..before }),
                    forall|cell: int|
                        0 <= cell < SCREEN_SIZE ==> self.screen@[cell] == (before.display[cell]
                            != covered_so_far(
                            before,
                            vx,
                            vy,
                            rows,
                            y_line as int,
                            x_line as int,
                            cell,
                        )),
                    flipped == (exists|cell: int|
                        covered_so_far(before, vx, vy, rows, y_line as int, x_line as int, cell)
                            && before.display[cell]),
                decreases 8 - x_line,
            {
                let x: usize = (x_coord + x_line) as usize % SCREEN_WIDTH;
                let y: usize = (y_coord + y_line) as usize % SCREEN_HEIGHT;
                let idx: usize = x + SCREEN_WIDTH * y;
                let ghost was_flipped = flipped;
                let ghost column = x_line as int;
                let ghost row = y_line as int;
                proof {
                    lemma_sprite_bit(pixels, x_line as u8);
                    lemma_pixel_cell(vx, vy, row, column);
                    lemma_cover_next_column(before, vx, vy, rows, row, column);
                    assert(idx == pixel_cell(vx, vy, row, column));
                    assert(!covered_so_far(before, vx, vy, rows, row, column, idx as int));
                }
                let bit_set = (pixels & (0b1000_0000u8 >> x_line)) != 0;
                if bit_set {
                    flipped = flipped || self.screen[idx];
                    self.screen[idx] = !self.screen[idx];
                }
                proof {
                    assert(bit_set == sprite_bit(pixels, column));
                    if was_flipped {
                        let w = choose|cell: int|
                            covered_so_far(before, vx, vy, rows, row, column, cell)
                                && before.display[cell];
                        assert(covered_so_far(before, vx, vy, rows, row, column + 1, w)
                            && before.display[w]);
                    }
                    if bit_set && before.display[idx as int] {
                        assert(covered_so_far(before, vx, vy, rows, row, column + 1, idx as int)
                            && before.display[idx as int]);
                    }
                    assert(flipped == (exists|cell: int|
                        covered_so_far(before, vx, vy, rows, row, column + 1, cell)
                            && before.display[cell])) by {
                        if exists|cell: int|
                            covered_so_far(before, vx, vy, rows, row, column + 1, cell)
                                && before.display[cell] {
                            let w = choose|cell: int|
                                covered_so_far(before, vx, vy, rows, row, column + 1, cell)
                                    && before.display[cell];
                            assert(0 <= w < SCREEN_SIZE);
                            if w != idx {
                                assert(covered_so_far(before, vx, vy, rows, row, column, w));
                            }
                        }
                    }
                }
                x_line += 1;
            }
            proof {
                lemma_cover_next_row(before, vx, vy, rows, y_line as int);
                if flipped {
                    let w = choose|cell: int|
                        covered_so_far(before, vx, vy, rows, y_line as int, 8, cell)
                            && before.display[cell];
                    assert(covered_so_far(before, vx, vy, rows, y_line + 1, 0, w)
                        && before.display[w]);
                }
                assert(flipped == (exists|cell: int|
                    covered_so_far(before, vx, vy, rows, y_line + 1, 0, cell)
                        && before.display[cell])) by {
                    if exists|cell: int|
                        covered_so_far(before, vx, vy, rows, y_line + 1, 0, cell)
                            && before.display[cell] {
                        let w = choose|cell: int|
                            covered_so_far(before, vx, vy, rows, y_line + 1, 0, cell)
                                && before.display[cell];
                        assert(covered_so_far(before, vx, vy, rows, y_line as int, 8, w));
                    }
                }
            }
            y_line += 1;
        }

        proof {
            lemma_cover_all(before, vx, vy, rows);
            assert(self@.display =~= Seq::new(
                before.display.len(),
                |cell: int| before.display[cell] != before.sprite_covers(vx, vy, rows, cell),
            ));
            assert(flipped == before.sprite_collides(vx, vy, rows)) by {
                if flipped {
                    let w = choose|cell: int|
                        covered_so_far(before, vx, vy, rows, rows as int, 0, cell)
                            && before.display[cell];
                    assert(before.sprite_covers(vx, vy, rows, w) && before.display[w]);
                }
                if before.sprite_collides(vx, vy, rows) {
                    let w = choose|cell: int|
                        before.sprite_covers(vx, vy, rows, cell) && before.display[cell];
                    assert(covered_so_far(before, vx, vy, rows, rows as int, 0, w));
                }
            }
        }
        if flipped {
            self.v_registers[0xF] = 1;
        } else {
            self.v_registers[0xF] = 0;
        }
    }

    /// Pushes a return address.
    pub(crate) fn push(&mut self, val: u16)
        requires
            old(self)@.call_stack.len() < STACK_SIZE,
        ensures
            final(self)@ == (MachineState {
                call_stack: old(self)@.call_stack.push(val),
                ..old(self)@
            }),
    {
        proof {
            use_type_invariant(&*self);
        }
        self.stack[self.stack_pointer as usize] = val;
        self.stack_pointer += 1;
        assert(self@.call_stack =~= old(self)@.call_stack.push(val));
    }

    /// Pops the most recent return address.
    pub(crate) fn pop(&mut self) -> (val: u16)
        requires
            old(self)@.call_stack.len() > 0,
        ensures
            val == old(self)@.call_stack.last(),
            final(self)@ == (MachineState {
                call_stack: old(self)@.call_stack.drop_last(),
                ..old(self)@
            }),
    {
        proof {
            use_type_invariant(&*self);
        }
        self.stack_pointer -= 1;
        assert(self@.call_stack =~= old(self)@.call_stack.drop_last());
        self.stack[self.stack_pointer as usize]
    }

    /// Reads the opcode at the program counter and moves the counter past it.
    pub(crate) fn fetch(&mut self) -> (op: u16)
        requires
            old(self)@.can_fetch(),
        ensures
            op == old(self)@.opcode(),
            final(self)@ == old(self)@.fetched(),
    {
        proof {
            use_type_invariant(&*self);
        }
        let op: u16 = self.peek();

        self.program_counter += 2;

        op
    }

    /// Reads the opcode at the program counter.
    pub(crate) fn peek(&self) -> (op: u16)
        requires
            self@.can_fetch(),
        ensures
            op == self@.opcode(),
    {
        let higher_byte: u16 = self.ram[self.program_counter as usize] as u16;
        let lower_byte: u16 = self.ram[(self.program_counter + 1) as usize] as u16;
        proof {
            lemma_join_bytes(higher_byte, lower_byte);
        }
        (higher_byte << 8) | lower_byte
    }

    /// Moves the program counter past one more instruction if `condition`
    /// holds.
    fn skip_if(&mut self, condition: bool)
        requires
            old(self)@.program_counter <= RAM_SIZE,
        ensures
            final(self)@ == old(self)@.skip_if(condition),
    {
        proof {
            use_type_invariant(&*self);
        }
        if condition {
            self.program_counter += 2;
        }
    }

    /// Sets register `x` and then the flag register.
    fn set_with_flag(&mut self, x: u8, value: u8, flag: bool)
        requires
            x < NUM_V_REGS,
        ensures
            final(self)@ == old(self)@.set_register(x, value).set_flag(flag),
    {
        proof {
            use_type_invariant(&*self);
        }
        self.v_registers[x as usize] = value;
        self.v_registers[0xF] = if flag { 1 } else { 0 };
    }

    /// `00E0`: switches every display cell off.
    pub(crate) fn op_00e0(&mut self)
        ensures
            final(self)@ == (MachineState {
                display: Seq::new(SCREEN_SIZE as nat, |cell: int| false),
                ..old(self)@
            }),
    {
        proof {
            use_type_invariant(&*self);
        }
        self.screen = [false; SCREEN_SIZE];
        assert(self@.display =~= Seq::new(SCREEN_SIZE as nat, |cell: int| false));
    }

    /// `00EE`: returns to the address on top of the call stack.
    pub(crate) fn op_00ee(&mut self)
        requires
            old(self)@.call_stack.len() > 0,
        ensures
            final(self)@ == (MachineState {
                program_counter: old(self)@.call_stack.last(),
                call_stack: old(self)@.call_stack.drop_last(),
                ..old(self)@
            }),
    {
        proof {
            use_type_invariant(&*self);
        }
        let target: u16 = self.pop();
        proof {
            use_type_invariant(&*self);
        }
        self.program_counter = target;
    }

    /// `1NNN`: continues at `addr`.
    pub(crate) fn op_1nnn(&mut self, addr: u16)
        ensures
            final(self)@ == (MachineState { program_counter: addr, ..old(self)@ }),
    {
        proof {
            use_type_invariant(&*self);
        }
        self.program_counter = addr;
    }

    /// `2NNN`: remembers the program counter on the call stack and continues
    /// at `addr`.
    pub(crate) fn op_2nnn(&mut self, addr: u16)
        requires
            old(self)@.call_stack.len() < STACK_SIZE,
        ensures
            final(self)@ == (MachineState {
                program_counter: addr,
                call_stack: old(self)@.call_stack.push(old(self)@.program_counter),
                ..old(self)@
            }),
    {
        let return_to: u16 = self.program_counter;
        self.push(return_to);
        proof {
            use_type_invariant(&*self);
        }
        self.program_counter = addr;
    }

    /// `3XNN`: skips the next instruction if `VX == nn`.
    pub(crate) fn op_3xnn(&mut self, x: u8, nn: u8)
        requires
            x < NUM_V_REGS,
            old(self)@.program_counter <= RAM_SIZE,
        ensures
            final(self)@ == old(self)@.skip_if(old(self)@.registers[x as int] == nn),
    {
        let equal = self.v_registers[x as usize] == nn;
        self.skip_if(equal);
    }

    /// `4XNN`: skips the next instruction if `VX != nn`.
    pub(crate) fn op_4xnn(&mut self, x: u8, nn: u8)
        requires
            x < NUM_V_REGS,
            old(self)@.program_counter <= RAM_SIZE,
        ensures
            final(self)@ == old(self)@.skip_if(old(self)@.registers[x as int] != nn),
    {
        let differs = self.v_registers[x as usize] != nn;
        self.skip_if(differs);
    }

    /// `5XY0`: skips the next instruction if `VX == VY`.
    pub(crate) fn op_5xy0(&mut self, x: u8, y: u8)
        requires
            x < NUM_V_REGS,
            y < NUM_V_REGS,
            old(self)@.program_counter <= RAM_SIZE,
        ensures
            final(self)@ == old(self)@.skip_if(
                old(self)@.registers[x as int] == old(self)@.registers[y as int],
            ),
    {
        let equal = self.v_registers[x as usize] == self.v_registers[y as usize];
        self.skip_if(equal);
    }

    /// `6XNN`: `VX := nn`.
    pub(crate) fn op_6xnn(&mut self, x: u8, nn: u8)
        requires
            x < NUM_V_REGS,
        ensures
            final(self)@ == old(self)@.set_register(x, nn),
    {
        proof {
            use_type_invariant(&*self);
        }
        self.v_registers[x as usize] = nn;
    }

    /// `7XNN`: `VX := VX + nn`, wrapping; the flag stays as it is.
    pub(crate) fn op_7xnn(&mut self, x: u8, nn: u8)
        requires
            x < NUM_V_REGS,
        ensures
            final(self)@ == old(self)@.set_register(
                x,
                ((old(self)@.registers[x as int] + nn) % 256) as u8,
            ),
    {
        proof {
            use_type_invariant(&*self);
        }
        self.v_registers[x as usize] = self.v_registers[x as usize].wrapping_add(nn);
    }

    /// `8XY0`: `VX := VY`.
    pub(crate) fn op_8xy0(&mut self, x: u8, y: u8)
        requires
            x < NUM_V_REGS,
            y < NUM_V_REGS,
        ensures
            final(self)@ == old(self)@.set_register(x, old(self)@.registers[y as int]),
    {
        proof {
            use_type_invariant(&*self);
        }
        self.v_registers[x as usize] = self.v_registers[y as usize];
    }

    /// `8XY1`: `VX := VX | VY`.
    pub(crate) fn op_8xy1(&mut self, x: u8, y: u8)
        requires
            x < NUM_V_REGS,
            y < NUM_V_REGS,
        ensures
            final(self)@ == old(self)@.set_register(
                x,
                old(self)@.registers[x as int] | old(self)@.registers[y as int],
            ),
    {
        proof {
            use_type_invariant(&*self);
        }
        self.v_registers[x as usize] = self.v_registers[x as usize] | self.v_registers[y as usize];
    }

    /// `8XY2`: `VX := VX & VY`.
    pub(crate) fn op_8xy2(&mut self, x: u8, y: u8)
        requires
            x < NUM_V_REGS,
            y < NUM_V_REGS,
        ensures
            final(self)@ == old(self)@.set_register(
                x,
                old(self)@.registers[x as int] & old(self)@.registers[y as int],
            ),
    {
        proof {
            use_type_invariant(&*self);
        }
        self.v_registers[x as usize] = self.v_registers[x as usize] & self.v_registers[y as usize];
    }

    /// `8XY3`: `VX := VX ^ VY`.
    pub(crate) fn op_8xy3(&mut self, x: u8, y: u8)
        requires
            x < NUM_V_REGS,
            y < NUM_V_REGS,
        ensures
            final(self)@ == old(self)@.set_register(
                x,
                old(self)@.registers[x as int] ^ old(self)@.registers[y as int],
            ),
    {
        proof {
            use_type_invariant(&*self);
        }
        self.v_registers[x as usize] = self.v_registers[x as usize] ^ self.v_registers[y as usize];
    }

    /// `8XY4`: `VX := VX + VY`, wrapping; the flag is 1 exactly if the sum
    /// passed 255.
    pub(crate) fn op_8xy4(&mut self, x: u8, y: u8)
        requires
            x < NUM_V_REGS,
            y < NUM_V_REGS,
        ensures
            final(self)@ == old(self)@.set_register(
                x,
                ((old(self)@.registers[x as int] + old(self)@.registers[y as int]) % 256) as u8,
            ).set_flag(old(self)@.registers[x as int] + old(self)@.registers[y as int] >= 256),
    {
        let vx: u8 = self.v_registers[x as usize];
        let vy: u8 = self.v_registers[y as usize];
        let new_vx: u8 = vx.wrapping_add(vy);
        let carry = new_vx < vx;

        self.set_with_flag(x, new_vx, carry);
    }

    /// `8XY5`: `VX := VX - VY`, wrapping; the flag is 1 exactly if no borrow
    /// occurred.
    pub(crate) fn op_8xy5(&mut self, x: u8, y: u8)
        requires
            x < NUM_V_REGS,
            y < NUM_V_REGS,
        ensures
            final(self)@ == old(self)@.set_register(
                x,
                ((old(self)@.registers[x as int] - old(self)@.registers[y as int]) % 256) as u8,
            ).set_flag(old(self)@.registers[x as int] >= old(self)@.registers[y as int]),
    {
        let vx: u8 = self.v_registers[x as usize];
        let vy: u8 = self.v_registers[y as usize];
        let new_vx: u8 = vx.wrapping_sub(vy);
        let borrow = vx < vy;

        self.set_with_flag(x, new_vx, !borrow);
    }

    /// `8XY6`: `VX := VX >> 1`; the flag is the bit that was shifted out.
    pub(crate) fn op_8xy6(&mut self, x: u8)
        requires
            x < NUM_V_REGS,
        ensures
            final(self)@ == old(self)@.set_register(
                x,
                (old(self)@.registers[x as int] / 2) as u8,
            ).set_flag(old(self)@.registers[x as int] % 2 == 1),
    {
        let vx: u8 = self.v_registers[x as usize];
        proof {
            lemma_shift_byte(vx);
        }
        let lsb: u8 = vx & 1;

        self.set_with_flag(x, vx >> 1, lsb == 1);
    }

    /// `8XY7`: `VX := VY - VX`, wrapping; the flag is 1 exactly if no borrow
    /// occurred.
    pub(crate) fn op_8xy7(&mut self, x: u8, y: u8)
        requires
            x < NUM_V_REGS,
            y < NUM_V_REGS,
        ensures
            final(self)@ == old(self)@.set_register(
                x,
                ((old(self)@.registers[y as int] - old(self)@.registers[x as int]) % 256) as u8,
            ).set_flag(old(self)@.registers[y as int] >= old(self)@.registers[x as int]),
    {
        let vx: u8 = self.v_registers[x as usize];
        let vy: u8 = self.v_registers[y as usize];
        let new_vx: u8 = vy.wrapping_sub(vx);
        let borrow = vy < vx;

        self.set_with_flag(x, new_vx, !borrow);
    }

    /// `8XYE`: `VX := VX << 1`; the flag is the bit that was shifted out.
    pub(crate) fn op_8xye(&mut self, x: u8)
        requires
            x < NUM_V_REGS,
        ensures
            final(self)@ == old(self)@.set_register(
                x,
                ((old(self)@.registers[x as int] * 2) % 256) as u8,
            ).set_flag(old(self)@.registers[x as int] >= 128),
    {
        let vx: u8 = self.v_registers[x as usize];
        proof {
            lemma_shift_byte(vx);
        }
        let msb: u8 = (vx >> 7) & 1;

        self.set_with_flag(x, vx << 1, msb == 1);
    }

    /// `9XY0`: skips the next instruction if `VX != VY`.
    pub(crate) fn op_9xy0(&mut self, x: u8, y: u8)
        requires
            x < NUM_V_REGS,
            y < NUM_V_REGS,
            old(self)@.program_counter <= RAM_SIZE,
        ensures
            final(self)@ == old(self)@.skip_if(
                old(self)@.registers[x as int] != old(self)@.registers[y as int],
            ),
    {
        let differ = self.v_registers[x as usize] != self.v_registers[y as usize];
        self.skip_if(differ);
    }

    /// `ANNN`: `I := addr`.
    pub(crate) fn op_annn(&mut self, addr: u16)
        ensures
            final(self)@ == (MachineState { index_register: addr, ..old(self)@ }),
    {
        proof {
            use_type_invariant(&*self);
        }
        self.i_register = addr;
    }

    /// `BNNN`: continues at `V0 + addr`. The address is masked to twelve bits
    /// before `V0` is added, so the target can lie up to 255 bytes past the
    /// end of memory.
    pub(crate) fn op_bnnn(&mut self, addr: u16)
        requires
            addr < 0x1000,
        ensures
            final(self)@ == (MachineState {
                program_counter: (old(self)@.registers[0] + addr) as u16,
                ..old(self)@
            }),
    {
        proof {
            use_type_invariant(&*self);
        }
        self.program_counter = (self.v_registers[0] as u16) + addr;
    }

    /// `CXNN`: `VX := random & nn`.
    pub(crate) fn op_cxnn(&mut self, x: u8, nn: u8, random: u8)
        requires
            x < NUM_V_REGS,
        ensures
            final(self)@ == old(self)@.set_register(x, random & nn),
    {
        proof {
            use_type_invariant(&*self);
        }
        self.v_registers[x as usize] = random & nn;
    }

    /// `EX9E`: skips the next instruction if key `VX` is down.
    pub(crate) fn op_ex9e(&mut self, x: u8)
        requires
            x < NUM_V_REGS,
            old(self)@.registers[x as int] < NUM_KEYS,
            old(self)@.program_counter <= RAM_SIZE,
        ensures
            final(self)@ == old(self)@.skip_if(
                old(self)@.keys[old(self)@.registers[x as int] as int],
            ),
    {
        let vx: u8 = self.v_registers[x as usize];
        let key = self.keys[vx as usize];

        self.skip_if(key);
    }

    /// `EXA1`: skips the next instruction if key `VX` is up.
    pub(crate) fn op_exa1(&mut self, x: u8)
        requires
            x < NUM_V_REGS,
            old(self)@.registers[x as int] < NUM_KEYS,
            old(self)@.program_counter <= RAM_SIZE,
        ensures
            final(self)@ == old(self)@.skip_if(
                !old(self)@.keys[old(self)@.registers[x as int] as int],
            ),
    {
        let vx: u8 = self.v_registers[x as usize];
        let key = self.keys[vx as usize];

        self.skip_if(!key);
    }

    /// `FX07`: `VX := delay timer`.
    pub(crate) fn op_fx07(&mut self, x: u8)
        requires
            x < NUM_V_REGS,
        ensures
            final(self)@ == old(self)@.set_register(x, old(self)@.delay_timer),
    {
        proof {
            use_type_invariant(&*self);
        }
        self.v_registers[x as usize] = self.delay_timer;
    }

    /// `FX0A`: with a key down, puts the lowest such key in `VX`; with none
    /// down, steps the program counter back onto this instruction.
    pub(crate) fn op_fx0a(&mut self, x: u8)
        requires
            x < NUM_V_REGS,
            old(self)@.program_counter >= 2,
        ensures
            final(self)@ == old(self)@.key_awaited(x),
    {
        proof {
            use_type_invariant(&*self);
        }
        let mut pressed = false;
        let mut i: usize = 0;
        while i < NUM_KEYS && !pressed
            invariant
                self.inv(),
                i <= NUM_KEYS,
                x < NUM_V_REGS,
                !pressed ==> self@ == old(self)@,
                !pressed ==> forall|j: int| 0 <= j < i ==> !old(self)@.keys[j],
                pressed ==> i < NUM_KEYS && old(self)@.is_lowest_key_down(i as int),
                pressed ==> self@ == old(self)@.set_register(x, i as u8),
            decreases NUM_KEYS - i + if pressed { 0int } else { 1int },
        {
            if self.keys[i] {
                self.v_registers[x as usize] = i as u8;
                pressed = true;
            } else {
                i += 1;
            }
        }

        if !pressed {
            self.program_counter -= 2;
        } else {
            proof {
                let lowest = choose|k: int| old(self)@.is_lowest_key_down(k);
                assert(old(self)@.is_lowest_key_down(lowest));
                assert(lowest == i);
            }
        }
    }

    /// `FX15`: `delay timer := VX`.
    pub(crate) fn op_fx15(&mut self, x: u8)
        requires
            x < NUM_V_REGS,
        ensures
            final(self)@ == (MachineState {
                delay_timer: old(self)@.registers[x as int],
                ..old(self)@
            }),
    {
        proof {
            use_type_invariant(&*self);
        }
        self.delay_timer = self.v_registers[x as usize];
    }

    /// `FX18`: `sound timer := VX`.
    pub(crate) fn op_fx18(&mut self, x: u8)
        requires
            x < NUM_V_REGS,
        ensures
            final(self)@ == (MachineState {
                sound_timer: old(self)@.registers[x as int],
                ..old(self)@
            }),
    {
        proof {
            use_type_invariant(&*self);
        }
        self.sound_timer = self.v_registers[x as usize];
    }

    /// `FX1E`: `I := I + VX`, wrapping at sixteen bits.
    pub(crate) fn op_fx1e(&mut self, x: u8)
        requires
            x < NUM_V_REGS,
        ensures
            final(self)@ == (MachineState {
                index_register: ((old(self)@.index_register + old(self)@.registers[x as int])
                    % 0x10000) as u16,
                ..old(self)@
            }),
    {
        proof {
            use_type_invariant(&*self);
        }
        let vx: u16 = self.v_registers[x as usize] as u16;
        self.i_register = self.i_register.wrapping_add(vx);
    }

    /// `FX29`: `I :=` the address of the font glyph for the digit `VX`.
    pub(crate) fn op_fx29(&mut self, x: u8)
        requires
            x < NUM_V_REGS,
        ensures
            final(self)@ == (MachineState {
                index_register: (old(self)@.registers[x as int] * GLYPH_SIZE) as u16,
                ..old(self)@
            }),
    {
        proof {
            use_type_invariant(&*self);
        }
        let c: u16 = self.v_registers[x as usize] as u16;
        self.i_register = c * 5;
    }

    /// `FX33`: stores the hundreds, tens and ones of `VX` at `I`, `I + 1` and
    /// `I + 2`.
    pub(crate) fn op_fx33(&mut self, x: u8)
        requires
            x < NUM_V_REGS,
            old(self)@.index_register + 3 <= RAM_SIZE,
        ensures
            final(self)@ == old(self)@.bcd_stored(old(self)@.registers[x as int]),
    {
        proof {
            use_type_invariant(&*self);
        }
        let vx: u8 = self.v_registers[x as usize];

        let hundreds: u8 = vx / 100;
        let tens: u8 = (vx / 10) % 10;
        let ones: u8 = vx % 10;

        self.ram[self.i_register as usize] = hundreds;
        self.ram[(self.i_register + 1) as usize] = tens;
        self.ram[(self.i_register + 2) as usize] = ones;
    }

    /// `FX55`: stores `V0..=VX` in memory from `I` on; `I` stays as it is.
    pub(crate) fn op_fx55(&mut self, x: u8)
        requires
            x < NUM_V_REGS,
            old(self)@.index_register + x < RAM_SIZE,
        ensures
            final(self)@ == old(self)@.registers_stored(x),
    {
        proof {
            use_type_invariant(&*self);
        }
        let last: usize = x as usize;
        let i: usize = self.i_register as usize;

        let mut idx: usize = 0;
        while idx <= last
            invariant
                self.inv(),
                last == x,
                x < NUM_V_REGS,
                i == old(self)@.index_register,
                i + last < RAM_SIZE,
                idx <= last + 1,
                self@ == (MachineState { memory: self@.memory, ..old(self)@ }),
                forall|a: int| i <= a < i + idx ==> self.ram@[a] == old(self)@.registers[a - i],
                forall|a: int|
                    0 <= a < RAM_SIZE && !(i <= a < i + idx) ==> self.ram@[a] == old(
                        self,
                    )@.memory[a],
            decreases last + 1 - idx,
        {
            self.ram[i + idx] = self.v_registers[idx];
            idx += 1;
        }
        assert(self@.memory =~= old(self)@.registers_stored(x).memory);
    }

    /// `FX65`: loads `V0..=VX` from memory from `I` on; `I` stays as it is.
    pub(crate) fn op_fx65(&mut self, x: u8)
        requires
            x < NUM_V_REGS,
            old(self)@.index_register + x < RAM_SIZE,
        ensures
            final(self)@ == old(self)@.registers_loaded(x),
    {
        proof {
            use_type_invariant(&*self);
        }
        let last: usize = x as usize;
        let i: usize = self.i_register as usize;

        let mut idx: usize = 0;
        while idx <= last
            invariant
                self.inv(),
                last == x,
                x < NUM_V_REGS,
                i == old(self)@.index_register,
                i + last < RAM_SIZE,
                idx <= last + 1,
                self@ == (MachineState { registers: self@.registers, ..old(self)@ }),
                forall|k: int| 0 <= k < idx ==> self.v_registers@[k] == old(self)@.memory[i + k],
                forall|k: int|
                    idx <= k < NUM_V_REGS ==> self.v_registers@[k] == old(self)@.registers[k],
            decreases last + 1 - idx,
        {
            self.v_registers[idx] = self.ram[i + idx];
            idx += 1;
        }
        assert(self@.registers =~= old(self)@.registers_loaded(x).registers);
    }
}

} // verus!
