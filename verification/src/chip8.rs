//! The machine itself and its fetch/decode/execute cycle.

use vstd::prelude::*;

use crate::errors::Chip8Error;
use crate::font::FONT_SET;
use crate::model::{
    after_fetch, alu_result, blank_screen, boot_state, ticked, Vm,
};
use crate::traits::{Audio, Graphics, Keyboard, NumberGenerator};

verus! {

broadcast use vstd::array::group_array_axioms;

/// Whether the host asked to stop after a cycle.
#[derive(Debug, PartialEq, Eq, Structural)]
pub enum State {
    /// No exit was requested.
    Continue,
    /// The host asked to stop; the driving loop should end.
    Exit,
}

/// The whole machine: state, timers, framebuffer, key states, and the
/// four capability ports it reaches its host through.
pub struct Chip8<R: NumberGenerator, A: Audio, K: Keyboard, G: Graphics> {
    pub delay_timer: u8,
    pub graphics: [u8; 2048],
    pub index_register: u16,
    pub keyboard: [u8; 16],
    pub memory: [u8; 4096],
    pub opcode: u16,
    pub program_counter: u16,
    pub sound_timer: u8,
    pub stack: [u16; 16],
    pub stack_pointer: u16,
    pub v_registers: [u8; 16],
    pub random_number_generator: R,
    pub audio_device: A,
    pub keyboard_device: K,
    pub graphics_device: G,
}

impl<R: NumberGenerator, A: Audio, K: Keyboard, G: Graphics> View for Chip8<R, A, K, G> {
    type V = Vm;

    open spec fn view(&self) -> Vm {
        Vm {
            delay_timer: self.delay_timer,
            graphics: self.graphics@,
            index_register: self.index_register,
            keyboard: self.keyboard@,
            memory: self.memory@,
            opcode: self.opcode,
            program_counter: self.program_counter,
            sound_timer: self.sound_timer,
            stack: self.stack@,
            stack_pointer: self.stack_pointer,
            v_registers: self.v_registers@,
        }
    }
}

impl<R: NumberGenerator, A: Audio, K: Keyboard, G: Graphics> Chip8<R, A, K, G> {
    /// Builds the machine around the four given devices: memory zeroed
    /// but for the font, registers zeroed, program counter at 0x200.
    pub fn new(
        random_number_generator: R,
        audio_device: A,
        keyboard_device: K,
        graphics_device: G,
    ) -> (chip8: Chip8<R, A, K, G>)
        ensures
            chip8@ == boot_state(),
            chip8.random_number_generator == random_number_generator,
            chip8.audio_device == audio_device,
            chip8.keyboard_device == keyboard_device,
            chip8.graphics_device == graphics_device,
    {
        let mut chip8 = Chip8 {
            delay_timer: 0,
            graphics: [0u8; 2048],
            index_register: 0,
            keyboard: [0u8; 16],
            memory: [0u8; 4096],
            opcode: 0,
            program_counter: 0x200,
            sound_timer: 0,
            stack: [0u16; 16],
            stack_pointer: 0,
            v_registers: [0u8; 16],
            random_number_generator,
            audio_device,
            keyboard_device,
            graphics_device,
        };
        chip8.load_font_set();
        proof {
            assert(chip8@ =~= boot_state());
        }
        chip8
    }

    /// Writes the font glyphs over the first 80 bytes of memory.
    fn load_font_set(&mut self)
        ensures
            final(self).memory@ == Seq::new(
                4096,
                |j: int| if j < 80 { FONT_SET@[j] } else { old(self).memory@[j] },
            ),
            *final(self) == (Chip8 { memory: final(self).memory, ..*old(self) }),
    {
        let mut i: usize = 0;
        while i < 80
            invariant
                i <= 80,
                forall|j: int| 0 <= j < i ==> self.memory@[j] == FONT_SET@[j],
                forall|j: int| i <= j < 4096 ==> self.memory@[j] == old(self).memory@[j],
                *self == (Chip8 { memory: self.memory, ..*old(self) }),
            decreases 80 - i,
        {
            self.memory[i] = FONT_SET[i];
            i = i + 1;
        }
        proof {
            assert(final(self).memory@ =~= Seq::new(
                4096,
                |j: int| if j < 80 { FONT_SET@[j] } else { old(self).memory@[j] },
            ));
        }
    }

    /// Reloads the built-in font; memory is otherwise untouched.
    pub fn initialize(&mut self)
        ensures
            final(self).memory@ == Seq::new(
                4096,
                |j: int| if j < 80 { FONT_SET@[j] } else { old(self).memory@[j] },
            ),
            *final(self) == (Chip8 { memory: final(self).memory, ..*old(self) }),
    {
        self.load_font_set();
    }

    /// Copies a program into memory at the program counter. Fails with
    /// `UnableToLoadProgram`, memory untouched, when it does not fit.
    pub fn load_program(&mut self, rom_data: Vec<u8>) -> (r: Result<(), Chip8Error>)
        ensures
            old(self).program_counter + rom_data@.len() <= 4096 ==> {
                &&& r == Ok::<(), Chip8Error>(())
                &&& final(self).memory@ == Seq::new(
                    4096,
                    |j: int| if old(self).program_counter <= j
                        && j < old(self).program_counter + rom_data@.len() {
                        rom_data@[j - old(self).program_counter]
                    } else {
                        old(self).memory@[j]
                    },
                )
                &&& *final(self) == (Chip8 { memory: final(self).memory, ..*old(self) })
            },
            old(self).program_counter + rom_data@.len() > 4096 ==> {
                &&& r == Err::<(), Chip8Error>(Chip8Error::UnableToLoadProgram)
                &&& *final(self) == *old(self)
            },
    {
        let pc = self.program_counter as usize;
        if pc > 4096 || rom_data.len() > 4096 - pc {
            return Err(Chip8Error::UnableToLoadProgram);
        }
        let mut i: usize = 0;
        while i < rom_data.len()
            invariant
                pc == old(self).program_counter,
                pc + rom_data@.len() <= 4096,
                i <= rom_data@.len(),
                forall|j: int| pc <= j < pc + i ==> self.memory@[j] == rom_data@[j - pc],
                forall|j: int| 0 <= j < 4096 && !(pc <= j < pc + i)
                    ==> self.memory@[j] == old(self).memory@[j],
                *self == (Chip8 { memory: self.memory, ..*old(self) }),
            decreases rom_data@.len() - i,
        {
            self.memory[pc + i] = rom_data[i];
            i = i + 1;
        }
        proof {
            assert(final(self).memory@ =~= Seq::new(
                4096,
                |j: int| if old(self).program_counter <= j
                    && j < old(self).program_counter + rom_data@.len() {
                    rom_data@[j - old(self).program_counter]
                } else {
                    old(self).memory@[j]
                },
            ));
        }
        Ok(())
    }

    /// Composes the two memory bytes at the program counter into the
    /// opcode register, big end first.
    fn fetch_opcode(&mut self)
        requires
            old(self).program_counter + 1 < 4096,
        ensures
            final(self)@ == after_fetch(old(self)@),
            *final(self) == (Chip8 { opcode: final(self).opcode, ..*old(self) }),
    {
        self.opcode = (self.memory[self.program_counter as usize] as u16) << 8;
        self.opcode = self.opcode | (self.memory[self.program_counter as usize + 1] as u16);
        proof {
            assert(final(self)@ =~= after_fetch(old(self)@));
        }
    }

    /// 00E0: darkens every framebuffer cell.
    fn clear_display(&mut self)
        ensures
            final(self).graphics@ == blank_screen(),
            *final(self) == (Chip8 { graphics: final(self).graphics, ..*old(self) }),
    {
        let mut i: usize = 0;
        while i < 2048
            invariant
                i <= 2048,
                forall|j: int| 0 <= j < i ==> self.graphics@[j] == 0u8,
                *self == (Chip8 { graphics: self.graphics, ..*old(self) }),
            decreases 2048 - i,
        {
            self.graphics[i] = 0;
            i = i + 1;
        }
        proof {
            assert(final(self).graphics@ =~= blank_screen());
        }
    }

    /// 00EE: pops the stack into the program counter.
    fn return_from_routine(&mut self)
        requires
            1 <= old(self).stack_pointer <= 16,
        ensures
            final(self).stack_pointer == old(self).stack_pointer - 1,
            final(self).program_counter == old(self).stack@[old(self).stack_pointer - 1],
            *final(self) == (Chip8 {
                stack_pointer: final(self).stack_pointer,
                program_counter: final(self).program_counter,
                ..*old(self)
            }),
    {
        self.stack_pointer = self.stack_pointer - 1;
        self.program_counter = self.stack[self.stack_pointer as usize];
    }

    /// 1NNN: jumps to the address.
    fn jump_to_address(&mut self, nnn_address: u16)
        ensures
            *final(self) == (Chip8 { program_counter: nnn_address, ..*old(self) }),
    {
        self.program_counter = nnn_address;
    }

    /// 2NNN: pushes the program counter and jumps to the routine.
    fn jump_to_routine(&mut self, nnn_address: u16)
        requires
            old(self).stack_pointer < 16,
        ensures
            final(self).stack@ == old(self).stack@.update(
                old(self).stack_pointer as int,
                old(self).program_counter,
            ),
            *final(self) == (Chip8 {
                stack: final(self).stack,
                stack_pointer: (old(self).stack_pointer + 1) as u16,
                program_counter: nnn_address,
                ..*old(self)
            }),
    {
        self.stack[self.stack_pointer as usize] = self.program_counter;
        self.stack_pointer = self.stack_pointer + 1;
        self.program_counter = nnn_address;
    }

    /// 3XNN: skips ahead when V[X] equals NN.
    fn skip_instruction_if_vx_equals_nn(&mut self, vx_index: usize, nn_address: u16)
        requires
            vx_index < 16,
            nn_address < 256,
            old(self).program_counter + 2 <= 0xFFFF,
        ensures
            final(self).program_counter == old(self).program_counter
                + (if old(self).v_registers@[vx_index as int] == nn_address as u8 { 2int } else { 0int }),
            *final(self) == (Chip8 { program_counter: final(self).program_counter, ..*old(self) }),
    {
        let v_register_value = self.v_registers[vx_index];
        let value = nn_address as u8;

        if v_register_value == value {
            self.program_counter = self.program_counter + 2;
        }
    }

    /// 4XNN: skips ahead when V[X] differs from NN.
    fn skip_instruction_if_vx_not_equals_nn(&mut self, vx_index: usize, nn_address: u16)
        requires
            vx_index < 16,
            nn_address < 256,
            old(self).program_counter + 2 <= 0xFFFF,
        ensures
            final(self).program_counter == old(self).program_counter
                + (if old(self).v_registers@[vx_index as int] != nn_address as u8 { 2int } else { 0int }),
            *final(self) == (Chip8 { program_counter: final(self).program_counter, ..*old(self) }),
    {
        let v_register_value = self.v_registers[vx_index];
        let value = nn_address as u8;

        if v_register_value != value {
            self.program_counter = self.program_counter + 2;
        }
    }

    /// 5XY0: skips ahead when V[X] equals V[Y].
    fn skip_instruction_if_vx_equals_vy(&mut self, vx_index: usize, vy_index: usize)
        requires
            vx_index < 16,
            vy_index < 16,
            old(self).program_counter + 2 <= 0xFFFF,
        ensures
            final(self).program_counter == old(self).program_counter
                + (if old(self).v_registers@[vx_index as int] == old(self).v_registers@[vy_index as int] {
                    2int
                } else {
                    0int
                }),
            *final(self) == (Chip8 { program_counter: final(self).program_counter, ..*old(self) }),
    {
        let x_register_value = self.v_registers[vx_index];
        let y_register_value = self.v_registers[vy_index];

        if x_register_value == y_register_value {
            self.program_counter = self.program_counter + 2;
        }
    }

    /// 9XY0: skips ahead when V[X] differs from V[Y].
    fn skip_instruction_if_vx_not_equals_vy(&mut self, vx_index: usize, vy_index: usize)
        requires
            vx_index < 16,
            vy_index < 16,
            old(self).program_counter + 2 <= 0xFFFF,
        ensures
            final(self).program_counter == old(self).program_counter
                + (if old(self).v_registers@[vx_index as int] != old(self).v_registers@[vy_index as int] {
                    2int
                } else {
                    0int
                }),
            *final(self) == (Chip8 { program_counter: final(self).program_counter, ..*old(self) }),
    {
        let vy = self.v_registers[vy_index];
        let vx = self.v_registers[vx_index];

        if vx != vy {
            self.program_counter = self.program_counter + 2;
        }
    }

    /// 6XNN: loads NN into V[X].
    fn set_vx_to_nn(&mut self, vx_index: usize, nn_address: u16)
        requires
            vx_index < 16,
            nn_address < 256,
        ensures
            final(self).v_registers@ == old(self).v_registers@.update(
                vx_index as int,
                nn_address as u8,
            ),
            *final(self) == (Chip8 { v_registers: final(self).v_registers, ..*old(self) }),
    {
        let new_v_register_value = nn_address as u8;
        self.v_registers[vx_index] = new_v_register_value;
    }

    /// 7XNN: adds NN to V[X], wrapping, with no flag effect.
    fn add_nn_to_vx(&mut self, vx_index: usize, nn_address: u16)
        requires
            vx_index < 16,
            nn_address < 256,
        ensures
            final(self).v_registers@ == old(self).v_registers@.update(
                vx_index as int,
                ((old(self).v_registers@[vx_index as int] + nn_address) % 256) as u8,
            ),
            *final(self) == (Chip8 { v_registers: final(self).v_registers, ..*old(self) }),
    {
        let sum = self.v_registers[vx_index] as u16 + nn_address;
        self.v_registers[vx_index] = (sum % 256) as u8;
    }

    /// ANNN: loads NNN into the index register.
    fn set_index_register_to_nnn(&mut self, nnn_address: u16)
        ensures
            *final(self) == (Chip8 { index_register: nnn_address, ..*old(self) }),
    {
        self.index_register = nnn_address;
    }

    /// BNNN: jumps to NNN plus V[0].
    fn jump_to_address_nnn_plus_v0(&mut self, nnn_address: u16)
        requires
            nnn_address < 4096,
        ensures
            final(self).program_counter == nnn_address + old(self).v_registers@[0],
            *final(self) == (Chip8 { program_counter: final(self).program_counter, ..*old(self) }),
    {
        let v0_value = self.v_registers[0] as u16;
        self.program_counter = nnn_address + v0_value;
    }

    /// 8XY0: copies V[Y] into V[X].
    fn sets_vx_to_vy(&mut self, vx_index: usize, vy_index: usize)
        requires
            vx_index < 16,
            vy_index < 16,
        ensures
            final(self).v_registers@ == alu_result(
                old(self).v_registers@,
                vx_index as int,
                vy_index as int,
                0,
            ),
            *final(self) == (Chip8 { v_registers: final(self).v_registers, ..*old(self) }),
    {
        self.v_registers[vx_index] = self.v_registers[vy_index];
    }

    /// 8XY1: V[X] |= V[Y].
    fn sets_vx_to_vx_bitwise_or_vy(&mut self, vx_index: usize, vy_index: usize)
        requires
            vx_index < 16,
            vy_index < 16,
        ensures
            final(self).v_registers@ == alu_result(
                old(self).v_registers@,
                vx_index as int,
                vy_index as int,
                1,
            ),
            *final(self) == (Chip8 { v_registers: final(self).v_registers, ..*old(self) }),
    {
        let value = self.v_registers[vx_index] | self.v_registers[vy_index];
        self.v_registers[vx_index] = value;
    }

    /// 8XY2: V[X] &= V[Y].
    fn sets_vx_to_vx_bitwise_and_vy(&mut self, vx_index: usize, vy_index: usize)
        requires
            vx_index < 16,
            vy_index < 16,
        ensures
            final(self).v_registers@ == alu_result(
                old(self).v_registers@,
                vx_index as int,
                vy_index as int,
                2,
            ),
            *final(self) == (Chip8 { v_registers: final(self).v_registers, ..*old(self) }),
    {
        let value = self.v_registers[vx_index] & self.v_registers[vy_index];
        self.v_registers[vx_index] = value;
    }

    /// 8XY3: V[X] ^= V[Y].
    fn sets_vx_to_vx_bitwise_xor_vy(&mut self, vx_index: usize, vy_index: usize)
        requires
            vx_index < 16,
            vy_index < 16,
        ensures
            final(self).v_registers@ == alu_result(
                old(self).v_registers@,
                vx_index as int,
                vy_index as int,
                3,
            ),
            *final(self) == (Chip8 { v_registers: final(self).v_registers, ..*old(self) }),
    {
        let value = self.v_registers[vx_index] ^ self.v_registers[vy_index];
        self.v_registers[vx_index] = value;
    }

    /// 8XY4: V[X] += V[Y], wrapping; a carry sets VF, no carry leaves it.
    fn adds_vy_to_vx_setting_vf_on_borrow(&mut self, vx_index: usize, vy_index: usize)
        requires
            vx_index < 16,
            vy_index < 16,
        ensures
            final(self).v_registers@ == alu_result(
                old(self).v_registers@,
                vx_index as int,
                vy_index as int,
                4,
            ),
            *final(self) == (Chip8 { v_registers: final(self).v_registers, ..*old(self) }),
    {
        let vy = self.v_registers[vy_index];
        let vx = self.v_registers[vx_index];

        let sum = vx as u16 + vy as u16;
        if sum >= 256 {
            self.v_registers[15] = 1;
        }
        self.v_registers[vx_index] = (sum % 256) as u8;
    }

    /// 8XY5: V[X] -= V[Y], wrapping; a borrow sets VF, no borrow leaves it.
    fn subtracts_vy_from_vx_setting_vf_on_borrow(&mut self, vx_index: usize, vy_index: usize)
        requires
            vx_index < 16,
            vy_index < 16,
        ensures
            final(self).v_registers@ == alu_result(
                old(self).v_registers@,
                vx_index as int,
                vy_index as int,
                5,
            ),
            *final(self) == (Chip8 { v_registers: final(self).v_registers, ..*old(self) }),
    {
        let vy = self.v_registers[vy_index];
        let vx = self.v_registers[vx_index];

        if vx < vy {
            self.v_registers[15] = 1;
        }
        let result = if vx >= vy {
            vx - vy
        } else {
            ((vx as u16 + 256) - vy as u16) as u8
        };
        self.v_registers[vx_index] = result;
    }

    /// 8XY6: VF takes V[X]'s low bit, then V[X] shifts right once.
    fn store_lsb_of_vx_in_vf_shifting_vx_by_1(&mut self, vx_index: usize)
        requires
            vx_index < 16,
        ensures
            final(self).v_registers@ == alu_result(
                old(self).v_registers@,
                vx_index as int,
                0,
                6,
            ),
            *final(self) == (Chip8 { v_registers: final(self).v_registers, ..*old(self) }),
    {
        let vx = self.v_registers[vx_index];
        self.v_registers[15] = vx & 1;
        let current = self.v_registers[vx_index];
        self.v_registers[vx_index] = current >> 1;
    }

    /// 8XY7: V[X] = V[Y] - V[X], wrapping; VF records the borrow on both
    /// branches.
    fn set_vx_to_vy_minus_vx_setting_vf_on_borrow(&mut self, vx_index: usize, vy_index: usize)
        requires
            vx_index < 16,
            vy_index < 16,
        ensures
            final(self).v_registers@ == alu_result(
                old(self).v_registers@,
                vx_index as int,
                vy_index as int,
                7,
            ),
            *final(self) == (Chip8 { v_registers: final(self).v_registers, ..*old(self) }),
    {
        let vy = self.v_registers[vy_index];
        let vx = self.v_registers[vx_index];

        if vy < vx {
            self.v_registers[15] = 1;
        } else {
            self.v_registers[15] = 0;
        }
        let result = if vy >= vx {
            vy - vx
        } else {
            ((vy as u16 + 256) - vx as u16) as u8
        };
        self.v_registers[vx_index] = result;
        proof {
            assert(final(self).v_registers@ =~= alu_result(
                old(self).v_registers@,
                vx_index as int,
                vy_index as int,
                7,
            ));
        }
    }

    /// 8XYE: VF takes V[X]'s high bit, then V[X] shifts left once.
    fn store_msb_of_vx_in_vf_shifting_vx_by_1(&mut self, vx_index: usize)
        requires
            vx_index < 16,
        ensures
            final(self).v_registers@ == alu_result(
                old(self).v_registers@,
                vx_index as int,
                0,
                0xE,
            ),
            *final(self) == (Chip8 { v_registers: final(self).v_registers, ..*old(self) }),
    {
        let vx_msb = self.v_registers[vx_index] >> 7;
        self.v_registers[15] = vx_msb;
        let current = self.v_registers[vx_index];
        self.v_registers[vx_index] = ((current as u16 * 2) % 256) as u8;
    }

    /// DXYN: draws the N-row sprite at the index register to the screen
    /// position (V[X], V[Y]), wrapping at the edges. Each set sprite bit
    /// toggles its cell; VF starts the instruction at 0 and becomes 1
    /// the moment a lit cell is toggled off.
    fn set_graphics(&mut self, vx_index: usize, vy_index: usize, n_address: u16)
        requires
            vx_index < 16,
            vy_index < 16,
            n_address < 16,
            old(self).index_register + n_address <= 4096,
        ensures
            ({
                let drawn = crate::model::draw_fold(
                    old(self).graphics@,
                    0u8,
                    old(self).memory@,
                    old(self).index_register as int,
                    old(self).v_registers@[vx_index as int],
                    old(self).v_registers@[vy_index as int],
                    8 * n_address as int,
                );
                &&& final(self).graphics@ == drawn.0
                &&& final(self).v_registers@ == old(self).v_registers@.update(15, drawn.1)
            }),
            *final(self) == (Chip8 {
                graphics: final(self).graphics,
                v_registers: final(self).v_registers,
                ..*old(self)
            }),
    {
        let vx = self.v_registers[vx_index];
        let vy = self.v_registers[vy_index];
        let base = self.index_register as usize;
        let n = n_address as usize;

        self.v_registers[15] = 0;
        let mut row: usize = 0;
        while row < n
            invariant
                vx == old(self).v_registers@[vx_index as int],
                vy == old(self).v_registers@[vy_index as int],
                base == old(self).index_register,
                base + n <= 4096,
                n == n_address,
                n < 16,
                row <= n,
                ({
                    let drawn = crate::model::draw_fold(
                        old(self).graphics@,
                        0u8,
                        old(self).memory@,
                        base as int,
                        vx,
                        vy,
                        8 * row as int,
                    );
                    &&& self.graphics@ == drawn.0
                    &&& self.v_registers@ == old(self).v_registers@.update(15, drawn.1)
                }),
                *self == (Chip8 {
                    graphics: self.graphics,
                    v_registers: self.v_registers,
                    ..*old(self)
                }),
            decreases n - row,
        {
            let byte = self.memory[base + row];
            let mut col: usize = 0;
            while col < 8
                invariant
                    vx == old(self).v_registers@[vx_index as int],
                    vy == old(self).v_registers@[vy_index as int],
                    base == old(self).index_register,
                    base + n <= 4096,
                    n == n_address,
                    n < 16,
                    row < n,
                    col <= 8,
                    byte == old(self).memory@[base + row],
                    ({
                        let drawn = crate::model::draw_fold(
                            old(self).graphics@,
                            0u8,
                            old(self).memory@,
                            base as int,
                            vx,
                            vy,
                            8 * row as int + col as int,
                        );
                        &&& self.graphics@ == drawn.0
                        &&& self.v_registers@ == old(self).v_registers@.update(15, drawn.1)
                    }),
                    *self == (Chip8 {
                        graphics: self.graphics,
                        v_registers: self.v_registers,
                        ..*old(self)
                    }),
                decreases 8 - col,
            {
                let ghost t: int = 8 * row as int + col as int;
                proof {
                    assert((t + 1 - 1) / 8 == row as int && (t + 1 - 1) % 8 == col as int);
                }
                let mask = 0x80u8 >> (col as u8);
                if byte & mask > 0 {
                    let px = (vx as usize + col) % 64;
                    let py = (vy as usize + row) % 32;
                    let cell_index = px + py * 64;
                    let cell = self.graphics[cell_index];
                    if cell == 1 {
                        self.v_registers[15] = 1;
                    }
                    self.graphics[cell_index] = cell ^ 1;
                }
                col = col + 1;
                proof {
                    let drawn = crate::model::draw_fold(
                        old(self).graphics@,
                        0u8,
                        old(self).memory@,
                        base as int,
                        vx,
                        vy,
                        t + 1,
                    );
                    assert(self.graphics@ =~= drawn.0);
                    assert(self.v_registers@ =~= old(self).v_registers@.update(15, drawn.1));
                }
            }
            row = row + 1;
        }
    }

    /// EX9E: skips ahead when key V[X] is pressed.
    fn skips_instruction_if_vx_key_is_pressed(&mut self, vx_index: usize)
        requires
            vx_index < 16,
            old(self).v_registers@[vx_index as int] < 16,
            old(self).program_counter + 2 <= 0xFFFF,
        ensures
            final(self).program_counter == old(self).program_counter
                + (if old(self).keyboard@[old(self).v_registers@[vx_index as int] as int] == 1 {
                    2int
                } else {
                    0int
                }),
            *final(self) == (Chip8 { program_counter: final(self).program_counter, ..*old(self) }),
    {
        let vx_value = self.v_registers[vx_index];
        if self.keyboard[vx_value as usize] == 1 {
            self.program_counter = self.program_counter + 2;
        }
    }

    /// EXA1: skips ahead when key V[X] is not pressed.
    fn skips_instruction_if_vx_key_is_not_pressed(&mut self, vx_index: usize)
        requires
            vx_index < 16,
            old(self).v_registers@[vx_index as int] < 16,
            old(self).program_counter + 2 <= 0xFFFF,
        ensures
            final(self).program_counter == old(self).program_counter
                + (if old(self).keyboard@[old(self).v_registers@[vx_index as int] as int] == 0 {
                    2int
                } else {
                    0int
                }),
            *final(self) == (Chip8 { program_counter: final(self).program_counter, ..*old(self) }),
    {
        let vx_value = self.v_registers[vx_index];
        if self.keyboard[vx_value as usize] == 0 {
            self.program_counter = self.program_counter + 2;
        }
    }

    /// CXNN: draws a byte from the number source and stores it, masked
    /// with NN, in V[X]. The number source's failure is handed back with
    /// the machine untouched.
    fn set_vx_to_random_number_bitwise_and_nn(
        &mut self,
        vx_index: usize,
        nn_address: u16,
    ) -> (r: Result<(), Chip8Error>)
        requires
            vx_index < 16,
            nn_address < 256,
        ensures
            r is Ok ==> {
                &&& final(self).v_registers@ == old(self).v_registers@.update(
                    vx_index as int,
                    final(self).v_registers@[vx_index as int],
                )
                &&& final(self).v_registers@[vx_index as int]
                    == final(self).v_registers@[vx_index as int] & (nn_address as u8)
                &&& *final(self) == (Chip8 { v_registers: final(self).v_registers, ..*old(self) })
            },
            r is Err ==> *final(self) == *old(self),
    {
        let opcode_value = nn_address as u8;
        let random_number = match self.random_number_generator.generate() {
            Ok(byte) => byte,
            Err(e) => {
                return Err(e);
            },
        };
        let masked = random_number & opcode_value;
        proof {
            assert(masked & opcode_value == masked) by (bit_vector)
                requires
                    masked == random_number & opcode_value,
            ;
        }
        self.v_registers[vx_index] = masked;
        Ok(())
    }

    /// FX07: copies the delay timer into V[X].
    fn sets_vx_to_delay_timer(&mut self, vx_index: usize)
        requires
            vx_index < 16,
        ensures
            final(self).v_registers@ == old(self).v_registers@.update(
                vx_index as int,
                old(self).delay_timer,
            ),
            *final(self) == (Chip8 { v_registers: final(self).v_registers, ..*old(self) }),
    {
        self.v_registers[vx_index] = self.delay_timer;
    }

    /// FX0A: blocks on the keyboard source and stores the pressed key's
    /// code in V[X].
    fn sets_vx_to_key_press(&mut self, vx_index: usize)
        requires
            vx_index < 16,
        ensures
            final(self).v_registers@ == old(self).v_registers@.update(
                vx_index as int,
                final(self).v_registers@[vx_index as int],
            ),
            *final(self) == (Chip8 {
                v_registers: final(self).v_registers,
                keyboard_device: final(self).keyboard_device,
                ..*old(self)
            }),
    {
        self.v_registers[vx_index] = self.keyboard_device.wait_next_key_press();
    }

    /// FX15: loads the delay timer from V[X].
    fn sets_delay_timer_to_vx(&mut self, vx_index: usize)
        requires
            vx_index < 16,
        ensures
            *final(self) == (Chip8 {
                delay_timer: old(self).v_registers@[vx_index as int],
                ..*old(self)
            }),
    {
        self.delay_timer = self.v_registers[vx_index];
    }

    /// FX18: loads the sound timer from V[X].
    fn sets_sound_timer_to_vx(&mut self, vx_index: usize)
        requires
            vx_index < 16,
        ensures
            *final(self) == (Chip8 {
                sound_timer: old(self).v_registers@[vx_index as int],
                ..*old(self)
            }),
    {
        self.sound_timer = self.v_registers[vx_index];
    }

    /// FX1E: adds V[X] to the index register, wrapping at 16 bits.
    fn adds_vx_to_i(&mut self, vx_index: usize)
        requires
            vx_index < 16,
        ensures
            final(self).index_register == (old(self).index_register
                + old(self).v_registers@[vx_index as int]) % 0x10000,
            *final(self) == (Chip8 { index_register: final(self).index_register, ..*old(self) }),
    {
        let sum = self.index_register as u32 + self.v_registers[vx_index] as u32;
        self.index_register = (sum % 0x10000) as u16;
    }

    /// FX29: points the index register at the font glyph for digit V[X],
    /// five bytes per glyph from address zero.
    fn sets_i_to_vx(&mut self, vx_index: usize)
        requires
            vx_index < 16,
        ensures
            final(self).index_register == old(self).v_registers@[vx_index as int] * 5,
            *final(self) == (Chip8 { index_register: final(self).index_register, ..*old(self) }),
    {
        self.index_register = self.v_registers[vx_index] as u16 * 5;
    }

    /// FX33: writes the decimal digits of V[X] — hundreds, tens, ones —
    /// to memory at the index register.
    fn store_bcd_of_vx_from_i(&mut self, vx_index: usize)
        requires
            vx_index < 16,
            old(self).index_register + 2 < 4096,
        ensures
            final(self).memory@ == old(self).memory@
                .update(old(self).index_register as int,
                    (old(self).v_registers@[vx_index as int] / 100) as u8)
                .update(old(self).index_register + 1,
                    ((old(self).v_registers@[vx_index as int] / 10) % 10) as u8)
                .update(old(self).index_register + 2,
                    (old(self).v_registers@[vx_index as int] % 10) as u8),
            *final(self) == (Chip8 { memory: final(self).memory, ..*old(self) }),
    {
        let vx_value = self.v_registers[vx_index];

        self.memory[self.index_register as usize] = vx_value / 100;
        self.memory[self.index_register as usize + 1] = (vx_value / 10) % 10;
        self.memory[self.index_register as usize + 2] = vx_value % 10;
    }

    /// FX55: copies V[0]..=V[X] into memory at the index register, which
    /// is left unchanged.
    fn stores_v0_to_vx_in_memory_from_i(&mut self, vx_index: usize)
        requires
            vx_index < 16,
            old(self).index_register + vx_index < 4096,
        ensures
            final(self).memory@ == crate::model::store_regs(
                old(self).memory@,
                old(self).v_registers@,
                old(self).index_register as int,
                vx_index as int,
            ),
            *final(self) == (Chip8 { memory: final(self).memory, ..*old(self) }),
    {
        let base = self.index_register as usize;
        let mut k: usize = 0;
        while k <= vx_index
            invariant
                vx_index < 16,
                base == old(self).index_register,
                base + vx_index < 4096,
                k <= vx_index + 1,
                forall|j: int| base <= j < base + k ==> self.memory@[j]
                    == old(self).v_registers@[j - base],
                forall|j: int| 0 <= j < 4096 && !(base <= j < base + k)
                    ==> self.memory@[j] == old(self).memory@[j],
                *self == (Chip8 { memory: self.memory, ..*old(self) }),
            decreases vx_index + 1 - k,
        {
            self.memory[base + k] = self.v_registers[k];
            k = k + 1;
        }
        proof {
            assert(final(self).memory@ =~= crate::model::store_regs(
                old(self).memory@,
                old(self).v_registers@,
                old(self).index_register as int,
                vx_index as int,
            ));
        }
    }

    /// FX65: copies memory at the index register into V[0]..=V[X]; the
    /// index register is left unchanged.
    fn writes_v0_to_vx_from_memory_i(&mut self, vx_index: usize)
        requires
            vx_index < 16,
            old(self).index_register + vx_index < 4096,
        ensures
            final(self).v_registers@ == crate::model::load_regs(
                old(self).v_registers@,
                old(self).memory@,
                old(self).index_register as int,
                vx_index as int,
            ),
            *final(self) == (Chip8 { v_registers: final(self).v_registers, ..*old(self) }),
    {
        let base = self.index_register as usize;
        let mut k: usize = 0;
        while k <= vx_index
            invariant
                vx_index < 16,
                base == old(self).index_register,
                base + vx_index < 4096,
                k <= vx_index + 1,
                forall|j: int| 0 <= j < k ==> self.v_registers@[j] == old(self).memory@[base + j],
                forall|j: int| k <= j < 16 ==> self.v_registers@[j] == old(self).v_registers@[j],
                *self == (Chip8 { v_registers: self.v_registers, ..*old(self) }),
            decreases vx_index + 1 - k,
        {
            self.v_registers[k] = self.memory[base + k];
            k = k + 1;
        }
        proof {
            assert(final(self).v_registers@ =~= crate::model::load_regs(
                old(self).v_registers@,
                old(self).memory@,
                old(self).index_register as int,
                vx_index as int,
            ));
        }
    }

    /// Decodes the opcode register and executes the one instruction it
    /// holds, then advances the program counter unless the instruction
    /// was a jump or a call. An unrecognized pattern, an empty-stack
    /// return or a full-stack call fails with the machine untouched; so
    /// does a failing number source.
    fn interpret_opcode(&mut self) -> (r: Result<(), Chip8Error>)
        requires
            crate::model::step_ok(old(self)@),
        ensures
            crate::model::step_fault(old(self)@) ==> {
                &&& r == Err::<(), Chip8Error>(crate::model::fault_error(old(self)@))
                &&& *final(self) == *old(self)
            },
            !crate::model::step_fault(old(self)@) && !crate::model::uses_random(old(self).opcode)
                ==> r == Ok::<(), Chip8Error>(()) && crate::model::op_step(old(self)@, final(self)@),
            !crate::model::step_fault(old(self)@) && crate::model::uses_random(old(self).opcode)
                ==> {
                    ||| (r == Ok::<(), Chip8Error>(()) && crate::model::op_step(old(self)@, final(self)@))
                    ||| (r is Err && *final(self) == *old(self))
                },
            final(self).random_number_generator == old(self).random_number_generator,
            final(self).audio_device == old(self).audio_device,
            final(self).graphics_device == old(self).graphics_device,
            !crate::model::waits_key(old(self).opcode)
                ==> final(self).keyboard_device == old(self).keyboard_device,
    {
        let opcode = self.opcode;
        let leading = (opcode & 0xF000) >> 12;
        let vx_index = ((opcode & 0x0F00) >> 8) as usize;
        let vy_index = ((opcode & 0x00F0) >> 4) as usize;
        let nnn_address = opcode & 0x0FFF;
        let nn_address = opcode & 0x00FF;
        let n_address = opcode & 0x000F;
        proof {
            crate::model::lemma_op_fields(opcode);
        }

        if leading == 0x0 {
            if opcode == 0x00E0 {
                self.clear_display();
            } else if opcode == 0x00EE {
                if self.stack_pointer == 0 {
                    return Err(Chip8Error::StackUnderflow);
                }
                self.return_from_routine();
            } else {
                return Err(Chip8Error::InvalidOpcode(opcode));
            }
        } else if leading == 0x1 {
            self.jump_to_address(nnn_address);
        } else if leading == 0x2 {
            if self.stack_pointer >= 16 {
                return Err(Chip8Error::StackExhausted);
            }
            self.jump_to_routine(nnn_address);
        } else if leading == 0x3 {
            self.skip_instruction_if_vx_equals_nn(vx_index, nn_address);
        } else if leading == 0x4 {
            self.skip_instruction_if_vx_not_equals_nn(vx_index, nn_address);
        } else if leading == 0x5 {
            if n_address != 0 {
                return Err(Chip8Error::InvalidOpcode(opcode));
            }
            self.skip_instruction_if_vx_equals_vy(vx_index, vy_index);
        } else if leading == 0x6 {
            self.set_vx_to_nn(vx_index, nn_address);
        } else if leading == 0x7 {
            self.add_nn_to_vx(vx_index, nn_address);
        } else if leading == 0x8 {
            if n_address == 0x0 {
                self.sets_vx_to_vy(vx_index, vy_index);
            } else if n_address == 0x1 {
                self.sets_vx_to_vx_bitwise_or_vy(vx_index, vy_index);
            } else if n_address == 0x2 {
                self.sets_vx_to_vx_bitwise_and_vy(vx_index, vy_index);
            } else if n_address == 0x3 {
                self.sets_vx_to_vx_bitwise_xor_vy(vx_index, vy_index);
            } else if n_address == 0x4 {
                self.adds_vy_to_vx_setting_vf_on_borrow(vx_index, vy_index);
            } else if n_address == 0x5 {
                self.subtracts_vy_from_vx_setting_vf_on_borrow(vx_index, vy_index);
            } else if n_address == 0x6 {
                self.store_lsb_of_vx_in_vf_shifting_vx_by_1(vx_index);
            } else if n_address == 0x7 {
                self.set_vx_to_vy_minus_vx_setting_vf_on_borrow(vx_index, vy_index);
            } else if n_address == 0xE {
                self.store_msb_of_vx_in_vf_shifting_vx_by_1(vx_index);
            } else {
                return Err(Chip8Error::InvalidOpcode(opcode));
            }
        } else if leading == 0x9 {
            if n_address != 0 {
                return Err(Chip8Error::InvalidOpcode(opcode));
            }
            self.skip_instruction_if_vx_not_equals_vy(vx_index, vy_index);
        } else if leading == 0xA {
            self.set_index_register_to_nnn(nnn_address);
        } else if leading == 0xB {
            self.jump_to_address_nnn_plus_v0(nnn_address);
        } else if leading == 0xC {
            match self.set_vx_to_random_number_bitwise_and_nn(vx_index, nn_address) {
                Ok(()) => {},
                Err(e) => {
                    return Err(e);
                },
            }
        } else if leading == 0xD {
            self.set_graphics(vx_index, vy_index, n_address);
        } else if leading == 0xE {
            if nn_address == 0x9E {
                self.skips_instruction_if_vx_key_is_pressed(vx_index);
            } else if nn_address == 0xA1 {
                self.skips_instruction_if_vx_key_is_not_pressed(vx_index);
            } else {
                return Err(Chip8Error::InvalidOpcode(opcode));
            }
        } else {
            if nn_address == 0x07 {
                self.sets_vx_to_delay_timer(vx_index);
            } else if nn_address == 0x0A {
                self.sets_vx_to_key_press(vx_index);
            } else if nn_address == 0x15 {
                self.sets_delay_timer_to_vx(vx_index);
            } else if nn_address == 0x18 {
                self.sets_sound_timer_to_vx(vx_index);
            } else if nn_address == 0x1E {
                self.adds_vx_to_i(vx_index);
            } else if nn_address == 0x29 {
                self.sets_i_to_vx(vx_index);
            } else if nn_address == 0x33 {
                self.store_bcd_of_vx_from_i(vx_index);
            } else if nn_address == 0x55 {
                self.stores_v0_to_vx_in_memory_from_i(vx_index);
            } else if nn_address == 0x65 {
                self.writes_v0_to_vx_from_memory_i(vx_index);
            } else {
                return Err(Chip8Error::InvalidOpcode(opcode));
            }
        }

        if !(leading == 0x1 || leading == 0x2 || leading == 0xB) {
            self.program_counter = self.program_counter + 2;
        }

        proof {
            let f = old(self)@;
            if crate::model::uses_random(f.opcode) {
                assert(self@ =~= (Vm {
                    v_registers: self@.v_registers,
                    program_counter: (f.program_counter + 2) as u16,
                    ..f
                }));
            } else if crate::model::waits_key(f.opcode) {
                assert(self@ =~= (Vm {
                    v_registers: self@.v_registers,
                    program_counter: (f.program_counter + 2) as u16,
                    ..f
                }));
            } else {
                assert(self@ =~= crate::model::det_step(f));
            }
        }
        Ok(())
    }

    /// Runs one cycle: fetches and executes the instruction at the
    /// program counter, hands the framebuffer to the graphics sink,
    /// ticks the timers, and lets the keyboard source refresh the key
    /// states. Returns whether the host asked to exit, or the first
    /// error met, which ends the cycle where it stood.
    pub fn emulate_cycle(&mut self) -> (r: Result<State, Chip8Error>)
        requires
            old(self).program_counter + 1 < 4096,
            crate::model::step_ok(after_fetch(old(self)@)),
        ensures
            final(self).opcode == crate::model::fetch_spec(old(self)@),
            crate::model::step_fault(after_fetch(old(self)@)) ==> {
                &&& r == Err::<State, Chip8Error>(
                    crate::model::fault_error(after_fetch(old(self)@)),
                )
                &&& final(self)@ == after_fetch(old(self)@)
            },
            !crate::model::step_fault(after_fetch(old(self)@)) ==> {
                ||| (crate::model::uses_random(crate::model::fetch_spec(old(self)@))
                    && r is Err && final(self)@ == after_fetch(old(self)@))
                ||| crate::model::cycle_ok(after_fetch(old(self)@), final(self)@, r)
            },
            final(self).random_number_generator == old(self).random_number_generator,
            final(self).audio_device == old(self).audio_device,
    {
        self.fetch_opcode();
        let ghost f = self@;

        match self.interpret_opcode() {
            Ok(()) => {},
            Err(e) => {
                return Err(e);
            },
        }
        let ghost s1 = self@;
        proof {
            crate::model::lemma_op_step_frame(f, s1);
        }

        match self.graphics_device.draw(&self.graphics) {
            Ok(()) => {},
            Err(e) => {
                return Err(e);
            },
        }

        match self.update_timers() {
            Ok(()) => {},
            Err(e) => {
                proof {
                    assert(crate::model::mid_of(f, self@) =~= s1);
                }
                return Err(e);
            },
        }
        let ghost s3 = self@;
        proof {
            assert(crate::model::mid_of(f, s3) =~= s1);
        }

        let state = match self.keyboard_device.update_state(&mut self.keyboard) {
            true => State::Exit,
            false => State::Continue,
        };
        proof {
            assert(crate::model::mid_of(f, self@) =~= s1);
        }

        Ok(state)
    }

    /// Ticks both timers down once; a sound timer hitting zero triggers
    /// the audio device, whose failure leaves the sound timer at one.
    fn update_timers(&mut self) -> (r: Result<(), Chip8Error>)
        ensures
            final(self).delay_timer == ticked(old(self).delay_timer),
            r is Ok ==> *final(self) == (Chip8 {
                delay_timer: final(self).delay_timer,
                sound_timer: ticked(old(self).sound_timer),
                ..*old(self)
            }),
            r is Err ==> old(self).sound_timer == 1 && *final(self) == (Chip8 {
                delay_timer: final(self).delay_timer,
                ..*old(self)
            }),
            old(self).sound_timer != 1 ==> r is Ok,
    {
        if self.delay_timer > 0 {
            self.delay_timer = self.delay_timer - 1;
        }

        if self.sound_timer > 0 {
            if self.sound_timer == 1 {
                match self.audio_device.play() {
                    Ok(()) => {},
                    Err(e) => {
                        return Err(e);
                    },
                }
            }
            self.sound_timer = self.sound_timer - 1;
        }
        Ok(())
    }
}

} // verus!
