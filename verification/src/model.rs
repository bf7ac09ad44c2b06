//! The mathematical model of the machine: an abstract state [`Vm`], the
//! decoding of opcode fields, and a transition function giving the exact
//! effect of every instruction. The contracts of the executable
//! interpreter are stated over this model.

use vstd::prelude::*;

use crate::errors::Chip8Error;

verus! {

/// The abstract machine state: what one cycle reads and writes.
#[verifier::ext_equal]
pub struct Vm {
    pub delay_timer: u8,
    pub graphics: Seq<u8>,
    pub index_register: u16,
    pub keyboard: Seq<u8>,
    pub memory: Seq<u8>,
    pub opcode: u16,
    pub program_counter: u16,
    pub sound_timer: u8,
    pub stack: Seq<u16>,
    pub stack_pointer: u16,
    pub v_registers: Seq<u8>,
}

/// The collections have their fixed machine sizes.
pub open spec fn wf(vm: Vm) -> bool {
    &&& vm.memory.len() == 4096
    &&& vm.graphics.len() == 2048
    &&& vm.stack.len() == 16
    &&& vm.keyboard.len() == 16
    &&& vm.v_registers.len() == 16
}

/// The machine as construction leaves it: everything zeroed, the program
/// counter at the load address, and the font in the first 80 bytes.
pub open spec fn boot_state() -> Vm {
    Vm {
        delay_timer: 0,
        graphics: blank_screen(),
        index_register: 0,
        keyboard: Seq::new(16, |i: int| 0u8),
        memory: Seq::new(4096, |i: int| if i < 80 { crate::font::FONT_SET@[i] } else { 0u8 }),
        opcode: 0,
        program_counter: 0x200,
        sound_timer: 0,
        stack: Seq::new(16, |i: int| 0u16),
        stack_pointer: 0,
        v_registers: Seq::new(16, |i: int| 0u8),
    }
}

// ---------------------------------------------------------------------
// Decoding: the five reusable fields of a 16-bit opcode.

/// The leading nibble, selecting the instruction family.
pub open spec fn op_family(op: u16) -> u16 {
    (op & 0xF000) >> 12
}

/// X, the index of the first register operand (bits 8-11).
pub open spec fn op_x(op: u16) -> u16 {
    (op & 0x0F00) >> 8
}

/// Y, the index of the second register operand (bits 4-7).
pub open spec fn op_y(op: u16) -> u16 {
    (op & 0x00F0) >> 4
}

/// N, the 4-bit immediate (sprite height).
pub open spec fn op_n(op: u16) -> u16 {
    op & 0x000F
}

/// NN, the 8-bit immediate.
pub open spec fn op_nn(op: u16) -> u16 {
    op & 0x00FF
}

/// NNN, the 12-bit address immediate.
pub open spec fn op_nnn(op: u16) -> u16 {
    op & 0x0FFF
}

/// Ranges of the decoded fields.
pub proof fn lemma_op_fields(op: u16)
    by (bit_vector)
    ensures
        op_family(op) < 16,
        op_x(op) < 16,
        op_y(op) < 16,
        op_n(op) < 16,
        op_nn(op) < 256,
        op_nnn(op) < 4096,
        op == 0x00E0 ==> op_family(op) == 0,
        op == 0x00EE ==> op_family(op) == 0,
{
}

// ---------------------------------------------------------------------
// Classification of opcodes.

/// Whether the 16-bit pattern is an instruction at all.
pub open spec fn recognized(op: u16) -> bool {
    let fam = op_family(op);
    if fam == 0x0 {
        op == 0x00E0 || op == 0x00EE
    } else if fam == 0x5 {
        op_n(op) == 0
    } else if fam == 0x8 {
        op_n(op) <= 7 || op_n(op) == 0xE
    } else if fam == 0x9 {
        op_n(op) == 0
    } else if fam == 0xE {
        op_nn(op) == 0x9E || op_nn(op) == 0xA1
    } else if fam == 0xF {
        ||| op_nn(op) == 0x07
        ||| op_nn(op) == 0x0A
        ||| op_nn(op) == 0x15
        ||| op_nn(op) == 0x18
        ||| op_nn(op) == 0x1E
        ||| op_nn(op) == 0x29
        ||| op_nn(op) == 0x33
        ||| op_nn(op) == 0x55
        ||| op_nn(op) == 0x65
    } else {
        true
    }
}

/// Jumps, calls and the offset jump set the program counter directly:
/// no advance follows them.
pub open spec fn is_jump(op: u16) -> bool {
    op_family(op) == 0x1 || op_family(op) == 0x2 || op_family(op) == 0xB
}

/// The skip instructions: advance by 4 when their condition holds, 2 otherwise.
pub open spec fn is_skip(op: u16) -> bool {
    ||| op_family(op) == 0x3
    ||| op_family(op) == 0x4
    ||| op_family(op) == 0x5
    ||| op_family(op) == 0x9
    ||| op_family(op) == 0xE
}

/// CXNN draws from the number source.
pub open spec fn uses_random(op: u16) -> bool {
    op_family(op) == 0xC
}

/// FX0A blocks on the keyboard source.
pub open spec fn waits_key(op: u16) -> bool {
    op_family(op) == 0xF && op_nn(op) == 0x0A
}

/// FX15 loads the delay timer from V[X].
pub open spec fn sets_delay(op: u16) -> bool {
    op_family(op) == 0xF && op_nn(op) == 0x15
}

/// FX18 loads the sound timer from V[X].
pub open spec fn sets_sound(op: u16) -> bool {
    op_family(op) == 0xF && op_nn(op) == 0x18
}

/// Whether a skip instruction's condition holds in this state.
pub open spec fn skip_taken(vm: Vm) -> bool {
    let op = vm.opcode;
    let fam = op_family(op);
    let vx = vm.v_registers[op_x(op) as int];
    let vy = vm.v_registers[op_y(op) as int];
    if fam == 0x3 {
        vx == op_nn(op) as u8
    } else if fam == 0x4 {
        vx != op_nn(op) as u8
    } else if fam == 0x5 {
        vx == vy
    } else if fam == 0x9 {
        vx != vy
    } else {
        // EX9E / EXA1: key V[X] pressed, or not pressed
        if op_nn(op) == 0x9E {
            vm.keyboard[vx as int] == 1
        } else {
            vm.keyboard[vx as int] == 0
        }
    }
}

// ---------------------------------------------------------------------
// Faults: conditions on which dispatch returns an error and the state
// stays as it was.

/// A return with an empty stack, or a call with all sixteen slots full.
pub open spec fn stack_fault(vm: Vm) -> bool {
    ||| (vm.opcode == 0x00EE && vm.stack_pointer == 0)
    ||| (op_family(vm.opcode) == 0x2 && vm.stack_pointer >= 16)
}

/// Dispatch fails: the pattern is no instruction, or the stack cannot
/// take the call or the return.
pub open spec fn step_fault(vm: Vm) -> bool {
    !recognized(vm.opcode) || stack_fault(vm)
}

/// The error dispatch returns when `step_fault` holds.
pub open spec fn fault_error(vm: Vm) -> Chip8Error {
    if !recognized(vm.opcode) {
        Chip8Error::InvalidOpcode(vm.opcode)
    } else if vm.opcode == 0x00EE {
        Chip8Error::StackUnderflow
    } else {
        Chip8Error::StackExhausted
    }
}

// ---------------------------------------------------------------------
// What executing one instruction needs of the state, beyond what the
// fault checks catch: every memory access lands inside the machine.

/// Bounds under which dispatch cannot reach past the machine's arrays.
pub open spec fn step_ok(vm: Vm) -> bool {
    let op = vm.opcode;
    let fam = op_family(op);
    &&& wf(vm)
    &&& vm.program_counter + 4 <= 0xFFFF
    &&& op == 0x00EE ==> (vm.stack_pointer <= 16 && (vm.stack_pointer >= 1
        ==> vm.stack[vm.stack_pointer - 1] + 2 <= 0xFFFF))
    &&& fam == 0xE ==> vm.v_registers[op_x(op) as int] < 16
    &&& fam == 0xD ==> vm.index_register + op_n(op) <= 4096
    &&& (fam == 0xF && op_nn(op) == 0x33) ==> vm.index_register + 2 < 4096
    &&& (fam == 0xF && (op_nn(op) == 0x55 || op_nn(op) == 0x65))
        ==> vm.index_register + op_x(op) < 4096
}

// ---------------------------------------------------------------------
// The effect of each instruction.

/// An all-dark framebuffer.
pub open spec fn blank_screen() -> Seq<u8> {
    Seq::new(2048, |i: int| 0u8)
}

/// 8-bit wrapping difference a - b.
pub open spec fn sub_wrap(a: u8, b: u8) -> u8 {
    if a >= b {
        (a - b) as u8
    } else {
        (a + 256 - b) as u8
    }
}

/// The register file after an 8XYk arithmetic/logic instruction.
/// The flag register is written first, the result second, exactly as the
/// interpreter does, so the two writes collide the same way when X = F.
pub open spec fn alu_result(v: Seq<u8>, x: int, y: int, k: u16) -> Seq<u8> {
    let vx = v[x];
    let vy = v[y];
    if k == 0 {
        v.update(x, vy)
    } else if k == 1 {
        v.update(x, vx | vy)
    } else if k == 2 {
        v.update(x, vx & vy)
    } else if k == 3 {
        v.update(x, vx ^ vy)
    } else if k == 4 {
        // carry sets VF; no carry leaves VF as it was
        let base = if vx + vy >= 256 { v.update(15, 1u8) } else { v };
        base.update(x, ((vx + vy) % 256) as u8)
    } else if k == 5 {
        // borrow sets VF; no borrow leaves VF as it was
        let base = if vx < vy { v.update(15, 1u8) } else { v };
        base.update(x, sub_wrap(vx, vy))
    } else if k == 6 {
        let base = v.update(15, vx & 1);
        base.update(x, base[x] >> 1)
    } else if k == 7 {
        // V[X] = V[Y] - V[X]; VF written on both branches
        let base = v.update(15, if vy < vx { 1u8 } else { 0u8 });
        base.update(x, sub_wrap(vy, vx))
    } else {
        // k == 0xE
        let base = v.update(15, vx >> 7);
        base.update(x, ((base[x] * 2) % 256) as u8)
    }
}

/// Whether sprite bit `col` of a sprite row byte is set.
pub open spec fn sprite_on(byte: u8, col: int) -> bool {
    byte & (0x80u8 >> (col as u8)) > 0
}

/// The framebuffer cell a sprite bit lands on, wrapping at the edges.
pub open spec fn draw_cell(vx: u8, vy: u8, row: int, col: int) -> int {
    (vx + col) % 64 + ((vy + row) % 32) * 64
}

/// The framebuffer and the collision flag after the first `t` sprite
/// bits (taken row-major, eight bits per row) have been drawn. Each set
/// sprite bit first records a collision if its cell is lit, then toggles
/// the cell; the flag only ever moves from its start value to 1.
pub open spec fn draw_fold(
    g: Seq<u8>,
    vf: u8,
    mem: Seq<u8>,
    i: int,
    vx: u8,
    vy: u8,
    t: int,
) -> (Seq<u8>, u8)
    decreases t,
{
    if t <= 0 {
        (g, vf)
    } else {
        let prev = draw_fold(g, vf, mem, i, vx, vy, t - 1);
        let row = (t - 1) / 8;
        let col = (t - 1) % 8;
        if sprite_on(mem[i + row], col) {
            let cell = draw_cell(vx, vy, row, col);
            let flag = if prev.0[cell] == 1 { 1u8 } else { prev.1 };
            (prev.0.update(cell, prev.0[cell] ^ 1), flag)
        } else {
            prev
        }
    }
}

/// Memory after FX55: V[0]..=V[X] copied to addresses i..=i+X.
pub open spec fn store_regs(mem: Seq<u8>, v: Seq<u8>, i: int, x: int) -> Seq<u8> {
    Seq::new(4096, |j: int| if i <= j && j <= i + x { v[j - i] } else { mem[j] })
}

/// Registers after FX65: addresses i..=i+X copied to V[0]..=V[X].
pub open spec fn load_regs(v: Seq<u8>, mem: Seq<u8>, i: int, x: int) -> Seq<u8> {
    Seq::new(16, |k: int| if k <= x { mem[i + k] } else { v[k] })
}

/// A timer one cycle later: down by one while above zero.
pub open spec fn ticked(t: u8) -> u8 {
    if t > 0 {
        (t - 1) as u8
    } else {
        0
    }
}

/// The machine state after executing the opcode held in `f`, for every
/// instruction whose effect depends on the state alone (all but CXNN and
/// FX0A). Assumes the opcode is recognized and free of faults.
pub open spec fn det_step(f: Vm) -> Vm {
    let op = f.opcode;
    let fam = op_family(op);
    let x = op_x(op) as int;
    let vx = f.v_registers[x];
    let vy = f.v_registers[op_y(op) as int];
    let pc2 = (f.program_counter + 2) as u16;
    if op == 0x00E0 {
        Vm { graphics: blank_screen(), program_counter: pc2, ..f }
    } else if op == 0x00EE {
        Vm {
            stack_pointer: (f.stack_pointer - 1) as u16,
            program_counter: (f.stack[f.stack_pointer - 1] + 2) as u16,
            ..f
        }
    } else if fam == 0x1 {
        Vm { program_counter: op_nnn(op), ..f }
    } else if fam == 0x2 {
        Vm {
            stack: f.stack.update(f.stack_pointer as int, f.program_counter),
            stack_pointer: (f.stack_pointer + 1) as u16,
            program_counter: op_nnn(op),
            ..f
        }
    } else if is_skip(op) {
        Vm {
            program_counter: (f.program_counter + if skip_taken(f) { 4int } else { 2int }) as u16,
            ..f
        }
    } else if fam == 0x6 {
        Vm { v_registers: f.v_registers.update(x, op_nn(op) as u8), program_counter: pc2, ..f }
    } else if fam == 0x7 {
        Vm {
            v_registers: f.v_registers.update(x, ((vx + op_nn(op)) % 256) as u8),
            program_counter: pc2,
            ..f
        }
    } else if fam == 0x8 {
        Vm {
            v_registers: alu_result(f.v_registers, x, op_y(op) as int, op_n(op)),
            program_counter: pc2,
            ..f
        }
    } else if fam == 0xA {
        Vm { index_register: op_nnn(op), program_counter: pc2, ..f }
    } else if fam == 0xB {
        Vm { program_counter: (op_nnn(op) + f.v_registers[0]) as u16, ..f }
    } else if fam == 0xD {
        let drawn = draw_fold(
            f.graphics,
            0u8,
            f.memory,
            f.index_register as int,
            vx,
            vy,
            8 * op_n(op) as int,
        );
        Vm {
            graphics: drawn.0,
            v_registers: f.v_registers.update(15, drawn.1),
            program_counter: pc2,
            ..f
        }
    } else {
        // fam == 0xF
        let nn = op_nn(op);
        if nn == 0x07 {
            Vm { v_registers: f.v_registers.update(x, f.delay_timer), program_counter: pc2, ..f }
        } else if nn == 0x15 {
            Vm { delay_timer: vx, program_counter: pc2, ..f }
        } else if nn == 0x18 {
            Vm { sound_timer: vx, program_counter: pc2, ..f }
        } else if nn == 0x1E {
            Vm {
                index_register: ((f.index_register + vx) % 0x10000) as u16,
                program_counter: pc2,
                ..f
            }
        } else if nn == 0x29 {
            Vm { index_register: (vx * 5) as u16, program_counter: pc2, ..f }
        } else if nn == 0x33 {
            Vm {
                memory: f.memory
                    .update(f.index_register as int, (vx / 100) as u8)
                    .update(f.index_register + 1, ((vx / 10) % 10) as u8)
                    .update(f.index_register + 2, (vx % 10) as u8),
                program_counter: pc2,
                ..f
            }
        } else if nn == 0x55 {
            Vm {
                memory: store_regs(f.memory, f.v_registers, f.index_register as int, x),
                program_counter: pc2,
                ..f
            }
        } else {
            // nn == 0x65
            Vm {
                v_registers: load_regs(f.v_registers, f.memory, f.index_register as int, x),
                program_counter: pc2,
                ..f
            }
        }
    }
}

/// How the machine state changes when the opcode held in `f` executes:
/// deterministic instructions land exactly on [`det_step`]; CXNN writes
/// some byte masked with NN to V[X]; FX0A writes some byte to V[X].
pub open spec fn op_step(f: Vm, m: Vm) -> bool {
    let op = f.opcode;
    let x = op_x(op) as int;
    if uses_random(op) {
        &&& m == (Vm {
            v_registers: m.v_registers,
            program_counter: (f.program_counter + 2) as u16,
            ..f
        })
        &&& m.v_registers == f.v_registers.update(x, m.v_registers[x])
        &&& m.v_registers[x] == m.v_registers[x] & (op_nn(op) as u8)
    } else if waits_key(op) {
        &&& m == (Vm {
            v_registers: m.v_registers,
            program_counter: (f.program_counter + 2) as u16,
            ..f
        })
        &&& m.v_registers == f.v_registers.update(x, m.v_registers[x])
    } else {
        m == det_step(f)
    }
}

/// One instruction leaves the timers alone unless it is FX15 or FX18,
/// and never touches the key states or the opcode register; so the
/// post-instruction state is recoverable from the final one.
pub proof fn lemma_op_step_frame(f: Vm, m: Vm)
    requires
        recognized(f.opcode),
        op_step(f, m),
    ensures
        m.delay_timer == (if sets_delay(f.opcode) {
            f.v_registers[op_x(f.opcode) as int]
        } else {
            f.delay_timer
        }),
        m.sound_timer == (if sets_sound(f.opcode) {
            f.v_registers[op_x(f.opcode) as int]
        } else {
            f.sound_timer
        }),
        m.keyboard == f.keyboard,
        m.opcode == f.opcode,
        mid_of(f, m) == m,
{
    lemma_op_fields(f.opcode);
    let op = f.opcode;
    let fam = op_family(op);
    if uses_random(op) {
        assert(mid_of(f, m) =~= m);
    } else if waits_key(op) {
        assert(mid_of(f, m) =~= m);
    } else {
        assert(m == det_step(f));
        if op == 0x00E0 {
            assert(mid_of(f, m) =~= m);
        } else if op == 0x00EE {
            assert(mid_of(f, m) =~= m);
        } else if fam == 0x1 {
            assert(mid_of(f, m) =~= m);
        } else if fam == 0x2 {
            assert(mid_of(f, m) =~= m);
        } else if is_skip(op) {
            assert(mid_of(f, m) =~= m);
        } else if fam == 0x6 {
            assert(mid_of(f, m) =~= m);
        } else if fam == 0x7 {
            assert(mid_of(f, m) =~= m);
        } else if fam == 0x8 {
            assert(mid_of(f, m) =~= m);
        } else if fam == 0xA {
            assert(mid_of(f, m) =~= m);
        } else if fam == 0xB {
            assert(mid_of(f, m) =~= m);
        } else if fam == 0xD {
            assert(mid_of(f, m) =~= m);
        } else {
            let nn = op_nn(op);
            assert(fam == 0xF);
            if nn == 0x07 {
                assert(mid_of(f, m) =~= m);
            } else if nn == 0x15 {
                assert(mid_of(f, m) =~= m);
            } else if nn == 0x18 {
                assert(mid_of(f, m) =~= m);
            } else if nn == 0x1E {
                assert(mid_of(f, m) =~= m);
            } else if nn == 0x29 {
                assert(mid_of(f, m) =~= m);
            } else if nn == 0x33 {
                assert(mid_of(f, m) =~= m);
            } else if nn == 0x55 {
                assert(mid_of(f, m) =~= m);
            } else {
                assert(nn == 0x65);
                assert(mid_of(f, m) =~= m);
            }
        }
    }
}

// ---------------------------------------------------------------------
// One whole cycle.

/// The opcode two consecutive memory bytes at the program counter
/// compose, big end first.
pub open spec fn fetch_spec(vm: Vm) -> u16 {
    ((vm.memory[vm.program_counter as int] as u16) << 8)
        | (vm.memory[vm.program_counter + 1] as u16)
}

/// The state once the opcode register holds the fetched instruction.
pub open spec fn after_fetch(vm: Vm) -> Vm {
    Vm { opcode: fetch_spec(vm), ..vm }
}

/// The state between the instruction and the timer update, recovered
/// from the fetched state `f` and the final state `m`: the instruction
/// settles every field except the timers (which tick afterwards) and the
/// keyboard (which the keyboard source overwrites afterwards).
pub open spec fn mid_of(f: Vm, m: Vm) -> Vm {
    let vx = f.v_registers[op_x(f.opcode) as int];
    Vm {
        delay_timer: if sets_delay(f.opcode) { vx } else { f.delay_timer },
        sound_timer: if sets_sound(f.opcode) { vx } else { f.sound_timer },
        keyboard: f.keyboard,
        ..m
    }
}

/// Every way a cycle can end once the fetched instruction `f.opcode` is
/// recognized and free of faults and the number source has answered:
/// the instruction's effect stands in `m`, and then either the graphics
/// sink failed (timers untouched), or the timers ticked and either the
/// audio device failed on a sound timer at one (sound left at one), or
/// the keyboard source ran and the cycle returned its verdict.
pub open spec fn cycle_ok(f: Vm, m: Vm, r: Result<crate::chip8::State, Chip8Error>) -> bool {
    let mid = mid_of(f, m);
    &&& op_step(f, mid)
    &&& {
        ||| (r is Err && m.delay_timer == mid.delay_timer && m.sound_timer == mid.sound_timer
            && m.keyboard == mid.keyboard)
        ||| (m.delay_timer == ticked(mid.delay_timer) && {
            ||| (r is Err && mid.sound_timer == 1 && m.sound_timer == 1
                && m.keyboard == mid.keyboard)
            ||| (m.sound_timer == ticked(mid.sound_timer) && m.keyboard.len() == 16
                && (r == Ok::<crate::chip8::State, Chip8Error>(crate::chip8::State::Continue)
                    || r == Ok::<crate::chip8::State, Chip8Error>(crate::chip8::State::Exit)))
        })
    }
}

} // verus!
