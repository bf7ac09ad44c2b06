//! Machine-wide guarantees of the instruction semantics, stated and
//! proved over the model in [`crate::model`].

use vstd::prelude::*;

use crate::model::{
    det_step, is_jump, is_skip, lemma_op_fields, op_family, op_nn, op_step, op_x, recognized,
    skip_taken, uses_random, waits_key, Vm,
};

verus! {

/// Every instruction other than a jump, a call, a return or a skip
/// leaves the program counter two past where it was.
pub proof fn lemma_plain_step_advances_pc(f: Vm, m: Vm)
    requires
        recognized(f.opcode),
        op_step(f, m),
        !is_jump(f.opcode),
        f.opcode != 0x00EE,
        !is_skip(f.opcode),
        f.program_counter + 2 <= 0xFFFF,
    ensures
        m.program_counter == f.program_counter + 2,
{
    lemma_op_fields(f.opcode);
}

/// A skip instruction advances the program counter by four when its
/// condition holds and by two when it does not.
pub proof fn lemma_skip_step_pc(f: Vm, m: Vm)
    requires
        recognized(f.opcode),
        op_step(f, m),
        is_skip(f.opcode),
        f.program_counter + 4 <= 0xFFFF,
    ensures
        m.program_counter == f.program_counter + (if skip_taken(f) { 4int } else { 2int }),
{
    lemma_op_fields(f.opcode);
}

/// 00E0 yields an all-zero framebuffer of length 2048 from any
/// framebuffer state.
pub proof fn lemma_clear_screen(f: Vm, m: Vm)
    requires
        f.opcode == 0x00E0,
        op_step(f, m),
    ensures
        m.graphics.len() == 2048,
        forall|i: int| 0 <= i < 2048 ==> m.graphics[i] == 0,
{
    lemma_op_fields(f.opcode);
}

/// A call followed immediately by a return comes back: the program
/// counter rests two past the call site and the stack pointer is back
/// at its pre-call value.
pub proof fn lemma_call_then_return(f: Vm, m1: Vm, m2: Vm)
    requires
        op_family(f.opcode) == 0x2,
        f.stack.len() == 16,
        f.stack_pointer < 16,
        f.program_counter + 2 <= 0xFFFF,
        op_step(f, m1),
        op_step(Vm { opcode: 0x00EE, ..m1 }, m2),
    ensures
        m2.program_counter == f.program_counter + 2,
        m2.stack_pointer == f.stack_pointer,
{
    lemma_op_fields(f.opcode);
    lemma_op_fields(0x00EE);
    assert(m1 == det_step(f));
    let g = Vm { opcode: 0x00EE, ..m1 };
    assert(m2 == det_step(g));
}

/// FX55 then FX65 with the same X over the same index register is a
/// round trip: the registers come back exactly, and the second
/// instruction leaves memory as the first wrote it.
pub proof fn lemma_store_load_round_trip(f: Vm, op2: u16, m1: Vm, m2: Vm)
    requires
        op_family(f.opcode) == 0xF,
        op_nn(f.opcode) == 0x55,
        op_family(op2) == 0xF,
        op_nn(op2) == 0x65,
        op_x(op2) == op_x(f.opcode),
        f.memory.len() == 4096,
        f.v_registers.len() == 16,
        f.index_register + op_x(f.opcode) < 4096,
        op_step(f, m1),
        op_step(Vm { opcode: op2, ..m1 }, m2),
    ensures
        m2.v_registers == f.v_registers,
        m2.memory == m1.memory,
{
    lemma_op_fields(f.opcode);
    lemma_op_fields(op2);
    assert(m1 == det_step(f));
    let g = Vm { opcode: op2, ..m1 };
    assert(m2 == det_step(g));
    assert(m2.v_registers =~= f.v_registers);
}

} // verus!
