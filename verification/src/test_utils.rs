//! A small helper for planting a program's first instruction in memory.

use vstd::prelude::*;

verus! {

/// Writes the two bytes of `opcode`, big end first, at the program load
/// address 0x200, leaving the rest of memory as it was.
pub fn set_initial_opcode_to(opcode: u16, memory: &mut [u8; 4096])
    ensures
        final(memory)@ == old(memory)@
            .update(0x200, ((opcode & 0xFF00) >> 8) as u8)
            .update(0x201, (opcode & 0x00FF) as u8),
{
    memory[0x200] = ((opcode & 0xFF00) >> 8) as u8;
    memory[0x201] = (opcode & 0x00FF) as u8;
}

} // verus!
