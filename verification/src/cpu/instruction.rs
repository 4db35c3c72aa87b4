use vstd::prelude::*;

verus! {

/// An opcode split into its high and low nibbles.
pub struct Instruction {
    pub values: (u8, u8),
    pub opcode: u8,
}

impl Instruction {
    pub fn get_instruction(x: u8) -> (i: Instruction)
        ensures
            i.values.0 == x / 16,
            i.values.1 == x % 16,
            i.opcode == x,
    {
        Instruction { values: (x / 16, x % 16), opcode: x }
    }
}

} // verus!
