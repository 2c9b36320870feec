//! Data processing instructions.
//!
//! These are listed in the ARMv7-M Architecture Reference Manual under the
//! encoding `0 1 0 0 0 0 | opcode (4 bits) | Rm/Rn (3 bits) | Rdn (3 bits)`:
//!
//!   OpCode  Instruction
//!   0000    Bitwise AND
//!   0001    Exclusive OR
//!   0010    Logical Shift Left
//!   0011    Logical Shift Right
//!   0100    Arithmetic Shift Right
//!   0101    Add with Carry
//!   0110    Subtract with Carry
//!   0111    Rotate Right
//!   1000    Set flags on bitwise AND
//!   1001    Reverse Subtract from 0
//!   1010    Compare Registers
//!   1011    Compare Negative
//!   1100    Logical OR
//!   1101    Multiply Two Registers
//!   1110    Bit Clear
//!   1111    Bitwise NOT

use vstd::prelude::*;

use crate::instructions::InstrThumb16;

verus! {

/// A decode table for the data processing group alone, once built.
pub struct DataProcessingInstructions {
    pub dct: Option<Vec<InstrThumb16>>,
}

} // verus!
