//! The instruction decoder: every 16-bit word is either an address
//! instruction or a compute instruction.

use vstd::prelude::*;
use crate::word::{bit_pattern, to_bits};

verus! {

/// The sub-fields of a compute instruction, as they stand in the word.
/// Whether `comp` and `jump` name a legal operation is the executor's
/// business, not the decoder's.
#[derive(Clone, Copy, Debug, PartialEq, Eq, Structural)]
pub struct ComputeFields {
    /// Bit 12: the second operand is the cell that `A` addresses, not `A`.
    pub from_memory: bool,
    /// Bits 11-6: the compute code.
    pub comp: u8,
    /// Bit 5: the result goes to `A`.
    pub dest_a: bool,
    /// Bit 4: the result goes to `D`.
    pub dest_d: bool,
    /// Bit 3: the result goes to the cell that `A` addresses.
    pub dest_m: bool,
    /// Bits 2-0: the jump code.
    pub jump: u8,
}

/// A decoded instruction.
#[derive(Clone, Copy, Debug, PartialEq, Eq, Structural)]
pub enum Instruction {
    /// Bit 15 clear: load the literal into `A`.
    AddressLoad(i16),
    /// Bit 15 set: compute, route the result, decide on a jump.
    Compute(ComputeFields),
}

/// The sub-fields of `w` read as a compute instruction.
pub open spec fn compute_fields(w: i16) -> ComputeFields {
    ComputeFields {
        from_memory: bit_pattern(w) / 0x1000 % 2 == 1,
        comp: (bit_pattern(w) / 0x40 % 0x40) as u8,
        dest_a: bit_pattern(w) / 0x20 % 2 == 1,
        dest_d: bit_pattern(w) / 0x10 % 2 == 1,
        dest_m: bit_pattern(w) / 0x8 % 2 == 1,
        jump: (bit_pattern(w) % 0x8) as u8,
    }
}

/// What `w` decodes to. A word with bit 15 clear is non-negative and is
/// its own 15-bit literal.
pub open spec fn decoded(w: i16) -> Instruction {
    if w >= 0 {
        Instruction::AddressLoad(w)
    } else {
        Instruction::Compute(compute_fields(w))
    }
}

/// Extracts the sub-fields of `w`, whatever its bit 15 says.
pub fn decode_compute(w: i16) -> (fields: ComputeFields)
    ensures
        fields == compute_fields(w),
        fields.comp < 0x40,
        fields.jump < 0x8,
{
    let bits: u16 = to_bits(w);
    let comp: u16 = (bits >> 6) & 0x3F;
    let jump: u16 = bits & 0x7;
    let from_memory: bool = bits & 0x1000 != 0;
    let dest_a: bool = bits & 0x20 != 0;
    let dest_d: bool = bits & 0x10 != 0;
    let dest_m: bool = bits & 0x8 != 0;
    assert(((bits >> 6) & 0x3F) == bits / 0x40 % 0x40 && (bits & 0x7) == bits % 0x8 && ((bits
        & 0x1000 != 0) <==> bits / 0x1000 % 2 == 1) && ((bits & 0x20 != 0) <==> bits / 0x20 % 2
        == 1) && ((bits & 0x10 != 0) <==> bits / 0x10 % 2 == 1) && ((bits & 0x8 != 0) <==> bits
        / 0x8 % 2 == 1)) by (bit_vector);
    ComputeFields { from_memory, comp: comp as u8, dest_a, dest_d, dest_m, jump: jump as u8 }
}

/// Classifies `w`. Total: every bit pattern is one of the two shapes.
pub fn classify(w: i16) -> (instruction: Instruction)
    ensures
        instruction == decoded(w),
{
    if w >= 0 {
        Instruction::AddressLoad(w)
    } else {
        Instruction::Compute(decode_compute(w))
    }
}

} // verus!
