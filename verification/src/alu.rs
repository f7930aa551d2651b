//! The arithmetic/logic unit: the table of compute codes and the table of
//! jump codes.

use vstd::prelude::*;
use crate::word::wrap;

verus! {

/// The result of compute code `comp` on the data register `d` and the
/// operand `x`, or `None` where `comp` is none of the legal codes.
/// Arithmetic wraps as two's-complement overflow does.
pub open spec fn alu_result(comp: u8, d: i16, x: i16) -> Option<i16> {
    if comp == 0b101010 {
        Some(0i16)
    } else if comp == 0b111111 {
        Some(1i16)
    } else if comp == 0b111010 {
        Some(-1i16)
    } else if comp == 0b001100 {
        Some(d)
    } else if comp == 0b110000 {
        Some(x)
    } else if comp == 0b001101 {
        Some((-d - 1) as i16)
    } else if comp == 0b110001 {
        Some((-x - 1) as i16)
    } else if comp == 0b001111 {
        Some(wrap(-d))
    } else if comp == 0b110011 {
        Some(wrap(-x))
    } else if comp == 0b011111 {
        Some(wrap(d + 1))
    } else if comp == 0b110111 {
        Some(wrap(x + 1))
    } else if comp == 0b001110 {
        Some(wrap(d - 1))
    } else if comp == 0b110010 {
        Some(wrap(x - 1))
    } else if comp == 0b000010 {
        Some(wrap(d + x))
    } else if comp == 0b010011 {
        Some(wrap(d - x))
    } else if comp == 0b000111 {
        Some(wrap(x - d))
    } else if comp == 0b000000 {
        Some(d & x)
    } else if comp == 0b010101 {
        Some(d | x)
    } else {
        None
    }
}

/// Whether jump code `jump` asks for a jump on the signed result
/// `result`, or `None` where `jump` is none of the eight codes.
pub open spec fn jump_condition(jump: u8, result: i16) -> Option<bool> {
    if jump == 0b000 {
        Some(false)
    } else if jump == 0b001 {
        Some(result > 0)
    } else if jump == 0b010 {
        Some(result == 0)
    } else if jump == 0b011 {
        Some(result >= 0)
    } else if jump == 0b100 {
        Some(result < 0)
    } else if jump == 0b101 {
        Some(result != 0)
    } else if jump == 0b110 {
        Some(result <= 0)
    } else if jump == 0b111 {
        Some(true)
    } else {
        None
    }
}

/// Evaluates compute code `comp` on the data register `d` and the operand `x`.
pub fn alu(comp: u8, d: i16, x: i16) -> (result: Option<i16>)
    ensures
        result == alu_result(comp, d, x),
{
    assert(!d == -d - 1) by (bit_vector);
    assert(!x == -x - 1) by (bit_vector);
    match comp {
        0b101010 => Some(0),
        0b111111 => Some(1),
        0b111010 => Some(-1),
        0b001100 => Some(d),
        0b110000 => Some(x),
        0b001101 => Some(!d),
        0b110001 => Some(!x),
        0b001111 => Some(0i16.wrapping_sub(d)),
        0b110011 => Some(0i16.wrapping_sub(x)),
        0b011111 => Some(d.wrapping_add(1)),
        0b110111 => Some(x.wrapping_add(1)),
        0b001110 => Some(d.wrapping_sub(1)),
        0b110010 => Some(x.wrapping_sub(1)),
        0b000010 => Some(d.wrapping_add(x)),
        0b010011 => Some(d.wrapping_sub(x)),
        0b000111 => Some(x.wrapping_sub(d)),
        0b000000 => Some(d & x),
        0b010101 => Some(d | x),
        _ => None,
    }
}

/// Decides jump code `jump` on the signed result `result`.
pub fn jump_taken(jump: u8, result: i16) -> (taken: Option<bool>)
    ensures
        taken == jump_condition(jump, result),
{
    match jump {
        0b000 => Some(false),
        0b001 => Some(result > 0),
        0b010 => Some(result == 0),
        0b011 => Some(result >= 0),
        0b100 => Some(result < 0),
        0b101 => Some(result != 0),
        0b110 => Some(result <= 0),
        0b111 => Some(true),
        _ => None,
    }
}

} // verus!
