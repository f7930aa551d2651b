//! Word memory: a fixed-capacity array of 16-bit two's-complement words.

use vstd::prelude::*;
use crate::error::EmulatorError;

verus! {

/// Number of cells that a 15-bit address can reach.
pub const ADDRESSABLE_MEM_SIZE: usize = 0x8000;

/// A word-addressable memory whose capacity is fixed when it is built.
pub struct Memory32K {
    memory: Vec<i16>,
}

impl View for Memory32K {
    type V = Seq<i16>;

    /// The cells, in address order.
    closed spec fn view(&self) -> Seq<i16> {
        self.memory@
    }
}

impl Memory32K {
    /// A memory never holds more cells than a 15-bit address can reach.
    #[verifier::type_invariant]
    closed spec fn inv(&self) -> bool {
        self.memory@.len() <= ADDRESSABLE_MEM_SIZE
    }

    /// The number of cells.
    pub open spec fn spec_capacity(&self) -> nat {
        self@.len()
    }

    /// A zeroed memory of full size.
    pub fn new() -> (mem: Memory32K)
        ensures
            mem@ == Seq::new(ADDRESSABLE_MEM_SIZE as nat, |i: int| 0i16),
    {
        let mem = Memory32K { memory: vec![0i16; ADDRESSABLE_MEM_SIZE] };
        assert(mem.memory@ =~= Seq::new(ADDRESSABLE_MEM_SIZE as nat, |i: int| 0i16));
        mem
    }

    /// A zeroed memory of `capacity` cells, or `None` where `capacity` is
    /// more than a 15-bit address can reach.
    pub fn with_capacity(capacity: usize) -> (r: Option<Memory32K>)
        ensures
            capacity <= ADDRESSABLE_MEM_SIZE ==> r.is_some() && r.unwrap()@ == Seq::new(
                capacity as nat,
                |i: int| 0i16,
            ),
            capacity > ADDRESSABLE_MEM_SIZE ==> r.is_none(),
    {
        if capacity > ADDRESSABLE_MEM_SIZE {
            return None;
        }
        let mem = Memory32K { memory: vec![0i16; capacity] };
        assert(mem.memory@ =~= Seq::new(capacity as nat, |i: int| 0i16));
        Some(mem)
    }

    /// The number of cells.
    pub fn capacity(&self) -> (n: usize)
        ensures
            n == self.spec_capacity(),
            n <= ADDRESSABLE_MEM_SIZE,
    {
        proof {
            use_type_invariant(self);
        }
        self.memory.len()
    }

    /// The word at `index`, or `OutOfRange` where there is no such cell.
    pub fn read(&self, index: usize) -> (r: Result<i16, EmulatorError>)
        ensures
            index < self@.len() ==> r == Ok::<i16, EmulatorError>(self@[index as int]),
            index >= self@.len() ==> r == Err::<i16, EmulatorError>(EmulatorError::OutOfRange),
    {
        if index < self.memory.len() {
            Ok(self.memory[index])
        } else {
            Err(EmulatorError::OutOfRange)
        }
    }

    /// The cell at `index`, for reading and writing in place.
    pub(crate) fn cell_mut(&mut self, index: usize) -> (cell: &mut i16)
        requires
            index < old(self)@.len(),
        ensures
            *cell == old(self)@[index as int],
            final(self)@ == old(self)@.update(index as int, *final(cell)),
        no_unwind
    {
        proof {
            use_type_invariant(&*self);
        }
        &mut self.memory[index]
    }

    /// Stores `value` at `index`, or reports `OutOfRange` and leaves every
    /// cell as it was where there is no such cell.
    pub fn write(&mut self, index: usize, value: i16) -> (r: Result<(), EmulatorError>)
        ensures
            index < old(self)@.len() ==> r.is_ok() && final(self)@ == old(self)@.update(
                index as int,
                value,
            ),
            index >= old(self)@.len() ==> r == Err::<(), EmulatorError>(EmulatorError::OutOfRange)
                && final(self)@ == old(self)@,
        no_unwind
    {
        proof {
            use_type_invariant(&*self);
        }
        if index < self.memory.len() {
            self.memory[index] = value;
            Ok(())
        } else {
            Err(EmulatorError::OutOfRange)
        }
    }
}

} // verus!
