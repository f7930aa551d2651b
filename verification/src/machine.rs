//! The machine as a mathematical value, and its transition function.

use vstd::prelude::*;
use crate::alu::{alu_result, jump_condition};
use crate::decode::{decoded, ComputeFields, Instruction};
use crate::error::EmulatorError;
use crate::memory::ADDRESSABLE_MEM_SIZE;
use crate::word::mask15;

verus! {

/// Everything that an instruction can read or change.
pub struct Machine {
    /// The program store.
    pub rom: Seq<i16>,
    /// The data store.
    pub ram: Seq<i16>,
    /// The address register.
    pub a: i16,
    /// The data register.
    pub d: i16,
    /// The program counter: the index of the next instruction.
    pub pc: nat,
    /// The length of the program that was loaded last.
    pub num_instructions: nat,
}

/// The program counter after an instruction at `pc` that does not jump.
/// The counter is 15 bits wide: after the last cell comes the first.
pub open spec fn next_pc(pc: nat) -> nat {
    (pc + 1) % (ADDRESSABLE_MEM_SIZE as nat)
}

impl Machine {
    /// The program store is of full size, and the program counter and the
    /// recorded program length stay within it.
    pub open spec fn wf(self) -> bool {
        &&& self.rom.len() == ADDRESSABLE_MEM_SIZE
        &&& self.ram.len() <= ADDRESSABLE_MEM_SIZE
        &&& self.pc < ADDRESSABLE_MEM_SIZE
        &&& self.num_instructions <= ADDRESSABLE_MEM_SIZE
    }

    /// The data store holds the cell that `A` addresses.
    pub open spec fn m_in_range(self) -> bool {
        mask15(self.a) < self.ram.len()
    }

    /// The cell that `A` addresses.
    pub open spec fn m(self) -> i16 {
        self.ram[mask15(self.a)]
    }

    /// Operand resolution: `A` itself, or the cell that it addresses.
    pub open spec fn operand(self, from_memory: bool) -> Result<i16, EmulatorError> {
        if !from_memory {
            Ok(self.a)
        } else if self.m_in_range() {
            Ok(self.m())
        } else {
            Err(EmulatorError::OutOfRange)
        }
    }

    /// The machine after the result `result` has gone to the destinations
    /// that `fields` selects. The cell written is the one that `A`
    /// addressed before the instruction.
    pub open spec fn route(self, fields: ComputeFields, result: i16) -> Machine {
        Machine {
            ram: if fields.dest_m {
                self.ram.update(mask15(self.a), result)
            } else {
                self.ram
            },
            d: if fields.dest_d {
                result
            } else {
                self.d
            },
            a: if fields.dest_a {
                result
            } else {
                self.a
            },
            ..self
        }
    }

    /// A compute instruction with the sub-fields `fields`: the machine
    /// after destination routing, the program counter untouched, and
    /// whether to jump; or the reason why the instruction has no effect.
    pub open spec fn compute(self, fields: ComputeFields) -> Result<(Machine, bool), EmulatorError> {
        match self.operand(fields.from_memory) {
            Err(e) => Err(e),
            Ok(x) => match alu_result(fields.comp, self.d, x) {
                None => Err(EmulatorError::UndecodableInstruction),
                Some(result) => if fields.dest_m && !self.m_in_range() {
                    Err(EmulatorError::OutOfRange)
                } else {
                    match jump_condition(fields.jump, result) {
                        None => Err(EmulatorError::UndecodableInstruction),
                        Some(taken) => Ok((self.route(fields, result), taken)),
                    }
                },
            },
        }
    }

    /// One fetch-decode-execute-advance cycle.
    pub open spec fn step(self) -> Result<Machine, EmulatorError> {
        match decoded(self.rom[self.pc as int]) {
            Instruction::AddressLoad(value) => Ok(
                Machine { a: value, pc: next_pc(self.pc), ..self },
            ),
            Instruction::Compute(fields) => match self.compute(fields) {
                Err(e) => Err(e),
                Ok((next, taken)) => Ok(
                    Machine {
                        pc: if taken {
                            mask15(next.a) as nat
                        } else {
                            next_pc(self.pc)
                        },
                        ..next
                    },
                ),
            },
        }
    }

    /// `n` cycles, or as many as succeed: the machine as the last
    /// successful cycle left it, and the error that stopped the run, if any.
    pub open spec fn run(self, n: nat) -> (Machine, Option<EmulatorError>)
        decreases n,
    {
        if n == 0 {
            (self, None)
        } else {
            match self.step() {
                Err(e) => (self, Some(e)),
                Ok(next) => next.run((n - 1) as nat),
            }
        }
    }

    /// The machine after `words` have been copied to the start of the
    /// program store.
    pub open spec fn load(self, words: Seq<i16>) -> Machine {
        Machine {
            rom: words + self.rom.subrange(words.len() as int, self.rom.len() as int),
            num_instructions: words.len(),
            ..self
        }
    }
}

} // verus!
