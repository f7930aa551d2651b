//! The emulator: one program store, one data store, one register file,
//! and the fetch-decode-execute-advance loop over them.

use vstd::prelude::*;
use crate::alu::{alu, jump_taken};
use crate::decode::{classify, compute_fields, decode_compute, ComputeFields, Instruction};
use crate::machine::Machine;
use crate::error::EmulatorError;
use crate::memory::{Memory32K, ADDRESSABLE_MEM_SIZE};
use crate::word::{address_of, mask15};

verus! {

/// The register file.
#[derive(Clone, Copy, Debug, PartialEq, Eq, Structural)]
pub struct CPU {
    /// A register
    pub a: i16,
    /// D register
    pub d: i16,
    /// Program counter
    pub pc: u16,
}

impl CPU {
    /// All registers zero.
    pub fn new() -> (cpu: CPU)
        ensures
            cpu == (CPU { a: 0, d: 0, pc: 0 }),
    {
        CPU { a: 0, d: 0, pc: 0 }
    }
}

/// One emulated computer.
pub struct HackEmulator {
    rom: Memory32K,
    num_instructions: usize,
    ram: Memory32K,
    cpu: CPU,
}

impl View for HackEmulator {
    type V = Machine;

    /// The machine that this emulator holds.
    closed spec fn view(&self) -> Machine {
        Machine {
            rom: self.rom@,
            ram: self.ram@,
            a: self.cpu.a,
            d: self.cpu.d,
            pc: self.cpu.pc as nat,
            num_instructions: self.num_instructions as nat,
        }
    }
}

impl HackEmulator {
    /// Every emulator holds a well-formed machine.
    #[verifier::type_invariant]
    closed spec fn inv(&self) -> bool {
        self@.wf()
    }

    /// A machine with zeroed stores of full size and zeroed registers.
    pub fn new() -> (emulator: HackEmulator)
        ensures
            emulator@ == (Machine {
                rom: Seq::new(ADDRESSABLE_MEM_SIZE as nat, |i: int| 0i16),
                ram: Seq::new(ADDRESSABLE_MEM_SIZE as nat, |i: int| 0i16),
                a: 0,
                d: 0,
                pc: 0,
                num_instructions: 0,
            }),
            emulator@.wf(),
    {
        HackEmulator {
            rom: Memory32K::new(),
            num_instructions: 0,
            ram: Memory32K::new(),
            cpu: CPU::new(),
        }
    }

    /// A machine like that of `new`, but with a data store of `capacity`
    /// cells; `None` where `capacity` is more than a 15-bit address can
    /// reach.
    pub fn with_ram_capacity(capacity: usize) -> (r: Option<HackEmulator>)
        ensures
            capacity <= ADDRESSABLE_MEM_SIZE ==> r.is_some() && r.unwrap()@ == (Machine {
                rom: Seq::new(ADDRESSABLE_MEM_SIZE as nat, |i: int| 0i16),
                ram: Seq::new(capacity as nat, |i: int| 0i16),
                a: 0,
                d: 0,
                pc: 0,
                num_instructions: 0,
            }) && r.unwrap()@.wf(),
            capacity > ADDRESSABLE_MEM_SIZE ==> r.is_none(),
    {
        match Memory32K::with_capacity(capacity) {
            Some(ram) => Some(
                HackEmulator { rom: Memory32K::new(), num_instructions: 0, ram, cpu: CPU::new() },
            ),
            None => None,
        }
    }

    /// The register file as it stands.
    pub fn cpu(&self) -> (cpu: CPU)
        ensures
            cpu.a == self@.a,
            cpu.d == self@.d,
            cpu.pc == self@.pc,
            self@.wf(),
    {
        proof {
            use_type_invariant(self);
        }
        self.cpu
    }

    /// The data store, for reading.
    pub fn data_store(&self) -> (ram: &Memory32K)
        ensures
            ram@ == self@.ram,
    {
        &self.ram
    }

    /// The program store, for reading.
    pub fn program_store(&self) -> (rom: &Memory32K)
        ensures
            rom@ == self@.rom,
            rom@.len() == ADDRESSABLE_MEM_SIZE,
    {
        proof {
            use_type_invariant(self);
        }
        &self.rom
    }

    /// The length of the program that was loaded last.
    pub fn num_instructions(&self) -> (n: usize)
        ensures
            n == self@.num_instructions,
    {
        self.num_instructions
    }

    /// helper to obtain the 'm register': the data-store cell that `A`
    /// addresses, for reading and writing in place.
    pub fn m(&mut self) -> (r: Result<&mut i16, EmulatorError>)
        ensures
            old(self)@.m_in_range() ==> r.is_ok() && *r.unwrap() == old(self)@.m() && final(self)@
                == (Machine {
                ram: old(self)@.ram.update(mask15(old(self)@.a), *final(r.unwrap())),
                ..old(self)@
            }),
            !old(self)@.m_in_range() ==> r.is_err() && r.unwrap_err() == EmulatorError::OutOfRange
                && final(self)@ == old(self)@,
    {
        proof {
            use_type_invariant(&*self);
        }
        let index: usize = address_of(self.cpu.a);
        if index < self.ram.capacity() {
            Ok(self.ram.cell_mut(index))
        } else {
            Err(EmulatorError::OutOfRange)
        }
    }

    /// Executes a compute instruction given by its sub-fields: resolves
    /// the operand, evaluates the compute code, routes the result to the
    /// destinations and decides on the jump. Returns whether to jump.
    /// The program counter is left alone. On an error nothing changes.
    pub fn execute_fields(&mut self, fields: ComputeFields) -> (r: Result<bool, EmulatorError>)
        ensures
            match old(self)@.compute(fields) {
                Ok((next, taken)) => r == Ok::<bool, EmulatorError>(taken) && final(self)@ == next,
                Err(e) => r == Err::<bool, EmulatorError>(e) && final(self)@ == old(self)@,
            },
            final(self)@.wf(),
    {
        proof {
            use_type_invariant(&*self);
        }
        let operand: i16 = if fields.from_memory {
            match self.m() {
                Ok(cell) => *cell,
                Err(e) => {
                    return Err(e);
                },
            }
        } else {
            self.cpu.a
        };
        assert(self@.ram =~= old(self)@.ram);
        let result: i16 = match alu(fields.comp, self.cpu.d, operand) {
            Some(value) => value,
            None => {
                return Err(EmulatorError::UndecodableInstruction);
            },
        };
        if fields.dest_m && address_of(self.cpu.a) >= self.ram.capacity() {
            return Err(EmulatorError::OutOfRange);
        }
        let taken: bool = match jump_taken(fields.jump, result) {
            Some(taken) => taken,
            None => {
                return Err(EmulatorError::UndecodableInstruction);
            },
        };
        if fields.dest_m {
            match self.m() {
                Ok(cell) => {
                    *cell = result;
                },
                Err(e) => {
                    return Err(e);
                },
            }
        }
        if fields.dest_d {
            self.cpu.d = result;
        }
        if fields.dest_a {
            self.cpu.a = result;
        }
        assert(self@.ram =~= old(self)@.route(fields, result).ram);
        Ok(taken)
    }

    /// Executes the word `instruction` as a compute instruction, whatever
    /// its bit 15 says, and returns whether to jump.
    pub fn execute_c_instruction(&mut self, instruction: i16) -> (r: Result<bool, EmulatorError>)
        ensures
            match old(self)@.compute(compute_fields(instruction)) {
                Ok((next, taken)) => r == Ok::<bool, EmulatorError>(taken) && final(self)@ == next,
                Err(e) => r == Err::<bool, EmulatorError>(e) && final(self)@ == old(self)@,
            },
            final(self)@.wf(),
    {
        let fields: ComputeFields = decode_compute(instruction);
        self.execute_fields(fields)
    }

    /// One fetch-decode-execute-advance cycle. On an error nothing
    /// changes: the program counter stays on the instruction that failed.
    pub fn step(&mut self) -> (r: Result<(), EmulatorError>)
        ensures
            match old(self)@.step() {
                Ok(next) => r.is_ok() && final(self)@ == next,
                Err(e) => r == Err::<(), EmulatorError>(e) && final(self)@ == old(self)@,
            },
            final(self)@.wf(),
    {
        proof {
            use_type_invariant(&*self);
        }
        let instruction: i16 = match self.rom.read(self.cpu.pc as usize) {
            Ok(word) => word,
            Err(e) => {
                return Err(e);
            },
        };
        let is_jump: bool = match classify(instruction) {
            Instruction::AddressLoad(value) => {
                self.cpu.a = value;
                false
            },
            Instruction::Compute(fields) => match self.execute_fields(fields) {
                Ok(taken) => taken,
                Err(e) => {
                    return Err(e);
                },
            },
        };
        if is_jump {
            self.cpu.pc = address_of(self.cpu.a) as u16;
        } else if self.cpu.pc == 0x7FFF {
            self.cpu.pc = 0;
        } else {
            self.cpu.pc = self.cpu.pc + 1;
        }
        Ok(())
    }

    /// decodes and executes instructions for duration_in_cycles. Note:
    /// a fetch/decode/execute is only 1 clock cycle because the rom is partitioned.
    /// Stops at the first cycle that fails and reports its error; the
    /// cycles before it keep their effect.
    pub fn execute(&mut self, duration_in_cycles: usize) -> (r: Result<(), EmulatorError>)
        ensures
            final(self)@ == old(self)@.run(duration_in_cycles as nat).0,
            match old(self)@.run(duration_in_cycles as nat).1 {
                Some(e) => r == Err::<(), EmulatorError>(e),
                None => r.is_ok(),
            },
            final(self)@.wf(),
    {
        proof {
            use_type_invariant(&*self);
        }
        let mut done: usize = 0;
        while done < duration_in_cycles
            invariant
                done <= duration_in_cycles,
                self@.wf(),
                old(self)@.run(duration_in_cycles as nat) == self@.run(
                    (duration_in_cycles - done) as nat,
                ),
            decreases duration_in_cycles - done,
        {
            match self.step() {
                Ok(()) => {},
                Err(e) => {
                    return Err(e);
                },
            }
            done = done + 1;
        }
        Ok(())
    }

    /// Copies `words` into the program store from index 0 on and records
    /// their number. A program longer than the program store is refused,
    /// and nothing changes.
    pub fn load(&mut self, words: &[i16]) -> (r: Result<(), EmulatorError>)
        ensures
            words@.len() <= ADDRESSABLE_MEM_SIZE ==> r.is_ok() && final(self)@ == old(self)@.load(
                words@,
            ),
            words@.len() > ADDRESSABLE_MEM_SIZE ==> r == Err::<(), EmulatorError>(
                EmulatorError::ProgramTooLarge,
            ) && final(self)@ == old(self)@,
            final(self)@.wf(),
    {
        proof {
            use_type_invariant(&*self);
        }
        let count: usize = words.len();
        if count > ADDRESSABLE_MEM_SIZE {
            return Err(EmulatorError::ProgramTooLarge);
        }
        let mut i: usize = 0;
        while i < count
            invariant
                i <= count,
                count == words@.len(),
                count <= ADDRESSABLE_MEM_SIZE,
                old(self)@.wf(),
                self@.wf(),
                self.rom@ == words@.subrange(0, i as int) + old(self).rom@.subrange(
                    i as int,
                    ADDRESSABLE_MEM_SIZE as int,
                ),
                self.ram == old(self).ram,
                self.cpu == old(self).cpu,
                self.num_instructions == old(self).num_instructions,
            decreases count - i,
        {
            *self.rom.cell_mut(i) = words[i];
            i = i + 1;
        }
        self.num_instructions = count;
        assert(words@.subrange(0, count as int) =~= words@);
        Ok(())
    }
}

} // verus!
