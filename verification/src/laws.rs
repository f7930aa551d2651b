//! Laws of the machine, proved over its mathematical model.

use vstd::prelude::*;
use crate::alu::{alu_result, jump_condition};
use crate::decode::ComputeFields;
use crate::machine::Machine;
use crate::error::EmulatorError;
use crate::memory::ADDRESSABLE_MEM_SIZE;
use crate::word::mask15;

verus! {

/// Every word addresses a cell of a full-size store: the low 15 bits of a
/// word are less than 32768.
pub proof fn lemma_mask15_in_reach(w: i16)
    ensures
        0 <= mask15(w) < ADDRESSABLE_MEM_SIZE,
        w >= 0 ==> mask15(w) == w,
{
}

/// Destination independence: an instruction with all three destination
/// bits set writes one and the same result to the cell that `A`
/// addressed before the instruction, to `D` and to `A`; no other cell
/// changes, whatever `A` holds afterwards.
pub proof fn lemma_all_destinations(m: Machine, fields: ComputeFields)
    requires
        fields.dest_a && fields.dest_d && fields.dest_m,
        m.compute(fields).is_ok(),
    ensures
        ({
            let next = m.compute(fields).unwrap().0;
            let result = alu_result(fields.comp, m.d, m.operand(fields.from_memory).unwrap()).unwrap();
            &&& next.a == result
            &&& next.d == result
            &&& next.ram.len() == m.ram.len()
            &&& next.ram[mask15(m.a)] == result
            &&& forall|i: int| 0 <= i < m.ram.len() && i != mask15(m.a) ==> next.ram[i] == m.ram[i]
        }),
{
}

/// The jump decision looks at the result alone: two instructions that
/// differ only in their destination bits jump, or do not jump, together.
pub proof fn lemma_jump_ignores_destinations(m: Machine, f: ComputeFields, g: ComputeFields)
    requires
        f.from_memory == g.from_memory,
        f.comp == g.comp,
        f.jump == g.jump,
        m.compute(f).is_ok(),
        m.compute(g).is_ok(),
    ensures
        m.compute(f).unwrap().1 == m.compute(g).unwrap().1,
{
}

/// An address instruction, a word with bit 15 clear, loads its low 15
/// bits into `A`, leaves `D` and both stores alone, and moves the
/// program counter on by exactly one. The last cell of the program store
/// is left out: the counter has nowhere to advance to from there.
pub proof fn lemma_address_instruction(m: Machine)
    requires
        m.wf(),
        m.rom[m.pc as int] >= 0,
        m.pc + 1 < ADDRESSABLE_MEM_SIZE,
    ensures
        m.step().is_ok(),
        m.step().unwrap().a == mask15(m.rom[m.pc as int]),
        m.step().unwrap().d == m.d,
        m.step().unwrap().pc == m.pc + 1,
        m.step().unwrap().ram == m.ram,
        m.step().unwrap().rom == m.rom,
{
}

/// From the last cell of the program store the program counter goes
/// round to the first, unless the instruction jumps.
pub proof fn lemma_counter_goes_round(m: Machine)
    requires
        m.wf(),
        m.rom[m.pc as int] >= 0,
        m.pc + 1 == ADDRESSABLE_MEM_SIZE,
    ensures
        m.step().is_ok(),
        m.step().unwrap().pc == 0,
{
}

/// Round trip: after a program of length `k` is loaded, the program
/// store holds exactly its words at the indices `0 .. k`, keeps what it
/// held from `k` on, and the machine is otherwise as before.
pub proof fn lemma_load_round_trip(m: Machine, words: Seq<i16>)
    requires
        m.wf(),
        words.len() <= ADDRESSABLE_MEM_SIZE,
    ensures
        m.load(words).wf(),
        m.load(words).num_instructions == words.len(),
        forall|i: int| 0 <= i < words.len() ==> m.load(words).rom[i] == words[i],
        forall|i: int| words.len() <= i < ADDRESSABLE_MEM_SIZE ==> m.load(words).rom[i] == m.rom[i],
        m.load(words).ram == m.ram,
        m.load(words).a == m.a,
        m.load(words).d == m.d,
        m.load(words).pc == m.pc,
{
}

/// A legal instruction that writes to memory is out of range exactly
/// where the data store does not hold the cell that `A` addresses.
pub proof fn lemma_memory_destination_out_of_range(m: Machine, fields: ComputeFields)
    requires
        fields.dest_m,
        !fields.from_memory,
        alu_result(fields.comp, m.d, m.a).is_some(),
        fields.jump < 8,
    ensures
        !m.m_in_range() <==> m.compute(fields) == Err::<(Machine, bool), EmulatorError>(
            EmulatorError::OutOfRange,
        ),
        m.m_in_range() <==> m.compute(fields).is_ok(),
{
}

/// With a data store of full size no instruction is out of range: the
/// one thing that stops a cycle is an undecodable instruction.
pub proof fn lemma_full_store_in_range(m: Machine)
    requires
        m.wf(),
        m.ram.len() == ADDRESSABLE_MEM_SIZE,
    ensures
        m.m_in_range(),
        m.step().is_err() ==> m.step() == Err::<Machine, EmulatorError>(
            EmulatorError::UndecodableInstruction,
        ),
{
}

/// A cycle keeps the machine well-formed and never touches the program
/// store or the size of the data store.
pub proof fn lemma_step_keeps_program(m: Machine)
    requires
        m.wf(),
        m.step().is_ok(),
    ensures
        m.step().unwrap().wf(),
        m.step().unwrap().rom == m.rom,
        m.step().unwrap().num_instructions == m.num_instructions,
        m.step().unwrap().ram.len() == m.ram.len(),
{
    lemma_mask15_in_reach(m.step().unwrap().a);
}

/// A run keeps the machine well-formed and never touches the program
/// store or the size of the data store.
pub proof fn lemma_run_keeps_program(m: Machine, n: nat)
    requires
        m.wf(),
    ensures
        m.run(n).0.wf(),
        m.run(n).0.rom == m.rom,
        m.run(n).0.num_instructions == m.num_instructions,
        m.run(n).0.ram.len() == m.ram.len(),
    decreases n,
{
    if n > 0 && m.step().is_ok() {
        lemma_step_keeps_program(m);
        lemma_run_keeps_program(m.step().unwrap(), (n - 1) as nat);
    }
}

/// A run of `a + b` cycles is a run of `a` cycles followed, where none
/// of them failed, by a run of `b` cycles.
pub proof fn lemma_run_splits(m: Machine, a: nat, b: nat)
    ensures
        m.run(a + b) == (if m.run(a).1.is_some() {
            m.run(a)
        } else {
            m.run(a).0.run(b)
        }),
    decreases a,
{
    if a > 0 && m.step().is_ok() {
        lemma_run_splits(m.step().unwrap(), (a - 1) as nat, b);
        assert((a + b - 1) as nat == (a - 1) as nat + b);
    }
}

/// The jump table read by its bits: bit 2 asks for a jump on a negative
/// result, bit 1 on zero, bit 0 on a positive one.
pub proof fn lemma_jump_bits(jump: u8, result: i16)
    requires
        jump < 8,
    ensures
        jump_condition(jump, result) == Some(
            (jump / 4 % 2 == 1 && result < 0) || (jump / 2 % 2 == 1 && result == 0) || (jump % 2
                == 1 && result > 0),
        ),
{
}

} // verus!
