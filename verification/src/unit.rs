//! The execution unit: the instructions that run together with a request,
//! as the ledger's instructions sysvar serializes them.

use vstd::prelude::*;
use crate::attestation::{unit_view, SiblingInstruction};

verus! {

/// The instruction that the serialized instructions `data` hold at `index`:
/// its program's address, then its data. `None` where `data` holds none there
/// or cannot be read.
pub uninterp spec fn instruction_at(index: int, data: Seq<u8>) -> Option<(Seq<u8>, Seq<u8>)>;

/// Calls `load_instruction_at` of `solana_program::sysvar::instructions`,
/// which reads one instruction out of the sysvar's data. The contract claims
/// that the outcome is a function of the index and the data alone, and names
/// it: `None` stands for the call's error, and the instruction's list of
/// accounts is left out.
#[allow(deprecated)]
#[verifier::external_body]
fn load_instruction_at(index: usize, data: &[u8]) -> (r: Option<SiblingInstruction>)
    ensures
        r matches Some(instruction) ==> instruction_at(index as int, data@) == Some(instruction@),
        r is None ==> instruction_at(index as int, data@) is None,
{
    match solana_program::sysvar::instructions::load_instruction_at(index, data) {
        Ok(instruction) => Some(
            SiblingInstruction {
                program_id: instruction.program_id.to_bytes(),
                data: instruction.data,
            },
        ),
        Err(_) => None,
    }
}

/// How many instructions the data announces: the 16-bit number that it opens
/// with, least significant byte first.
pub open spec fn declared_count(data: Seq<u8>) -> nat {
    if data.len() >= 2 {
        (data[0] + 256 * data[1]) as nat
    } else {
        0
    }
}

/// The instructions that can be read at the indices below `n`, in order.
pub open spec fn instructions_below(data: Seq<u8>, n: nat) -> Seq<(Seq<u8>, Seq<u8>)>
    decreases n,
{
    if n == 0 {
        Seq::empty()
    } else {
        let before = instructions_below(data, (n - 1) as nat);
        match instruction_at(n - 1, data) {
            Some(instruction) => before.push(instruction),
            None => before,
        }
    }
}

/// The instructions of the unit: those that can be read at the indices that
/// the data announces, in order.
pub open spec fn bundled_instructions(data: Seq<u8>) -> Seq<(Seq<u8>, Seq<u8>)> {
    instructions_below(data, declared_count(data))
}

/// Reads the number of instructions that the data announces.
pub fn read_count(data: &[u8]) -> (r: usize)
    ensures
        r == declared_count(data@),
{
    if data.len() < 2 {
        return 0;
    }
    let low: usize = data[0] as usize;
    let high: usize = data[1] as usize;
    low + 256 * high
}

/// Reads the instructions of the unit out of the sysvar's data. One that
/// cannot be read is passed over.
pub fn load_instructions(data: &[u8]) -> (r: Vec<SiblingInstruction>)
    ensures
        unit_view(r@) == bundled_instructions(data@),
{
    let count = read_count(data);
    let mut unit: Vec<SiblingInstruction> = Vec::new();
    let mut i: usize = 0;
    assert(unit_view(unit@) =~= instructions_below(data@, 0));
    while i < count
        invariant
            i <= count,
            unit_view(unit@) == instructions_below(data@, i as nat),
        decreases count - i,
    {
        let ghost before = unit@;
        match load_instruction_at(i, data) {
            Some(instruction) => {
                unit.push(instruction);
                assert(unit_view(unit@) =~= unit_view(before).push(instruction@));
            },
            None => {},
        }
        i += 1;
    }
    unit
}

} // verus!
