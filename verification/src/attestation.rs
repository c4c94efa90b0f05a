//! Signature attestations: the record that a message was signed by a key.
//!
//! The signature itself is checked outside this program, by the ledger's
//! Ed25519 program, whose instruction is bundled into the same execution
//! unit. Such an instruction only executes where every signature that it
//! lists is valid, so each of its entries attests that one key signed one
//! message. This module reads those entries and tells whether one of them
//! binds a given key to a given message.
//!
//! The data of an Ed25519 instruction opens with the number of entries (one
//! byte) and a byte of padding. Each entry is seven 16-bit numbers, least
//! significant byte first: the signature's offset and the index of the
//! instruction that holds it, the same two for the public key, then the
//! message's offset, its size and the index of the instruction that holds
//! it. Only an entry whose three indices are `0xFFFF`, which stands for the
//! Ed25519 instruction itself, counts here: what it attests was then
//! written into that very instruction.

use vstd::prelude::*;
use vstd::slice::slice_subrange;
use crate::bytes::bytes_eq;
use crate::error::ErrorCode;
use crate::state::Address;

verus! {

/// An instruction that is bundled into the same execution unit.
#[derive(Clone, Debug, PartialEq, Eq)]
pub struct SiblingInstruction {
    /// The address of the program that executes the instruction.
    pub program_id: Address,
    /// The data handed to that program.
    pub data: Vec<u8>,
}

impl View for SiblingInstruction {
    /// The program's address, then the data.
    type V = (Seq<u8>, Seq<u8>);

    open spec fn view(&self) -> (Seq<u8>, Seq<u8>) {
        (self.program_id@, self.data@)
    }
}

/// The instructions of a unit, each by its view.
pub open spec fn unit_view(unit: Seq<SiblingInstruction>) -> Seq<(Seq<u8>, Seq<u8>)> {
    Seq::new(unit.len(), |i: int| unit[i]@)
}

/// The address of the ledger's Ed25519 program.
pub open spec fn ed25519_program_id() -> Seq<u8> {
    seq![
        3u8, 125, 70, 214, 124, 147, 251, 190, 18, 249, 66, 143, 131, 141, 64, 255, 5, 112, 116,
        73, 39, 244, 138, 100, 252, 202, 112, 68, 128, 0, 0, 0,
    ]
}

/// Calls `check_id` of `solana_program::ed25519_program`, which compares an
/// address with that module's `ID`. The contract claims that `ID` is the 32
/// bytes of `ed25519_program_id`.
#[verifier::external_body]
fn check_ed25519_id(program_id: &Address) -> (r: bool)
    ensures
        r == (program_id@ == ed25519_program_id()),
{
    let id = solana_program::pubkey::Pubkey::new_from_array(*program_id);
    solana_program::ed25519_program::check_id(&id)
}

/// The size of an entry's signature.
pub const SIGNATURE_SIZE: usize = 64;

/// The size of an entry's public key.
pub const PUBLIC_KEY_SIZE: usize = 32;

/// The size of an entry.
pub const ENTRY_SIZE: usize = 14;

/// Where the entries start.
pub const ENTRIES_START: usize = 2;

/// The index that stands for the Ed25519 instruction itself.
pub const SAME_INSTRUCTION: u16 = 0xFFFF;

/// The 16-bit number at `at`, least significant byte first.
pub open spec fn u16_at(data: Seq<u8>, at: int) -> int {
    data[at] + 256 * data[at + 1]
}

/// How many entries the data announces.
pub open spec fn entry_count(data: Seq<u8>) -> int {
    if data.len() >= ENTRIES_START {
        data[0] as int
    } else {
        0
    }
}

/// The `field`-th number of entry `k`.
pub open spec fn entry_field(data: Seq<u8>, k: int, field: int) -> int {
    u16_at(data, ENTRIES_START + ENTRY_SIZE * k + 2 * field)
}

/// Whether entry `k` is announced, lies within the data, keeps signature, key
/// and message in this same instruction, and has all three within the data.
pub open spec fn entry_is_sound(data: Seq<u8>, k: int) -> bool {
    &&& 0 <= k < entry_count(data)
    &&& ENTRIES_START + ENTRY_SIZE * (k + 1) <= data.len()
    &&& entry_field(data, k, 1) == SAME_INSTRUCTION
    &&& entry_field(data, k, 3) == SAME_INSTRUCTION
    &&& entry_field(data, k, 6) == SAME_INSTRUCTION
    &&& entry_field(data, k, 0) + SIGNATURE_SIZE <= data.len()
    &&& entry_field(data, k, 2) + PUBLIC_KEY_SIZE <= data.len()
    &&& entry_field(data, k, 4) + entry_field(data, k, 5) <= data.len()
}

/// The public key of a sound entry.
pub open spec fn entry_key(data: Seq<u8>, k: int) -> Seq<u8> {
    data.subrange(entry_field(data, k, 2), entry_field(data, k, 2) + PUBLIC_KEY_SIZE)
}

/// The message of a sound entry.
pub open spec fn entry_message(data: Seq<u8>, k: int) -> Seq<u8> {
    data.subrange(entry_field(data, k, 4), entry_field(data, k, 4) + entry_field(data, k, 5))
}

/// Whether entry `k` attests that `key` signed `message`.
pub open spec fn entry_attests(data: Seq<u8>, k: int, key: Seq<u8>, message: Seq<u8>) -> bool {
    &&& entry_is_sound(data, k)
    &&& entry_key(data, k) == key
    &&& entry_message(data, k) == message
}

/// Whether an entry of the data attests that `key` signed `message`.
pub open spec fn data_attests(data: Seq<u8>, key: Seq<u8>, message: Seq<u8>) -> bool {
    exists|k: int| entry_attests(data, k, key, message)
}

/// Whether the instruction is one of the Ed25519 program.
pub open spec fn is_attestation(instruction: (Seq<u8>, Seq<u8>)) -> bool {
    instruction.0 == ed25519_program_id()
}

/// Whether the unit holds an instruction of the Ed25519 program.
pub open spec fn unit_has_attestation(unit: Seq<(Seq<u8>, Seq<u8>)>) -> bool {
    exists|i: int| 0 <= i < unit.len() && is_attestation(#[trigger] unit[i])
}

/// Whether an Ed25519 instruction of the unit attests that `key` signed
/// `message`.
pub open spec fn unit_attests(unit: Seq<(Seq<u8>, Seq<u8>)>, key: Seq<u8>, message: Seq<u8>) -> bool {
    exists|i: int|
        0 <= i < unit.len() && is_attestation(#[trigger] unit[i]) && data_attests(
            unit[i].1,
            key,
            message,
        )
}

/// What the attestations of a unit say of a key and a message: that none is
/// there, that none of them binds the key to the message, or that one does.
pub open spec fn attestation_verdict(
    unit: Seq<(Seq<u8>, Seq<u8>)>,
    key: Seq<u8>,
    message: Seq<u8>,
) -> Result<(), ErrorCode> {
    if !unit_has_attestation(unit) {
        Err(ErrorCode::Ed25519InstructionNotFound)
    } else if !unit_attests(unit, key, message) {
        Err(ErrorCode::InvalidSignature)
    } else {
        Ok(())
    }
}

/// Reads the 16-bit number at `at`.
fn read_u16(data: &[u8], at: usize) -> (r: u16)
    requires
        at + 2 <= data@.len(),
    ensures
        r == u16_at(data@, at as int),
{
    let low: u16 = data[at] as u16;
    let high: u16 = data[at + 1] as u16;
    low + 256 * high
}

/// Tells whether entry `k` of an Ed25519 instruction's data attests that
/// `key` signed `message`.
pub fn entry_binds(data: &[u8], k: usize, key: &[u8], message: &[u8]) -> (r: bool)
    ensures
        r == entry_attests(data@, k as int, key@, message@),
{
    if data.len() < ENTRIES_START || k >= data[0] as usize {
        return false;
    }
    let start: usize = ENTRIES_START + ENTRY_SIZE * k;
    if data.len() < start + ENTRY_SIZE {
        return false;
    }
    let signature_at: usize = read_u16(data, start) as usize;
    let signature_in: u16 = read_u16(data, start + 2);
    let key_at: usize = read_u16(data, start + 4) as usize;
    let key_in: u16 = read_u16(data, start + 6);
    let message_at: usize = read_u16(data, start + 8) as usize;
    let message_size: usize = read_u16(data, start + 10) as usize;
    let message_in: u16 = read_u16(data, start + 12);
    if signature_in != SAME_INSTRUCTION || key_in != SAME_INSTRUCTION || message_in
        != SAME_INSTRUCTION {
        return false;
    }
    if signature_at + SIGNATURE_SIZE > data.len() || key_at + PUBLIC_KEY_SIZE > data.len()
        || message_at + message_size > data.len() {
        return false;
    }
    bytes_eq(slice_subrange(data, key_at, key_at + PUBLIC_KEY_SIZE), key) && bytes_eq(
        slice_subrange(data, message_at, message_at + message_size),
        message,
    )
}

/// Tells whether an entry of an Ed25519 instruction's data attests that `key`
/// signed `message`.
pub fn data_binds(data: &[u8], key: &[u8], message: &[u8]) -> (r: bool)
    ensures
        r == data_attests(data@, key@, message@),
{
    if data.len() < ENTRIES_START {
        return false;
    }
    let count: usize = data[0] as usize;
    let mut k: usize = 0;
    while k < count
        invariant
            k <= count,
            count == entry_count(data@),
            forall|j: int| 0 <= j < k ==> !entry_attests(data@, j, key@, message@),
        decreases count - k,
    {
        if entry_binds(data, k, key, message) {
            return true;
        }
        k += 1;
    }
    false
}

/// Looks among the instructions of the unit for an attestation that `key`
/// signed `message`.
pub fn find_attestation(unit: &Vec<SiblingInstruction>, key: &[u8], message: &[u8]) -> (r: Result<
    (),
    ErrorCode,
>)
    ensures
        r == attestation_verdict(unit_view(unit@), key@, message@),
{
    let ghost view = unit_view(unit@);
    let mut present = false;
    let mut i: usize = 0;
    while i < unit.len()
        invariant
            i <= unit.len(),
            view == unit_view(unit@),
            present == (exists|j: int| 0 <= j < i && is_attestation(#[trigger] view[j])),
            forall|j: int|
                0 <= j < i && is_attestation(#[trigger] view[j]) ==> !data_attests(
                    view[j].1,
                    key@,
                    message@,
                ),
        decreases unit.len() - i,
    {
        if check_ed25519_id(&unit[i].program_id) {
            assert(is_attestation(view[i as int]));
            if data_binds(unit[i].data.as_slice(), key, message) {
                return Ok(());
            }
            present = true;
        }
        i += 1;
    }
    if present {
        Err(ErrorCode::InvalidSignature)
    } else {
        Err(ErrorCode::Ed25519InstructionNotFound)
    }
}

} // verus!
