//! The canonical encoding of a request: the message that the key holder signs.
//!
//! The encoding is one byte for the kind of operation, then the nonce, the
//! timestamp and the amount, eight bytes each, least significant byte first.
//! Requests that differ in one of the four have different encodings, so a
//! signature cannot be used for another kind, amount, nonce or timestamp.

use vstd::prelude::*;
use crate::bytes::{
    i64_bits, le_bytes, lemma_le_bytes_injective, lemma_le_bytes_len, lemma_pow256_8, push_u64_le,
    twos_complement,
};
use crate::state::{OperationRequest, OperationType};

verus! {

/// The width of an encoded request.
pub const ENCODED_LEN: usize = 1 + 8 + 8 + 8;

impl OperationType {
    /// The byte that tells the kinds of operation apart.
    pub open spec fn spec_tag(self) -> u8 {
        match self {
            OperationType::Transfer => 0,
            OperationType::JupiterSwap => 1,
            OperationType::WithdrawAll => 2,
        }
    }

    /// The byte that tells the kinds of operation apart.
    pub fn tag(&self) -> (r: u8)
        ensures
            r == self.spec_tag(),
    {
        match self {
            OperationType::Transfer => 0,
            OperationType::JupiterSwap => 1,
            OperationType::WithdrawAll => 2,
        }
    }
}

/// The message that authorizes an operation of the given kind, nonce,
/// timestamp and amount.
pub open spec fn canonical_encoding(
    operation_type: OperationType,
    nonce: u64,
    timestamp: i64,
    amount: u64,
) -> Seq<u8> {
    seq![operation_type.spec_tag()] + le_bytes(nonce as nat, 8) + le_bytes(
        twos_complement(timestamp),
        8,
    ) + le_bytes(amount as nat, 8)
}

impl OperationRequest {
    /// The message that the key holder signs to authorize this request.
    pub open spec fn spec_canonical_encoding(self) -> Seq<u8> {
        canonical_encoding(self.operation_type, self.nonce, self.timestamp, self.amount)
    }

    /// The message that the key holder signs to authorize this request.
    pub fn canonical_encoding(&self) -> (r: Vec<u8>)
        ensures
            r@ == self.spec_canonical_encoding(),
            r@.len() == ENCODED_LEN,
    {
        let mut out: Vec<u8> = Vec::new();
        out.push(self.operation_type.tag());
        assert(out@ == seq![self.operation_type.spec_tag()]);
        push_u64_le(&mut out, self.nonce);
        push_u64_le(&mut out, i64_bits(self.timestamp));
        push_u64_le(&mut out, self.amount);
        proof {
            lemma_encoding_len(self.operation_type, self.nonce, self.timestamp, self.amount);
        }
        out
    }
}

/// An encoded request is 25 bytes long.
pub proof fn lemma_encoding_len(
    operation_type: OperationType,
    nonce: u64,
    timestamp: i64,
    amount: u64,
)
    ensures
        canonical_encoding(operation_type, nonce, timestamp, amount).len() == ENCODED_LEN,
{
    lemma_le_bytes_len(nonce as nat, 8);
    lemma_le_bytes_len(twos_complement(timestamp), 8);
    lemma_le_bytes_len(amount as nat, 8);
}

/// Two requests with the same canonical encoding have the same kind, nonce,
/// timestamp and amount: a message that authorizes one operation authorizes
/// no other.
pub proof fn lemma_encoding_injective(a: OperationRequest, b: OperationRequest)
    requires
        a.spec_canonical_encoding() == b.spec_canonical_encoding(),
    ensures
        a.operation_type == b.operation_type,
        a.nonce == b.nonce,
        a.timestamp == b.timestamp,
        a.amount == b.amount,
{
    let ea = a.spec_canonical_encoding();
    let eb = b.spec_canonical_encoding();
    let an = le_bytes(a.nonce as nat, 8);
    let bn = le_bytes(b.nonce as nat, 8);
    let at = le_bytes(twos_complement(a.timestamp), 8);
    let bt = le_bytes(twos_complement(b.timestamp), 8);
    let aa = le_bytes(a.amount as nat, 8);
    let ba = le_bytes(b.amount as nat, 8);
    lemma_le_bytes_len(a.nonce as nat, 8);
    lemma_le_bytes_len(b.nonce as nat, 8);
    lemma_le_bytes_len(twos_complement(a.timestamp), 8);
    lemma_le_bytes_len(twos_complement(b.timestamp), 8);
    lemma_le_bytes_len(a.amount as nat, 8);
    lemma_le_bytes_len(b.amount as nat, 8);
    lemma_pow256_8();
    assert(ea[0] == a.operation_type.spec_tag());
    assert(eb[0] == b.operation_type.spec_tag());
    assert(ea.subrange(1, 9) == an);
    assert(eb.subrange(1, 9) == bn);
    assert(ea.subrange(9, 17) == at);
    assert(eb.subrange(9, 17) == bt);
    assert(ea.subrange(17, 25) == aa);
    assert(eb.subrange(17, 25) == ba);
    lemma_le_bytes_injective(a.nonce as nat, b.nonce as nat, 8);
    lemma_le_bytes_injective(twos_complement(a.timestamp), twos_complement(b.timestamp), 8);
    lemma_le_bytes_injective(a.amount as nat, b.amount as nat, 8);
}

} // verus!
