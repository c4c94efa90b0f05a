//! The authorizer: accepts a request where the replay guard accepts its
//! nonce and timestamp and an attestation of the execution unit binds the
//! account's key to the request's canonical encoding.

use vstd::prelude::*;
use crate::attestation::{
    attestation_verdict, data_attests, entry_attests, find_attestation, is_attestation, unit_attests,
    unit_view, SiblingInstruction,
};
use crate::encoding::lemma_encoding_injective;
use crate::error::ErrorCode;
use crate::replay::{check, replay_verdict};
use crate::state::{OperationRequest, OwnerKey, SmartAccount};
use crate::unit::{bundled_instructions, load_instructions};

verus! {

/// Whether a request is authorized for an account at the time `now`, given
/// the instructions of the execution unit. The replay guard is asked first;
/// the first check that fails gives the reason.
pub open spec fn authorization_verdict(
    account: SmartAccount,
    request: OperationRequest,
    now: i64,
    unit: Seq<(Seq<u8>, Seq<u8>)>,
) -> Result<(), ErrorCode> {
    match replay_verdict(account.nonce, request.nonce, request.timestamp, now) {
        Err(reason) => Err(reason),
        Ok(_) => attestation_verdict(unit, account.ton_pubkey@, request.spec_canonical_encoding()),
    }
}

/// Decides whether a request is authorized, given the instructions of the
/// execution unit. Nothing is changed.
pub fn authorize_with(
    account: &SmartAccount,
    request: &OperationRequest,
    now: i64,
    unit: &Vec<SiblingInstruction>,
) -> (r: Result<(), ErrorCode>)
    ensures
        r == authorization_verdict(*account, *request, now, unit_view(unit@)),
{
    match check(account.nonce, request.nonce, request.timestamp, now) {
        Err(reason) => Err(reason),
        Ok(_) => {
            let message = request.canonical_encoding();
            find_attestation(unit, account.ton_pubkey.as_slice(), message.as_slice())
        },
    }
}

/// Looks in the execution unit, as the ledger's instructions sysvar
/// serializes it, for an attestation that `ton_pubkey` signed the canonical
/// encoding of the request.
pub fn verify_ton_signature(
    instructions: &[u8],
    ton_pubkey: &OwnerKey,
    request: &OperationRequest,
) -> (r: Result<(), ErrorCode>)
    ensures
        r == attestation_verdict(
            bundled_instructions(instructions@),
            ton_pubkey@,
            request.spec_canonical_encoding(),
        ),
{
    let unit = load_instructions(instructions);
    let message = request.canonical_encoding();
    find_attestation(&unit, ton_pubkey.as_slice(), message.as_slice())
}

/// Decides whether a request is authorized, given the execution unit as the
/// ledger's instructions sysvar serializes it. Nothing is changed.
pub fn authorize(account: &SmartAccount, request: &OperationRequest, now: i64, instructions: &[u8]) -> (r:
    Result<(), ErrorCode>)
    ensures
        r == authorization_verdict(*account, *request, now, bundled_instructions(instructions@)),
{
    match check(account.nonce, request.nonce, request.timestamp, now) {
        Err(reason) => Err(reason),
        Ok(_) => verify_ton_signature(instructions, &account.ton_pubkey, request),
    }
}

/// Whether every attestation of the unit for `key` is one of `message`.
pub open spec fn attests_only(unit: Seq<(Seq<u8>, Seq<u8>)>, key: Seq<u8>, message: Seq<u8>) -> bool {
    forall|i: int, k: int, other: Seq<u8>|
        0 <= i < unit.len() && is_attestation(#[trigger] unit[i]) && #[trigger] entry_attests(
            unit[i].1,
            k,
            key,
            other,
        ) ==> other == message
}

/// Message binding: where the unit's attestations for the account's key are
/// all for the encoding of the request `signed`, a request that differs from
/// it in kind, amount, nonce or timestamp is refused.
pub proof fn lemma_message_binding(
    account: SmartAccount,
    signed: OperationRequest,
    submitted: OperationRequest,
    now: i64,
    unit: Seq<(Seq<u8>, Seq<u8>)>,
)
    requires
        attests_only(unit, account.ton_pubkey@, signed.spec_canonical_encoding()),
        submitted.operation_type != signed.operation_type || submitted.amount != signed.amount
            || submitted.nonce != signed.nonce || submitted.timestamp != signed.timestamp,
    ensures
        authorization_verdict(account, submitted, now, unit) is Err,
{
    let key = account.ton_pubkey@;
    let message = submitted.spec_canonical_encoding();
    if unit_attests(unit, key, message) {
        let i = choose|i: int|
            0 <= i < unit.len() && is_attestation(#[trigger] unit[i]) && data_attests(
                unit[i].1,
                key,
                message,
            );
        let k = choose|k: int| entry_attests(unit[i].1, k, key, message);
        assert(entry_attests(unit[i].1, k, key, message));
        assert(message == signed.spec_canonical_encoding());
        lemma_encoding_injective(submitted, signed);
    }
}

} // verus!
