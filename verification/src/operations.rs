//! The operations that callers submit: the creation of an account is in the
//! controller; here are the transfer, the swap intent and the withdrawal of
//! a whole balance, each on the execution unit as the ledger serializes it.
//!
//! A transfer and a withdrawal move assets, which only the ledger can do.
//! `plan_transfer` and `plan_withdraw_all` authorize the request and say which
//! movement it calls for; the caller has the ledger perform it and hands the
//! ledger's answer to `execute_transfer` or `withdraw_all`, which authorize
//! the request again before they commit anything.

use vstd::prelude::*;
use crate::address::derive_address;
use crate::authorizer::authorize;
use crate::controller::{
    address_view, advanced, apply_jupiter_swap, apply_transfer, apply_withdraw_all, operation_verdict,
    slot_derived, swap_effect, swap_request, transfer_effect, transfer_request, withdraw_effect,
    withdraw_request, AccountSlot, ExecuteJupiterSwap, ExecuteTransfer, LedgerOutcome,
    LedgerTransfer, WithdrawAll,
};
use crate::error::ErrorCode;
use crate::replay::nonce_follows;
use crate::state::{
    Address, JupiterSwapExecuted, OperationRequest, OperationType, Signature, TransferExecuted,
    WithdrawAllExecuted,
};
use crate::unit::{bundled_instructions, load_instructions};

verus! {

/// Derives the address that belongs to the record in a slot.
fn derive_for(slot: &AccountSlot) -> (r: Option<Address>)
    ensures
        address_view(r) == slot_derived(*slot),
{
    match &slot.account {
        Some(account) => derive_address(&account.ton_pubkey, account.bump),
        None => None,
    }
}

/// Authorizes a request on the account of a slot and, where it is
/// authorized, hands back the movement that it calls for.
fn plan(
    slot: &AccountSlot,
    request: &OperationRequest,
    now: i64,
    instructions: &[u8],
    movement: LedgerTransfer,
) -> (r: Result<LedgerTransfer, ErrorCode>)
    ensures
        match operation_verdict(
            *slot,
            slot_derived(*slot),
            *request,
            now,
            bundled_instructions(instructions@),
            LedgerOutcome::Completed,
        ) {
            Err(reason) => r == Err::<LedgerTransfer, ErrorCode>(reason),
            Ok(_) => r == Ok::<LedgerTransfer, ErrorCode>(movement),
        },
{
    match slot.load() {
        None => Err(ErrorCode::AccountNotFound),
        Some(account) => match authorize(&account, request, now, instructions) {
            Err(reason) => Err(reason),
            Ok(_) => Ok(movement),
        },
    }
}

/// Authorizes a transfer of `amount` and says which movement the ledger is
/// to perform for it: `amount` from the source to the destination, in the
/// name of the account. Nothing is changed.
pub fn plan_transfer(
    ctx: &ExecuteTransfer,
    amount: u64,
    nonce: u64,
    timestamp: i64,
    ton_signature: Signature,
) -> (r: Result<LedgerTransfer, ErrorCode>)
    ensures
        match operation_verdict(
            ctx.smart_account,
            slot_derived(ctx.smart_account),
            transfer_request(amount, nonce, timestamp, ton_signature),
            ctx.unix_timestamp,
            bundled_instructions(ctx.instructions@),
            LedgerOutcome::Completed,
        ) {
            Err(reason) => r == Err::<LedgerTransfer, ErrorCode>(reason),
            Ok(_) => r == Ok::<LedgerTransfer, ErrorCode>(ctx.spec_ledger_transfer(amount)),
        },
{
    let request = OperationRequest {
        operation_type: OperationType::Transfer,
        amount,
        nonce,
        timestamp,
        signature: ton_signature,
    };
    plan(
        &ctx.smart_account,
        &request,
        ctx.unix_timestamp,
        ctx.instructions.as_slice(),
        ctx.ledger_transfer(amount),
    )
}

/// Authorizes the withdrawal of the whole balance and says which movement
/// the ledger is to perform for it: the balance of the holding, as it
/// stands, to the destination. Nothing is changed.
pub fn plan_withdraw_all(ctx: &WithdrawAll, nonce: u64, timestamp: i64, ton_signature: Signature) -> (r:
    Result<LedgerTransfer, ErrorCode>)
    ensures
        match operation_verdict(
            ctx.smart_account,
            slot_derived(ctx.smart_account),
            withdraw_request(nonce, timestamp, ton_signature),
            ctx.unix_timestamp,
            bundled_instructions(ctx.instructions@),
            LedgerOutcome::Completed,
        ) {
            Err(reason) => r == Err::<LedgerTransfer, ErrorCode>(reason),
            Ok(_) => r == Ok::<LedgerTransfer, ErrorCode>(ctx.spec_ledger_transfer()),
        },
        r matches Ok(movement) ==> movement.amount == ctx.token_account.amount,
{
    let request = OperationRequest {
        operation_type: OperationType::WithdrawAll,
        amount: 0,
        nonce,
        timestamp,
        signature: ton_signature,
    };
    plan(
        &ctx.smart_account,
        &request,
        ctx.unix_timestamp,
        ctx.instructions.as_slice(),
        ctx.ledger_transfer(),
    )
}

/// Executes a transfer of `amount` that the ledger has answered with
/// `ledger`. Where the account is loaded, the request is authorized and the
/// ledger has moved the assets, the nonce advances to `nonce`, the record
/// enters the audit log and the event is handed back. Else the reason is
/// handed back and nothing is changed.
pub fn execute_transfer(
    ctx: &mut ExecuteTransfer,
    amount: u64,
    nonce: u64,
    timestamp: i64,
    ton_signature: Signature,
    ledger: LedgerOutcome,
) -> (r: Result<TransferExecuted, ErrorCode>)
    ensures
        transfer_effect(
            *old(ctx),
            *final(ctx),
            r,
            slot_derived(old(ctx).smart_account),
            bundled_instructions(old(ctx).instructions@),
            transfer_request(amount, nonce, timestamp, ton_signature),
            ledger,
        ),
        r is Err ==> *final(ctx) == *old(ctx),
        ledger == LedgerOutcome::InsufficientFunds ==> r is Err,
        (old(ctx).smart_account.spec_load() matches Some(account) && !nonce_follows(
            account.nonce,
            nonce,
        )) ==> r == Err::<TransferExecuted, ErrorCode>(ErrorCode::InvalidNonce),
        r is Ok ==> (old(ctx).smart_account.account matches Some(account) && nonce
            == account.nonce + 1 && final(ctx).smart_account.account == Some(
            advanced(account, nonce),
        )),
{
    let derived = derive_for(&ctx.smart_account);
    let unit = load_instructions(ctx.instructions.as_slice());
    apply_transfer(ctx, &derived, &unit, amount, nonce, timestamp, ton_signature, ledger)
}

/// Records the intent to exchange `amount_in` for at least
/// `minimum_amount_out`. Nothing is exchanged. Where the account is loaded
/// and the request is authorized, the nonce advances to `nonce`, the record
/// enters the audit log and the event is handed back. Else the reason is
/// handed back and nothing is changed.
pub fn execute_jupiter_swap(
    ctx: &mut ExecuteJupiterSwap,
    amount_in: u64,
    minimum_amount_out: u64,
    nonce: u64,
    timestamp: i64,
    ton_signature: Signature,
) -> (r: Result<JupiterSwapExecuted, ErrorCode>)
    ensures
        swap_effect(
            *old(ctx),
            *final(ctx),
            r,
            slot_derived(old(ctx).smart_account),
            bundled_instructions(old(ctx).instructions@),
            swap_request(amount_in, nonce, timestamp, ton_signature),
            minimum_amount_out,
        ),
        r is Err ==> *final(ctx) == *old(ctx),
        (old(ctx).smart_account.spec_load() matches Some(account) && !nonce_follows(
            account.nonce,
            nonce,
        )) ==> r == Err::<JupiterSwapExecuted, ErrorCode>(ErrorCode::InvalidNonce),
        r is Ok ==> (old(ctx).smart_account.account matches Some(account) && nonce
            == account.nonce + 1 && final(ctx).smart_account.account == Some(
            advanced(account, nonce),
        )),
{
    let derived = derive_for(&ctx.smart_account);
    let unit = load_instructions(ctx.instructions.as_slice());
    apply_jupiter_swap(
        ctx,
        &derived,
        &unit,
        amount_in,
        minimum_amount_out,
        nonce,
        timestamp,
        ton_signature,
    )
}

/// Executes the withdrawal of the whole balance that the ledger has answered
/// with `ledger`. The amount is the balance of the holding, whatever it is,
/// also where it is 0. Where the account is loaded, the request is
/// authorized and the ledger has moved the assets, the nonce advances to
/// `nonce`, the record enters the audit log and the event is handed back.
/// Else the reason is handed back and nothing is changed.
pub fn withdraw_all(
    ctx: &mut WithdrawAll,
    nonce: u64,
    timestamp: i64,
    ton_signature: Signature,
    ledger: LedgerOutcome,
) -> (r: Result<WithdrawAllExecuted, ErrorCode>)
    ensures
        withdraw_effect(
            *old(ctx),
            *final(ctx),
            r,
            slot_derived(old(ctx).smart_account),
            bundled_instructions(old(ctx).instructions@),
            withdraw_request(nonce, timestamp, ton_signature),
            ledger,
        ),
        r is Err ==> *final(ctx) == *old(ctx),
        ledger == LedgerOutcome::InsufficientFunds ==> r is Err,
        r matches Ok(event) ==> event.amount == old(ctx).token_account.amount,
        (old(ctx).smart_account.spec_load() matches Some(account) && !nonce_follows(
            account.nonce,
            nonce,
        )) ==> r == Err::<WithdrawAllExecuted, ErrorCode>(ErrorCode::InvalidNonce),
        r is Ok ==> (old(ctx).smart_account.account matches Some(account) && nonce
            == account.nonce + 1 && final(ctx).smart_account.account == Some(
            advanced(account, nonce),
        )),
{
    let derived = derive_for(&ctx.smart_account);
    let unit = load_instructions(ctx.instructions.as_slice());
    apply_withdraw_all(ctx, &derived, &unit, nonce, timestamp, ton_signature, ledger)
}

} // verus!
