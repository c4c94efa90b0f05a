//! The controller: creates accounts and executes authorized operations.
//!
//! An operation is one transition of an account. The account is loaded from
//! the address that is derived from its owner's key; the request is
//! authorized; the ledger moves the assets; then the nonce advances and the
//! operation is entered into the audit log. A transition that fails at any
//! of these steps changes nothing.
//!
//! The ledger is not part of this program. The controller says which
//! movement an authorized request calls for, and takes the ledger's answer
//! when it executes the request.

use vstd::prelude::*;
use crate::address::{derive_address, derived_address, seed_prefix, seed_prefix_bytes};
use crate::attestation::{unit_view, SiblingInstruction};
use crate::authorizer::{authorization_verdict, authorize_with};
use crate::bytes::bytes_eq;
use crate::error::ErrorCode;
use crate::state::{
    Address, JupiterSwapExecuted, OperationRecord, OperationRequest, OperationType, OwnerKey,
    Signature, SmartAccount, SmartAccountCreated, TransferExecuted, WithdrawAllExecuted,
};

verus! {

/// An address of the ledger and the account record that it holds, if it was
/// initialized.
#[derive(Clone, Copy, Debug, PartialEq, Eq)]
pub struct AccountSlot {
    pub address: Address,
    pub account: Option<SmartAccount>,
}

/// A holding of the ledger: its address and its balance.
#[derive(Clone, Copy, Debug, PartialEq, Eq)]
pub struct TokenAccount {
    pub address: Address,
    pub amount: u64,
}

/// A movement of assets that the ledger is asked for.
#[derive(Clone, Copy, Debug, PartialEq, Eq)]
pub struct LedgerTransfer {
    pub source: Address,
    pub destination: Address,
    /// The account in whose name the assets move.
    pub authority: Address,
    pub amount: u64,
}

/// The ledger's answer to a movement.
#[derive(Clone, Copy, Debug, PartialEq, Eq, Structural)]
pub enum LedgerOutcome {
    /// The assets were moved.
    Completed,
    /// The source does not hold the amount; nothing was moved.
    InsufficientFunds,
}

/// What the creation of an account works on.
#[derive(Clone, Copy, Debug, PartialEq, Eq)]
pub struct CreateAccount {
    /// Where the account is to be created.
    pub smart_account: AccountSlot,
    /// The current time.
    pub unix_timestamp: i64,
}

/// What a transfer works on.
#[derive(Clone, Debug, PartialEq, Eq)]
pub struct ExecuteTransfer {
    pub smart_account: AccountSlot,
    pub source_account: TokenAccount,
    pub destination_account: TokenAccount,
    /// The execution unit, as the instructions sysvar serializes it.
    pub instructions: Vec<u8>,
    /// The current time.
    pub unix_timestamp: i64,
    /// The audit log.
    pub operation_log: Vec<OperationRecord>,
}

/// What the recording of a swap intent works on.
#[derive(Clone, Debug, PartialEq, Eq)]
pub struct ExecuteJupiterSwap {
    pub smart_account: AccountSlot,
    /// The execution unit, as the instructions sysvar serializes it.
    pub instructions: Vec<u8>,
    /// The current time.
    pub unix_timestamp: i64,
    /// The audit log.
    pub operation_log: Vec<OperationRecord>,
}

/// What the withdrawal of a whole balance works on.
#[derive(Clone, Debug, PartialEq, Eq)]
pub struct WithdrawAll {
    pub smart_account: AccountSlot,
    /// The holding whose balance is withdrawn.
    pub token_account: TokenAccount,
    pub destination_account: TokenAccount,
    /// The execution unit, as the instructions sysvar serializes it.
    pub instructions: Vec<u8>,
    /// The current time.
    pub unix_timestamp: i64,
    /// The audit log.
    pub operation_log: Vec<OperationRecord>,
}

/// An address that may be missing, by its bytes.
pub open spec fn address_view(address: Option<Address>) -> Option<Seq<u8>> {
    match address {
        Some(a) => Some(a@),
        None => None,
    }
}

impl AccountSlot {
    /// The account of the slot, given the address `derived` from the key and
    /// bump of the record that the slot holds: the record, where the slot is
    /// initialized and lies at that address.
    pub open spec fn spec_account_at(self, derived: Option<Seq<u8>>) -> Option<SmartAccount> {
        match self.account {
            Some(account) => if derived == Some(self.address@) {
                Some(account)
            } else {
                None
            },
            None => None,
        }
    }

    /// The account of the slot: the record, where the slot is initialized and
    /// lies at the address that is derived from the record's key and bump.
    pub open spec fn spec_load(self) -> Option<SmartAccount> {
        match self.account {
            Some(account) => self.spec_account_at(
                derived_address(account.ton_pubkey@, account.bump),
            ),
            None => None,
        }
    }

    /// Gives the account of the slot, given the address `derived` from the key
    /// and bump of the record that the slot holds.
    pub fn account_at(&self, derived: &Option<Address>) -> (r: Option<SmartAccount>)
        ensures
            r == self.spec_account_at(address_view(*derived)),
    {
        match (&self.account, derived) {
            (Some(account), Some(address)) => {
                if bytes_eq(address.as_slice(), self.address.as_slice()) {
                    Some(*account)
                } else {
                    None
                }
            },
            _ => None,
        }
    }

    /// Loads the account of the slot.
    pub fn load(&self) -> (r: Option<SmartAccount>)
        ensures
            r == self.spec_load(),
    {
        match &self.account {
            Some(account) => {
                let derived = derive_address(&account.ton_pubkey, account.bump);
                self.account_at(&derived)
            },
            None => None,
        }
    }
}

/// The seeds under which the account signs for a movement of its assets.
pub fn signer_seeds(account: &SmartAccount) -> (r: Vec<Vec<u8>>)
    ensures
        r@.len() == 3,
        r@[0]@ == seed_prefix_bytes(),
        r@[1]@ == account.ton_pubkey@,
        r@[2]@ == seq![account.bump],
{
    let prefix = seed_prefix();
    let mut seeds: Vec<Vec<u8>> = Vec::new();
    seeds.push(vstd::slice::slice_to_vec(prefix.as_slice()));
    seeds.push(vstd::slice::slice_to_vec(account.ton_pubkey.as_slice()));
    let mut bump: Vec<u8> = Vec::new();
    bump.push(account.bump);
    assert(bump@ =~= seq![account.bump]);
    seeds.push(bump);
    seeds
}

/// The account after an operation of the given nonce.
pub open spec fn advanced(account: SmartAccount, nonce: u64) -> SmartAccount {
    SmartAccount { nonce, ..account }
}

/// One transition of an account: the account after the operation, or why
/// the operation is refused. The request is authorized before the ledger's
/// answer counts.
pub open spec fn transition_verdict(
    account: SmartAccount,
    request: OperationRequest,
    now: i64,
    unit: Seq<(Seq<u8>, Seq<u8>)>,
    ledger: LedgerOutcome,
) -> Result<SmartAccount, ErrorCode> {
    match authorization_verdict(account, request, now, unit) {
        Err(reason) => Err(reason),
        Ok(_) => match ledger {
            LedgerOutcome::InsufficientFunds => Err(ErrorCode::InsufficientFunds),
            LedgerOutcome::Completed => Ok(advanced(account, request.nonce)),
        },
    }
}

/// One transition of the account that a slot holds, given the address
/// `derived` from the record in the slot.
pub open spec fn operation_verdict(
    slot: AccountSlot,
    derived: Option<Seq<u8>>,
    request: OperationRequest,
    now: i64,
    unit: Seq<(Seq<u8>, Seq<u8>)>,
    ledger: LedgerOutcome,
) -> Result<SmartAccount, ErrorCode> {
    match slot.spec_account_at(derived) {
        None => Err(ErrorCode::AccountNotFound),
        Some(account) => transition_verdict(account, request, now, unit, ledger),
    }
}

/// The address that is derived from the record in a slot.
pub open spec fn slot_derived(slot: AccountSlot) -> Option<Seq<u8>> {
    match slot.account {
        Some(account) => derived_address(account.ton_pubkey@, account.bump),
        None => None,
    }
}

/// Performs one transition of an account: authorizes the request and, where
/// the ledger has moved the assets, advances the nonce. A refused request
/// leaves the account as it was.
pub fn transition(
    account: &mut SmartAccount,
    request: &OperationRequest,
    now: i64,
    unit: &Vec<SiblingInstruction>,
    ledger: LedgerOutcome,
) -> (r: Result<(), ErrorCode>)
    ensures
        match transition_verdict(*old(account), *request, now, unit_view(unit@), ledger) {
            Ok(after) => r == Ok::<(), ErrorCode>(()) && *final(account) == after,
            Err(reason) => r == Err::<(), ErrorCode>(reason) && *final(account) == *old(account),
        },
        r is Ok ==> final(account).nonce == old(account).nonce + 1,
{
    match authorize_with(account, request, now, unit) {
        Err(reason) => Err(reason),
        Ok(_) => match ledger {
            LedgerOutcome::InsufficientFunds => Err(ErrorCode::InsufficientFunds),
            LedgerOutcome::Completed => {
                account.nonce = request.nonce;
                Ok(())
            },
        },
    }
}

/// Performs one transition of the account that a slot holds, given the
/// address `derived` from the record in the slot. A refused request leaves
/// the slot as it was.
pub fn operate(
    slot: &mut AccountSlot,
    derived: &Option<Address>,
    request: &OperationRequest,
    now: i64,
    unit: &Vec<SiblingInstruction>,
    ledger: LedgerOutcome,
) -> (r: Result<(), ErrorCode>)
    ensures
        match operation_verdict(
            *old(slot),
            address_view(*derived),
            *request,
            now,
            unit_view(unit@),
            ledger,
        ) {
            Ok(after) => r == Ok::<(), ErrorCode>(()) && *final(slot) == (AccountSlot {
                address: old(slot).address,
                account: Some(after),
            }),
            Err(reason) => r == Err::<(), ErrorCode>(reason) && *final(slot) == *old(slot),
        },
{
    match slot.account_at(derived) {
        None => Err(ErrorCode::AccountNotFound),
        Some(loaded) => {
            let mut account = loaded;
            match transition(&mut account, request, now, unit, ledger) {
                Err(reason) => Err(reason),
                Ok(_) => {
                    slot.account = Some(account);
                    Ok(())
                },
            }
        },
    }
}

/// The record of an account that was just created.
pub open spec fn created(ton_pubkey: OwnerKey, bump: u8, now: i64) -> SmartAccount {
    SmartAccount { ton_pubkey, nonce: 0, created_at: now, bump }
}

/// What the creation of an account for `ton_pubkey` under `bump` does, given
/// the address `derived` from the two. An initialized slot is refused with
/// `AlreadyExists`, and a slot that does not lie at the derived address with
/// `AccountNotFound`; both are left as they were. Else the slot holds the
/// new record, with the nonce 0 and the current time.
pub open spec fn creation_effect(
    before: CreateAccount,
    after: CreateAccount,
    r: Result<SmartAccountCreated, ErrorCode>,
    derived: Option<Seq<u8>>,
    ton_pubkey: OwnerKey,
    bump: u8,
) -> bool {
    if before.smart_account.account is Some {
        r == Err::<SmartAccountCreated, ErrorCode>(ErrorCode::AlreadyExists) && after == before
    } else if derived != Some(before.smart_account.address@) {
        r == Err::<SmartAccountCreated, ErrorCode>(ErrorCode::AccountNotFound) && after == before
    } else {
        &&& r == Ok::<SmartAccountCreated, ErrorCode>(
            SmartAccountCreated {
                smart_account: before.smart_account.address,
                ton_pubkey,
                created_at: before.unix_timestamp,
            },
        )
        &&& after == (CreateAccount {
            smart_account: AccountSlot {
                address: before.smart_account.address,
                account: Some(created(ton_pubkey, bump, before.unix_timestamp)),
            },
            unix_timestamp: before.unix_timestamp,
        })
    }
}

/// Creates the account of `ton_pubkey` under `bump`, given the address
/// `derived` from the two.
pub fn create_account_at(
    ctx: &mut CreateAccount,
    derived: &Option<Address>,
    ton_pubkey: OwnerKey,
    bump: u8,
) -> (r: Result<SmartAccountCreated, ErrorCode>)
    ensures
        creation_effect(*old(ctx), *final(ctx), r, address_view(*derived), ton_pubkey, bump),
{
    if ctx.smart_account.account.is_some() {
        return Err(ErrorCode::AlreadyExists);
    }
    let at_address = match derived {
        Some(address) => bytes_eq(address.as_slice(), ctx.smart_account.address.as_slice()),
        None => false,
    };
    if !at_address {
        return Err(ErrorCode::AccountNotFound);
    }
    ctx.smart_account.account = Some(
        SmartAccount { ton_pubkey, nonce: 0, created_at: ctx.unix_timestamp, bump },
    );
    Ok(
        SmartAccountCreated {
            smart_account: ctx.smart_account.address,
            ton_pubkey,
            created_at: ctx.unix_timestamp,
        },
    )
}

/// Creates the account of `ton_pubkey` under the bump seed `bump`: binds the
/// two to the slot at the address that is derived from them, with the nonce 0
/// and the current time. A slot that is initialized already is refused with
/// `AlreadyExists` and stays as it was.
pub fn create_account(ctx: &mut CreateAccount, ton_pubkey: OwnerKey, bump: u8) -> (r: Result<
    SmartAccountCreated,
    ErrorCode,
>)
    ensures
        creation_effect(
            *old(ctx),
            *final(ctx),
            r,
            derived_address(ton_pubkey@, bump),
            ton_pubkey,
            bump,
        ),
        old(ctx).smart_account.account is Some ==> r == Err::<SmartAccountCreated, ErrorCode>(
            ErrorCode::AlreadyExists,
        ),
        r is Err ==> *final(ctx) == *old(ctx),
{
    let derived = derive_address(&ton_pubkey, bump);
    create_account_at(ctx, &derived, ton_pubkey, bump)
}

/// The request that a transfer of `amount` stands for.
pub open spec fn transfer_request(
    amount: u64,
    nonce: u64,
    timestamp: i64,
    signature: Signature,
) -> OperationRequest {
    OperationRequest { operation_type: OperationType::Transfer, amount, nonce, timestamp, signature }
}

/// The request that a swap intent for `amount_in` stands for.
pub open spec fn swap_request(
    amount_in: u64,
    nonce: u64,
    timestamp: i64,
    signature: Signature,
) -> OperationRequest {
    OperationRequest {
        operation_type: OperationType::JupiterSwap,
        amount: amount_in,
        nonce,
        timestamp,
        signature,
    }
}

/// The request that a withdrawal of the whole balance stands for. Its amount
/// is 0: the balance is read when the request is executed.
pub open spec fn withdraw_request(nonce: u64, timestamp: i64, signature: Signature) -> OperationRequest {
    OperationRequest {
        operation_type: OperationType::WithdrawAll,
        amount: 0,
        nonce,
        timestamp,
        signature,
    }
}

/// The audit record of a request that was executed on the account at
/// `address` with the given amount.
pub open spec fn record_of(address: Address, request: OperationRequest, amount: u64) -> OperationRecord {
    OperationRecord {
        smart_account: address,
        operation_type: request.operation_type,
        amount,
        nonce: request.nonce,
        timestamp: request.timestamp,
        signature: request.signature,
    }
}

impl ExecuteTransfer {
    /// The movement that a transfer of `amount` asks of the ledger: from the
    /// source to the destination, in the name of the account.
    pub open spec fn spec_ledger_transfer(self, amount: u64) -> LedgerTransfer {
        LedgerTransfer {
            source: self.source_account.address,
            destination: self.destination_account.address,
            authority: self.smart_account.address,
            amount,
        }
    }

    /// The movement that a transfer of `amount` asks of the ledger.
    pub fn ledger_transfer(&self, amount: u64) -> (r: LedgerTransfer)
        ensures
            r == self.spec_ledger_transfer(amount),
    {
        LedgerTransfer {
            source: self.source_account.address,
            destination: self.destination_account.address,
            authority: self.smart_account.address,
            amount,
        }
    }

    /// Whether `after` differs from `self` at most in the account's slot and
    /// in the audit log.
    pub open spec fn same_inputs(self, after: ExecuteTransfer) -> bool {
        &&& after.smart_account.address == self.smart_account.address
        &&& after.source_account == self.source_account
        &&& after.destination_account == self.destination_account
        &&& after.instructions == self.instructions
        &&& after.unix_timestamp == self.unix_timestamp
    }
}

impl ExecuteJupiterSwap {
    /// Whether `after` differs from `self` at most in the account's slot and
    /// in the audit log.
    pub open spec fn same_inputs(self, after: ExecuteJupiterSwap) -> bool {
        &&& after.smart_account.address == self.smart_account.address
        &&& after.instructions == self.instructions
        &&& after.unix_timestamp == self.unix_timestamp
    }
}

impl WithdrawAll {
    /// The movement that the withdrawal asks of the ledger: the whole balance
    /// of the holding, as it stands, to the destination.
    pub open spec fn spec_ledger_transfer(self) -> LedgerTransfer {
        LedgerTransfer {
            source: self.token_account.address,
            destination: self.destination_account.address,
            authority: self.smart_account.address,
            amount: self.token_account.amount,
        }
    }

    /// The movement that the withdrawal asks of the ledger.
    pub fn ledger_transfer(&self) -> (r: LedgerTransfer)
        ensures
            r == self.spec_ledger_transfer(),
    {
        LedgerTransfer {
            source: self.token_account.address,
            destination: self.destination_account.address,
            authority: self.smart_account.address,
            amount: self.token_account.amount,
        }
    }

    /// Whether `after` differs from `self` at most in the account's slot and
    /// in the audit log.
    pub open spec fn same_inputs(self, after: WithdrawAll) -> bool {
        &&& after.smart_account.address == self.smart_account.address
        &&& after.token_account == self.token_account
        &&& after.destination_account == self.destination_account
        &&& after.instructions == self.instructions
        &&& after.unix_timestamp == self.unix_timestamp
    }
}

/// What a transfer does, given the address `derived` from the record in the
/// slot, the instructions of the unit and the ledger's answer. A refused
/// transfer changes nothing. An executed one advances the nonce, appends
/// its record to the audit log and reports the event.
pub open spec fn transfer_effect(
    before: ExecuteTransfer,
    after: ExecuteTransfer,
    r: Result<TransferExecuted, ErrorCode>,
    derived: Option<Seq<u8>>,
    unit: Seq<(Seq<u8>, Seq<u8>)>,
    request: OperationRequest,
    ledger: LedgerOutcome,
) -> bool {
    match operation_verdict(
        before.smart_account,
        derived,
        request,
        before.unix_timestamp,
        unit,
        ledger,
    ) {
        Err(reason) => r == Err::<TransferExecuted, ErrorCode>(reason) && after == before,
        Ok(account) => {
            &&& r == Ok::<TransferExecuted, ErrorCode>(
                TransferExecuted {
                    smart_account: before.smart_account.address,
                    destination: before.destination_account.address,
                    amount: request.amount,
                    nonce: request.nonce,
                    timestamp: request.timestamp,
                },
            )
            &&& before.same_inputs(after)
            &&& after.smart_account.account == Some(account)
            &&& after.operation_log@ == before.operation_log@.push(
                record_of(before.smart_account.address, request, request.amount),
            )
        },
    }
}

/// What the recording of a swap intent does, given the address `derived`
/// from the record in the slot and the instructions of the unit. Nothing is
/// exchanged and the ledger is not asked. A refused request changes nothing.
/// A recorded one advances the nonce, appends its record to the audit log
/// and reports the event.
pub open spec fn swap_effect(
    before: ExecuteJupiterSwap,
    after: ExecuteJupiterSwap,
    r: Result<JupiterSwapExecuted, ErrorCode>,
    derived: Option<Seq<u8>>,
    unit: Seq<(Seq<u8>, Seq<u8>)>,
    request: OperationRequest,
    minimum_amount_out: u64,
) -> bool {
    match operation_verdict(
        before.smart_account,
        derived,
        request,
        before.unix_timestamp,
        unit,
        LedgerOutcome::Completed,
    ) {
        Err(reason) => r == Err::<JupiterSwapExecuted, ErrorCode>(reason) && after == before,
        Ok(account) => {
            &&& r == Ok::<JupiterSwapExecuted, ErrorCode>(
                JupiterSwapExecuted {
                    smart_account: before.smart_account.address,
                    amount_in: request.amount,
                    minimum_amount_out,
                    nonce: request.nonce,
                    timestamp: request.timestamp,
                },
            )
            &&& before.same_inputs(after)
            &&& after.smart_account.account == Some(account)
            &&& after.operation_log@ == before.operation_log@.push(
                record_of(before.smart_account.address, request, request.amount),
            )
        },
    }
}

/// What the withdrawal of the whole balance does, given the address
/// `derived` from the record in the slot, the instructions of the unit and
/// the ledger's answer. The amount is the balance of the holding, whatever
/// it is. A refused withdrawal changes nothing. An executed one advances the
/// nonce, appends its record to the audit log and reports the event.
pub open spec fn withdraw_effect(
    before: WithdrawAll,
    after: WithdrawAll,
    r: Result<WithdrawAllExecuted, ErrorCode>,
    derived: Option<Seq<u8>>,
    unit: Seq<(Seq<u8>, Seq<u8>)>,
    request: OperationRequest,
    ledger: LedgerOutcome,
) -> bool {
    match operation_verdict(
        before.smart_account,
        derived,
        request,
        before.unix_timestamp,
        unit,
        ledger,
    ) {
        Err(reason) => r == Err::<WithdrawAllExecuted, ErrorCode>(reason) && after == before,
        Ok(account) => {
            &&& r == Ok::<WithdrawAllExecuted, ErrorCode>(
                WithdrawAllExecuted {
                    smart_account: before.smart_account.address,
                    destination: before.destination_account.address,
                    amount: before.token_account.amount,
                    nonce: request.nonce,
                    timestamp: request.timestamp,
                },
            )
            &&& before.same_inputs(after)
            &&& after.smart_account.account == Some(account)
            &&& after.operation_log@ == before.operation_log@.push(
                record_of(before.smart_account.address, request, before.token_account.amount),
            )
        },
    }
}

/// Executes a transfer, given the address `derived` from the record in the
/// slot and the instructions of the unit.
pub fn apply_transfer(
    ctx: &mut ExecuteTransfer,
    derived: &Option<Address>,
    unit: &Vec<SiblingInstruction>,
    amount: u64,
    nonce: u64,
    timestamp: i64,
    ton_signature: Signature,
    ledger: LedgerOutcome,
) -> (r: Result<TransferExecuted, ErrorCode>)
    ensures
        transfer_effect(
            *old(ctx),
            *final(ctx),
            r,
            address_view(*derived),
            unit_view(unit@),
            transfer_request(amount, nonce, timestamp, ton_signature),
            ledger,
        ),
{
    let request = OperationRequest {
        operation_type: OperationType::Transfer,
        amount,
        nonce,
        timestamp,
        signature: ton_signature,
    };
    match operate(&mut ctx.smart_account, derived, &request, ctx.unix_timestamp, unit, ledger) {
        Err(reason) => Err(reason),
        Ok(_) => {
            ctx.operation_log.push(
                OperationRecord {
                    smart_account: ctx.smart_account.address,
                    operation_type: OperationType::Transfer,
                    amount,
                    nonce,
                    timestamp,
                    signature: ton_signature,
                },
            );
            Ok(
                TransferExecuted {
                    smart_account: ctx.smart_account.address,
                    destination: ctx.destination_account.address,
                    amount,
                    nonce,
                    timestamp,
                },
            )
        },
    }
}

/// Records a swap intent, given the address `derived` from the record in the
/// slot and the instructions of the unit.
pub fn apply_jupiter_swap(
    ctx: &mut ExecuteJupiterSwap,
    derived: &Option<Address>,
    unit: &Vec<SiblingInstruction>,
    amount_in: u64,
    minimum_amount_out: u64,
    nonce: u64,
    timestamp: i64,
    ton_signature: Signature,
) -> (r: Result<JupiterSwapExecuted, ErrorCode>)
    ensures
        swap_effect(
            *old(ctx),
            *final(ctx),
            r,
            address_view(*derived),
            unit_view(unit@),
            swap_request(amount_in, nonce, timestamp, ton_signature),
            minimum_amount_out,
        ),
{
    let request = OperationRequest {
        operation_type: OperationType::JupiterSwap,
        amount: amount_in,
        nonce,
        timestamp,
        signature: ton_signature,
    };
    match operate(
        &mut ctx.smart_account,
        derived,
        &request,
        ctx.unix_timestamp,
        unit,
        LedgerOutcome::Completed,
    ) {
        Err(reason) => Err(reason),
        Ok(_) => {
            ctx.operation_log.push(
                OperationRecord {
                    smart_account: ctx.smart_account.address,
                    operation_type: OperationType::JupiterSwap,
                    amount: amount_in,
                    nonce,
                    timestamp,
                    signature: ton_signature,
                },
            );
            Ok(
                JupiterSwapExecuted {
                    smart_account: ctx.smart_account.address,
                    amount_in,
                    minimum_amount_out,
                    nonce,
                    timestamp,
                },
            )
        },
    }
}

/// Executes the withdrawal of the whole balance, given the address `derived`
/// from the record in the slot and the instructions of the unit.
pub fn apply_withdraw_all(
    ctx: &mut WithdrawAll,
    derived: &Option<Address>,
    unit: &Vec<SiblingInstruction>,
    nonce: u64,
    timestamp: i64,
    ton_signature: Signature,
    ledger: LedgerOutcome,
) -> (r: Result<WithdrawAllExecuted, ErrorCode>)
    ensures
        withdraw_effect(
            *old(ctx),
            *final(ctx),
            r,
            address_view(*derived),
            unit_view(unit@),
            withdraw_request(nonce, timestamp, ton_signature),
            ledger,
        ),
{
    let request = OperationRequest {
        operation_type: OperationType::WithdrawAll,
        amount: 0,
        nonce,
        timestamp,
        signature: ton_signature,
    };
    match operate(&mut ctx.smart_account, derived, &request, ctx.unix_timestamp, unit, ledger) {
        Err(reason) => Err(reason),
        Ok(_) => {
            let balance = ctx.token_account.amount;
            ctx.operation_log.push(
                OperationRecord {
                    smart_account: ctx.smart_account.address,
                    operation_type: OperationType::WithdrawAll,
                    amount: balance,
                    nonce,
                    timestamp,
                    signature: ton_signature,
                },
            );
            Ok(
                WithdrawAllExecuted {
                    smart_account: ctx.smart_account.address,
                    destination: ctx.destination_account.address,
                    amount: balance,
                    nonce,
                    timestamp,
                },
            )
        },
    }
}

} // verus!
