//! The account record, the audit record and the events.

use vstd::prelude::*;

verus! {

/// An address on the host ledger.
pub type Address = [u8; 32];

/// A public key of the foreign network.
pub type OwnerKey = [u8; 32];

/// A signature of the foreign network.
pub type Signature = [u8; 64];

/// The controlled account. Only `nonce` ever changes after creation.
#[derive(Clone, Copy, Debug, PartialEq, Eq)]
pub struct SmartAccount {
    /// The external controller's public key.
    pub ton_pubkey: OwnerKey,
    /// The number of operations that were authorized so far.
    pub nonce: u64,
    /// When the account was created.
    pub created_at: i64,
    /// The bump seed with which the account's address is derived from the key.
    pub bump: u8,
}

impl SmartAccount {
    /// The width of the persisted record.
    pub const LEN: usize = 32 + 8 + 8 + 1;
}

/// The kinds of operation.
#[derive(Clone, Copy, Debug, PartialEq, Eq, Structural)]
pub enum OperationType {
    /// Move an amount to a destination.
    Transfer,
    /// Record the intent to exchange an amount; nothing is exchanged.
    JupiterSwap,
    /// Move the whole balance to a destination.
    WithdrawAll,
}

/// One entry of the audit log: an operation that was executed.
#[derive(Clone, Copy, Debug, PartialEq, Eq)]
pub struct OperationRecord {
    /// The address of the account that was operated on.
    pub smart_account: Address,
    pub operation_type: OperationType,
    pub amount: u64,
    pub nonce: u64,
    pub timestamp: i64,
    pub signature: Signature,
}

impl OperationRecord {
    /// The width of the persisted record.
    pub const LEN: usize = 32 + 1 + 8 + 8 + 8 + 64;
}

/// An account was created.
#[derive(Clone, Copy, Debug, PartialEq, Eq)]
pub struct SmartAccountCreated {
    pub smart_account: Address,
    pub ton_pubkey: OwnerKey,
    pub created_at: i64,
}

/// An amount was moved to a destination.
#[derive(Clone, Copy, Debug, PartialEq, Eq)]
pub struct TransferExecuted {
    pub smart_account: Address,
    pub destination: Address,
    pub amount: u64,
    pub nonce: u64,
    pub timestamp: i64,
}

/// The intent to exchange an amount was recorded.
#[derive(Clone, Copy, Debug, PartialEq, Eq)]
pub struct JupiterSwapExecuted {
    pub smart_account: Address,
    pub amount_in: u64,
    pub minimum_amount_out: u64,
    pub nonce: u64,
    pub timestamp: i64,
}

/// The whole balance was moved to a destination.
#[derive(Clone, Copy, Debug, PartialEq, Eq)]
pub struct WithdrawAllExecuted {
    pub smart_account: Address,
    pub destination: Address,
    pub amount: u64,
    pub nonce: u64,
    pub timestamp: i64,
}

/// A request to operate on an account, as the key holder signed it.
#[derive(Clone, Copy, Debug, PartialEq, Eq)]
pub struct OperationRequest {
    pub operation_type: OperationType,
    pub amount: u64,
    pub nonce: u64,
    pub timestamp: i64,
    pub signature: Signature,
}

} // verus!
