//! Authorization gateway for a custodial account that is controlled by a key
//! pair of a foreign network and holds assets on the host ledger.
//!
//! Every operation on an account must be approved by the holder of the
//! account's external key: exactly once (a gapless nonce), within a bounded
//! freshness window, and by a signature attestation that is bundled into the
//! same atomic execution unit and bound to the operation's canonical encoding.

pub mod address;
pub mod attestation;
pub mod authorizer;
pub mod bytes;
pub mod controller;
pub mod encoding;
pub mod error;
pub mod laws;
pub mod operations;
pub mod replay;
pub mod state;
pub mod unit;

pub use address::{derive_address, program_id, seed_prefix};
pub use attestation::{data_binds, entry_binds, find_attestation, SiblingInstruction};
pub use authorizer::{authorize, authorize_with, verify_ton_signature};
pub use controller::{
    apply_jupiter_swap, apply_transfer, apply_withdraw_all, create_account, create_account_at,
    operate, signer_seeds, transition, AccountSlot, CreateAccount, ExecuteJupiterSwap,
    ExecuteTransfer, LedgerOutcome, LedgerTransfer, TokenAccount, WithdrawAll,
};
pub use error::ErrorCode;
pub use operations::{
    execute_jupiter_swap, execute_transfer, plan_transfer, plan_withdraw_all, withdraw_all,
};
pub use replay::{check, FRESHNESS_WINDOW};
pub use state::{
    Address, JupiterSwapExecuted, OperationRecord, OperationRequest, OperationType, OwnerKey,
    Signature, SmartAccount, SmartAccountCreated, TransferExecuted, WithdrawAllExecuted,
};
pub use unit::{load_instructions, read_count};
