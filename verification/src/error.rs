//! The reasons for which an operation is refused.

use vstd::prelude::*;

verus! {

/// Why an operation was refused. A refused operation has no effect at all.
#[derive(Clone, Copy, Debug, PartialEq, Eq, Structural)]
pub enum ErrorCode {
    /// The submitted nonce is not the account's nonce plus one.
    InvalidNonce,
    /// The submitted timestamp lies outside the freshness window.
    InvalidTimestamp,
    /// No signature attestation is bundled into the execution unit.
    Ed25519InstructionNotFound,
    /// Attestations are bundled, but none binds the account's key to the
    /// operation's canonical encoding.
    InvalidSignature,
    /// No account is initialized at the address derived from its key.
    AccountNotFound,
    /// The account to create exists already.
    AlreadyExists,
    /// The ledger could not move the requested amount.
    InsufficientFunds,
}

/// The first number of this program's error codes.
pub const ERROR_CODE_OFFSET: u32 = 6000;

impl ErrorCode {
    /// The number under which the error is reported.
    pub open spec fn spec_code(self) -> u32 {
        match self {
            ErrorCode::InvalidNonce => 6000,
            ErrorCode::InvalidTimestamp => 6001,
            ErrorCode::Ed25519InstructionNotFound => 6002,
            ErrorCode::InvalidSignature => 6003,
            ErrorCode::AccountNotFound => 6004,
            ErrorCode::AlreadyExists => 6005,
            ErrorCode::InsufficientFunds => 6006,
        }
    }

    /// The number under which the error is reported.
    pub fn code(&self) -> (r: u32)
        ensures
            r == self.spec_code(),
    {
        match self {
            ErrorCode::InvalidNonce => ERROR_CODE_OFFSET,
            ErrorCode::InvalidTimestamp => ERROR_CODE_OFFSET + 1,
            ErrorCode::Ed25519InstructionNotFound => ERROR_CODE_OFFSET + 2,
            ErrorCode::InvalidSignature => ERROR_CODE_OFFSET + 3,
            ErrorCode::AccountNotFound => ERROR_CODE_OFFSET + 4,
            ErrorCode::AlreadyExists => ERROR_CODE_OFFSET + 5,
            ErrorCode::InsufficientFunds => ERROR_CODE_OFFSET + 6,
        }
    }

    /// The text that describes the error.
    pub open spec fn spec_message(self) -> Seq<char> {
        match self {
            ErrorCode::InvalidNonce => "Invalid nonce"@,
            ErrorCode::InvalidTimestamp => "Invalid timestamp"@,
            ErrorCode::Ed25519InstructionNotFound => "Ed25519 instruction not found"@,
            ErrorCode::InvalidSignature => "Invalid signature"@,
            ErrorCode::AccountNotFound => "Account not found"@,
            ErrorCode::AlreadyExists => "Account already exists"@,
            ErrorCode::InsufficientFunds => "Insufficient funds"@,
        }
    }

    /// The text that describes the error.
    pub fn message(&self) -> (r: &'static str)
        ensures
            r@ == self.spec_message(),
    {
        match self {
            ErrorCode::InvalidNonce => "Invalid nonce",
            ErrorCode::InvalidTimestamp => "Invalid timestamp",
            ErrorCode::Ed25519InstructionNotFound => "Ed25519 instruction not found",
            ErrorCode::InvalidSignature => "Invalid signature",
            ErrorCode::AccountNotFound => "Account not found",
            ErrorCode::AlreadyExists => "Account already exists",
            ErrorCode::InsufficientFunds => "Insufficient funds",
        }
    }
}

} // verus!
