use solana_program::instruction::Instruction;
use solana_program::pubkey::Pubkey;
use solana_program::sysvar::instructions::{construct_instructions_data, BorrowedInstruction};
use solana_sdk::ed25519_instruction::new_ed25519_instruction;
use ton_smart_wallet::{
    apply_transfer, authorize, authorize_with, create_account, create_account_at,
    execute_jupiter_swap, execute_transfer, load_instructions, operate, plan_transfer,
    plan_withdraw_all, program_id, transition, verify_ton_signature, withdraw_all, AccountSlot, CreateAccount, ErrorCode,
    ExecuteJupiterSwap, ExecuteTransfer, JupiterSwapExecuted, LedgerOutcome, LedgerTransfer,
    OperationRecord, OperationRequest, OperationType, SiblingInstruction, SmartAccount,
    SmartAccountCreated, TokenAccount, TransferExecuted, WithdrawAll, WithdrawAllExecuted,
};

const NOW: i64 = 1_700_000_000;
const SOURCE: [u8; 32] = [0xA1; 32];
const DESTINATION: [u8; 32] = [0xB2; 32];
const SIGNATURE: [u8; 64] = [0xC3; 64];

fn keypair(seed: u8) -> ed25519_dalek::Keypair {
    let secret = ed25519_dalek::SecretKey::from_bytes(&[seed; 32]).unwrap();
    let public = ed25519_dalek::PublicKey::from(&secret);
    ed25519_dalek::Keypair { secret, public }
}

fn owner() -> ed25519_dalek::Keypair {
    keypair(1)
}

fn sysvar(instructions: &[Instruction]) -> Vec<u8> {
    let borrowed: Vec<BorrowedInstruction> = instructions
        .iter()
        .map(|ix| BorrowedInstruction { program_id: &ix.program_id, accounts: vec![], data: &ix.data })
        .collect();
    construct_instructions_data(&borrowed)
}

fn message(operation_type: OperationType, amount: u64, nonce: u64, timestamp: i64) -> Vec<u8> {
    OperationRequest { operation_type, amount, nonce, timestamp, signature: SIGNATURE }
        .canonical_encoding()
}

/// The sysvar of a unit in which `signer` attests `message`.
fn attested(signer: &ed25519_dalek::Keypair, message: &[u8]) -> Vec<u8> {
    sysvar(&[new_ed25519_instruction(signer, message)])
}

fn located(key: &[u8; 32]) -> ([u8; 32], u8) {
    let (address, bump) = Pubkey::find_program_address(
        &[b"smart_account", key],
        &Pubkey::new_from_array(program_id()),
    );
    (address.to_bytes(), bump)
}

/// The slot of the owner's account with the given nonce.
fn active_slot(nonce: u64) -> AccountSlot {
    let key = owner().public.to_bytes();
    let (address, bump) = located(&key);
    AccountSlot {
        address,
        account: Some(SmartAccount { ton_pubkey: key, nonce, created_at: NOW - 1_000, bump }),
    }
}

fn transfer_ctx(nonce: u64, instructions: Vec<u8>) -> ExecuteTransfer {
    ExecuteTransfer {
        smart_account: active_slot(nonce),
        source_account: TokenAccount { address: SOURCE, amount: 5_000 },
        destination_account: TokenAccount { address: DESTINATION, amount: 10 },
        instructions,
        unix_timestamp: NOW,
        operation_log: Vec::new(),
    }
}

fn swap_ctx(nonce: u64, instructions: Vec<u8>) -> ExecuteJupiterSwap {
    ExecuteJupiterSwap {
        smart_account: active_slot(nonce),
        instructions,
        unix_timestamp: NOW,
        operation_log: Vec::new(),
    }
}

fn withdraw_ctx(nonce: u64, balance: u64, instructions: Vec<u8>) -> WithdrawAll {
    WithdrawAll {
        smart_account: active_slot(nonce),
        token_account: TokenAccount { address: SOURCE, amount: balance },
        destination_account: TokenAccount { address: DESTINATION, amount: 10 },
        instructions,
        unix_timestamp: NOW,
        operation_log: Vec::new(),
    }
}

fn with_nonce(slot: AccountSlot, nonce: u64) -> AccountSlot {
    let mut account = slot.account.unwrap();
    account.nonce = nonce;
    AccountSlot { address: slot.address, account: Some(account) }
}

#[test]
fn create_account_binds_key_and_bump_with_nonce_zero() {
    let key = owner().public.to_bytes();
    let (address, bump) = located(&key);
    let mut ctx =
        CreateAccount { smart_account: AccountSlot { address, account: None }, unix_timestamp: NOW };
    let event = create_account(&mut ctx, key, bump);
    assert_eq!(
        event,
        Ok(SmartAccountCreated { smart_account: address, ton_pubkey: key, created_at: NOW })
    );
    assert_eq!(
        ctx.smart_account,
        AccountSlot {
            address,
            account: Some(SmartAccount { ton_pubkey: key, nonce: 0, created_at: NOW, bump }),
        }
    );
    assert_eq!(ctx.unix_timestamp, NOW);
    assert_eq!(ctx.smart_account.load(), ctx.smart_account.account);
}

#[test]
fn second_creation_for_the_same_key_fails_with_already_exists() {
    let key = owner().public.to_bytes();
    let (address, bump) = located(&key);
    let mut ctx =
        CreateAccount { smart_account: AccountSlot { address, account: None }, unix_timestamp: NOW };
    assert!(create_account(&mut ctx, key, bump).is_ok());
    let after_first = ctx;
    ctx.unix_timestamp = NOW + 50;
    let later = ctx;
    assert_eq!(create_account(&mut ctx, key, bump), Err(ErrorCode::AlreadyExists));
    assert_eq!(ctx, later);
    assert_eq!(ctx.smart_account, after_first.smart_account);
    assert_eq!(ctx.smart_account.account.unwrap().created_at, NOW);
}

#[test]
fn creation_over_an_account_that_was_used_keeps_its_nonce() {
    let key = owner().public.to_bytes();
    let mut ctx = CreateAccount { smart_account: active_slot(7), unix_timestamp: NOW };
    let before = ctx;
    let bump = before.smart_account.account.unwrap().bump;
    assert_eq!(create_account(&mut ctx, key, bump), Err(ErrorCode::AlreadyExists));
    assert_eq!(create_account(&mut ctx, [9u8; 32], 3), Err(ErrorCode::AlreadyExists));
    assert_eq!(ctx, before);
    assert_eq!(ctx.smart_account.account.unwrap().nonce, 7);
}

#[test]
fn creation_at_another_address_is_refused() {
    let key = owner().public.to_bytes();
    let (address, bump) = located(&key);
    let mut elsewhere = address;
    elsewhere[0] ^= 1;
    let mut ctx = CreateAccount {
        smart_account: AccountSlot { address: elsewhere, account: None },
        unix_timestamp: NOW,
    };
    let before = ctx;
    assert_eq!(create_account(&mut ctx, key, bump), Err(ErrorCode::AccountNotFound));
    assert_eq!(ctx, before);
    // the address of another key
    let mut ctx =
        CreateAccount { smart_account: AccountSlot { address, account: None }, unix_timestamp: NOW };
    assert_eq!(
        create_account(&mut ctx, keypair(2).public.to_bytes(), bump),
        Err(ErrorCode::AccountNotFound)
    );
    assert_eq!(ctx.smart_account.account, None);
}

#[test]
fn create_account_at_goes_by_the_derived_address_it_is_given() {
    let slot = AccountSlot { address: [4u8; 32], account: None };
    let mut ctx = CreateAccount { smart_account: slot, unix_timestamp: 5 };
    assert_eq!(
        create_account_at(&mut ctx, &None, [1u8; 32], 9),
        Err(ErrorCode::AccountNotFound)
    );
    assert_eq!(
        create_account_at(&mut ctx, &Some([5u8; 32]), [1u8; 32], 9),
        Err(ErrorCode::AccountNotFound)
    );
    assert_eq!(ctx.smart_account, slot);
    assert_eq!(
        create_account_at(&mut ctx, &Some([4u8; 32]), [1u8; 32], 9),
        Ok(SmartAccountCreated { smart_account: [4u8; 32], ton_pubkey: [1u8; 32], created_at: 5 })
    );
    assert_eq!(
        ctx.smart_account.account,
        Some(SmartAccount { ton_pubkey: [1u8; 32], nonce: 0, created_at: 5, bump: 9 })
    );
    assert_eq!(
        create_account_at(&mut ctx, &Some([4u8; 32]), [1u8; 32], 9),
        Err(ErrorCode::AlreadyExists)
    );
    assert_eq!(create_account_at(&mut ctx, &None, [2u8; 32], 1), Err(ErrorCode::AlreadyExists));
}

#[test]
fn slot_load_needs_an_initialized_account_at_its_derived_address() {
    let slot = active_slot(3);
    assert_eq!(slot.load(), slot.account);
    assert_eq!(AccountSlot { address: slot.address, account: None }.load(), None);
    let mut moved = slot;
    moved.address[31] ^= 0x80;
    assert_eq!(moved.load(), None);
    let mut other_bump = slot;
    other_bump.account = Some(SmartAccount {
        bump: slot.account.unwrap().bump.wrapping_sub(1),
        ..slot.account.unwrap()
    });
    assert_eq!(other_bump.load(), None);
    assert_eq!(slot.account_at(&Some(slot.address)), slot.account);
    assert_eq!(slot.account_at(&Some([0u8; 32])), None);
    assert_eq!(slot.account_at(&None), None);
}

#[test]
fn transfer_advances_the_nonce_and_logs_the_operation() {
    let unit = attested(&owner(), &message(OperationType::Transfer, 1_000, 1, NOW - 5));
    let mut ctx = transfer_ctx(0, unit.clone());
    let before = ctx.clone();
    let event = execute_transfer(&mut ctx, 1_000, 1, NOW - 5, SIGNATURE, LedgerOutcome::Completed);
    assert_eq!(
        event,
        Ok(TransferExecuted {
            smart_account: before.smart_account.address,
            destination: DESTINATION,
            amount: 1_000,
            nonce: 1,
            timestamp: NOW - 5,
        })
    );
    assert_eq!(ctx.smart_account, with_nonce(before.smart_account, 1));
    assert_eq!(
        ctx.operation_log,
        vec![OperationRecord {
            smart_account: before.smart_account.address,
            operation_type: OperationType::Transfer,
            amount: 1_000,
            nonce: 1,
            timestamp: NOW - 5,
            signature: SIGNATURE,
        }]
    );
    assert_eq!(ctx.source_account, before.source_account);
    assert_eq!(ctx.destination_account, before.destination_account);
    assert_eq!(ctx.instructions, unit);
    assert_eq!(ctx.unix_timestamp, NOW);
}

#[test]
fn plan_transfer_names_the_movement() {
    let ctx = transfer_ctx(0, attested(&owner(), &message(OperationType::Transfer, 1_000, 1, NOW)));
    assert_eq!(
        plan_transfer(&ctx, 1_000, 1, NOW, SIGNATURE),
        Ok(LedgerTransfer {
            source: SOURCE,
            destination: DESTINATION,
            authority: ctx.smart_account.address,
            amount: 1_000,
        })
    );
    assert_eq!(ctx.ledger_transfer(3).amount, 3);
    assert_eq!(plan_transfer(&ctx, 1_001, 1, NOW, SIGNATURE), Err(ErrorCode::InvalidSignature));
    assert_eq!(plan_transfer(&ctx, 1_000, 2, NOW, SIGNATURE), Err(ErrorCode::InvalidNonce));
    assert_eq!(
        plan_transfer(&transfer_ctx(0, sysvar(&[])), 1_000, 1, NOW, SIGNATURE),
        Err(ErrorCode::Ed25519InstructionNotFound)
    );
}

#[test]
fn failed_ledger_transfer_leaves_nonce_and_log() {
    let unit = attested(&owner(), &message(OperationType::Transfer, 1_000, 4, NOW));
    let mut ctx = transfer_ctx(3, unit);
    ctx.operation_log.push(OperationRecord {
        smart_account: ctx.smart_account.address,
        operation_type: OperationType::JupiterSwap,
        amount: 1,
        nonce: 3,
        timestamp: NOW - 60,
        signature: [0u8; 64],
    });
    let before = ctx.clone();
    assert_eq!(plan_transfer(&ctx, 1_000, 4, NOW, SIGNATURE).map(|m| m.amount), Ok(1_000));
    assert_eq!(
        execute_transfer(&mut ctx, 1_000, 4, NOW, SIGNATURE, LedgerOutcome::InsufficientFunds),
        Err(ErrorCode::InsufficientFunds)
    );
    assert_eq!(ctx, before);
    assert_eq!(ctx.smart_account.account.unwrap().nonce, 3);
    assert_eq!(ctx.operation_log.len(), 1);
    // the same request still executes once the ledger moves the assets
    assert!(execute_transfer(&mut ctx, 1_000, 4, NOW, SIGNATURE, LedgerOutcome::Completed).is_ok());
    assert_eq!(ctx.smart_account.account.unwrap().nonce, 4);
    assert_eq!(ctx.operation_log.len(), 2);
}

#[test]
fn authorization_is_judged_before_the_ledger_outcome() {
    let mut ctx = transfer_ctx(3, sysvar(&[]));
    assert_eq!(
        execute_transfer(&mut ctx, 1, 9, NOW, SIGNATURE, LedgerOutcome::InsufficientFunds),
        Err(ErrorCode::InvalidNonce)
    );
    assert_eq!(
        execute_transfer(&mut ctx, 1, 4, NOW - 300, SIGNATURE, LedgerOutcome::InsufficientFunds),
        Err(ErrorCode::InvalidTimestamp)
    );
    assert_eq!(
        execute_transfer(&mut ctx, 1, 4, NOW, SIGNATURE, LedgerOutcome::InsufficientFunds),
        Err(ErrorCode::Ed25519InstructionNotFound)
    );
}

#[test]
fn wrong_nonce_is_rejected_and_changes_nothing() {
    for (current, submitted) in [(0u64, 0u64), (0, 2), (5, 5), (5, 4), (5, 7), (u64::MAX, 0)] {
        let unit = attested(&owner(), &message(OperationType::Transfer, 10, submitted, NOW));
        let mut ctx = transfer_ctx(current, unit);
        let before = ctx.clone();
        assert_eq!(
            execute_transfer(&mut ctx, 10, submitted, NOW, SIGNATURE, LedgerOutcome::Completed),
            Err(ErrorCode::InvalidNonce)
        );
        assert_eq!(ctx, before);
    }
}

#[test]
fn stale_timestamp_is_rejected_and_changes_nothing() {
    for timestamp in [NOW - 300, NOW + 300, NOW - 301, 0, i64::MIN, i64::MAX] {
        let unit = attested(&owner(), &message(OperationType::Transfer, 10, 1, timestamp));
        let mut ctx = transfer_ctx(0, unit);
        let before = ctx.clone();
        assert_eq!(
            execute_transfer(&mut ctx, 10, 1, timestamp, SIGNATURE, LedgerOutcome::Completed),
            Err(ErrorCode::InvalidTimestamp)
        );
        assert_eq!(ctx, before);
    }
}

#[test]
fn timestamp_at_the_edge_of_the_window_executes() {
    for timestamp in [NOW - 299, NOW + 299] {
        let unit = attested(&owner(), &message(OperationType::Transfer, 10, 1, timestamp));
        let mut ctx = transfer_ctx(0, unit);
        assert!(
            execute_transfer(&mut ctx, 10, 1, timestamp, SIGNATURE, LedgerOutcome::Completed)
                .is_ok()
        );
        assert_eq!(ctx.smart_account.account.unwrap().nonce, 1);
    }
}

#[test]
fn missing_attestation_is_rejected() {
    let other = Instruction {
        program_id: Pubkey::new_from_array([9u8; 32]),
        accounts: vec![],
        data: new_ed25519_instruction(&owner(), &message(OperationType::Transfer, 10, 1, NOW)).data,
    };
    for unit in [sysvar(&[]), sysvar(&[other]), Vec::new()] {
        let mut ctx = transfer_ctx(0, unit);
        let before = ctx.clone();
        assert_eq!(
            execute_transfer(&mut ctx, 10, 1, NOW, SIGNATURE, LedgerOutcome::Completed),
            Err(ErrorCode::Ed25519InstructionNotFound)
        );
        assert_eq!(ctx, before);
    }
}

#[test]
fn attestation_for_other_fields_is_rejected() {
    let unit = attested(&owner(), &message(OperationType::Transfer, 10, 1, NOW));
    let attempts: [(u64, u64, i64); 4] = [(11, 1, NOW), (10, 1, NOW + 1), (10, 1, NOW - 1), (0, 1, NOW)];
    for (amount, nonce, timestamp) in attempts {
        let mut ctx = transfer_ctx(0, unit.clone());
        let before = ctx.clone();
        assert_eq!(
            execute_transfer(&mut ctx, amount, nonce, timestamp, SIGNATURE, LedgerOutcome::Completed),
            Err(ErrorCode::InvalidSignature)
        );
        assert_eq!(ctx, before);
    }
    // with the nonce of the attested message at an account one step further on
    let mut ctx = transfer_ctx(1, unit.clone());
    assert_eq!(
        execute_transfer(&mut ctx, 10, 2, NOW, SIGNATURE, LedgerOutcome::Completed),
        Err(ErrorCode::InvalidSignature)
    );
    let mut ctx = transfer_ctx(0, unit);
    assert!(execute_transfer(&mut ctx, 10, 1, NOW, SIGNATURE, LedgerOutcome::Completed).is_ok());
}

#[test]
fn attestation_by_another_key_is_rejected() {
    let unit = attested(&keypair(2), &message(OperationType::Transfer, 10, 1, NOW));
    let mut ctx = transfer_ctx(0, unit);
    let before = ctx.clone();
    assert_eq!(
        execute_transfer(&mut ctx, 10, 1, NOW, SIGNATURE, LedgerOutcome::Completed),
        Err(ErrorCode::InvalidSignature)
    );
    assert_eq!(ctx, before);
}

#[test]
fn attestation_for_one_kind_authorizes_no_other_kind() {
    let unit = attested(&owner(), &message(OperationType::Transfer, 0, 1, NOW));
    let mut swap = swap_ctx(0, unit.clone());
    assert_eq!(
        execute_jupiter_swap(&mut swap, 0, 0, 1, NOW, SIGNATURE),
        Err(ErrorCode::InvalidSignature)
    );
    let mut withdraw = withdraw_ctx(0, 50, unit.clone());
    assert_eq!(
        withdraw_all(&mut withdraw, 1, NOW, SIGNATURE, LedgerOutcome::Completed),
        Err(ErrorCode::InvalidSignature)
    );
    let mut transfer = transfer_ctx(0, unit);
    assert!(execute_transfer(&mut transfer, 0, 1, NOW, SIGNATURE, LedgerOutcome::Completed).is_ok());
}

#[test]
fn uninitialized_account_is_not_found() {
    let unit = attested(&owner(), &message(OperationType::Transfer, 10, 1, NOW));
    let mut ctx = transfer_ctx(0, unit);
    ctx.smart_account.account = None;
    let before = ctx.clone();
    assert_eq!(
        execute_transfer(&mut ctx, 10, 1, NOW, SIGNATURE, LedgerOutcome::Completed),
        Err(ErrorCode::AccountNotFound)
    );
    assert_eq!(ctx, before);
    assert_eq!(plan_transfer(&ctx, 10, 1, NOW, SIGNATURE), Err(ErrorCode::AccountNotFound));
}

#[test]
fn account_away_from_its_derived_address_is_not_found() {
    let unit = attested(&owner(), &message(OperationType::Transfer, 10, 1, NOW));
    let mut ctx = transfer_ctx(0, unit.clone());
    ctx.smart_account.address[5] ^= 1;
    let before = ctx.clone();
    assert_eq!(
        execute_transfer(&mut ctx, 10, 1, NOW, SIGNATURE, LedgerOutcome::Completed),
        Err(ErrorCode::AccountNotFound)
    );
    assert_eq!(ctx, before);
    let mut swap = swap_ctx(0, unit.clone());
    swap.smart_account.address = [0u8; 32];
    assert_eq!(
        execute_jupiter_swap(&mut swap, 10, 1, 1, NOW, SIGNATURE),
        Err(ErrorCode::AccountNotFound)
    );
    let mut withdraw = withdraw_ctx(0, 1, unit);
    withdraw.smart_account.account = None;
    assert_eq!(
        withdraw_all(&mut withdraw, 1, NOW, SIGNATURE, LedgerOutcome::Completed),
        Err(ErrorCode::AccountNotFound)
    );
    assert_eq!(plan_withdraw_all(&withdraw, 1, NOW, SIGNATURE), Err(ErrorCode::AccountNotFound));
}

#[test]
fn account_not_found_comes_before_every_other_reason() {
    let mut ctx = transfer_ctx(0, Vec::new());
    ctx.smart_account.account = None;
    assert_eq!(
        execute_transfer(&mut ctx, 10, 9, 0, SIGNATURE, LedgerOutcome::InsufficientFunds),
        Err(ErrorCode::AccountNotFound)
    );
}

#[test]
fn accepted_operations_count_the_nonce_up_one_by_one() {
    let slot = {
        let key = owner().public.to_bytes();
        let (address, bump) = located(&key);
        let mut ctx = CreateAccount {
            smart_account: AccountSlot { address, account: None },
            unix_timestamp: NOW,
        };
        create_account(&mut ctx, key, bump).unwrap();
        ctx.smart_account
    };
    let mut transfer = transfer_ctx(0, Vec::new());
    transfer.smart_account = slot;
    let mut log: Vec<OperationRecord> = Vec::new();
    let mut nonces: Vec<u64> = Vec::new();
    for step in 1..=6u64 {
        let amount = 100 * step;
        transfer.instructions = attested(&owner(), &message(OperationType::Transfer, amount, step, NOW));
        transfer.operation_log = log.clone();
        // a replay of the request before, and a request that skips ahead
        let before = transfer.clone();
        for wrong in [step - 1, step + 1] {
            assert_eq!(
                execute_transfer(&mut transfer, amount, wrong, NOW, SIGNATURE, LedgerOutcome::Completed),
                Err(ErrorCode::InvalidNonce)
            );
            assert_eq!(transfer, before);
        }
        let event =
            execute_transfer(&mut transfer, amount, step, NOW, SIGNATURE, LedgerOutcome::Completed)
                .unwrap();
        assert_eq!(event.nonce, step);
        nonces.push(transfer.smart_account.account.unwrap().nonce);
        log = transfer.operation_log.clone();
    }
    assert_eq!(nonces, vec![1, 2, 3, 4, 5, 6]);
    assert_eq!(log.iter().map(|record| record.nonce).collect::<Vec<_>>(), vec![1, 2, 3, 4, 5, 6]);
    assert_eq!(log.iter().map(|record| record.amount).collect::<Vec<_>>(), vec![100, 200, 300, 400, 500, 600]);
    let account = transfer.smart_account.account.unwrap();
    assert_eq!(account.ton_pubkey, owner().public.to_bytes());
    assert_eq!(account.created_at, NOW);
    assert_eq!(account.bump, slot.account.unwrap().bump);
}

#[test]
fn executed_request_cannot_be_replayed() {
    let unit = attested(&owner(), &message(OperationType::Transfer, 10, 1, NOW));
    let mut ctx = transfer_ctx(0, unit);
    assert!(execute_transfer(&mut ctx, 10, 1, NOW, SIGNATURE, LedgerOutcome::Completed).is_ok());
    let after = ctx.clone();
    assert_eq!(
        execute_transfer(&mut ctx, 10, 1, NOW, SIGNATURE, LedgerOutcome::Completed),
        Err(ErrorCode::InvalidNonce)
    );
    assert_eq!(ctx, after);
}

#[test]
fn swap_intent_is_recorded_without_a_movement() {
    let unit = attested(&owner(), &message(OperationType::JupiterSwap, 500, 8, NOW + 3));
    let mut ctx = swap_ctx(7, unit.clone());
    let before = ctx.clone();
    assert_eq!(
        execute_jupiter_swap(&mut ctx, 500, 450, 8, NOW + 3, SIGNATURE),
        Ok(JupiterSwapExecuted {
            smart_account: before.smart_account.address,
            amount_in: 500,
            minimum_amount_out: 450,
            nonce: 8,
            timestamp: NOW + 3,
        })
    );
    assert_eq!(ctx.smart_account, with_nonce(before.smart_account, 8));
    assert_eq!(
        ctx.operation_log,
        vec![OperationRecord {
            smart_account: before.smart_account.address,
            operation_type: OperationType::JupiterSwap,
            amount: 500,
            nonce: 8,
            timestamp: NOW + 3,
            signature: SIGNATURE,
        }]
    );
    assert_eq!(ctx.instructions, unit);
}

#[test]
fn swap_intent_is_refused_like_any_operation() {
    let unit = attested(&owner(), &message(OperationType::JupiterSwap, 500, 8, NOW));
    let attempts: [(u64, u64, i64, ErrorCode); 4] = [
        (500, 9, NOW, ErrorCode::InvalidNonce),
        (500, 8, NOW - 300, ErrorCode::InvalidTimestamp),
        (501, 8, NOW, ErrorCode::InvalidSignature),
        (500, 8, NOW + 1, ErrorCode::InvalidSignature),
    ];
    for (amount_in, nonce, timestamp, reason) in attempts {
        let mut ctx = swap_ctx(7, unit.clone());
        let before = ctx.clone();
        assert_eq!(
            execute_jupiter_swap(&mut ctx, amount_in, 1, nonce, timestamp, SIGNATURE),
            Err(reason)
        );
        assert_eq!(ctx, before);
    }
    let mut ctx = swap_ctx(7, sysvar(&[]));
    assert_eq!(
        execute_jupiter_swap(&mut ctx, 500, 1, 8, NOW, SIGNATURE),
        Err(ErrorCode::Ed25519InstructionNotFound)
    );
}

#[test]
fn withdraw_all_of_an_empty_balance_advances_the_nonce() {
    let unit = attested(&owner(), &message(OperationType::WithdrawAll, 0, 1, NOW));
    let mut ctx = withdraw_ctx(0, 0, unit);
    let before = ctx.clone();
    assert_eq!(
        plan_withdraw_all(&ctx, 1, NOW, SIGNATURE),
        Ok(LedgerTransfer {
            source: SOURCE,
            destination: DESTINATION,
            authority: before.smart_account.address,
            amount: 0,
        })
    );
    assert_eq!(
        withdraw_all(&mut ctx, 1, NOW, SIGNATURE, LedgerOutcome::Completed),
        Ok(WithdrawAllExecuted {
            smart_account: before.smart_account.address,
            destination: DESTINATION,
            amount: 0,
            nonce: 1,
            timestamp: NOW,
        })
    );
    assert_eq!(ctx.smart_account.account.unwrap().nonce, 1);
    assert_eq!(ctx.operation_log.len(), 1);
    assert_eq!(ctx.operation_log[0].amount, 0);
    assert_eq!(ctx.operation_log[0].operation_type, OperationType::WithdrawAll);
}

#[test]
fn withdraw_all_moves_exactly_the_balance() {
    for balance in [1u64, 777, u64::MAX] {
        let unit = attested(&owner(), &message(OperationType::WithdrawAll, 0, 3, NOW));
        let mut ctx = withdraw_ctx(2, balance, unit);
        let before = ctx.clone();
        assert_eq!(plan_withdraw_all(&ctx, 3, NOW, SIGNATURE).unwrap().amount, balance);
        assert_eq!(ctx.ledger_transfer().amount, balance);
        assert_eq!(
            withdraw_all(&mut ctx, 3, NOW, SIGNATURE, LedgerOutcome::Completed),
            Ok(WithdrawAllExecuted {
                smart_account: before.smart_account.address,
                destination: DESTINATION,
                amount: balance,
                nonce: 3,
                timestamp: NOW,
            })
        );
        assert_eq!(
            ctx.operation_log,
            vec![OperationRecord {
                smart_account: before.smart_account.address,
                operation_type: OperationType::WithdrawAll,
                amount: balance,
                nonce: 3,
                timestamp: NOW,
                signature: SIGNATURE,
            }]
        );
        assert_eq!(ctx.token_account, before.token_account);
        assert_eq!(ctx.smart_account, with_nonce(before.smart_account, 3));
    }
}

#[test]
fn withdraw_all_is_signed_with_the_amount_zero() {
    // a message that states the balance does not authorize the withdrawal
    let unit = attested(&owner(), &message(OperationType::WithdrawAll, 777, 1, NOW));
    let mut ctx = withdraw_ctx(0, 777, unit);
    let before = ctx.clone();
    assert_eq!(
        withdraw_all(&mut ctx, 1, NOW, SIGNATURE, LedgerOutcome::Completed),
        Err(ErrorCode::InvalidSignature)
    );
    assert_eq!(ctx, before);
}

#[test]
fn failed_withdrawal_leaves_nonce_and_log() {
    let unit = attested(&owner(), &message(OperationType::WithdrawAll, 0, 1, NOW));
    let mut ctx = withdraw_ctx(0, 777, unit);
    let before = ctx.clone();
    assert_eq!(
        withdraw_all(&mut ctx, 1, NOW, SIGNATURE, LedgerOutcome::InsufficientFunds),
        Err(ErrorCode::InsufficientFunds)
    );
    assert_eq!(ctx, before);
}

#[test]
fn authorize_reads_the_unit_from_the_sysvar() {
    let account = active_slot(0).account.unwrap();
    let request = OperationRequest {
        operation_type: OperationType::Transfer,
        amount: 10,
        nonce: 1,
        timestamp: NOW,
        signature: SIGNATURE,
    };
    let unit = attested(&owner(), &request.canonical_encoding());
    assert_eq!(authorize(&account, &request, NOW, &unit), Ok(()));
    assert_eq!(authorize_with(&account, &request, NOW, &load_instructions(&unit)), Ok(()));
    assert_eq!(authorize(&account, &request, NOW + 300, &unit), Err(ErrorCode::InvalidTimestamp));
    assert_eq!(
        authorize(&account, &request, NOW, &sysvar(&[])),
        Err(ErrorCode::Ed25519InstructionNotFound)
    );
    let mut other = request;
    other.amount = 11;
    assert_eq!(authorize(&account, &other, NOW, &unit), Err(ErrorCode::InvalidSignature));
    other = request;
    other.signature = [0u8; 64];
    assert_eq!(authorize(&account, &other, NOW, &unit), Ok(()));
}

#[test]
fn authorize_with_goes_by_the_instructions_it_is_given() {
    let account = SmartAccount { ton_pubkey: [1u8; 32], nonce: 4, created_at: 0, bump: 0 };
    let request = OperationRequest {
        operation_type: OperationType::JupiterSwap,
        amount: 10,
        nonce: 5,
        timestamp: 1_000,
        signature: SIGNATURE,
    };
    let message = request.canonical_encoding();
    let mut data = vec![1u8, 0];
    for field in [48u16, u16::MAX, 16, u16::MAX, 112, 25, u16::MAX] {
        data.extend_from_slice(&field.to_le_bytes());
    }
    data.extend_from_slice(&[1u8; 32]);
    data.extend_from_slice(&[0u8; 64]);
    data.extend_from_slice(&message);
    let attestation = SiblingInstruction {
        program_id: solana_program::ed25519_program::ID.to_bytes(),
        data,
    };
    assert_eq!(authorize_with(&account, &request, 1_000, &vec![attestation.clone()]), Ok(()));
    assert_eq!(
        authorize_with(&account, &request, 1_000, &Vec::new()),
        Err(ErrorCode::Ed25519InstructionNotFound)
    );
    let mut later = request;
    later.nonce = 6;
    assert_eq!(
        authorize_with(&account, &later, 1_000, &vec![attestation.clone()]),
        Err(ErrorCode::InvalidNonce)
    );
    let other_owner = SmartAccount { ton_pubkey: [2u8; 32], ..account };
    assert_eq!(
        authorize_with(&other_owner, &request, 1_000, &vec![attestation]),
        Err(ErrorCode::InvalidSignature)
    );
}

#[test]
fn transition_and_operate_on_plain_values() {
    let account = active_slot(0).account.unwrap();
    let request = OperationRequest {
        operation_type: OperationType::Transfer,
        amount: 10,
        nonce: 1,
        timestamp: NOW,
        signature: SIGNATURE,
    };
    let unit = load_instructions(&attested(&owner(), &request.canonical_encoding()));

    let mut stepped = account;
    assert_eq!(transition(&mut stepped, &request, NOW, &unit, LedgerOutcome::Completed), Ok(()));
    assert_eq!(stepped, SmartAccount { nonce: 1, ..account });
    assert_eq!(
        transition(&mut stepped, &request, NOW, &unit, LedgerOutcome::Completed),
        Err(ErrorCode::InvalidNonce)
    );
    let mut held = account;
    assert_eq!(
        transition(&mut held, &request, NOW, &unit, LedgerOutcome::InsufficientFunds),
        Err(ErrorCode::InsufficientFunds)
    );
    assert_eq!(held, account);

    let mut slot = AccountSlot { address: [3u8; 32], account: Some(account) };
    assert_eq!(
        operate(&mut slot, &Some([4u8; 32]), &request, NOW, &unit, LedgerOutcome::Completed),
        Err(ErrorCode::AccountNotFound)
    );
    assert_eq!(
        operate(&mut slot, &None, &request, NOW, &unit, LedgerOutcome::Completed),
        Err(ErrorCode::AccountNotFound)
    );
    assert_eq!(slot.account, Some(account));
    assert_eq!(
        operate(&mut slot, &Some([3u8; 32]), &request, NOW, &unit, LedgerOutcome::Completed),
        Ok(())
    );
    assert_eq!(slot, AccountSlot { address: [3u8; 32], account: Some(stepped) });
}

#[test]
fn apply_transfer_goes_by_what_it_is_given() {
    let unit = load_instructions(&attested(&owner(), &message(OperationType::Transfer, 10, 1, NOW)));
    let mut ctx = transfer_ctx(0, Vec::new());
    ctx.smart_account.address = [3u8; 32];
    let before = ctx.clone();
    assert_eq!(
        apply_transfer(&mut ctx, &Some([4u8; 32]), &unit, 10, 1, NOW, SIGNATURE, LedgerOutcome::Completed),
        Err(ErrorCode::AccountNotFound)
    );
    assert_eq!(ctx, before);
    assert_eq!(
        apply_transfer(&mut ctx, &Some([3u8; 32]), &unit, 10, 1, NOW, SIGNATURE, LedgerOutcome::Completed),
        Ok(TransferExecuted {
            smart_account: [3u8; 32],
            destination: DESTINATION,
            amount: 10,
            nonce: 1,
            timestamp: NOW,
        })
    );
    assert_eq!(ctx.smart_account.account.unwrap().nonce, 1);
    assert_eq!(ctx.operation_log.len(), 1);
}

#[test]
fn record_widths() {
    assert_eq!(SmartAccount::LEN, 49);
    assert_eq!(OperationRecord::LEN, 121);
}

#[test]
fn error_codes_and_messages() {
    let all = [
        (ErrorCode::InvalidNonce, 6000, "Invalid nonce"),
        (ErrorCode::InvalidTimestamp, 6001, "Invalid timestamp"),
        (ErrorCode::Ed25519InstructionNotFound, 6002, "Ed25519 instruction not found"),
        (ErrorCode::InvalidSignature, 6003, "Invalid signature"),
        (ErrorCode::AccountNotFound, 6004, "Account not found"),
        (ErrorCode::AlreadyExists, 6005, "Account already exists"),
        (ErrorCode::InsufficientFunds, 6006, "Insufficient funds"),
    ];
    for (error, code, text) in all {
        assert_eq!(error.code(), code);
        assert_eq!(error.message(), text);
    }
}

#[test]
fn verify_ton_signature_binds_key_and_request() {
    let key = owner().public.to_bytes();
    let request = OperationRequest {
        operation_type: OperationType::Transfer,
        amount: 10,
        nonce: 1,
        timestamp: NOW,
        signature: SIGNATURE,
    };
    let unit = attested(&owner(), &request.canonical_encoding());
    assert_eq!(verify_ton_signature(&unit, &key, &request), Ok(()));
    assert_eq!(
        verify_ton_signature(&unit, &keypair(2).public.to_bytes(), &request),
        Err(ErrorCode::InvalidSignature)
    );
    let mut other = request;
    other.operation_type = OperationType::WithdrawAll;
    assert_eq!(verify_ton_signature(&unit, &key, &other), Err(ErrorCode::InvalidSignature));
    assert_eq!(
        verify_ton_signature(&sysvar(&[]), &key, &request),
        Err(ErrorCode::Ed25519InstructionNotFound)
    );
    assert_eq!(
        verify_ton_signature(&[], &key, &request),
        Err(ErrorCode::Ed25519InstructionNotFound)
    );
}
