//! What holds of the gateway as a whole.

use vstd::prelude::*;
use crate::controller::{
    advanced, created, creation_effect, transition_verdict, AccountSlot, CreateAccount,
    LedgerOutcome,
};
use crate::error::ErrorCode;
use crate::replay::{is_fresh, replay_verdict};
use crate::state::{OperationRequest, OwnerKey, SmartAccount, SmartAccountCreated};

verus! {

/// Whether `after` is the account `before` after one accepted operation.
pub open spec fn accepted_step(before: SmartAccount, after: SmartAccount) -> bool {
    exists|
        request: OperationRequest,
        now: i64,
        unit: Seq<(Seq<u8>, Seq<u8>)>,
        ledger: LedgerOutcome,
    |
        #[trigger] transition_verdict(before, request, now, unit, ledger) == Ok::<
            SmartAccount,
            ErrorCode,
        >(after)
}

/// An accepted operation advances the nonce by exactly one and changes
/// nothing else of the account.
pub proof fn lemma_accepted_step(before: SmartAccount, after: SmartAccount)
    requires
        accepted_step(before, after),
    ensures
        after == advanced(before, after.nonce),
        after.nonce == before.nonce + 1,
{
}

/// Nonce monotonicity: the history of an account that starts with the nonce
/// 0, each state the result of one accepted operation on the state before
/// it, has the nonces 0, 1, 2, 3 and so on, without a gap and without a
/// repeat; key, bump and time of creation never change.
pub proof fn lemma_nonce_sequence(history: Seq<SmartAccount>)
    requires
        history.len() > 0,
        history[0].nonce == 0,
        forall|i: int|
            0 <= i < history.len() - 1 ==> accepted_step(history[i], #[trigger] history[i + 1]),
    ensures
        forall|i: int| 0 <= i < history.len() ==> (#[trigger] history[i]).nonce == i,
        forall|i: int|
            0 <= i < history.len() ==> #[trigger] history[i] == advanced(history[0], i as u64),
    decreases history.len(),
{
    if history.len() > 1 {
        let earlier = history.drop_last();
        assert forall|i: int| 0 <= i < earlier.len() - 1 implies accepted_step(
            earlier[i],
            #[trigger] earlier[i + 1],
        ) by {
            assert(earlier[i] == history[i]);
            assert(earlier[i + 1] == history[i + 1]);
        }
        lemma_nonce_sequence(earlier);
        let last = history.len() - 1;
        assert(history[last - 1] == earlier[last - 1]);
        assert(accepted_step(history[last - 1], history[last - 1 + 1]));
        lemma_accepted_step(history[last - 1], history[last]);
        assert forall|i: int| 0 <= i < history.len() implies (#[trigger] history[i]).nonce == i
            && history[i] == advanced(history[0], i as u64) by {
            if i < last {
                assert(history[i] == earlier[i]);
            }
        }
    }
}

/// A request whose nonce does not follow the account's nonce is refused,
/// whatever else it holds.
pub proof fn lemma_stale_nonce_refused(
    account: SmartAccount,
    request: OperationRequest,
    now: i64,
    unit: Seq<(Seq<u8>, Seq<u8>)>,
    ledger: LedgerOutcome,
)
    requires
        request.nonce != account.nonce + 1,
    ensures
        transition_verdict(account, request, now, unit, ledger) == Err::<SmartAccount, ErrorCode>(
            ErrorCode::InvalidNonce,
        ),
{
}

/// The freshness boundary: with the right nonce, a timestamp that lies 299
/// seconds or less from the current time passes the replay guard, and one
/// that lies 300 seconds or more from it is refused with `InvalidTimestamp`.
pub proof fn lemma_freshness_boundary(current_nonce: u64, nonce: u64, timestamp: i64, now: i64)
    requires
        nonce == current_nonce + 1,
    ensures
        -299 <= now - timestamp <= 299 ==> replay_verdict(current_nonce, nonce, timestamp, now)
            is Ok,
        (now - timestamp >= 300 || timestamp - now >= 300) ==> replay_verdict(
            current_nonce,
            nonce,
            timestamp,
            now,
        ) == Err::<(), ErrorCode>(ErrorCode::InvalidTimestamp),
        is_fresh(now, timestamp) <==> -299 <= now - timestamp <= 299,
{
}

/// Atomicity: where the ledger does not move the assets, the operation is
/// refused, so that neither the nonce advances nor a record is written.
pub proof fn lemma_failed_movement_refused(
    account: SmartAccount,
    request: OperationRequest,
    now: i64,
    unit: Seq<(Seq<u8>, Seq<u8>)>,
)
    ensures
        transition_verdict(account, request, now, unit, LedgerOutcome::InsufficientFunds) is Err,
{
}

/// Creation uniqueness: after an account was created in a slot, a second
/// creation in that slot, for the same key or another, under any bump and at
/// any time, is refused with `AlreadyExists` and leaves the account of the
/// first creation as it is.
pub proof fn lemma_creation_unique(
    empty: CreateAccount,
    first: CreateAccount,
    first_result: Result<SmartAccountCreated, ErrorCode>,
    first_derived: Option<Seq<u8>>,
    ton_pubkey: OwnerKey,
    bump: u8,
    later: CreateAccount,
    second: CreateAccount,
    second_result: Result<SmartAccountCreated, ErrorCode>,
    second_derived: Option<Seq<u8>>,
    second_pubkey: OwnerKey,
    second_bump: u8,
)
    requires
        creation_effect(empty, first, first_result, first_derived, ton_pubkey, bump),
        first_result is Ok,
        later.smart_account == first.smart_account,
        creation_effect(later, second, second_result, second_derived, second_pubkey, second_bump),
    ensures
        second_result == Err::<SmartAccountCreated, ErrorCode>(ErrorCode::AlreadyExists),
        second == later,
        second.smart_account == (AccountSlot {
            address: empty.smart_account.address,
            account: Some(created(ton_pubkey, bump, empty.unix_timestamp)),
        }),
{
}

} // verus!
