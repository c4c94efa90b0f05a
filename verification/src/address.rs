//! The address of an account, derived from its owner's key and a bump seed.

use vstd::prelude::*;
use crate::state::{Address, OwnerKey};

verus! {

/// The address of this program on the host ledger.
pub open spec fn program_id_bytes() -> Seq<u8> {
    seq![
        126u8, 125, 96, 39, 0, 204, 216, 98, 189, 138, 221, 221, 210, 144, 101, 155, 102, 152, 82,
        36, 220, 195, 182, 217, 44, 216, 142, 106, 100, 148, 159, 199,
    ]
}

/// The seed that every account address starts from: the text `smart_account`.
pub open spec fn seed_prefix_bytes() -> Seq<u8> {
    seq![115u8, 109, 97, 114, 116, 95, 97, 99, 99, 111, 117, 110, 116]
}

/// The address of this program on the host ledger.
pub fn program_id() -> (r: Address)
    ensures
        r@ == program_id_bytes(),
{
    let id: Address = [
        126u8, 125, 96, 39, 0, 204, 216, 98, 189, 138, 221, 221, 210, 144, 101, 155, 102, 152, 82,
        36, 220, 195, 182, 217, 44, 216, 142, 106, 100, 148, 159, 199,
    ];
    assert(id@ =~= program_id_bytes());
    id
}

/// The seed that every account address starts from.
pub fn seed_prefix() -> (r: [u8; 13])
    ensures
        r@ == seed_prefix_bytes(),
{
    let prefix: [u8; 13] = [115u8, 109, 97, 114, 116, 95, 97, 99, 99, 111, 117, 110, 116];
    assert(prefix@ =~= seed_prefix_bytes());
    prefix
}

/// The address that the host ledger derives for a program from a list of
/// seeds, where it derives one.
pub uninterp spec fn program_address(seeds: Seq<Seq<u8>>, program_id: Seq<u8>) -> Option<Seq<u8>>;

/// Calls `Pubkey::create_program_address` of `solana_program` with the three
/// seeds `prefix`, `key` and the one byte `bump`. The contract claims that the
/// outcome is a function of the seeds and the program's address alone, and
/// names it: `None` stands for the call's error.
#[verifier::external_body]
fn create_program_address(prefix: &[u8], key: &OwnerKey, bump: u8, program: &Address) -> (r: Option<
    Address,
>)
    ensures
        r matches Some(a) ==> program_address(seq![prefix@, key@, seq![bump]], program@) == Some(
            a@,
        ),
        r is None ==> program_address(seq![prefix@, key@, seq![bump]], program@) is None,
{
    let program = solana_program::pubkey::Pubkey::new_from_array(*program);
    let seeds: [&[u8]; 3] = [prefix, key, &[bump]];
    match solana_program::pubkey::Pubkey::create_program_address(&seeds, &program) {
        Ok(address) => Some(address.to_bytes()),
        Err(_) => None,
    }
}

/// The address of the account of `owner_key` under the bump seed `bump`,
/// where there is one.
pub open spec fn derived_address(owner_key: Seq<u8>, bump: u8) -> Option<Seq<u8>> {
    program_address(seq![seed_prefix_bytes(), owner_key, seq![bump]], program_id_bytes())
}

/// Whether `address` is the address of the account of `owner_key` under `bump`.
pub open spec fn is_derived(address: Seq<u8>, owner_key: Seq<u8>, bump: u8) -> bool {
    derived_address(owner_key, bump) == Some(address)
}

/// Derives the address of the account of `owner_key` under the bump seed
/// `bump`. There is none where the seeds lead to a point of the curve.
pub fn derive_address(owner_key: &OwnerKey, bump: u8) -> (r: Option<Address>)
    ensures
        r matches Some(a) ==> derived_address(owner_key@, bump) == Some(a@),
        r is None ==> derived_address(owner_key@, bump) is None,
{
    let prefix = seed_prefix();
    let program = program_id();
    create_program_address(prefix.as_slice(), owner_key, bump, &program)
}

} // verus!
