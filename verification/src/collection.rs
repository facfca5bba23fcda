//! Attaching a freshly minted token to the collection: the instruction acts
//! only right after a mint instruction of the candy machine program, and
//! signs for the collection state at its derived program address.

use vstd::prelude::*;
use crate::crypto::{found_view, program_address, slices_view, try_find_program_address};
use crate::merkle_proof::bytes32_eq;

verus! {

/// The first eight bytes of the data of a candy machine mint instruction.
pub const MINT_NFT_DISCRIMINATOR: [u8; 8] = [211, 57, 6, 167, 15, 219, 35, 251];

/// The seed of the program address that holds the collection state: the
/// bytes of `collection`.
pub const COLLECTION_SEED: [u8; 10] = [99, 111, 108, 108, 101, 99, 116, 105, 111, 110];

/// What the collection instruction does after looking at the instruction
/// that preceded it in the transaction.
#[derive(Debug, Clone, Copy, PartialEq, Eq, Structural)]
pub enum CollectionStep {
    /// The preceding instruction was not a mint: log its first bytes and
    /// succeed without doing anything.
    Skip,
    /// The preceding instruction was a mint: set and verify the collection
    /// of its token, signing for the collection state with this bump seed.
    SetAndVerify { bump: u8 },
}

/// Whether the data of an instruction starts like a candy machine mint.
pub fn follows_mint_instruction(previous_instruction_data: &[u8]) -> (is_mint: bool)
    requires
        previous_instruction_data@.len() >= 8,
    ensures
        is_mint == (previous_instruction_data@.take(8) == MINT_NFT_DISCRIMINATOR@),
{
    let expected = MINT_NFT_DISCRIMINATOR;
    let mut i: usize = 0;
    while i < 8
        invariant
            0 <= i <= 8,
            previous_instruction_data@.len() >= 8,
            expected@ == MINT_NFT_DISCRIMINATOR@,
            expected@.len() == 8,
            forall|j: int| 0 <= j < i ==> previous_instruction_data@[j] == expected@[j],
        decreases 8 - i,
    {
        if previous_instruction_data[i] != expected[i] {
            assert(previous_instruction_data@.take(8)[i as int] != expected@[i as int]);
            return false;
        }
        i = i + 1;
    }
    assert(previous_instruction_data@.take(8) =~= MINT_NFT_DISCRIMINATOR@);
    true
}

/// The outcome of the collection instruction: skip unless the preceding
/// instruction was a mint; otherwise the collection account must be the
/// program's address for `COLLECTION_SEED`, and its bump seed signs.
pub open spec fn collection_outcome(
    previous_instruction_data: Seq<u8>,
    program_id: [u8; 32],
    collection_account: [u8; 32],
) -> Result<CollectionStep, DerivationError> {
    if previous_instruction_data.take(8) != MINT_NFT_DISCRIMINATOR@ {
        Ok(CollectionStep::Skip)
    } else {
        match derivation_result(program_address(seq![COLLECTION_SEED@], program_id@), collection_account@) {
            Ok(bump) => Ok(CollectionStep::SetAndVerify { bump }),
            Err(e) => Err(e),
        }
    }
}

/// Decides the collection instruction from the data of the preceding
/// instruction, which must hold at least eight bytes, and the address of the
/// collection state account.
pub fn handle_set_collection_during_mint(
    previous_instruction_data: &[u8],
    program_id: &[u8; 32],
    collection_account: &[u8; 32],
) -> (step: Result<CollectionStep, DerivationError>)
    requires
        previous_instruction_data@.len() >= 8,
    ensures
        step == collection_outcome(previous_instruction_data@, *program_id, *collection_account),
{
    if !follows_mint_instruction(previous_instruction_data) {
        return Ok(CollectionStep::Skip);
    }
    let seed = COLLECTION_SEED;
    let seeds: [&[u8]; 1] = [seed.as_slice()];
    let path = seeds.as_slice();
    assert(slices_view(path@) =~= seq![COLLECTION_SEED@]);
    match assert_derivation(program_id, collection_account, path) {
        Ok(bump) => Ok(CollectionStep::SetAndVerify { bump }),
        Err(e) => Err(e),
    }
}

/// Why a derived program address does not check out.
#[derive(Debug, Clone, Copy, PartialEq, Eq, Structural)]
pub enum DerivationError {
    /// The account is not the address derived from the seeds.
    DerivedKeyInvalid,
    /// No bump seed gives a valid address for the seeds.
    NoViableBumpSeed,
}

/// The outcome of checking `account_key` against a derivation: its bump seed
/// when the account is the derived address.
pub open spec fn derivation_result(found: Option<(Seq<u8>, u8)>, account_key: Seq<u8>) -> Result<u8, DerivationError> {
    match found {
        None => Err(DerivationError::NoViableBumpSeed),
        Some(pair) => if pair.0 == account_key {
            Ok(pair.1)
        } else {
            Err(DerivationError::DerivedKeyInvalid)
        },
    }
}

/// Checks `account_key` against a derived address and bump seed.
pub fn check_derivation(found: Option<([u8; 32], u8)>, account_key: &[u8; 32]) -> (result: Result<u8, DerivationError>)
    ensures
        result == derivation_result(found_view(found), account_key@),
{
    match found {
        None => Err(DerivationError::NoViableBumpSeed),
        Some((address, bump)) => if bytes32_eq(&address, account_key) {
            Ok(bump)
        } else {
            Err(DerivationError::DerivedKeyInvalid)
        },
    }
}

/// Checks that `account_key` is the program address of `program_id` for the
/// seeds in `path`, and gives its bump seed.
pub fn assert_derivation(program_id: &[u8; 32], account_key: &[u8; 32], path: &[&[u8]]) -> (result: Result<u8, DerivationError>)
    ensures
        result == derivation_result(program_address(slices_view(path@), program_id@), account_key@),
{
    let found = try_find_program_address(path, program_id);
    check_derivation(found, account_key)
}

} // verus!
