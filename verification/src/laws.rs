//! Properties of the program as a whole, over the outcomes that the
//! instructions' contracts describe.

use vstd::prelude::*;
use crate::admin::{admin_step, nonzero_or};
use crate::collection::{collection_outcome, CollectionStep, DerivationError, COLLECTION_SEED, MINT_NFT_DISCRIMINATOR};
use crate::crypto::program_address;
use crate::errors::WalletMintErrors;
use crate::mint::{
    membership_result, mint_refusal, mint_step, on_list, public_refusal, whitelist_refusal, whitelist_terms,
    wallet_leaf_digest, wl_mint_price, wl_mint_refusal, MintTicket, PUBLIC_STAGE, WHITELIST_STAGE,
};
use crate::merkle_proof::{nodes_view, proof_root};
use crate::state::{MintingAccount, UserMintingAccount, STAGE_COUNT};

verus! {

/// An admin instruction not signed by the admin is refused as unauthorized
/// and leaves the account as it was, whatever it asked for.
pub proof fn law_admin_only(
    before: MintingAccount,
    after: MintingAccount,
    signer: [u8; 32],
    result: Result<(), WalletMintErrors>,
    updated: MintingAccount,
)
    requires
        admin_step(before, after, signer, result, updated),
        before.admin_key@ != signer@,
    ensures
        result == Err::<(), WalletMintErrors>(WalletMintErrors::Unauthorized),
        after == before,
{
}

/// An allow-list mint succeeds only in the allow-list stage (never in the
/// unused stage), a public mint only in the public stage; a granted mint
/// always pays the admin and finds supply left; so does the core mint step
/// in the stage it is asked for.
pub proof fn law_mint_only_in_its_stage(
    account: MintingAccount,
    counter: UserMintingAccount,
    proof: Seq<[u8; 32]>,
    mint_authority: [u8; 32],
    owner: [u8; 32],
    stage: u8,
)
    ensures
        wl_mint_refusal(account, counter, proof, mint_authority, owner) is None ==> {
            &&& account.cur_stage == WHITELIST_STAGE
            &&& account.admin_key@ == owner@
            &&& account.cur_num < account.max_supply
        },
        mint_refusal(account, stage, owner) is None ==> {
            &&& account.cur_stage == stage
            &&& account.admin_key@ == owner@
            &&& account.cur_num < account.max_supply
        },
        public_refusal(account, counter, owner) is None ==> {
            &&& account.cur_stage == PUBLIC_STAGE
            &&& account.admin_key@ == owner@
            &&& account.cur_num < account.max_supply
        },
{
}

/// A granted mint adds exactly one token to the supply and to the payer's
/// count for its sale, never beyond the total supply or the payer's cap for
/// that sale, and keeps the account well formed; a refused mint changes
/// neither account.
pub proof fn law_mint_counts_within_caps(
    account: MintingAccount,
    counter: UserMintingAccount,
    account_after: MintingAccount,
    counter_after: UserMintingAccount,
    result: Result<MintTicket, WalletMintErrors>,
    proof: Seq<[u8; 32]>,
    whitelist: bool,
    mint_authority: [u8; 32],
    owner: [u8; 32],
    maker: [u8; 32],
)
    requires
        account.well_formed(),
        whitelist ==> mint_step(account, counter, account_after, counter_after, result,
            wl_mint_refusal(account, counter, proof, mint_authority, owner),
            wl_mint_price(account, proof, mint_authority), true, mint_authority, maker),
        !whitelist ==> mint_step(account, counter, account_after, counter_after, result,
            public_refusal(account, counter, owner), account.public_price, false,
            mint_authority, maker),
    ensures
        account_after.well_formed(),
        result is Err ==> account_after == account && counter_after == counter,
        result is Ok ==> {
            &&& account_after.cur_num == account.cur_num + 1
            &&& account_after.cur_num <= account_after.max_supply
            &&& whitelist ==> {
                &&& counter_after.cur_num_whitelist == counter.cur_num_whitelist + 1
                &&& counter_after.cur_num_public == counter.cur_num_public
                &&& counter_after.cur_num_whitelist <= whitelist_terms(account,
                    on_list(proof, account.og_root, mint_authority),
                    on_list(proof, account.wl_root, mint_authority)).0
                &&& result->Ok_0.price > 0
            }
            &&& !whitelist ==> {
                &&& counter_after.cur_num_public == counter.cur_num_public + 1
                &&& counter_after.cur_num_whitelist == counter.cur_num_whitelist
                &&& counter_after.cur_num_public <= account.public_max
            }
        },
{
}

/// A mint, granted or refused, changes nothing in the sale account but the
/// number of tokens minted, which grows by at most one and never past the
/// supply, and nothing in the payer's counters but the one of its own sale.
pub proof fn law_mint_touches_only_counts(
    account: MintingAccount,
    counter: UserMintingAccount,
    account_after: MintingAccount,
    counter_after: UserMintingAccount,
    result: Result<MintTicket, WalletMintErrors>,
    refusal: Option<WalletMintErrors>,
    price: u64,
    whitelist: bool,
    mint_authority: [u8; 32],
    maker: [u8; 32],
)
    requires
        mint_step(account, counter, account_after, counter_after, result, refusal, price,
            whitelist, mint_authority, maker),
        refusal is None ==> account.cur_num < account.max_supply,
    ensures
        account_after == (MintingAccount { cur_num: account_after.cur_num, ..account }),
        account.cur_num <= account_after.cur_num <= account.cur_num + 1,
        account.cur_num <= account.max_supply ==> account_after.cur_num <= account_after.max_supply,
        whitelist ==> counter_after.cur_num_public == counter.cur_num_public,
        !whitelist ==> counter_after.cur_num_whitelist == counter.cur_num_whitelist,
{
}

/// A wallet on both allow lists mints on the terms of the second list.
pub proof fn law_second_list_wins(account: MintingAccount)
    ensures
        whitelist_terms(account, true, true) == whitelist_terms(account, false, true),
{
}

/// A wallet whose proof passes the first list's membership check is not
/// refused as unlisted by the allow-list mint with the same proof, as long as
/// the sale is in the allow-list stage and the list whose terms apply has a
/// cap and a price.
pub proof fn law_member_is_whitelisted(
    account: MintingAccount,
    counter: UserMintingAccount,
    proof: Seq<[u8; 32]>,
    wallet: [u8; 32],
    owner: [u8; 32],
)
    requires
        membership_result(proof, account.og_root, wallet) is Ok,
        account.og_max > 0,
        account.og_price > 0,
        on_list(proof, account.wl_root, wallet) ==> account.wl_max > 0
            && account.wl_price > 0,
        account.cur_stage == WHITELIST_STAGE,
    ensures
        wl_mint_refusal(account, counter, proof, wallet, owner)
            != Some(WalletMintErrors::NotWhitelisted),
{
}

/// A membership check passes exactly when the proof is not empty and leads,
/// whatever its length, from the wallet's leaf to the root; otherwise it is
/// refused as an invalid proof.
pub proof fn law_membership_exact(proof: Seq<[u8; 32]>, root: [u8; 32], wallet: [u8; 32])
    ensures
        membership_result(proof, root, wallet) is Ok <==> (proof.len() > 0
            && proof_root(nodes_view(proof), wallet_leaf_digest(wallet@)) == root@),
        membership_result(proof, root, wallet) is Err ==> membership_result(proof, root, wallet)
            == Err::<(), WalletMintErrors>(WalletMintErrors::InvalidProof),
{
}

/// A wallet whose proof, of any nonzero length, leads from its leaf to the
/// first list's root and not to the second's is granted an allow-list mint
/// at the first list's price, in the allow-list stage, while the list has a
/// cap and a price, the wallet is below the cap, supply is left and the
/// proceeds go to the admin: one more token, one more for the wallet.
pub proof fn law_first_list_member_is_granted(
    account: MintingAccount,
    counter: UserMintingAccount,
    account_after: MintingAccount,
    counter_after: UserMintingAccount,
    result: Result<MintTicket, WalletMintErrors>,
    proof: Seq<[u8; 32]>,
    wallet: [u8; 32],
    owner: [u8; 32],
    maker: [u8; 32],
)
    requires
        mint_step(account, counter, account_after, counter_after, result,
            wl_mint_refusal(account, counter, proof, wallet, owner),
            wl_mint_price(account, proof, wallet), true, wallet, maker),
        proof.len() > 0,
        proof_root(nodes_view(proof), wallet_leaf_digest(wallet@)) == account.og_root@,
        proof_root(nodes_view(proof), wallet_leaf_digest(wallet@)) != account.wl_root@,
        account.cur_stage == 1,
        account.og_max > 0,
        account.og_price > 0,
        counter.cur_num_whitelist < account.og_max,
        account.cur_num < account.max_supply,
        account.admin_key@ == owner@,
    ensures
        result is Ok,
        result->Ok_0.price == account.og_price,
        account_after.cur_num == account.cur_num + 1,
        counter_after.cur_num_whitelist == counter.cur_num_whitelist + 1,
        counter_after.cur_num_public == counter.cur_num_public,
{
}

/// A wallet whose proof, of any nonzero length, leads from its leaf to the
/// second list's root is granted an allow-list mint at the second list's
/// price, whatever its standing on the first list, under the same
/// conditions on the second list's cap and price.
pub proof fn law_second_list_member_is_granted(
    account: MintingAccount,
    counter: UserMintingAccount,
    account_after: MintingAccount,
    counter_after: UserMintingAccount,
    result: Result<MintTicket, WalletMintErrors>,
    proof: Seq<[u8; 32]>,
    wallet: [u8; 32],
    owner: [u8; 32],
    maker: [u8; 32],
)
    requires
        mint_step(account, counter, account_after, counter_after, result,
            wl_mint_refusal(account, counter, proof, wallet, owner),
            wl_mint_price(account, proof, wallet), true, wallet, maker),
        proof.len() > 0,
        proof_root(nodes_view(proof), wallet_leaf_digest(wallet@)) == account.wl_root@,
        account.cur_stage == 1,
        account.wl_max > 0,
        account.wl_price > 0,
        counter.cur_num_whitelist < account.wl_max,
        account.cur_num < account.max_supply,
        account.admin_key@ == owner@,
    ensures
        result is Ok,
        result->Ok_0.price == account.wl_price,
        account_after.cur_num == account.cur_num + 1,
        counter_after.cur_num_whitelist == counter.cur_num_whitelist + 1,
        counter_after.cur_num_public == counter.cur_num_public,
{
}

/// The public sale grants a mint in the public stage to a payer below the
/// public cap, while supply is left and the proceeds go to the admin, at the
/// public price, whatever the payer minted in the allow-list sale.
pub proof fn law_public_mint_is_granted(
    account: MintingAccount,
    counter: UserMintingAccount,
    account_after: MintingAccount,
    counter_after: UserMintingAccount,
    result: Result<MintTicket, WalletMintErrors>,
    mint_authority: [u8; 32],
    owner: [u8; 32],
    maker: [u8; 32],
)
    requires
        mint_step(account, counter, account_after, counter_after, result,
            public_refusal(account, counter, owner), account.public_price, false,
            mint_authority, maker),
        account.cur_stage == 3,
        counter.cur_num_public < account.public_max,
        account.cur_num < account.max_supply,
        account.admin_key@ == owner@,
    ensures
        result is Ok,
        result->Ok_0.price == account.public_price,
        account_after.cur_num == account.cur_num + 1,
        counter_after.cur_num_public == counter.cur_num_public + 1,
        counter_after.cur_num_whitelist == counter.cur_num_whitelist,
{
}

/// Whether a public mint is refused, and why, does not depend on how many
/// tokens the payer minted in the allow-list sale.
pub proof fn law_public_ignores_whitelist_count(
    account: MintingAccount,
    counter: UserMintingAccount,
    other: UserMintingAccount,
    owner: [u8; 32],
)
    requires
        counter.cur_num_public == other.cur_num_public,
    ensures
        public_refusal(account, counter, owner) == public_refusal(account, other, owner),
{
}

/// Setting prices by the admin: a nonzero new price replaces the stored
/// one, higher or lower; a zero keeps it; nothing else changes.
pub proof fn law_prices_replaced_when_nonzero(
    before: MintingAccount,
    after: MintingAccount,
    admin: [u8; 32],
    result: Result<(), WalletMintErrors>,
    new_og_price: u64,
    new_wl_price: u64,
    new_public_price: u64,
)
    requires
        admin_step(before, after, admin, result, (MintingAccount {
            og_price: nonzero_or(new_og_price, before.og_price),
            wl_price: nonzero_or(new_wl_price, before.wl_price),
            public_price: nonzero_or(new_public_price, before.public_price),
            ..before
        })),
        before.admin_key@ == admin@,
    ensures
        result is Ok,
        after.og_price == (if new_og_price != 0 { new_og_price } else { before.og_price }),
        after.wl_price == (if new_wl_price != 0 { new_wl_price } else { before.wl_price }),
        after.public_price == (if new_public_price != 0 { new_public_price } else { before.public_price }),
        after.og_max == before.og_max && after.wl_max == before.wl_max && after.public_max == before.public_max,
{
}

/// Setting per-wallet caps by the admin: a nonzero new cap replaces the
/// stored one, higher or lower; a zero keeps it; nothing else changes.
pub proof fn law_caps_replaced_when_nonzero(
    before: MintingAccount,
    after: MintingAccount,
    admin: [u8; 32],
    result: Result<(), WalletMintErrors>,
    new_og_amout: u64,
    new_wl_amout: u64,
    new_public_amout: u64,
)
    requires
        admin_step(before, after, admin, result, (MintingAccount {
            og_max: nonzero_or(new_og_amout, before.og_max),
            wl_max: nonzero_or(new_wl_amout, before.wl_max),
            public_max: nonzero_or(new_public_amout, before.public_max),
            ..before
        })),
        before.admin_key@ == admin@,
    ensures
        result is Ok,
        after.og_max == (if new_og_amout != 0 { new_og_amout } else { before.og_max }),
        after.wl_max == (if new_wl_amout != 0 { new_wl_amout } else { before.wl_max }),
        after.public_max == (if new_public_amout != 0 { new_public_amout } else { before.public_max }),
        after.og_price == before.og_price && after.wl_price == before.wl_price
            && after.public_price == before.public_price,
{
}

/// Whether an allow-list mint is refused, and why, does not depend on how
/// many tokens the payer minted in the public sale.
pub proof fn law_whitelist_ignores_public_count(
    account: MintingAccount,
    counter: UserMintingAccount,
    other: UserMintingAccount,
    proof: Seq<[u8; 32]>,
    wallet: [u8; 32],
    owner: [u8; 32],
)
    requires
        counter.cur_num_whitelist == other.cur_num_whitelist,
    ensures
        wl_mint_refusal(account, counter, proof, wallet, owner)
            == wl_mint_refusal(account, other, proof, wallet, owner),
{
}

/// The admin moves the sale to any of the stages `0` to `3`; a larger
/// number leaves the stage as it was; nothing else changes.
pub proof fn law_stage_set_when_known(
    before: MintingAccount,
    after: MintingAccount,
    admin: [u8; 32],
    result: Result<(), WalletMintErrors>,
    new_stage: u8,
)
    requires
        admin_step(before, after, admin, result, (MintingAccount {
            cur_stage: if new_stage < STAGE_COUNT { new_stage } else { before.cur_stage },
            ..before
        })),
        before.admin_key@ == admin@,
    ensures
        result is Ok,
        new_stage <= 3 ==> after.cur_stage == new_stage,
        new_stage > 3 ==> after.cur_stage == before.cur_stage,
        after == (MintingAccount { cur_stage: after.cur_stage, ..before }),
{
}

/// The collection instruction acts exactly when the preceding instruction's
/// data starts with the bytes `211 57 6 167 15 219 35 251`, and then only for
/// the collection account derived from the seed `collection`.
pub proof fn law_collection_acts_after_mint_only(
    data: Seq<u8>,
    program_id: [u8; 32],
    collection_account: [u8; 32],
)
    requires
        data.len() >= 8,
    ensures
        (collection_outcome(data, program_id, collection_account) == Ok::<CollectionStep, DerivationError>(CollectionStep::Skip))
            <==> data.take(8) != seq![211u8, 57, 6, 167, 15, 219, 35, 251],
        data.take(8) == seq![211u8, 57, 6, 167, 15, 219, 35, 251] ==>
            collection_outcome(data, program_id, collection_account) == (match program_address(
                seq![seq![99u8, 111, 108, 108, 101, 99, 116, 105, 111, 110]], program_id@) {
                Some(pair) => if pair.0 == collection_account@ {
                    Ok::<CollectionStep, DerivationError>(CollectionStep::SetAndVerify { bump: pair.1 })
                } else {
                    Err::<CollectionStep, DerivationError>(DerivationError::DerivedKeyInvalid)
                },
                None => Err::<CollectionStep, DerivationError>(DerivationError::NoViableBumpSeed),
            }),
{
    assert(MINT_NFT_DISCRIMINATOR@ =~= seq![211u8, 57, 6, 167, 15, 219, 35, 251]);
    assert(COLLECTION_SEED@ =~= seq![99u8, 111, 108, 108, 101, 99, 116, 105, 111, 110]);
}

} // verus!
