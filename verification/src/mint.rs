//! The minting instructions: allow-list membership checks and the decisions
//! of the allow-list sale and the public sale.

use vstd::prelude::*;
use vstd::utf8::encode_utf8;
use crate::admin::is_admin;
use crate::crypto::{
    base58_text, keccak_hashv, keccak_hashv_digest, program_address, pubkey_to_string, slices_view,
    try_find_program_address,
};
use crate::errors::WalletMintErrors;
use crate::merkle_proof::{bytes32_eq, nodes_view, process_proof, proof_root, verify};
use crate::metadata::{collection_metadata, is_collection_metadata, is_token_metadata, token_metadata, MetadataPlan};
use crate::state::{MintingAccount, UserMintingAccount};

verus! {

/// The allow-list stage of the sale.
pub const WHITELIST_STAGE: u8 = 1;

/// The public stage of the sale.
pub const PUBLIC_STAGE: u8 = 3;

/// The leaf that stands for a wallet in the allow-list trees: the Keccak-256
/// digest of the UTF-8 bytes of the wallet's address written out in base 58.
pub open spec fn wallet_leaf_digest(key: Seq<u8>) -> Seq<u8> {
    keccak_hashv_digest(seq![encode_utf8(base58_text(key))])
}

/// `proof` shows that the wallet `key` is in the tree with root `root`.
pub open spec fn on_list(proof: Seq<[u8; 32]>, root: [u8; 32], key: [u8; 32]) -> bool {
    proof_root(nodes_view(proof), wallet_leaf_digest(key@)) == root@
}

/// The leaf that stands for the wallet `key` in the allow-list trees.
pub fn wallet_leaf(key: &[u8; 32]) -> (leaf: [u8; 32])
    ensures
        leaf@ == wallet_leaf_digest(key@),
{
    let text = pubkey_to_string(key);
    let bytes: &[u8] = text.as_str().as_bytes();
    let parts: [&[u8]; 1] = [bytes];
    let slice = parts.as_slice();
    assert(slices_view(slice@) =~= seq![encode_utf8(base58_text(key@))]);
    keccak_hashv(slice)
}

/// What a membership check answers: an empty proof is refused outright,
/// otherwise the proof must lead from the wallet's leaf to the root.
pub open spec fn membership_result(
    proof: Seq<[u8; 32]>,
    root: [u8; 32],
    key: [u8; 32],
) -> Result<(), WalletMintErrors> {
    if proof.len() == 0 || !on_list(proof, root, key) {
        Err(WalletMintErrors::InvalidProof)
    } else {
        Ok(())
    }
}

/// Checks that the signing wallet is on the first allow list.
pub fn is_og_list(
    minting_account: &MintingAccount,
    admin: &[u8; 32],
    _nonce_minting: u8,
    proof: Vec<[u8; 32]>,
) -> (result: Result<(), WalletMintErrors>)
    ensures
        result == membership_result(proof@, minting_account.og_root, *admin),
        result is Ok <==> (proof@.len() > 0
            && proof_root(nodes_view(proof@), wallet_leaf_digest(admin@)) == minting_account.og_root@),
{
    if proof.len() == 0 {
        return Err(WalletMintErrors::InvalidProof);
    }
    let node = wallet_leaf(admin);
    if !verify(proof, minting_account.og_root, node) {
        return Err(WalletMintErrors::InvalidProof);
    }
    Ok(())
}

/// Checks that the signing wallet is on the second allow list.
pub fn is_wl_list(
    minting_account: &MintingAccount,
    admin: &[u8; 32],
    _nonce_minting: u8,
    proof: Vec<[u8; 32]>,
) -> (result: Result<(), WalletMintErrors>)
    ensures
        result == membership_result(proof@, minting_account.wl_root, *admin),
        result is Ok <==> (proof@.len() > 0
            && proof_root(nodes_view(proof@), wallet_leaf_digest(admin@)) == minting_account.wl_root@),
{
    if proof.len() == 0 {
        return Err(WalletMintErrors::InvalidProof);
    }
    let node = wallet_leaf(admin);
    if !verify(proof, minting_account.wl_root, node) {
        return Err(WalletMintErrors::InvalidProof);
    }
    Ok(())
}

/// What the program does with a mint that goes ahead: the price that the
/// payer transfers to the owner, and the metadata of the new token.
pub struct MintTicket {
    pub price: u64,
    pub metadata: MetadataPlan,
}

/// The account after one more token has been minted.
pub open spec fn after_mint(account: MintingAccount) -> MintingAccount {
    MintingAccount { cur_num: (account.cur_num + 1) as u64, ..account }
}

/// The payer's counters after one more token of the allow-list sale
/// (`whitelist`) or of the public sale.
pub open spec fn counted(counter: UserMintingAccount, whitelist: bool) -> UserMintingAccount {
    if whitelist {
        UserMintingAccount { cur_num_whitelist: (counter.cur_num_whitelist + 1) as u64, ..counter }
    } else {
        UserMintingAccount { cur_num_public: (counter.cur_num_public + 1) as u64, ..counter }
    }
}

/// `ticket` asks for the price `price` and the metadata of the next token.
pub open spec fn is_mint_ticket(
    ticket: MintTicket,
    account: MintingAccount,
    price: u64,
    mint_authority: [u8; 32],
    maker: [u8; 32],
) -> bool {
    ticket.price == price && is_token_metadata(ticket.metadata, account, mint_authority, maker)
}

/// One mint request, from the accounts before to those after: refused with
/// `refusal` and nothing changed; or granted at `price`, with one more token
/// minted and counted for the payer.
pub open spec fn mint_step(
    account: MintingAccount,
    counter: UserMintingAccount,
    account_after: MintingAccount,
    counter_after: UserMintingAccount,
    result: Result<MintTicket, WalletMintErrors>,
    refusal: Option<WalletMintErrors>,
    price: u64,
    whitelist: bool,
    mint_authority: [u8; 32],
    maker: [u8; 32],
) -> bool {
    match refusal {
        Some(e) => {
            &&& result == Err::<MintTicket, WalletMintErrors>(e)
            &&& account_after == account
            &&& counter_after == counter
        },
        None => {
            &&& result is Ok
            &&& is_mint_ticket(result->Ok_0, account, price, mint_authority, maker)
            &&& account_after == after_mint(account)
            &&& counter_after == counted(counter, whitelist)
        },
    }
}

/// Why a mint in sale stage `stage` is refused, checked in this order: the
/// supply is exhausted, the sale is in another stage, the proceeds would not
/// go to the admin.
pub open spec fn mint_refusal(account: MintingAccount, stage: u8, owner: [u8; 32]) -> Option<WalletMintErrors> {
    if account.max_supply <= account.cur_num {
        Some(WalletMintErrors::SoldOut)
    } else if account.cur_stage != stage {
        Some(WalletMintErrors::InvalidStage)
    } else if account.admin_key@ != owner@ {
        Some(WalletMintErrors::InvalidOwner)
    } else {
        None
    }
}

/// Mints one token at `price` in stage `stage`, counted for the allow-list
/// sale when `whitelist_mint` holds and for the public sale otherwise. Of
/// the accounts it changes only the number of tokens minted and the payer's
/// counter of that sale.
pub fn mint_token(
    minting_account: &mut MintingAccount,
    user_minting_counter_account: &mut UserMintingAccount,
    price: u64,
    stage: u8,
    whitelist_mint: bool,
    owner: &[u8; 32],
    mint_authority: &[u8; 32],
    maker: &[u8; 32],
) -> (result: Result<MintTicket, WalletMintErrors>)
    requires
        whitelist_mint ==> old(user_minting_counter_account).cur_num_whitelist < u64::MAX,
        !whitelist_mint ==> old(user_minting_counter_account).cur_num_public < u64::MAX,
    ensures
        mint_step(*old(minting_account), *old(user_minting_counter_account),
            *final(minting_account), *final(user_minting_counter_account), result,
            mint_refusal(*old(minting_account), stage, *owner), price, whitelist_mint,
            *mint_authority, *maker),
        final(minting_account).max_supply == old(minting_account).max_supply,
        old(minting_account).cur_num <= final(minting_account).cur_num <= old(minting_account).cur_num + 1,
        old(minting_account).cur_num <= old(minting_account).max_supply
            ==> final(minting_account).cur_num <= final(minting_account).max_supply,
        *final(minting_account) == (MintingAccount { cur_num: final(minting_account).cur_num, ..*old(minting_account) }),
        whitelist_mint ==> final(user_minting_counter_account).cur_num_public == old(user_minting_counter_account).cur_num_public,
        !whitelist_mint ==> final(user_minting_counter_account).cur_num_whitelist == old(user_minting_counter_account).cur_num_whitelist,
{
    if minting_account.max_supply <= minting_account.cur_num {
        return Err(WalletMintErrors::SoldOut);
    }
    if minting_account.cur_stage != stage {
        return Err(WalletMintErrors::InvalidStage);
    }
    if !bytes32_eq(&minting_account.admin_key, owner) {
        return Err(WalletMintErrors::InvalidOwner);
    }
    let metadata = token_metadata(minting_account, mint_authority, maker);
    if whitelist_mint {
        user_minting_counter_account.cur_num_whitelist = user_minting_counter_account.cur_num_whitelist + 1;
    } else {
        user_minting_counter_account.cur_num_public = user_minting_counter_account.cur_num_public + 1;
    }
    minting_account.cur_num = minting_account.cur_num + 1;
    Ok(MintTicket { price, metadata })
}

/// The cap, price and stage of an allow-list mint for a wallet that is on the
/// first list (`in_og_list`) and on the second (`in_wl_list`): the second
/// list's terms win; a wallet on neither list gets zeros.
pub open spec fn whitelist_terms(account: MintingAccount, in_og_list: bool, in_wl_list: bool) -> (u64, u64, u8) {
    if in_wl_list {
        (account.wl_max, account.wl_price, WHITELIST_STAGE)
    } else if in_og_list {
        (account.og_max, account.og_price, WHITELIST_STAGE)
    } else {
        (0, 0, 0)
    }
}

/// Why an allow-list mint is refused once list membership is known.
pub open spec fn whitelist_refusal(
    account: MintingAccount,
    counter: UserMintingAccount,
    in_og_list: bool,
    in_wl_list: bool,
    owner: [u8; 32],
) -> Option<WalletMintErrors> {
    let (max_num, price, stage) = whitelist_terms(account, in_og_list, in_wl_list);
    if max_num == 0 || price == 0 || stage == 0 {
        Some(WalletMintErrors::NotWhitelisted)
    } else if counter.cur_num_whitelist >= max_num {
        Some(WalletMintErrors::MaxWhitelistSupplyReached)
    } else {
        mint_refusal(account, stage, owner)
    }
}

/// The allow-list mint once list membership is known: picks the terms of
/// the list the wallet is on, checks the wallet's cap and mints.
pub fn mint_whitelisted(
    minting_account: &mut MintingAccount,
    user_minting_counter_account: &mut UserMintingAccount,
    in_og_list: bool,
    in_wl_list: bool,
    owner: &[u8; 32],
    mint_authority: &[u8; 32],
    maker: &[u8; 32],
) -> (result: Result<MintTicket, WalletMintErrors>)
    ensures
        mint_step(*old(minting_account), *old(user_minting_counter_account),
            *final(minting_account), *final(user_minting_counter_account), result,
            whitelist_refusal(*old(minting_account), *old(user_minting_counter_account),
                in_og_list, in_wl_list, *owner),
            whitelist_terms(*old(minting_account), in_og_list, in_wl_list).1, true,
            *mint_authority, *maker),
        old(minting_account).well_formed() ==> final(minting_account).well_formed(),
{
    let mut max_num: u64 = 0;
    let mut price: u64 = 0;
    let mut stage: u8 = 0;
    if in_og_list {
        max_num = minting_account.og_max;
        price = minting_account.og_price;
        stage = WHITELIST_STAGE;
    }
    if in_wl_list {
        max_num = minting_account.wl_max;
        price = minting_account.wl_price;
        stage = WHITELIST_STAGE;
    }
    if max_num == 0 || price == 0 || stage == 0 {
        return Err(WalletMintErrors::NotWhitelisted);
    }
    if user_minting_counter_account.cur_num_whitelist >= max_num {
        return Err(WalletMintErrors::MaxWhitelistSupplyReached);
    }
    mint_token(minting_account, user_minting_counter_account, price, stage, true, owner,
        mint_authority, maker)
}

/// Why an allow-list mint with `proof` for the wallet `mint_authority` is
/// refused, checked in this order: no proof, minting disabled, not an
/// allow-list stage, then the checks of `whitelist_refusal` on the wallet's
/// membership of each list.
pub open spec fn wl_mint_refusal(
    account: MintingAccount,
    counter: UserMintingAccount,
    proof: Seq<[u8; 32]>,
    mint_authority: [u8; 32],
    owner: [u8; 32],
) -> Option<WalletMintErrors> {
    if proof.len() == 0 {
        Some(WalletMintErrors::InvalidProof)
    } else if account.cur_stage == 0 {
        Some(WalletMintErrors::MintDisabled)
    } else if account.cur_stage != 1 && account.cur_stage != 2 {
        Some(WalletMintErrors::NotWhitelistStage)
    } else {
        whitelist_refusal(account, counter,
            on_list(proof, account.og_root, mint_authority),
            on_list(proof, account.wl_root, mint_authority), owner)
    }
}

/// The price of an allow-list mint with `proof` for `mint_authority`.
pub open spec fn wl_mint_price(account: MintingAccount, proof: Seq<[u8; 32]>, mint_authority: [u8; 32]) -> u64 {
    whitelist_terms(account,
        on_list(proof, account.og_root, mint_authority),
        on_list(proof, account.wl_root, mint_authority)).1
}

/// Mints a token of the allow-list sale for the wallet `mint_authority`,
/// which proves its membership of one of the two lists with `proof`.
pub fn mint_nft_wl(
    minting_account: &mut MintingAccount,
    user_minting_counter_account: &mut UserMintingAccount,
    mint_authority: &[u8; 32],
    owner: &[u8; 32],
    maker: &[u8; 32],
    proof: Vec<[u8; 32]>,
) -> (result: Result<MintTicket, WalletMintErrors>)
    ensures
        mint_step(*old(minting_account), *old(user_minting_counter_account),
            *final(minting_account), *final(user_minting_counter_account), result,
            wl_mint_refusal(*old(minting_account), *old(user_minting_counter_account),
                proof@, *mint_authority, *owner),
            wl_mint_price(*old(minting_account), proof@, *mint_authority), true,
            *mint_authority, *maker),
        ({
            let account = *old(minting_account);
            let counter = *old(user_minting_counter_account);
            let reached = proof_root(nodes_view(proof@), wallet_leaf_digest(mint_authority@));
            proof@.len() > 0 && reached == account.og_root@ && reached != account.wl_root@
                && account.cur_stage == WHITELIST_STAGE && account.og_max > 0 && account.og_price > 0
                && counter.cur_num_whitelist < account.og_max && account.cur_num < account.max_supply
                && account.admin_key@ == owner@
                ==> result is Ok && result->Ok_0.price == account.og_price
        }),
        ({
            let account = *old(minting_account);
            let counter = *old(user_minting_counter_account);
            let reached = proof_root(nodes_view(proof@), wallet_leaf_digest(mint_authority@));
            proof@.len() > 0 && reached == account.wl_root@
                && account.cur_stage == WHITELIST_STAGE && account.wl_max > 0 && account.wl_price > 0
                && counter.cur_num_whitelist < account.wl_max && account.cur_num < account.max_supply
                && account.admin_key@ == owner@
                ==> result is Ok && result->Ok_0.price == account.wl_price
        }),
        old(minting_account).well_formed() ==> final(minting_account).well_formed(),
{
    if proof.len() == 0 {
        return Err(WalletMintErrors::InvalidProof);
    }
    if minting_account.cur_stage == 0 {
        return Err(WalletMintErrors::MintDisabled);
    }
    if minting_account.cur_stage != 1 && minting_account.cur_stage != 2 {
        return Err(WalletMintErrors::NotWhitelistStage);
    }
    let node = wallet_leaf(mint_authority);
    let root = process_proof(&proof, &node);
    let in_og_list = bytes32_eq(&root, &minting_account.og_root);
    let in_wl_list = bytes32_eq(&root, &minting_account.wl_root);
    mint_whitelisted(minting_account, user_minting_counter_account, in_og_list, in_wl_list,
        owner, mint_authority, maker)
}

/// Why a public mint is refused, checked in this order: minting disabled,
/// not the public stage, the payer's cap reached, then `mint_refusal`.
pub open spec fn public_refusal(
    account: MintingAccount,
    counter: UserMintingAccount,
    owner: [u8; 32],
) -> Option<WalletMintErrors> {
    if account.cur_stage == 0 {
        Some(WalletMintErrors::MintDisabled)
    } else if account.cur_stage != PUBLIC_STAGE {
        Some(WalletMintErrors::NotPublicStage)
    } else if counter.cur_num_public >= account.public_max {
        Some(WalletMintErrors::MaxPublicSupplyReached)
    } else {
        mint_refusal(account, PUBLIC_STAGE, owner)
    }
}

/// Mints a token of the public sale.
pub fn mint_nft(
    minting_account: &mut MintingAccount,
    user_minting_counter_account: &mut UserMintingAccount,
    mint_authority: &[u8; 32],
    owner: &[u8; 32],
    maker: &[u8; 32],
) -> (result: Result<MintTicket, WalletMintErrors>)
    ensures
        mint_step(*old(minting_account), *old(user_minting_counter_account),
            *final(minting_account), *final(user_minting_counter_account), result,
            public_refusal(*old(minting_account), *old(user_minting_counter_account), *owner),
            old(minting_account).public_price, false, *mint_authority, *maker),
        ({
            let account = *old(minting_account);
            let counter = *old(user_minting_counter_account);
            account.cur_stage == PUBLIC_STAGE && counter.cur_num_public < account.public_max
                && account.cur_num < account.max_supply && account.admin_key@ == owner@
                ==> result is Ok && result->Ok_0.price == account.public_price
        }),
        old(minting_account).well_formed() ==> final(minting_account).well_formed(),
{
    let max_num = minting_account.public_max;
    let price = minting_account.public_price;
    let stage: u8 = PUBLIC_STAGE;
    if minting_account.cur_stage == 0 {
        return Err(WalletMintErrors::MintDisabled);
    }
    if minting_account.cur_stage != PUBLIC_STAGE {
        return Err(WalletMintErrors::NotPublicStage);
    }
    if user_minting_counter_account.cur_num_public >= max_num {
        return Err(WalletMintErrors::MaxPublicSupplyReached);
    }
    mint_token(minting_account, user_minting_counter_account, price, stage, false, owner,
        mint_authority, maker)
}

/// Plans the collection token, which only the admin may mint; `payer` pays
/// for it and becomes the update authority of its metadata.
pub fn mint_collection_nft(
    minting_account: &MintingAccount,
    admin: &[u8; 32],
    payer: &[u8; 32],
) -> (result: Result<MetadataPlan, WalletMintErrors>)
    ensures
        minting_account.admin_key@ == admin@ ==> (result is Ok && is_collection_metadata(result->Ok_0, *admin, *payer)),
        minting_account.admin_key@ != admin@ ==> result == Err::<MetadataPlan, WalletMintErrors>(WalletMintErrors::Unauthorized),
{
    match is_admin(minting_account, admin) {
        Err(e) => Err(e),
        Ok(()) => Ok(collection_metadata(admin, payer)),
    }
}

/// The seed of the program address that signs the new tokens' metadata as
/// creator: the bytes of `NFT_CREATOR_SEED`.
pub const NFT_CREATOR_SEED: [u8; 16] = [78, 70, 84, 95, 67, 82, 69, 65, 84, 79, 82, 95, 83, 69, 69, 68];

/// The bump seed of a derivation, if one was found.
pub open spec fn bump_of(found: Option<(Seq<u8>, u8)>) -> Option<u8> {
    match found {
        Some(pair) => Some(pair.1),
        None => None,
    }
}

/// The bump seed with which the program signs, as the creator authority
/// derived from `NFT_CREATOR_SEED`, the metadata and edition of a new token.
pub fn creator_authority_bump(program_id: &[u8; 32]) -> (found: Option<u8>)
    ensures
        found == bump_of(program_address(seq![NFT_CREATOR_SEED@], program_id@)),
{
    let seed = NFT_CREATOR_SEED;
    let seeds: [&[u8]; 1] = [seed.as_slice()];
    let path = seeds.as_slice();
    assert(slices_view(path@) =~= seq![NFT_CREATOR_SEED@]);
    match try_find_program_address(path, program_id) {
        Some((_address, bump)) => Some(bump),
        None => None,
    }
}

} // verus!
