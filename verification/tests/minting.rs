use teacher_nft_minting::collection::{
    assert_derivation, check_derivation, follows_mint_instruction, handle_set_collection_during_mint, CollectionStep,
    DerivationError, COLLECTION_SEED, MINT_NFT_DISCRIMINATOR,
};
use solana_program::pubkey::Pubkey;
use teacher_nft_minting::errors::WalletMintErrors;
use teacher_nft_minting::merkle_proof::hash_pair;
use teacher_nft_minting::metadata::{collection_metadata, nft_name, nft_uri, token_metadata};
use teacher_nft_minting::mint::{
    creator_authority_bump, mint_collection_nft, mint_nft, mint_nft_wl, mint_token, mint_whitelisted, wallet_leaf,
    MintTicket, NFT_CREATOR_SEED,
};
use teacher_nft_minting::state::{MintingAccount, UserMintingAccount};

const ADMIN: [u8; 32] = [7u8; 32];
const STRANGER: [u8; 32] = [9u8; 32];
const MAKER: [u8; 32] = [5u8; 32];
const BUYER: [u8; 32] = [21u8; 32];
const FRIEND: [u8; 32] = [22u8; 32];
const PAYER: [u8; 32] = [23u8; 32];

fn sale(stage: u8) -> MintingAccount {
    let mut account = MintingAccount::default();
    account.admin_key = ADMIN;
    account.max_supply = 5;
    account.og_max = 2;
    account.wl_max = 3;
    account.public_max = 1;
    account.og_price = 100;
    account.wl_price = 200;
    account.public_price = 300;
    account.cur_stage = stage;
    account.base_uri = "https://nft.example/".to_string();
    account.base_title = "Sweeper".to_string();
    account.symbol = "SWP".to_string();
    account
}

fn pair_root() -> [u8; 32] {
    hash_pair(&wallet_leaf(&BUYER), &wallet_leaf(&FRIEND))
}

fn buyer_proof() -> Vec<[u8; 32]> {
    vec![wallet_leaf(&FRIEND)]
}

fn fresh_counter() -> UserMintingAccount {
    UserMintingAccount::default()
}

fn check_ticket(ticket: &MintTicket, price: u64, number: u64) {
    assert_eq!(ticket.price, price);
    assert_eq!(ticket.metadata.name, format!("Sweeper #{}", number));
    assert_eq!(ticket.metadata.uri, format!("https://nft.example/{}.json", number));
    assert_eq!(ticket.metadata.symbol, "SWP");
    assert_eq!(ticket.metadata.creators.len(), 2);
    assert_eq!(ticket.metadata.creators[0].address, MAKER);
    assert!(ticket.metadata.creators[0].verified);
    assert_eq!(ticket.metadata.creators[0].share, 100);
    assert_eq!(ticket.metadata.creators[1].address, BUYER);
    assert!(!ticket.metadata.creators[1].verified);
    assert_eq!(ticket.metadata.creators[1].share, 0);
    assert_eq!(ticket.metadata.update_authority, MAKER);
    assert_eq!(ticket.metadata.seller_fee_basis_points, 1000);
    assert!(ticket.metadata.update_authority_is_signer);
    assert!(!ticket.metadata.is_mutable);
    assert_eq!(ticket.metadata.edition_max_supply, 0);
}

#[test]
fn names_and_links() {
    let title = "Sweeper".to_string();
    assert_eq!(nft_name(&title, 0), "Sweeper #0");
    assert_eq!(nft_name(&title, 42), "Sweeper #42");
    assert_eq!(nft_name(&title, u64::MAX), "Sweeper #18446744073709551615");
    let base = "ipfs://cid/".to_string();
    assert_eq!(nft_uri(&base, 7), "ipfs://cid/7.json");
    assert_eq!(nft_uri(&base, 1000), "ipfs://cid/1000.json");
    assert_eq!(nft_uri(&String::new(), 10), "10.json");
}

#[test]
fn token_metadata_of_next_token() {
    let mut account = sale(1);
    account.cur_num = 3;
    let plan = token_metadata(&account, &BUYER, &MAKER);
    let ticket = MintTicket { price: 9, metadata: plan };
    check_ticket(&ticket, 9, 3);
}

#[test]
fn collection_metadata_is_fixed() {
    let plan = collection_metadata(&ADMIN, &PAYER);
    assert_eq!(plan.name, "Degen Sweepers");
    assert_eq!(plan.symbol, "DS");
    assert_eq!(plan.uri, "");
    assert_eq!(plan.creators.len(), 1);
    assert_eq!(plan.creators[0].address, ADMIN);
    assert!(!plan.creators[0].verified);
    assert_eq!(plan.creators[0].share, 100);
    assert_eq!(plan.update_authority, PAYER);
    assert_eq!(plan.seller_fee_basis_points, 0);
    assert!(plan.update_authority_is_signer);
    assert!(!plan.is_mutable);
}

#[test]
fn mint_collection_nft_is_admin_only() {
    let account = sale(0);
    let plan = mint_collection_nft(&account, &ADMIN, &PAYER).ok().unwrap();
    assert_eq!(plan.name, "Degen Sweepers");
    assert_eq!(plan.update_authority, PAYER);
    assert_eq!(plan.creators[0].address, ADMIN);
    let paid_by_admin = mint_collection_nft(&account, &ADMIN, &ADMIN).ok().unwrap();
    assert_eq!(paid_by_admin.update_authority, ADMIN);
    assert_eq!(mint_collection_nft(&account, &STRANGER, &PAYER).err(), Some(WalletMintErrors::Unauthorized));
}

#[test]
fn whitelist_mint_on_first_list() {
    let mut account = sale(1);
    account.og_root = pair_root();
    let mut counter = fresh_counter();
    let ticket = mint_nft_wl(&mut account, &mut counter, &BUYER, &ADMIN, &MAKER, buyer_proof()).ok().unwrap();
    check_ticket(&ticket, 100, 0);
    assert_eq!(account.cur_num, 1);
    assert_eq!(counter.cur_num_whitelist, 1);
    assert_eq!(counter.cur_num_public, 0);
    let ticket = mint_nft_wl(&mut account, &mut counter, &BUYER, &ADMIN, &MAKER, buyer_proof()).ok().unwrap();
    check_ticket(&ticket, 100, 1);
    assert_eq!(counter.cur_num_whitelist, 2);
    let refused = mint_nft_wl(&mut account, &mut counter, &BUYER, &ADMIN, &MAKER, buyer_proof());
    assert_eq!(refused.err(), Some(WalletMintErrors::MaxWhitelistSupplyReached));
    assert_eq!(account.cur_num, 2);
    assert_eq!(counter.cur_num_whitelist, 2);
}

#[test]
fn whitelist_mint_prefers_second_list_terms() {
    let mut account = sale(1);
    account.og_root = pair_root();
    account.wl_root = pair_root();
    let mut counter = fresh_counter();
    let ticket = mint_nft_wl(&mut account, &mut counter, &BUYER, &ADMIN, &MAKER, buyer_proof()).ok().unwrap();
    assert_eq!(ticket.price, 200);
}

#[test]
fn whitelist_mint_refusals_in_order() {
    let mut counter = fresh_counter();
    let mut account = sale(1);
    account.og_root = pair_root();
    assert_eq!(
        mint_nft_wl(&mut account, &mut counter, &BUYER, &ADMIN, &MAKER, Vec::new()).err(),
        Some(WalletMintErrors::InvalidProof)
    );
    let mut disabled = sale(0);
    disabled.og_root = pair_root();
    assert_eq!(
        mint_nft_wl(&mut disabled, &mut counter, &BUYER, &ADMIN, &MAKER, buyer_proof()).err(),
        Some(WalletMintErrors::MintDisabled)
    );
    let mut public = sale(3);
    public.og_root = pair_root();
    assert_eq!(
        mint_nft_wl(&mut public, &mut counter, &BUYER, &ADMIN, &MAKER, buyer_proof()).err(),
        Some(WalletMintErrors::NotWhitelistStage)
    );
    let mut unused = sale(2);
    unused.og_root = pair_root();
    assert_eq!(
        mint_nft_wl(&mut unused, &mut counter, &BUYER, &ADMIN, &MAKER, buyer_proof()).err(),
        Some(WalletMintErrors::InvalidStage)
    );
    assert_eq!(
        mint_nft_wl(&mut account, &mut counter, &STRANGER, &ADMIN, &MAKER, buyer_proof()).err(),
        Some(WalletMintErrors::NotWhitelisted)
    );
    assert_eq!(
        mint_nft_wl(&mut account, &mut counter, &BUYER, &STRANGER, &MAKER, buyer_proof()).err(),
        Some(WalletMintErrors::InvalidOwner)
    );
    account.cur_num = 5;
    assert_eq!(
        mint_nft_wl(&mut account, &mut counter, &BUYER, &ADMIN, &MAKER, buyer_proof()).err(),
        Some(WalletMintErrors::SoldOut)
    );
    assert_eq!(account.cur_num, 5);
    assert_eq!(counter, fresh_counter());
}

#[test]
fn whitelist_mint_needs_a_price() {
    let mut account = sale(1);
    account.og_root = pair_root();
    account.og_price = 0;
    let mut counter = fresh_counter();
    assert_eq!(
        mint_nft_wl(&mut account, &mut counter, &BUYER, &ADMIN, &MAKER, buyer_proof()).err(),
        Some(WalletMintErrors::NotWhitelisted)
    );
}

#[test]
fn whitelisted_decision_from_membership() {
    let mut counter = fresh_counter();
    let mut account = sale(1);
    assert_eq!(
        mint_whitelisted(&mut account, &mut counter, false, false, &ADMIN, &BUYER, &MAKER).err(),
        Some(WalletMintErrors::NotWhitelisted)
    );
    let ticket = mint_whitelisted(&mut account, &mut counter, true, false, &ADMIN, &BUYER, &MAKER).ok().unwrap();
    check_ticket(&ticket, 100, 0);
    let ticket = mint_whitelisted(&mut account, &mut counter, true, true, &ADMIN, &BUYER, &MAKER).ok().unwrap();
    check_ticket(&ticket, 200, 1);
    let mut no_wl_cap = sale(1);
    no_wl_cap.wl_max = 0;
    let mut counter = fresh_counter();
    assert_eq!(
        mint_whitelisted(&mut no_wl_cap, &mut counter, true, true, &ADMIN, &BUYER, &MAKER).err(),
        Some(WalletMintErrors::NotWhitelisted)
    );
}

#[test]
fn public_mint() {
    let mut account = sale(3);
    let mut counter = fresh_counter();
    let ticket = mint_nft(&mut account, &mut counter, &BUYER, &ADMIN, &MAKER).ok().unwrap();
    check_ticket(&ticket, 300, 0);
    assert_eq!(account.cur_num, 1);
    assert_eq!(counter.cur_num_public, 1);
    assert_eq!(counter.cur_num_whitelist, 0);
    assert_eq!(
        mint_nft(&mut account, &mut counter, &BUYER, &ADMIN, &MAKER).err(),
        Some(WalletMintErrors::MaxPublicSupplyReached)
    );
    let mut other_payer = fresh_counter();
    assert_eq!(
        mint_nft(&mut account, &mut other_payer, &BUYER, &STRANGER, &MAKER).err(),
        Some(WalletMintErrors::InvalidOwner)
    );
    account.cur_num = 5;
    assert_eq!(
        mint_nft(&mut account, &mut other_payer, &BUYER, &ADMIN, &MAKER).err(),
        Some(WalletMintErrors::SoldOut)
    );
    assert_eq!(other_payer, fresh_counter());
}

#[test]
fn public_mint_refused_outside_public_stage() {
    let mut counter = fresh_counter();
    for stage in 0u8..3 {
        let mut account = sale(stage);
        let expected = if stage == 0 { WalletMintErrors::MintDisabled } else { WalletMintErrors::NotPublicStage };
        assert_eq!(mint_nft(&mut account, &mut counter, &BUYER, &ADMIN, &MAKER).err(), Some(expected));
        assert_eq!(account.cur_num, 0);
    }
}

#[test]
fn public_mint_at_zero_price() {
    let mut account = sale(3);
    account.public_price = 0;
    let mut counter = fresh_counter();
    let ticket = mint_nft(&mut account, &mut counter, &BUYER, &ADMIN, &MAKER).ok().unwrap();
    assert_eq!(ticket.price, 0);
}

#[test]
fn supply_runs_out() {
    let mut account = sale(3);
    account.public_max = 100;
    let mut counter = fresh_counter();
    for number in 0..5u64 {
        let ticket = mint_nft(&mut account, &mut counter, &BUYER, &ADMIN, &MAKER).ok().unwrap();
        check_ticket(&ticket, 300, number);
    }
    assert_eq!(account.cur_num, 5);
    assert_eq!(
        mint_nft(&mut account, &mut counter, &BUYER, &ADMIN, &MAKER).err(),
        Some(WalletMintErrors::SoldOut)
    );
    assert_eq!(account.cur_num, 5);
    assert_eq!(counter.cur_num_public, 5);
}

#[test]
fn collection_step_follows_the_previous_instruction() {
    let program_id = [77u8; 32];
    let seeds: [&[u8]; 1] = [b"collection"];
    let (pda, bump) = Pubkey::find_program_address(&seeds, &Pubkey::new_from_array(program_id));
    let pda = pda.to_bytes();
    let mut data = MINT_NFT_DISCRIMINATOR.to_vec();
    data.extend_from_slice(&[1, 2, 3]);
    assert!(follows_mint_instruction(&data));
    assert_eq!(
        handle_set_collection_during_mint(&data, &program_id, &pda),
        Ok(CollectionStep::SetAndVerify { bump })
    );
    assert_eq!(
        handle_set_collection_during_mint(&MINT_NFT_DISCRIMINATOR, &program_id, &pda),
        Ok(CollectionStep::SetAndVerify { bump })
    );
    assert_eq!(
        handle_set_collection_during_mint(&data, &program_id, &ADMIN),
        Err(DerivationError::DerivedKeyInvalid)
    );
    let mut other = MINT_NFT_DISCRIMINATOR.to_vec();
    other[7] = 0;
    assert!(!follows_mint_instruction(&other));
    assert_eq!(handle_set_collection_during_mint(&other, &program_id, &ADMIN), Ok(CollectionStep::Skip));
    assert_eq!(handle_set_collection_during_mint(&[0u8; 8], &program_id, &pda), Ok(CollectionStep::Skip));
    assert_eq!(&COLLECTION_SEED[..], b"collection");
}

#[test]
fn member_of_first_list_is_whitelisted_for_minting() {
    let mut account = sale(1);
    account.og_root = pair_root();
    assert_eq!(teacher_nft_minting::mint::is_og_list(&account, &BUYER, 0, buyer_proof()), Ok(()));
    let mut counter = fresh_counter();
    let result = mint_nft_wl(&mut account, &mut counter, &BUYER, &ADMIN, &MAKER, buyer_proof());
    assert!(result.is_ok());
    let mut elsewhere = sale(1);
    elsewhere.og_root = pair_root();
    let mut counter = fresh_counter();
    let refused = mint_nft_wl(&mut elsewhere, &mut counter, &BUYER, &STRANGER, &MAKER, buyer_proof());
    assert_eq!(refused.err(), Some(WalletMintErrors::InvalidOwner));
}

#[test]
fn derivation_of_the_collection_address() {
    let program_id = [77u8; 32];
    let seeds: [&[u8]; 1] = [b"collection"];
    let (expected, bump) = Pubkey::find_program_address(&seeds, &Pubkey::new_from_array(program_id));
    assert_eq!(assert_derivation(&program_id, &expected.to_bytes(), &seeds), Ok(bump));
    assert_eq!(assert_derivation(&program_id, &ADMIN, &seeds), Err(DerivationError::DerivedKeyInvalid));
    let other_seeds: [&[u8]; 1] = [b"other"];
    assert_eq!(
        assert_derivation(&program_id, &expected.to_bytes(), &other_seeds),
        Err(DerivationError::DerivedKeyInvalid)
    );
}

#[test]
fn derivation_check_on_given_results() {
    assert_eq!(check_derivation(Some((ADMIN, 254)), &ADMIN), Ok(254));
    assert_eq!(check_derivation(Some((ADMIN, 254)), &STRANGER), Err(DerivationError::DerivedKeyInvalid));
    assert_eq!(check_derivation(None, &ADMIN), Err(DerivationError::NoViableBumpSeed));
}

#[test]
fn creator_authority_bump_matches_the_derivation() {
    let program_id = [88u8; 32];
    assert_eq!(&NFT_CREATOR_SEED[..], b"NFT_CREATOR_SEED");
    let seeds: [&[u8]; 1] = [b"NFT_CREATOR_SEED"];
    let (_address, bump) = Pubkey::find_program_address(&seeds, &Pubkey::new_from_array(program_id));
    assert_eq!(creator_authority_bump(&program_id), Some(bump));
}

#[test]
fn mint_token_counts_one_sale_only() {
    let mut account = sale(1);
    let mut counter = UserMintingAccount { cur_num_public: 4, cur_num_whitelist: 9 };
    let ticket = mint_token(&mut account, &mut counter, 55, 1, true, &ADMIN, &BUYER, &MAKER).ok().unwrap();
    check_ticket(&ticket, 55, 0);
    assert_eq!(account.cur_num, 1);
    assert_eq!(account.max_supply, 5);
    assert_eq!(counter, UserMintingAccount { cur_num_public: 4, cur_num_whitelist: 10 });
    let ticket = mint_token(&mut account, &mut counter, 66, 1, false, &ADMIN, &BUYER, &MAKER).ok().unwrap();
    check_ticket(&ticket, 66, 1);
    assert_eq!(counter, UserMintingAccount { cur_num_public: 5, cur_num_whitelist: 10 });
    assert_eq!(
        mint_token(&mut account, &mut counter, 66, 3, false, &ADMIN, &BUYER, &MAKER).err(),
        Some(WalletMintErrors::InvalidStage)
    );
    assert_eq!(account.cur_num, 2);
}
