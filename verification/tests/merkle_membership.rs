#![allow(deprecated)]

use solana_program::keccak;
use solana_program::pubkey::Pubkey;
use teacher_nft_minting::errors::WalletMintErrors;
use teacher_nft_minting::merkle_proof::{bytes32_eq, bytes32_le, hash_pair, process_proof, verify};
use teacher_nft_minting::mint::{is_og_list, is_wl_list, wallet_leaf};
use teacher_nft_minting::state::MintingAccount;

fn keccak_of(parts: &[&[u8]]) -> [u8; 32] {
    keccak::hashv(parts).to_bytes()
}

fn with_byte(base: u8, position: usize, value: u8) -> [u8; 32] {
    let mut bytes = [base; 32];
    bytes[position] = value;
    bytes
}

#[test]
fn byte_comparisons() {
    let a = with_byte(5, 31, 1);
    let b = with_byte(5, 31, 2);
    let c = with_byte(5, 0, 9);
    assert!(bytes32_eq(&a, &a));
    assert!(!bytes32_eq(&a, &b));
    assert!(bytes32_le(&a, &b));
    assert!(!bytes32_le(&b, &a));
    assert!(bytes32_le(&a, &a));
    assert!(bytes32_le(&b, &c));
    assert!(!bytes32_le(&c, &a));
    assert_eq!(bytes32_le(&a, &c), a <= c);
}

#[test]
fn hash_pair_hashes_the_smaller_child_first() {
    let a = [1u8; 32];
    let b = [2u8; 32];
    let expected = keccak_of(&[&a, &b]);
    assert_eq!(hash_pair(&a, &b), expected);
    assert_eq!(hash_pair(&b, &a), expected);
    assert_ne!(hash_pair(&a, &b), a);
    assert_ne!(keccak_of(&[&b, &a]), expected);
}

#[test]
fn hash_pair_of_equal_children() {
    let a = [3u8; 32];
    assert_eq!(hash_pair(&a, &a), keccak_of(&[&a, &a]));
}

#[test]
fn empty_proof_proves_the_root_only() {
    let leaf = [4u8; 32];
    assert!(verify(Vec::new(), leaf, leaf));
    assert!(!verify(Vec::new(), [5u8; 32], leaf));
    assert_eq!(process_proof(&Vec::new(), &leaf), leaf);
}

#[test]
fn two_leaf_tree() {
    let a = [10u8; 32];
    let b = [20u8; 32];
    let root = hash_pair(&a, &b);
    assert!(verify(vec![b], root, a));
    assert!(verify(vec![a], root, b));
    assert!(!verify(vec![a], root, a));
}

#[test]
fn four_leaf_tree() {
    let leaves = [[1u8; 32], [2u8; 32], [3u8; 32], [4u8; 32]];
    let left = hash_pair(&leaves[0], &leaves[1]);
    let right = hash_pair(&leaves[2], &leaves[3]);
    let root = hash_pair(&left, &right);
    assert!(verify(vec![leaves[1], right], root, leaves[0]));
    assert!(verify(vec![leaves[0], right], root, leaves[1]));
    assert!(verify(vec![leaves[3], left], root, leaves[2]));
    assert!(verify(vec![leaves[2], left], root, leaves[3]));
    assert!(!verify(vec![leaves[2], left], root, leaves[0]));
    assert!(!verify(vec![right, leaves[1]], root, leaves[0]));
    assert_eq!(process_proof(&vec![leaves[1], right], &leaves[0]), root);
}

#[test]
fn wallet_leaf_hashes_the_base58_address() {
    let zero = [0u8; 32];
    let text = "11111111111111111111111111111111";
    assert_eq!(Pubkey::new_from_array(zero).to_string(), text);
    assert_eq!(wallet_leaf(&zero), keccak_of(&[text.as_bytes()]));
    let key = [42u8; 32];
    let key_text = Pubkey::new_from_array(key).to_string();
    assert_eq!(wallet_leaf(&key), keccak_of(&[key_text.as_bytes()]));
    assert_ne!(wallet_leaf(&key), key);
}

#[test]
fn addresses_are_written_in_standard_base58() {
    let mut counting = [0u8; 32];
    for (i, byte) in counting.iter_mut().enumerate() {
        *byte = i as u8;
    }
    let text = "1thX6LZfHDZZKUs92febYZhYRcXddmzfzF2NvTkPNE";
    assert_eq!(Pubkey::new_from_array(counting).to_string(), text);
    assert_eq!(wallet_leaf(&counting), keccak_of(&[text.as_bytes()]));
    let mut one = [0u8; 32];
    one[31] = 1;
    assert_eq!(Pubkey::new_from_array(one).to_string(), "11111111111111111111111111111112");
    let mut high = [255u8; 32];
    high[0] = 0;
    high[1] = 0;
    assert_eq!(Pubkey::new_from_array(high).to_string(), "11tJ93RwaVfE1PEMxd5rpZZuPtLCwbEaDCrNBhAy8Cv");
    assert_eq!(Pubkey::new_from_array([42u8; 32]).to_string(), "3qbR1eZRqXUWroWKKYhbDmR3FfqTHfqSU8zZSxtANzYh");
}

fn account_with_roots(og_root: [u8; 32], wl_root: [u8; 32]) -> MintingAccount {
    let mut account = MintingAccount::default();
    account.og_root = og_root;
    account.wl_root = wl_root;
    account
}

#[test]
fn membership_checks() {
    let alice = [11u8; 32];
    let bob = [12u8; 32];
    let carol = [13u8; 32];
    let alice_leaf = wallet_leaf(&alice);
    let bob_leaf = wallet_leaf(&bob);
    let root = hash_pair(&alice_leaf, &bob_leaf);
    let account = account_with_roots(root, [0u8; 32]);
    assert_eq!(is_og_list(&account, &alice, 0, vec![bob_leaf]), Ok(()));
    assert_eq!(is_og_list(&account, &bob, 0, vec![alice_leaf]), Ok(()));
    assert_eq!(is_og_list(&account, &carol, 0, vec![alice_leaf]), Err(WalletMintErrors::InvalidProof));
    assert_eq!(is_og_list(&account, &alice, 0, Vec::new()), Err(WalletMintErrors::InvalidProof));
    assert_eq!(is_wl_list(&account, &alice, 0, vec![bob_leaf]), Err(WalletMintErrors::InvalidProof));
    let account = account_with_roots([0u8; 32], root);
    assert_eq!(is_wl_list(&account, &alice, 0, vec![bob_leaf]), Ok(()));
    assert_eq!(is_wl_list(&account, &alice, 0, Vec::new()), Err(WalletMintErrors::InvalidProof));
    assert_eq!(is_og_list(&account, &alice, 0, vec![bob_leaf]), Err(WalletMintErrors::InvalidProof));
}

#[test]
fn empty_proof_is_refused_even_for_a_root_leaf() {
    let alice = [11u8; 32];
    let account = account_with_roots(wallet_leaf(&alice), wallet_leaf(&alice));
    assert_eq!(is_og_list(&account, &alice, 0, Vec::new()), Err(WalletMintErrors::InvalidProof));
    assert_eq!(is_wl_list(&account, &alice, 0, Vec::new()), Err(WalletMintErrors::InvalidProof));
}

#[test]
fn proofs_compose() {
    let leaf = [31u8; 32];
    let first = vec![[32u8; 32], [33u8; 32]];
    let second = vec![[34u8; 32], [35u8; 32], [1u8; 32]];
    let mut whole = first.clone();
    whole.extend_from_slice(&second);
    let middle = process_proof(&first, &leaf);
    assert_eq!(process_proof(&whole, &leaf), process_proof(&second, &middle));
}

#[test]
fn lexicographic_order_is_total() {
    let samples = [[0u8; 32], [255u8; 32], with_byte(9, 3, 1), with_byte(9, 3, 200), with_byte(9, 30, 0)];
    for a in samples.iter() {
        for b in samples.iter() {
            assert!(bytes32_le(a, b) || bytes32_le(b, a));
            if bytes32_le(a, b) && bytes32_le(b, a) {
                assert_eq!(a, b);
            }
            assert_eq!(bytes32_le(a, b), a <= b);
        }
    }
}
