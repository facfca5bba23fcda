//! The computations this program takes from the Solana SDK: Keccak-256
//! hashing, the textual form of an account address and the derivation of
//! program addresses.

use vstd::prelude::*;

verus! {

/// The Keccak-256 digest that `solana_program::keccak::hashv` returns for the
/// given list of byte strings (the list is hashed as one stream, part after part).
pub uninterp spec fn keccak_hashv_digest(parts: Seq<Seq<u8>>) -> Seq<u8>;

/// The base-58 digit for `d`, from the alphabet
/// `123456789ABCDEFGHJKLMNPQRSTUVWXYZabcdefghijkmnopqrstuvwxyz`.
pub open spec fn base58_digit(d: nat) -> char {
    if d < 9 {
        (49 + d) as char
    } else if d < 17 {
        (65 + (d - 9)) as char
    } else if d < 22 {
        (74 + (d - 17)) as char
    } else if d < 33 {
        (80 + (d - 22)) as char
    } else if d < 44 {
        (97 + (d - 33)) as char
    } else {
        (109 + (d - 44)) as char
    }
}

/// The number that `bytes` spell, most significant byte first.
pub open spec fn big_endian_value(bytes: Seq<u8>) -> nat
    decreases bytes.len(),
{
    if bytes.len() == 0 {
        0
    } else {
        big_endian_value(bytes.drop_last()) * 256 + bytes.last() as nat
    }
}

/// The base-58 digits of `n`, most significant first, none for zero.
pub open spec fn base58_of_number(n: nat) -> Seq<char>
    decreases n,
{
    if n == 0 {
        seq![]
    } else {
        base58_of_number(n / 58) + seq![base58_digit(n % 58)]
    }
}

/// How many zero bytes `bytes` starts with.
pub open spec fn leading_zero_bytes(bytes: Seq<u8>) -> nat
    decreases bytes.len(),
{
    if bytes.len() == 0 || bytes[0] != 0 {
        0
    } else {
        1 + leading_zero_bytes(bytes.drop_first())
    }
}

/// The base-58 text of `bytes`: a `1` for each leading zero byte, then the
/// base-58 digits of the number that the bytes spell.
pub open spec fn base58_text(bytes: Seq<u8>) -> Seq<char> {
    Seq::new(leading_zero_bytes(bytes), |i: int| '1') + base58_of_number(big_endian_value(bytes))
}

/// The byte strings that a list of byte slices holds.
pub open spec fn slices_view(parts: Seq<&[u8]>) -> Seq<Seq<u8>> {
    parts.map_values(|p: &[u8]| p@)
}

/// Calls `solana_program::keccak::hashv`. Trusted: the 32-byte digest it
/// returns is the named digest of exactly the parts handed to it; nothing is
/// stated of the digest's value beyond that name.
#[verifier::external_body]
#[allow(deprecated)]
pub(crate) fn keccak_hashv(parts: &[&[u8]]) -> (digest: [u8; 32])
    ensures
        digest@ == keccak_hashv_digest(slices_view(parts@)),
{
    solana_program::keccak::hashv(parts).to_bytes()
}

/// Calls `to_string` on `solana_program::pubkey::Pubkey` built from the 32
/// bytes. Trusted: its `Display` writes the standard base-58 text of the
/// bytes (`five8::encode_32`).
#[verifier::external_body]
pub(crate) fn pubkey_to_string(key: &[u8; 32]) -> (text: String)
    ensures
        text@ == base58_text(key@),
{
    solana_program::pubkey::Pubkey::new_from_array(*key).to_string()
}

/// The address and bump seed that `Pubkey::try_find_program_address` derives
/// from the given seeds and program id, or none where no bump seed gives an
/// address off the curve (or the seeds are too many or too long).
pub uninterp spec fn program_address(seeds: Seq<Seq<u8>>, program_id: Seq<u8>) -> Option<(Seq<u8>, u8)>;

/// A derived address and bump seed, as byte strings.
pub open spec fn found_view(found: Option<([u8; 32], u8)>) -> Option<(Seq<u8>, u8)> {
    match found {
        Some(pair) => Some((pair.0@, pair.1)),
        None => None,
    }
}

/// Calls `solana_program::pubkey::Pubkey::try_find_program_address`.
/// Trusted: the result is the named derivation of exactly these seeds and
/// program id; nothing is stated of the address or bump beyond that name.
#[verifier::external_body]
pub(crate) fn try_find_program_address(seeds: &[&[u8]], program_id: &[u8; 32]) -> (found: Option<([u8; 32], u8)>)
    ensures
        found_view(found) == program_address(slices_view(seeds@), program_id@),
{
    match solana_program::pubkey::Pubkey::try_find_program_address(
        seeds,
        &solana_program::pubkey::Pubkey::new_from_array(*program_id),
    ) {
        Some((address, bump)) => Some((address.to_bytes(), bump)),
        None => None,
    }
}

} // verus!
