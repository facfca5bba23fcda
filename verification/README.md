# teacher_nft_minting

A verified core for a Solana NFT sale program, checked with Verus.

- `src/` is the library: the sale accounts (`state`), the admin
  instructions (`admin`), allow-list membership by Merkle proofs
  (`merkle_proof`, `mint`), the minting decisions and the metadata of each
  token (`mint`, `metadata`), the collection step and its address check (`collection`), the error
  numbers (`errors`) and properties of the program as a whole (`laws`).
  `crypto` holds the three trusted calls into the Solana SDK: Keccak-256, the
  base-58 text of an address and the derivation of program addresses.
- `app/` is the Anchor program around it: account validation, conversions,
  and the token, system and metadata program invocations that the library's
  decisions call for.
- `tests/` runs the library on concrete values.
