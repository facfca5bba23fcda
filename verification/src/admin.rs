//! The instructions that set up and reconfigure the sale. All but
//! `initialize` are refused unless signed by the admin.

use vstd::prelude::*;
use crate::errors::WalletMintErrors;
use crate::merkle_proof::bytes32_eq;
use crate::state::{MintingAccount, STAGE_COUNT};

verus! {

/// The admin check: `Ok` exactly when `signer` is the account's admin.
pub fn is_admin(minting_account: &MintingAccount, signer: &[u8; 32]) -> (result: Result<(), WalletMintErrors>)
    ensures
        result == (if minting_account.admin_key@ == signer@ {
            Ok::<(), WalletMintErrors>(())
        } else {
            Err::<(), WalletMintErrors>(WalletMintErrors::Unauthorized)
        }),
{
    if bytes32_eq(&minting_account.admin_key, signer) {
        Ok(())
    } else {
        Err(WalletMintErrors::Unauthorized)
    }
}

/// An admin instruction signed by `admin` that would turn `before` into
/// `updated` took effect: with the admin's signature it succeeded and gave
/// `updated`; without it, it was refused as unauthorized and changed nothing.
pub open spec fn admin_step(
    before: MintingAccount,
    after: MintingAccount,
    admin: [u8; 32],
    result: Result<(), WalletMintErrors>,
    updated: MintingAccount,
) -> bool {
    if before.admin_key@ == admin@ {
        result == Ok::<(), WalletMintErrors>(()) && after == updated
    } else {
        result == Err::<(), WalletMintErrors>(WalletMintErrors::Unauthorized) && after == before
    }
}

/// Sets up a fresh sale: `initializer` becomes the admin, the caps, prices,
/// texts are stored, nothing has been minted and minting is disabled. The
/// other fields keep their values.
pub fn initialize(
    minting_account: &mut MintingAccount,
    initializer: &[u8; 32],
    max_supply: u64,
    og_max: u64,
    wl_max: u64,
    public_max: u64,
    og_price: u64,
    wl_price: u64,
    public_price: u64,
    title: String,
    symbol: String,
    base_uri: String,
) -> (result: Result<(), WalletMintErrors>)
    ensures
        result == Ok::<(), WalletMintErrors>(()),
        *final(minting_account) == (MintingAccount {
            admin_key: *initializer,
            max_supply,
            og_max,
            wl_max,
            public_max,
            og_price,
            wl_price,
            public_price,
            cur_num: 0,
            cur_stage: 0,
            base_uri,
            base_title: title,
            symbol,
            ..*old(minting_account)
        }),
        final(minting_account).well_formed(),
{
    minting_account.admin_key = *initializer;
    minting_account.max_supply = max_supply;
    minting_account.og_max = og_max;
    minting_account.wl_max = wl_max;
    minting_account.public_max = public_max;
    minting_account.og_price = og_price;
    minting_account.wl_price = wl_price;
    minting_account.public_price = public_price;
    minting_account.cur_num = 0;
    minting_account.cur_stage = 0;
    minting_account.base_uri = base_uri;
    minting_account.base_title = title;
    minting_account.symbol = symbol;
    Ok(())
}

/// Hands the admin role to `new_admin`.
pub fn update_admin(
    minting_account: &mut MintingAccount,
    admin: &[u8; 32],
    _nonce_minting: u8,
    new_admin: [u8; 32],
) -> (result: Result<(), WalletMintErrors>)
    ensures
        admin_step(*old(minting_account), *final(minting_account), *admin, result,
            (MintingAccount { admin_key: new_admin, ..*old(minting_account) })),
        old(minting_account).well_formed() ==> final(minting_account).well_formed(),
{
    match is_admin(minting_account, admin) {
        Err(e) => Err(e),
        Ok(()) => {
            minting_account.admin_key = new_admin;
            Ok(())
        },
    }
}

/// Replaces the first allow list: its link, the link to its tree and its
/// Merkle root.
pub fn update_og_root(
    minting_account: &mut MintingAccount,
    admin: &[u8; 32],
    _nonce_minting: u8,
    og_list: String,
    og_root_url: String,
    og_root_hash: [u8; 32],
) -> (result: Result<(), WalletMintErrors>)
    ensures
        admin_step(*old(minting_account), *final(minting_account), *admin, result,
            (MintingAccount {
                og_list_url: og_list,
                og_root_url,
                og_root: og_root_hash,
                ..*old(minting_account)
            })),
        old(minting_account).well_formed() ==> final(minting_account).well_formed(),
{
    match is_admin(minting_account, admin) {
        Err(e) => Err(e),
        Ok(()) => {
            minting_account.og_list_url = og_list;
            minting_account.og_root_url = og_root_url;
            minting_account.og_root = og_root_hash;
            Ok(())
        },
    }
}

/// Replaces the second allow list: its link, the link to its tree and its
/// Merkle root.
pub fn update_wl_root(
    minting_account: &mut MintingAccount,
    admin: &[u8; 32],
    _nonce_minting: u8,
    wl_list: String,
    wl_root_url: String,
    wl_root_hash: [u8; 32],
) -> (result: Result<(), WalletMintErrors>)
    ensures
        admin_step(*old(minting_account), *final(minting_account), *admin, result,
            (MintingAccount {
                wl_list_url: wl_list,
                wl_root_url,
                wl_root: wl_root_hash,
                ..*old(minting_account)
            })),
        old(minting_account).well_formed() ==> final(minting_account).well_formed(),
{
    match is_admin(minting_account, admin) {
        Err(e) => Err(e),
        Ok(()) => {
            minting_account.wl_list_url = wl_list;
            minting_account.wl_root_url = wl_root_url;
            minting_account.wl_root = wl_root_hash;
            Ok(())
        },
    }
}

/// `new` replaces `current` unless it is zero.
pub open spec fn nonzero_or(new: u64, current: u64) -> u64 {
    if new > 0 {
        new
    } else {
        current
    }
}

/// Sets the three prices; a zero leaves that price as it was.
pub fn update_price(
    minting_account: &mut MintingAccount,
    admin: &[u8; 32],
    _nonce_minting: u8,
    new_og_price: u64,
    new_wl_price: u64,
    new_public_price: u64,
) -> (result: Result<(), WalletMintErrors>)
    ensures
        admin_step(*old(minting_account), *final(minting_account), *admin, result,
            (MintingAccount {
                og_price: nonzero_or(new_og_price, old(minting_account).og_price),
                wl_price: nonzero_or(new_wl_price, old(minting_account).wl_price),
                public_price: nonzero_or(new_public_price, old(minting_account).public_price),
                ..*old(minting_account)
            })),
        old(minting_account).admin_key@ == admin@ ==> final(minting_account).og_price
            == (if new_og_price != 0 { new_og_price } else { old(minting_account).og_price }),
        old(minting_account).admin_key@ == admin@ ==> final(minting_account).wl_price
            == (if new_wl_price != 0 { new_wl_price } else { old(minting_account).wl_price }),
        old(minting_account).admin_key@ == admin@ ==> final(minting_account).public_price
            == (if new_public_price != 0 { new_public_price } else { old(minting_account).public_price }),
        old(minting_account).well_formed() ==> final(minting_account).well_formed(),
{
    match is_admin(minting_account, admin) {
        Err(e) => Err(e),
        Ok(()) => {
            if new_og_price > 0 {
                minting_account.og_price = new_og_price;
            }
            if new_wl_price > 0 {
                minting_account.wl_price = new_wl_price;
            }
            if new_public_price > 0 {
                minting_account.public_price = new_public_price;
            }
            Ok(())
        },
    }
}

/// Sets the three per-wallet caps; a zero leaves that cap as it was.
pub fn update_amount(
    minting_account: &mut MintingAccount,
    admin: &[u8; 32],
    _nonce_minting: u8,
    new_og_amout: u64,
    new_wl_amout: u64,
    new_public_amout: u64,
) -> (result: Result<(), WalletMintErrors>)
    ensures
        admin_step(*old(minting_account), *final(minting_account), *admin, result,
            (MintingAccount {
                og_max: nonzero_or(new_og_amout, old(minting_account).og_max),
                wl_max: nonzero_or(new_wl_amout, old(minting_account).wl_max),
                public_max: nonzero_or(new_public_amout, old(minting_account).public_max),
                ..*old(minting_account)
            })),
        old(minting_account).admin_key@ == admin@ ==> final(minting_account).og_max
            == (if new_og_amout != 0 { new_og_amout } else { old(minting_account).og_max }),
        old(minting_account).admin_key@ == admin@ ==> final(minting_account).wl_max
            == (if new_wl_amout != 0 { new_wl_amout } else { old(minting_account).wl_max }),
        old(minting_account).admin_key@ == admin@ ==> final(minting_account).public_max
            == (if new_public_amout != 0 { new_public_amout } else { old(minting_account).public_max }),
        old(minting_account).well_formed() ==> final(minting_account).well_formed(),
{
    match is_admin(minting_account, admin) {
        Err(e) => Err(e),
        Ok(()) => {
            if new_og_amout > 0 {
                minting_account.og_max = new_og_amout;
            }
            if new_wl_amout > 0 {
                minting_account.wl_max = new_wl_amout;
            }
            if new_public_amout > 0 {
                minting_account.public_max = new_public_amout;
            }
            Ok(())
        },
    }
}

/// Moves the sale to `new_stage` when it is a known stage; an unknown stage
/// is ignored and the instruction still succeeds.
pub fn set_stage(
    minting_account: &mut MintingAccount,
    admin: &[u8; 32],
    _nonce_minting: u8,
    new_stage: u8,
) -> (result: Result<(), WalletMintErrors>)
    ensures
        admin_step(*old(minting_account), *final(minting_account), *admin, result,
            (MintingAccount {
                cur_stage: if new_stage < STAGE_COUNT { new_stage } else { old(minting_account).cur_stage },
                ..*old(minting_account)
            })),
        old(minting_account).well_formed() ==> final(minting_account).well_formed(),
{
    match is_admin(minting_account, admin) {
        Err(e) => Err(e),
        Ok(()) => {
            if new_stage < STAGE_COUNT {
                minting_account.cur_stage = new_stage;
            }
            Ok(())
        },
    }
}

/// Replaces the base link of the tokens' descriptions.
pub fn set_uri(
    minting_account: &mut MintingAccount,
    admin: &[u8; 32],
    _nonce_minting: u8,
    new_uri: String,
) -> (result: Result<(), WalletMintErrors>)
    ensures
        admin_step(*old(minting_account), *final(minting_account), *admin, result,
            (MintingAccount { base_uri: new_uri, ..*old(minting_account) })),
        old(minting_account).well_formed() ==> final(minting_account).well_formed(),
{
    match is_admin(minting_account, admin) {
        Err(e) => Err(e),
        Ok(()) => {
            minting_account.base_uri = new_uri;
            Ok(())
        },
    }
}

/// Replaces the title that the tokens' names start with.
pub fn set_title(
    minting_account: &mut MintingAccount,
    admin: &[u8; 32],
    _nonce_minting: u8,
    new_title: String,
) -> (result: Result<(), WalletMintErrors>)
    ensures
        admin_step(*old(minting_account), *final(minting_account), *admin, result,
            (MintingAccount { base_title: new_title, ..*old(minting_account) })),
        old(minting_account).well_formed() ==> final(minting_account).well_formed(),
{
    match is_admin(minting_account, admin) {
        Err(e) => Err(e),
        Ok(()) => {
            minting_account.base_title = new_title;
            Ok(())
        },
    }
}

/// Replaces the tokens' symbol.
pub fn set_symbol(
    minting_account: &mut MintingAccount,
    admin: &[u8; 32],
    _nonce_minting: u8,
    new_symbol: String,
) -> (result: Result<(), WalletMintErrors>)
    ensures
        admin_step(*old(minting_account), *final(minting_account), *admin, result,
            (MintingAccount { symbol: new_symbol, ..*old(minting_account) })),
        old(minting_account).well_formed() ==> final(minting_account).well_formed(),
{
    match is_admin(minting_account, admin) {
        Err(e) => Err(e),
        Ok(()) => {
            minting_account.symbol = new_symbol;
            Ok(())
        },
    }
}

} // verus!
