//! The program's accounts, as plain values.

use vstd::prelude::*;

verus! {

/// The sale configuration and progress, kept in one program-owned account.
/// Account addresses are their 32 bytes.
pub struct MintingAccount {
    pub admin_key: [u8; 32],
    pub freeze_program: bool,
    pub max_supply: u64,
    pub og_max: u64,
    pub wl_max: u64,
    pub public_max: u64,
    pub og_price: u64,
    pub wl_price: u64,
    pub public_price: u64,
    pub og_root: [u8; 32],
    pub wl_root: [u8; 32],
    pub og_list_url: String,
    pub og_root_url: String,
    pub wl_list_url: String,
    pub wl_root_url: String,
    pub cur_num: u64,
    pub cur_stage: u8,
    pub base_uri: String,
    pub base_title: String,
    pub symbol: String,
}

/// How many tokens one payer has minted in each sale.
#[derive(Debug, Clone, Copy, PartialEq, Eq, Structural)]
pub struct UserMintingAccount {
    pub cur_num_public: u64,
    pub cur_num_whitelist: u64,
}

/// The collection that newly minted tokens are attached to.
#[derive(Debug, Clone, Copy)]
pub struct CollectionState {
    pub mint: [u8; 32],
    pub authority: [u8; 32],
}

/// The stages of the sale: `0` minting disabled, `1` allow-list sale, `2`
/// unused, `3` public sale.
pub const STAGE_COUNT: u8 = 4;

impl MintingAccount {
    /// What every instruction keeps: the stage is one of the known stages and
    /// no more tokens have been minted than the supply allows.
    pub open spec fn well_formed(&self) -> bool {
        &&& self.cur_stage < STAGE_COUNT
        &&& self.cur_num <= self.max_supply
    }
}

/// The all-zero address.
pub open spec fn zero_key() -> Seq<u8> {
    Seq::new(32, |i: int| 0u8)
}

impl Default for MintingAccount {
    /// A fresh account: zero numbers, zero addresses, empty texts.
    fn default() -> (account: Self)
        ensures
            account.admin_key@ == zero_key(),
            !account.freeze_program,
            account.max_supply == 0,
            account.og_max == 0,
            account.wl_max == 0,
            account.public_max == 0,
            account.og_price == 0,
            account.wl_price == 0,
            account.public_price == 0,
            account.og_root@ == zero_key(),
            account.wl_root@ == zero_key(),
            account.og_list_url@ == Seq::<char>::empty(),
            account.og_root_url@ == Seq::<char>::empty(),
            account.wl_list_url@ == Seq::<char>::empty(),
            account.wl_root_url@ == Seq::<char>::empty(),
            account.cur_num == 0,
            account.cur_stage == 0,
            account.base_uri@ == Seq::<char>::empty(),
            account.base_title@ == Seq::<char>::empty(),
            account.symbol@ == Seq::<char>::empty(),
    {
        let zero: [u8; 32] = [0u8; 32];
        assert(zero@ =~= zero_key());
        MintingAccount {
            admin_key: zero,
            freeze_program: false,
            max_supply: 0,
            og_max: 0,
            wl_max: 0,
            public_max: 0,
            og_price: 0,
            wl_price: 0,
            public_price: 0,
            og_root: zero,
            wl_root: zero,
            og_list_url: String::new(),
            og_root_url: String::new(),
            wl_list_url: String::new(),
            wl_root_url: String::new(),
            cur_num: 0,
            cur_stage: 0,
            base_uri: String::new(),
            base_title: String::new(),
            symbol: String::new(),
        }
    }
}

impl Default for UserMintingAccount {
    /// A payer who has not minted yet.
    fn default() -> (account: Self)
        ensures
            account.cur_num_public == 0,
            account.cur_num_whitelist == 0,
    {
        UserMintingAccount { cur_num_public: 0, cur_num_whitelist: 0 }
    }
}

impl Default for CollectionState {
    /// The zero addresses.
    fn default() -> (state: Self)
        ensures
            state.mint@ == zero_key(),
            state.authority@ == zero_key(),
    {
        let zero: [u8; 32] = [0u8; 32];
        assert(zero@ =~= zero_key());
        CollectionState { mint: zero, authority: zero }
    }
}

} // verus!
