//! The errors with which the program refuses an instruction.

use vstd::prelude::*;

verus! {

/// Why an instruction was refused. The program reports each variant under the
/// custom error number `6000` plus its position in this list.
#[derive(Debug, Clone, Copy, PartialEq, Eq, Structural)]
pub enum WalletMintErrors {
    Unauthorized,
    InvalidProof,
    MintDisabled,
    NotWhitelistStage,
    NotPublicStage,
    NotWhitelisted,
    SoldOut,
    MaxWhitelistSupplyReached,
    MaxPublicSupplyReached,
    InvalidStage,
    InvalidOwner,
}

/// The first custom error number of the program.
pub const ERROR_CODE_OFFSET: u32 = 6000;

/// The position of an error in the list of variants.
pub open spec fn error_index(e: WalletMintErrors) -> nat {
    match e {
        WalletMintErrors::Unauthorized => 0,
        WalletMintErrors::InvalidProof => 1,
        WalletMintErrors::MintDisabled => 2,
        WalletMintErrors::NotWhitelistStage => 3,
        WalletMintErrors::NotPublicStage => 4,
        WalletMintErrors::NotWhitelisted => 5,
        WalletMintErrors::SoldOut => 6,
        WalletMintErrors::MaxWhitelistSupplyReached => 7,
        WalletMintErrors::MaxPublicSupplyReached => 8,
        WalletMintErrors::InvalidStage => 9,
        WalletMintErrors::InvalidOwner => 10,
    }
}

impl WalletMintErrors {
    /// The error number that the program reports for this error.
    pub fn code(&self) -> (code: u32)
        ensures
            code == ERROR_CODE_OFFSET + error_index(*self),
    {
        let index: u32 = match self {
            WalletMintErrors::Unauthorized => 0,
            WalletMintErrors::InvalidProof => 1,
            WalletMintErrors::MintDisabled => 2,
            WalletMintErrors::NotWhitelistStage => 3,
            WalletMintErrors::NotPublicStage => 4,
            WalletMintErrors::NotWhitelisted => 5,
            WalletMintErrors::SoldOut => 6,
            WalletMintErrors::MaxWhitelistSupplyReached => 7,
            WalletMintErrors::MaxPublicSupplyReached => 8,
            WalletMintErrors::InvalidStage => 9,
            WalletMintErrors::InvalidOwner => 10,
        };
        ERROR_CODE_OFFSET + index
    }

    /// The message that the program logs with this error.
    pub fn message(&self) -> (text: &'static str)
        ensures
            text@ == (match *self {
                WalletMintErrors::Unauthorized => "Unauthorized."@,
                WalletMintErrors::InvalidProof => "Invalid Merkle proof."@,
                WalletMintErrors::MintDisabled => "Mint disabled."@,
                WalletMintErrors::NotWhitelistStage => "Not whitelist stage."@,
                WalletMintErrors::NotPublicStage => "Not public stage."@,
                WalletMintErrors::NotWhitelisted => "Not whitelisted."@,
                WalletMintErrors::SoldOut => "Sold out."@,
                WalletMintErrors::MaxWhitelistSupplyReached => "Max whitelist supply reached."@,
                WalletMintErrors::MaxPublicSupplyReached => "Max public supply reached."@,
                WalletMintErrors::InvalidStage => "Invalid stage."@,
                WalletMintErrors::InvalidOwner => "Invalid owner."@,
            }),
    {
        match self {
            WalletMintErrors::Unauthorized => "Unauthorized.",
            WalletMintErrors::InvalidProof => "Invalid Merkle proof.",
            WalletMintErrors::MintDisabled => "Mint disabled.",
            WalletMintErrors::NotWhitelistStage => "Not whitelist stage.",
            WalletMintErrors::NotPublicStage => "Not public stage.",
            WalletMintErrors::NotWhitelisted => "Not whitelisted.",
            WalletMintErrors::SoldOut => "Sold out.",
            WalletMintErrors::MaxWhitelistSupplyReached => "Max whitelist supply reached.",
            WalletMintErrors::MaxPublicSupplyReached => "Max public supply reached.",
            WalletMintErrors::InvalidStage => "Invalid stage.",
            WalletMintErrors::InvalidOwner => "Invalid owner.",
        }
    }
}

/// Different errors are reported under different numbers.
pub proof fn law_error_codes_distinct(a: WalletMintErrors, b: WalletMintErrors)
    requires
        a != b,
    ensures
        ERROR_CODE_OFFSET + error_index(a) != ERROR_CODE_OFFSET + error_index(b),
{
}

} // verus!
