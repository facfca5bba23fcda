//! The token metadata that a mint creates: names, links and creators.

use vstd::prelude::*;
use vstd::string::StringExecFns;
use crate::state::MintingAccount;

verus! {

/// The character of a decimal digit.
pub open spec fn digit_char(d: nat) -> char {
    (48 + d) as char
}

/// The decimal text of a number, without leading zeros.
pub open spec fn decimal(n: nat) -> Seq<char>
    decreases n,
{
    if n < 10 {
        seq![digit_char(n)]
    } else {
        decimal(n / 10) + seq![digit_char(n % 10)]
    }
}

/// The number that a text of decimal digits spells.
pub open spec fn digits_value(text: Seq<char>) -> int
    decreases text.len(),
{
    if text.len() == 0 {
        0
    } else {
        digits_value(text.drop_last()) * 10 + (text.last() as int - 48)
    }
}

/// The decimal text of a number is made of the digits `0` to `9` only,
/// spells that number, and starts with `0` only when the number is zero.
pub proof fn law_decimal_spells_number(n: nat)
    ensures
        decimal(n).len() >= 1,
        forall|i: int| 0 <= i < decimal(n).len() ==> '0' <= #[trigger] decimal(n)[i] <= '9',
        digits_value(decimal(n)) == n,
        decimal(n)[0] == '0' <==> n == 0,
    decreases n,
{
    if n < 10 {
        assert(decimal(n) =~= seq![digit_char(n)]);
        assert(decimal(n).drop_last() =~= Seq::<char>::empty());
        assert(digit_char(n) as int == 48 + n);
        assert(digits_value(decimal(n)) == digits_value(decimal(n).drop_last()) * 10
            + (decimal(n).last() as int - 48));
    } else {
        law_decimal_spells_number(n / 10);
        let prefix = decimal(n / 10);
        assert(decimal(n) == prefix + seq![digit_char(n % 10)]);
        assert((prefix + seq![digit_char(n % 10)]).drop_last() =~= prefix);
        assert(decimal(n)[0] == prefix[0]);
        assert(n / 10 > 0);
        assert(digit_char(n % 10) as int == 48 + n % 10);
        assert(decimal(n).last() == digit_char(n % 10));
        assert(digits_value(decimal(n)) == digits_value(prefix) * 10 + (n % 10));
        assert(n == (n / 10) * 10 + n % 10);
    }
}

/// The text of one decimal digit.
fn digit_str(d: u64) -> (text: &'static str)
    requires
        d < 10,
    ensures
        text@ == seq![digit_char(d as nat)],
{
    proof {
        reveal_strlit("0");
        reveal_strlit("1");
        reveal_strlit("2");
        reveal_strlit("3");
        reveal_strlit("4");
        reveal_strlit("5");
        reveal_strlit("6");
        reveal_strlit("7");
        reveal_strlit("8");
        reveal_strlit("9");
    }
    let text = match d {
        0 => "0",
        1 => "1",
        2 => "2",
        3 => "3",
        4 => "4",
        5 => "5",
        6 => "6",
        7 => "7",
        8 => "8",
        _ => "9",
    };
    assert(text@ =~= seq![digit_char(d as nat)]);
    text
}

/// Appends the decimal text of `n` to `out`.
pub fn push_decimal(out: &mut String, n: u64)
    ensures
        final(out)@ == old(out)@ + decimal(n as nat),
    decreases n,
{
    if n >= 10 {
        push_decimal(out, n / 10);
    }
    out.append(digit_str(n % 10));
    assert(out@ =~= old(out)@ + decimal(n as nat));
}

/// One creator listed in a token's metadata, with its share of royalties in
/// percent.
#[derive(Debug, Clone, Copy)]
pub struct CreatorEntry {
    pub address: [u8; 32],
    pub verified: bool,
    pub share: u8,
}

/// The metadata and master edition that a mint asks the token metadata
/// program to create.
pub struct MetadataPlan {
    pub name: String,
    pub symbol: String,
    pub uri: String,
    pub creators: Vec<CreatorEntry>,
    pub update_authority: [u8; 32],
    pub seller_fee_basis_points: u16,
    pub update_authority_is_signer: bool,
    pub is_mutable: bool,
    pub edition_max_supply: u64,
}

/// The royalty of a token of the sale, in hundredths of a percent.
pub const TOKEN_SELLER_FEE_BASIS_POINTS: u16 = 1000;

/// The name of the token numbered `number`: the title, ` #` and the number.
pub open spec fn token_name(title: Seq<char>, number: nat) -> Seq<char> {
    title + " #"@ + decimal(number)
}

/// The link of the token numbered `number`: the base link, the number and
/// `.json`.
pub open spec fn token_uri(base_uri: Seq<char>, number: nat) -> Seq<char> {
    base_uri + decimal(number) + ".json"@
}

/// The name of the token numbered `number`.
pub fn nft_name(base_title: &String, number: u64) -> (name: String)
    ensures
        name@ == token_name(base_title@, number as nat),
{
    let mut name = base_title.clone();
    name.append(" #");
    push_decimal(&mut name, number);
    name
}

/// The link to the off-chain description of the token numbered `number`.
pub fn nft_uri(base_uri: &String, number: u64) -> (uri: String)
    ensures
        uri@ == token_uri(base_uri@, number as nat),
{
    let mut uri = base_uri.clone();
    push_decimal(&mut uri, number);
    uri.append(".json");
    uri
}

/// `plan` is the metadata of the next token of the sale in `account`: named
/// and linked by the number of tokens minted so far, with the maker as update
/// authority and verified sole royalty holder, and the minting wallet listed
/// unverified with no share.
pub open spec fn is_token_metadata(
    plan: MetadataPlan,
    account: MintingAccount,
    mint_authority: [u8; 32],
    maker: [u8; 32],
) -> bool {
    &&& plan.name@ == token_name(account.base_title@, account.cur_num as nat)
    &&& plan.symbol@ == account.symbol@
    &&& plan.uri@ == token_uri(account.base_uri@, account.cur_num as nat)
    &&& plan.creators@ == seq![
        CreatorEntry { address: maker, verified: true, share: 100 },
        CreatorEntry { address: mint_authority, verified: false, share: 0 },
    ]
    &&& plan.update_authority == maker
    &&& plan.seller_fee_basis_points == TOKEN_SELLER_FEE_BASIS_POINTS
    &&& plan.update_authority_is_signer
    &&& !plan.is_mutable
    &&& plan.edition_max_supply == 0
}

/// The metadata of the next token of the sale in `account`.
pub fn token_metadata(account: &MintingAccount, mint_authority: &[u8; 32], maker: &[u8; 32]) -> (plan: MetadataPlan)
    ensures
        is_token_metadata(plan, *account, *mint_authority, *maker),
{
    let mut creators: Vec<CreatorEntry> = Vec::new();
    creators.push(CreatorEntry { address: *maker, verified: true, share: 100 });
    creators.push(CreatorEntry { address: *mint_authority, verified: false, share: 0 });
    let plan = MetadataPlan {
        name: nft_name(&account.base_title, account.cur_num),
        symbol: account.symbol.clone(),
        uri: nft_uri(&account.base_uri, account.cur_num),
        creators,
        update_authority: *maker,
        seller_fee_basis_points: TOKEN_SELLER_FEE_BASIS_POINTS,
        update_authority_is_signer: true,
        is_mutable: false,
        edition_max_supply: 0,
    };
    assert(plan.creators@ =~= seq![
        CreatorEntry { address: *maker, verified: true, share: 100 },
        CreatorEntry { address: *mint_authority, verified: false, share: 0 },
    ]);
    plan
}

/// `plan` is the metadata of the collection token: fixed name and symbol, no
/// link, no royalty, the payer as update authority and the admin as
/// unverified sole creator.
pub open spec fn is_collection_metadata(plan: MetadataPlan, admin: [u8; 32], payer: [u8; 32]) -> bool {
    &&& plan.name@ == "Degen Sweepers"@
    &&& plan.symbol@ == "DS"@
    &&& plan.uri@ == Seq::<char>::empty()
    &&& plan.creators@ == seq![CreatorEntry { address: admin, verified: false, share: 100 }]
    &&& plan.update_authority == payer
    &&& plan.seller_fee_basis_points == 0
    &&& plan.update_authority_is_signer
    &&& !plan.is_mutable
    &&& plan.edition_max_supply == 0
}

/// The metadata of the collection token that the admin mints and `payer`
/// pays for.
pub fn collection_metadata(admin: &[u8; 32], payer: &[u8; 32]) -> (plan: MetadataPlan)
    ensures
        is_collection_metadata(plan, *admin, *payer),
{
    let mut creators: Vec<CreatorEntry> = Vec::new();
    creators.push(CreatorEntry { address: *admin, verified: false, share: 100 });
    let plan = MetadataPlan {
        name: String::from_str("Degen Sweepers"),
        symbol: String::from_str("DS"),
        uri: String::new(),
        creators,
        update_authority: *payer,
        seller_fee_basis_points: 0,
        update_authority_is_signer: true,
        is_mutable: false,
        edition_max_supply: 0,
    };
    assert(plan.creators@ =~= seq![CreatorEntry { address: *admin, verified: false, share: 100 }]);
    plan
}

} // verus!
