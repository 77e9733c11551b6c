//! Decoding of raw on-chain account bytes into reserve quantities.

use crate::error::AppError;
use vstd::prelude::*;
use vstd::string::StringExecFns;

verus! {

/// The bytes that an account of a bonding curve must at least have: eight of
/// a tag, then two reserves of eight bytes each.
pub const BONDING_CURVE_MIN_LEN: usize = 24;

/// The reserves that the pricing service reports for a bonding curve.
#[derive(Debug, Clone, Copy, PartialEq, Eq, Structural)]
pub struct ReportedReserves {
    pub virtual_token_reserves: i64,
    pub virtual_sol_reserves: i64,
}

/// The reserves read from the chain, and whether they agree with what the
/// pricing service reports. The reserves from the chain are the ones to use
/// either way.
#[derive(Debug, Clone, Copy, PartialEq, Eq, Structural)]
pub struct BondingCurveInfo {
    pub virtual_token_reserves: i64,
    pub virtual_sol_reserves: i64,
    pub within_threshold: bool,
}

/// The number that `bytes` spell in little-endian order: the first byte is
/// the least significant one.
pub open spec fn le_value(bytes: Seq<u8>) -> nat
    decreases bytes.len(),
{
    if bytes.len() == 0 {
        0
    } else {
        bytes[0] as nat + 256 * le_value(bytes.skip(1))
    }
}

/// The signed 64-bit integer whose two's-complement representation is the
/// eight bytes `bytes`, least significant byte first.
pub open spec fn le_i64(bytes: Seq<u8>) -> int
    recommends
        bytes.len() == 8,
{
    if le_value(bytes) < 0x8000_0000_0000_0000 {
        le_value(bytes) as int
    } else {
        le_value(bytes) - 0x1_0000_0000_0000_0000
    }
}

/// An upper bound on what a run of bytes can spell.
pub proof fn lemma_le_value_bound(bytes: Seq<u8>)
    requires
        bytes.len() <= 8,
    ensures
        le_value(bytes) < pow256(bytes.len()),
    decreases bytes.len(),
{
    if bytes.len() > 0 {
        lemma_le_value_bound(bytes.skip(1));
        assert(pow256(bytes.len()) == 256 * pow256((bytes.len() - 1) as nat));
    }
}

/// 256 to the power `n`.
pub open spec fn pow256(n: nat) -> nat
    decreases n,
{
    if n == 0 {
        1
    } else {
        256 * pow256((n - 1) as nat)
    }
}

/// Reads the eight bytes of `data` that start at `offset` as a little-endian
/// two's-complement integer.
pub fn read_i64_le(data: &[u8], offset: usize) -> (value: i64)
    requires
        offset + 8 <= data.len(),
    ensures
        value == le_i64(data@.subrange(offset as int, offset + 8)),
{
    let ghost window = data@.subrange(offset as int, offset + 8);
    let mut acc: u64 = 0;
    let mut taken: usize = 0;
    while taken < 8
        invariant
            taken <= 8,
            offset + 8 <= data.len(),
            window == data@.subrange(offset as int, offset + 8),
            acc == le_value(window.skip(8 - taken)),
            acc < pow256(taken as nat),
        decreases 8 - taken,
    {
        let byte: u8 = data[offset + (7 - taken)];
        proof {
            let rest = window.skip(8 - taken);
            let next = window.skip(7 - taken);
            assert(next.skip(1) =~= rest);
            assert(next[0] == byte);
            assert(next.len() == taken + 1);
            reveal_with_fuel(pow256, 9);
            lemma_le_value_bound(next);
        }
        acc = acc * 256 + byte as u64;
        taken = taken + 1;
    }
    assert(window.skip(0) =~= window);
    if acc < 0x8000_0000_0000_0000 {
        acc as i64
    } else {
        let low: i64 = (acc - 0x8000_0000_0000_0000) as i64;
        low + i64::MIN
    }
}

/// The reserves that the bytes of a bonding-curve account hold: the token
/// reserve in bytes 8 to 15, the SOL reserve in bytes 16 to 23.
pub open spec fn curve_reserves(data: Seq<u8>) -> (int, int)
    recommends
        data.len() >= 24,
{
    (le_i64(data.subrange(8, 16)), le_i64(data.subrange(16, 24)))
}

/// Decodes the two reserves of a bonding-curve account. Fewer than 24 bytes
/// are refused.
pub fn decode_bonding_curve_data(data: &[u8]) -> (decoded: Result<(i64, i64), AppError>)
    ensures
        data.len() >= 24 ==> (decoded matches Ok(pair) && (pair.0 as int, pair.1 as int)
            == curve_reserves(data@)),
        data.len() < 24 ==> (decoded matches Err(AppError::Generic(why)) && why@
            == "Insufficient data to decode bonding curve info"@),
{
    if data.len() < BONDING_CURVE_MIN_LEN {
        return Err(
            AppError::Generic(String::from_str("Insufficient data to decode bonding curve info")),
        );
    }
    let virtual_token_reserves = read_i64_le(data, 8);
    let virtual_sol_reserves = read_i64_le(data, 16);
    Ok((virtual_token_reserves, virtual_sol_reserves))
}

/// Whether a reserve read from the chain lies no more than `margin_bps`
/// hundredths of a percent below the reported one.
pub open spec fn within_margin(on_chain: int, reported: int, margin_bps: int) -> bool {
    on_chain * 10_000 >= reported * (10_000 - margin_bps)
}

/// Whether a reserve read from the chain lies no more than `margin_bps`
/// hundredths of a percent below the reported one.
pub fn reserve_within_margin(on_chain: i64, reported: i64, margin_bps: u16) -> (answer: bool)
    ensures
        answer == within_margin(on_chain as int, reported as int, margin_bps as int),
{
    let factor: i128 = 10_000 - margin_bps as i128;
    assert(-0x8000_0000_0000_0000 * 0x1_0000 <= reported * factor <= 0x8000_0000_0000_0000
        * 0x1_0000) by (nonlinear_arith)
        requires
            -0x8000_0000_0000_0000 <= reported < 0x8000_0000_0000_0000,
            -0x1_0000 < factor <= 10_000,
    ;
    let left: i128 = on_chain as i128 * 10_000;
    let right: i128 = reported as i128 * factor;
    left >= right
}

/// What [`get_bonding_curve_info`] returns for the bytes of an account.
pub open spec fn bonding_curve_reading(
    data: Seq<u8>,
    reported: ReportedReserves,
    margin_bps: int,
) -> BondingCurveInfo {
    BondingCurveInfo {
        virtual_token_reserves: curve_reserves(data).0 as i64,
        virtual_sol_reserves: curve_reserves(data).1 as i64,
        within_threshold: within_margin(
            curve_reserves(data).1,
            reported.virtual_sol_reserves as int,
            margin_bps,
        ) && within_margin(
            curve_reserves(data).0,
            reported.virtual_token_reserves as int,
            margin_bps,
        ),
    }
}

/// Reads the reserves of a bonding curve from the bytes of its account and
/// holds them against the reported ones. An empty account and one too short
/// to decode are refused; a disagreement with the reported reserves is not.
pub fn get_bonding_curve_info(
    account_data: &[u8],
    reported: &ReportedReserves,
    margin_bps: u16,
) -> (info: Result<BondingCurveInfo, AppError>)
    ensures
        account_data.len() == 0 ==> (info matches Err(AppError::BadRequest(why)) && why@
            == "Account not found or no data available"@),
        0 < account_data.len() < 24 ==> (info matches Err(AppError::Generic(why)) && why@
            == "Insufficient data to decode bonding curve info"@),
        account_data.len() >= 24 ==> (info matches Ok(read) && read == bonding_curve_reading(
            account_data@,
            *reported,
            margin_bps as int,
        )),
{
    if account_data.len() == 0 {
        return Err(AppError::BadRequest(String::from_str("Account not found or no data available")));
    }
    match decode_bonding_curve_data(account_data) {
        Err(e) => Err(e),
        Ok((virtual_token_reserves, virtual_sol_reserves)) => {
            let within_threshold = reserve_within_margin(
                virtual_sol_reserves,
                reported.virtual_sol_reserves,
                margin_bps,
            ) && reserve_within_margin(
                virtual_token_reserves,
                reported.virtual_token_reserves,
                margin_bps,
            );
            Ok(BondingCurveInfo { virtual_token_reserves, virtual_sol_reserves, within_threshold })
        },
    }
}

/// Why a text is no address.
#[derive(Debug, Clone, Copy, PartialEq, Eq, Structural)]
pub enum AddressFault {
    /// The text is too long, or spells more or fewer than 32 bytes.
    WrongSize,
    /// The text holds a character outside the alphabet of base 58.
    Invalid,
}

impl AddressFault {
    /// The words for the fault.
    pub open spec fn text(self) -> Seq<char> {
        match self {
            AddressFault::WrongSize => "String is the wrong size"@,
            AddressFault::Invalid => "Invalid Base58 string"@,
        }
    }
}

/// The 32 bytes that `text` spells as an address in base 58, or why it
/// spells none.
pub uninterp spec fn address_reading(text: Seq<char>) -> Result<Seq<u8>, AddressFault>;

/// Reads an address in base 58 with `Pubkey::from_str` of `solana_sdk`, and
/// tells its two errors apart.
#[verifier::external_body]
pub(crate) fn parse_address(text: &str) -> (parsed: Result<[u8; 32], AddressFault>)
    ensures
        parsed matches Ok(bytes) ==> (address_reading(text@) matches Ok(read) && read == bytes@),
        parsed matches Err(fault) ==> (address_reading(text@) matches Err(why) && why == fault),
{
    match <solana_sdk::pubkey::Pubkey as std::str::FromStr>::from_str(text) {
        Ok(key) => Ok(key.to_bytes()),
        Err(solana_sdk::pubkey::ParsePubkeyError::WrongSize) => Err(AddressFault::WrongSize),
        Err(solana_sdk::pubkey::ParsePubkeyError::Invalid) => Err(AddressFault::Invalid),
    }
}

/// The address of the account that holds a bonding curve, from its text.
pub fn bonding_curve_address(bonding_curve: &str) -> (address: Result<[u8; 32], AppError>)
    ensures
        address_reading(bonding_curve@) matches Ok(bytes) ==> (address matches Ok(found) && found@
            == bytes),
        address_reading(bonding_curve@) is Err ==> (address matches Err(AppError::Generic(why))
            && why@ == "Failed to parse bonding curve pubkey"@),
{
    match parse_address(bonding_curve) {
        Ok(bytes) => Ok(bytes),
        Err(_) => Err(AppError::Generic(String::from_str("Failed to parse bonding curve pubkey"))),
    }
}

/// The supply of a token as its mint account holds it: the count of the
/// smallest units, and the number of decimal places of one token.
#[derive(Debug, Clone, Copy, PartialEq, Eq, Structural)]
pub struct MintSupply {
    pub supply: u64,
    pub decimals: u8,
}

/// The bytes that a mint account has.
pub const MINT_LEN: usize = 82;

/// Whether the four bytes of `data` at `at` mark an optional field as absent
/// or as present.
pub open spec fn is_option_tag(data: Seq<u8>, at: int) -> bool {
    (data[at] == 0 || data[at] == 1) && data[at + 1] == 0 && data[at + 2] == 0 && data[at + 3] == 0
}

/// What the bytes of a mint account say of the supply. The account has 82
/// bytes: an optional authority of 36, the supply in bytes 36 to 43, least
/// significant byte first, the decimals in byte 44, a byte that is 1 once the
/// mint is initialised, and another optional authority of 36. Bytes of
/// another length, with a malformed marker, or of a mint not initialised say
/// nothing.
pub open spec fn mint_reading(data: Seq<u8>) -> Option<MintSupply> {
    if data.len() == 82 && is_option_tag(data, 0) && data[45] == 1 && is_option_tag(data, 46) {
        Some(MintSupply { supply: le_value(data.subrange(36, 44)) as u64, decimals: data[44] })
    } else {
        None
    }
}

/// Reads a mint account with `Mint::unpack` of `spl_token`, which refuses
/// what [`mint_reading`] says nothing of.
#[verifier::external_body]
pub(crate) fn unpack_mint(data: &[u8]) -> (mint: Option<MintSupply>)
    ensures
        mint == mint_reading(data@),
{
    <spl_token::state::Mint as spl_token::solana_program::program_pack::Pack>::unpack(data).ok().map(
        |mint| MintSupply { supply: mint.supply, decimals: mint.decimals },
    )
}

/// The supply of a token from what was fetched of its mint account: unknown
/// where nothing was fetched, and where what was fetched is no initialised
/// mint.
pub fn token_supply(mint_account: Option<&[u8]>) -> (supply: Option<MintSupply>)
    ensures
        mint_account is None ==> supply is None,
        mint_account matches Some(data) ==> supply == mint_reading(data@),
{
    match mint_account {
        None => None,
        Some(data) => unpack_mint(data),
    }
}

/// The address of a token's mint, from its text.
pub fn token_address(text: &str) -> (address: Result<[u8; 32], AppError>)
    ensures
        address_reading(text@) matches Ok(bytes) ==> (address matches Ok(found) && found@ == bytes),
        address_reading(text@) matches Err(fault) ==> (address matches Err(
            AppError::InternalError(why),
        ) && why@ == "Invalid token address: "@ + fault.text()),
{
    match parse_address(text) {
        Ok(bytes) => Ok(bytes),
        Err(AddressFault::WrongSize) => Err(
            AppError::InternalError(
                String::from_str("Invalid token address: ").concat("String is the wrong size"),
            ),
        ),
        Err(AddressFault::Invalid) => Err(
            AppError::InternalError(
                String::from_str("Invalid token address: ").concat("Invalid Base58 string"),
            ),
        ),
    }
}

} // verus!
