//! Token accounts as the governance core reads them, and the capability-via-possession
//! check.

use vstd::prelude::*;
use crate::address::{read_address, Address};
use crate::error::GovernanceError;

verus! {

/// An account handed to an operation: its address, the program that owns it, whether it
/// signed the transaction, and its data.
#[derive(Debug)]
pub struct AccountData {
    pub key: Address,
    pub owner: Address,
    pub is_signer: bool,
    pub data: Vec<u8>,
}

/// The state of a token account.
#[derive(Clone, Copy, Debug, PartialEq, Eq, Structural)]
pub enum TokenAccountState {
    Uninitialized,
    Initialized,
    Frozen,
}

/// What the governance core reads of a token account's data.
#[derive(Clone, Copy, Debug)]
pub struct TokenAccountData {
    pub mint: Address,
    pub owner: Address,
    pub amount: u64,
    pub state: TokenAccountState,
}

/// A token account taking part in an escrow move: its address, mint, owner and balance.
#[derive(Clone, Copy, Debug)]
pub struct TokenAccount {
    pub address: Address,
    pub mint: Address,
    pub owner: Address,
    pub amount: u64,
}

/// The unsigned integer that eight bytes hold, least significant byte first.
pub open spec fn le_u64(b: Seq<u8>) -> int {
    b[0] + 256 * (b[1] + 256 * (b[2] + 256 * (b[3] + 256 * (b[4] + 256 * (b[5] + 256 * (b[6]
        + 256 * b[7]))))))
}

/// The bytes of the token program's id.
pub open spec fn token_program_bytes() -> Seq<u8> {
    seq![
        6u8, 221, 246, 225, 215, 101, 161, 147, 217, 203, 225, 70, 206, 235, 121, 172, 28, 180,
        133, 237, 95, 91, 55, 145, 58, 140, 245, 133, 126, 255, 0, 169,
    ]
}

/// Relies on spl_token's `id()`: the program id declared from the base-58 text
/// "TokenkegQfeZyiNwAJbNbGKPFXCWuBvf9Ss623VQ5DA".
#[verifier::external_body]
fn token_program_id() -> (r: Address)
    ensures
        r@ == token_program_bytes(),
{
    Address { bytes: spl_token::id().to_bytes() }
}

/// A four-byte option tag of the token account layout: none or some.
pub open spec fn option_tag_ok(d: Seq<u8>, at: int) -> bool {
    (d[at] == 0 || d[at] == 1) && d[at + 1] == 0 && d[at + 2] == 0 && d[at + 3] == 0
}

/// The token account layout: 165 bytes; mint, owner, amount, optional delegate, state,
/// optional native amount, delegated amount, optional close authority.
pub open spec fn token_layout_ok(d: Seq<u8>) -> bool {
    &&& d.len() == 165
    &&& option_tag_ok(d, 72)
    &&& d[108] <= 2
    &&& option_tag_ok(d, 109)
    &&& option_tag_ok(d, 129)
}

pub open spec fn state_byte(s: TokenAccountState) -> u8 {
    match s {
        TokenAccountState::Uninitialized => 0,
        TokenAccountState::Initialized => 1,
        TokenAccountState::Frozen => 2,
    }
}

/// Relies on spl_token's `Account::unpack_unchecked` (the `Pack` impl of its token
/// account): it refuses data that is not 165 bytes, an option tag other than 0 or 1, and
/// a state byte above 2; otherwise mint, owner and amount are bytes 0..32, 32..64 and the
/// little-endian 64..72, and the state is byte 108.
#[verifier::external_body]
fn unpack_token_account(data: &[u8]) -> (r: Option<TokenAccountData>)
    ensures
        r is Some <==> token_layout_ok(data@),
        r matches Some(a) ==> {
            &&& a.mint@ == data@.subrange(0, 32)
            &&& a.owner@ == data@.subrange(32, 64)
            &&& a.amount == le_u64(data@.subrange(64, 72))
            &&& state_byte(a.state) == data@[108]
        },
{
    match <spl_token::state::Account as solana_program::program_pack::Pack>::unpack_unchecked(data) {
        Ok(a) => Some(TokenAccountData {
            mint: Address { bytes: a.mint.to_bytes() },
            owner: Address { bytes: a.owner.to_bytes() },
            amount: a.amount,
            state: match a.state {
                spl_token::state::AccountState::Uninitialized => TokenAccountState::Uninitialized,
                spl_token::state::AccountState::Initialized => TokenAccountState::Initialized,
                spl_token::state::AccountState::Frozen => TokenAccountState::Frozen,
            },
        }),
        Err(_) => None,
    }
}

/// What the governance core reads of a mint's data.
#[derive(Clone, Copy, Debug)]
pub struct MintData {
    pub supply: u64,
    pub is_initialized: bool,
}

/// The mint layout: 82 bytes; optional mint authority, supply, decimals, an initialized
/// flag of 0 or 1, optional freeze authority.
pub open spec fn mint_layout_ok(d: Seq<u8>) -> bool {
    &&& d.len() == 82
    &&& option_tag_ok(d, 0)
    &&& d[45] <= 1
    &&& option_tag_ok(d, 46)
}

/// Relies on spl_token's `Mint::unpack_unchecked` (the `Pack` impl of its mint): it
/// refuses data that is not 82 bytes, an option tag other than 0 or 1, and an initialized
/// flag other than 0 or 1; otherwise the supply is the little-endian bytes 36..44 and the
/// flag is byte 45.
#[verifier::external_body]
fn unpack_mint(data: &[u8]) -> (r: Option<MintData>)
    ensures
        r is Some <==> mint_layout_ok(data@),
        r matches Some(m) ==> m.supply == le_u64(data@.subrange(36, 44)) && m.is_initialized == (
        data@[45] == 1),
{
    match <spl_token::state::Mint as solana_program::program_pack::Pack>::unpack_unchecked(data) {
        Ok(m) => Some(MintData { supply: m.supply, is_initialized: m.is_initialized }),
        Err(_) => None,
    }
}

/// The supply of an initialized mint of the token program, or none where the account is
/// not one.
pub open spec fn mint_supply(info: &AccountData) -> Option<u64> {
    if info.owner@ == token_program_bytes() && mint_layout_ok(info.data@) && info.data@[45] == 1 {
        Some(le_u64(info.data@.subrange(36, 44)) as u64)
    } else {
        None
    }
}

/// Reads the supply of a mint account.
pub fn get_supply_from_mint(mint_info: &AccountData) -> (r: Option<u64>)
    ensures
        r == mint_supply(mint_info),
{
    if mint_info.owner != token_program_id() {
        return None;
    }
    match unpack_mint(mint_info.data.as_slice()) {
        Some(m) => if m.is_initialized {
            Some(m.supply)
        } else {
            None
        },
        None => None,
    }
}

/// Reads a token account's data as the token program lays it out.
pub fn token_account_from_data(data: &[u8]) -> (r: Option<TokenAccountData>)
    ensures
        r is Some <==> token_layout_ok(data@),
        r matches Some(a) ==> {
            &&& a.mint@ == data@.subrange(0, 32)
            &&& a.owner@ == data@.subrange(32, 64)
            &&& a.amount == le_u64(data@.subrange(64, 72))
            &&& state_byte(a.state) == data@[108]
        },
{
    unpack_token_account(data)
}

/// Reads the eight bytes at `at` as a little-endian integer.
fn read_le_u64(d: &Vec<u8>, at: usize) -> (r: u64)
    requires
        at + 8 <= d@.len(),
    ensures
        r == le_u64(d@.subrange(at as int, at + 8)),
{
    let len = d.len();
    assert(at + 8 <= len);
    let mut r: u64 = d[at + 7] as u64;
    r = r * 256 + d[at + 6] as u64;
    r = r * 256 + d[at + 5] as u64;
    r = r * 256 + d[at + 4] as u64;
    r = r * 256 + d[at + 3] as u64;
    r = r * 256 + d[at + 2] as u64;
    r = r * 256 + d[at + 1] as u64;
    r = r * 256 + d[at] as u64;
    r
}

/// The error of reading a token account's amount or mint, if any.
pub open spec fn token_read_error(info: &AccountData, end: int) -> Option<GovernanceError> {
    if info.owner@ != token_program_bytes() {
        Some(GovernanceError::InvalidTokenAccountOwnerError)
    } else if info.data@.len() < end {
        Some(GovernanceError::InvalidAccountData)
    } else {
        None
    }
}

/// Reads the amount of a token account without decoding all of its data.
pub fn get_amount_from_token_account(token_account_info: &AccountData) -> (r: Result<u64, GovernanceError>)
    ensures
        match token_read_error(token_account_info, 72) {
            Some(e) => r == Err::<u64, GovernanceError>(e),
            None => r == Ok::<u64, GovernanceError>(
                le_u64(token_account_info.data@.subrange(64, 72)) as u64,
            ),
        },
{
    if token_account_info.owner != token_program_id() {
        return Err(GovernanceError::InvalidTokenAccountOwnerError);
    }
    if token_account_info.data.len() < 72 {
        return Err(GovernanceError::InvalidAccountData);
    }
    Ok(read_le_u64(&token_account_info.data, 64))
}

/// Reads the mint of a token account without decoding all of its data.
pub fn get_mint_from_token_account(token_account_info: &AccountData) -> (r: Result<Address, GovernanceError>)
    ensures
        match token_read_error(token_account_info, 32) {
            Some(e) => r matches Err(x) && x == e,
            None => r matches Ok(m) && m@ == token_account_info.data@.subrange(0, 32),
        },
{
    if token_account_info.owner != token_program_id() {
        return Err(GovernanceError::InvalidTokenAccountOwnerError);
    }
    if token_account_info.data.len() < 32 {
        return Err(GovernanceError::InvalidAccountData);
    }
    Ok(read_address(token_account_info.data.as_slice(), 0))
}

/// Whether the token account grants the capability of `mint` to `holder`: it belongs to
/// the token program, decodes, is initialized, holds a non-zero amount of `mint`, is owned
/// by the holder, and the holder signed.
pub open spec fn holds_capability(token: &AccountData, mint: Address, holder: &AccountData) -> bool {
    &&& token_layout_ok(token.data@)
    &&& token.owner@ == token_program_bytes()
    &&& le_u64(token.data@.subrange(64, 72)) != 0
    &&& token.data@[108] != 0
    &&& token.data@.subrange(32, 64) == holder.key@
    &&& holder.is_signer
    &&& token.data@.subrange(0, 32) == mint@
}

/// Asserts the expected owner signed the transaction and owns a token of the expected
/// mint: the permission check of the capability-via-possession scheme.
pub fn assert_spl_token_owner_is_signer(
    token_account_info: &AccountData,
    expected_token_mint: &Address,
    expected_token_owner_info: &AccountData,
) -> (r: Result<(), GovernanceError>)
    ensures
        r is Ok <==> holds_capability(token_account_info, *expected_token_mint, expected_token_owner_info),
        !token_layout_ok(token_account_info.data@) ==> r == Err::<(), GovernanceError>(
            GovernanceError::InvalidAccountData,
        ),
        token_layout_ok(token_account_info.data@) && r is Err ==> r == Err::<(), GovernanceError>(
            GovernanceError::TokenOwnerMustSign,
        ),
{
    let token = match unpack_token_account(token_account_info.data.as_slice()) {
        Some(t) => t,
        None => {
            return Err(GovernanceError::InvalidAccountData);
        },
    };
    if token.amount == 0 || token.state == TokenAccountState::Uninitialized || token.owner
        != expected_token_owner_info.key || !expected_token_owner_info.is_signer || token.mint
        != *expected_token_mint || token_account_info.owner != token_program_id() {
        return Err(GovernanceError::TokenOwnerMustSign);
    }
    Ok(())
}

} // verus!
