//! Token-program account layouts: mints and token accounts as the token
//! program stores them.

use crate::account::AccountRecord;
use crate::account::AccountView;
use crate::address::Address;
use crate::encoding::lemma_u64_le_round_trip;
use crate::encoding::u64_from_le_bytes;
use crate::encoding::u64_le_bytes;
use crate::pda::create_pda;
use crate::pda::seed_list;
use crate::pda::DerivationError;
use solana_program_pack::Pack;
use solana_rent::Rent;
use spl_token_interface::state::Account;
use spl_token_interface::state::AccountState;
use vstd::prelude::*;

verus! {

/// Bytes in a packed mint.
pub const MINT_LEN: usize = 82;

/// Bytes in a packed token account.
pub const TOKEN_ACCOUNT_LEN: usize = 165;

/// Largest account data that a rent calculation accepts.
pub const MAX_PERMITTED_DATA_LENGTH: usize = 10485760;

/// `n` zero bytes.
pub open spec fn zeros(n: nat) -> Seq<u8> {
    Seq::new(n, |i: int| 0u8)
}

/// The token program's address.
pub open spec fn token_program_bytes() -> Seq<u8> {
    seq![
        6u8, 221, 246, 225, 215, 101, 161, 147, 217, 203, 225, 70, 206, 235, 121, 172, 28, 180, 133,
        237, 95, 91, 55, 145, 58, 140, 245, 133, 126, 255, 0, 169,
    ]
}

/// The associated-token-account program's address.
pub open spec fn associated_token_program_bytes() -> Seq<u8> {
    seq![
        140u8, 151, 37, 143, 78, 36, 137, 241, 187, 61, 16, 41, 20, 142, 13, 131, 11, 90, 19, 153,
        218, 255, 16, 132, 4, 142, 123, 216, 219, 233, 248, 89,
    ]
}

/// The state of a token account.
#[derive(Debug, Clone, Copy, PartialEq, Eq, Structural)]
pub enum TokenState {
    Uninitialized,
    Initialized,
    Frozen,
}

/// What a token account holds.
#[derive(Debug, Clone, Copy)]
pub struct TokenAccount {
    pub mint: Address,
    pub owner: Address,
    pub amount: u64,
    pub delegate: Option<Address>,
    pub state: TokenState,
    pub is_native: Option<u64>,
    pub delegated_amount: u64,
    pub close_authority: Option<Address>,
}

/// What a mint holds.
#[derive(Debug, Clone, Copy)]
pub struct Mint {
    pub mint_authority: Option<Address>,
    pub supply: u64,
    pub decimals: u8,
    pub is_initialized: bool,
    pub freeze_authority: Option<Address>,
}

/// The 36 bytes of an optional address: a four-byte tag, 1 or 0, and the
/// address or zeroes.
pub open spec fn optional_key_bytes(key: Option<Address>) -> Seq<u8> {
    match key {
        Some(address) => seq![1u8, 0u8, 0u8, 0u8] + address@,
        None => zeros(36),
    }
}

/// The 12 bytes of an optional number: a four-byte tag, 1 or 0, and the
/// little-endian number or zeroes.
pub open spec fn optional_u64_bytes(value: Option<u64>) -> Seq<u8> {
    match value {
        Some(x) => seq![1u8, 0u8, 0u8, 0u8] + u64_le_bytes(x),
        None => zeros(12),
    }
}

/// The byte that stands for a token account's state.
pub open spec fn state_byte(state: TokenState) -> u8 {
    match state {
        TokenState::Uninitialized => 0,
        TokenState::Initialized => 1,
        TokenState::Frozen => 2,
    }
}

/// The 165 bytes of a packed token account.
pub open spec fn packed_token_account(account: TokenAccount) -> Seq<u8> {
    account.mint@ + account.owner@ + u64_le_bytes(account.amount) + optional_key_bytes(
        account.delegate,
    ) + seq![state_byte(account.state)] + optional_u64_bytes(account.is_native) + u64_le_bytes(
        account.delegated_amount,
    ) + optional_key_bytes(account.close_authority)
}

/// The 82 bytes of a packed mint.
pub open spec fn packed_mint(mint: Mint) -> Seq<u8> {
    optional_key_bytes(mint.mint_authority) + u64_le_bytes(mint.supply) + seq![
        mint.decimals,
        if mint.is_initialized { 1u8 } else { 0u8 },
    ] + optional_key_bytes(mint.freeze_authority)
}

/// The 165 bytes of an initialised token account with no delegate, no
/// native reserve and no close authority.
pub open spec fn token_account_layout(mint: Seq<u8>, owner: Seq<u8>, amount: u64) -> Seq<u8> {
    mint + owner + u64_le_bytes(amount) + zeros(36) + seq![1u8] + zeros(12) + zeros(8) + zeros(36)
}

/// The 82 bytes of an initialised mint with a mint authority and no freeze
/// authority.
pub open spec fn mint_layout(authority: Seq<u8>, supply: u64, decimals: u8) -> Seq<u8> {
    seq![1u8, 0u8, 0u8, 0u8] + authority + u64_le_bytes(supply) + seq![decimals, 1u8] + zeros(36)
}

/// The lamports that keep an account of `data_len` bytes exempt from rent
/// under the default rent parameters.
pub open spec fn rent_exempt_minimum(data_len: nat) -> nat {
    (128 + data_len) * 6960
}

/// The value of an account owned by the token program that holds `data`.
pub open spec fn token_program_account_view(data: Seq<u8>) -> AccountView {
    AccountView {
        lamports: rent_exempt_minimum(data.len()) as u64,
        data,
        owner: token_program_bytes(),
        executable: false,
        rent_epoch: 0,
    }
}

/// The seeds of an associated token account: wallet, token program, mint.
pub open spec fn associated_token_seeds(
    wallet: Seq<u8>,
    mint: Seq<u8>,
    token_program: Seq<u8>,
) -> Seq<Seq<u8>> {
    seq![wallet, token_program, mint]
}

/// Packs with `spl_token_interface`'s `Account::pack` into a zeroed buffer
/// of the packed length. Trusted: the buffer then holds mint, owner,
/// little-endian amount, the optional delegate, the state byte, the optional
/// native reserve, the little-endian delegated amount and the optional close
/// authority, in this order.
#[verifier::external_body]
pub(crate) fn pack_token_account(account: &TokenAccount) -> (r: Vec<u8>)
    ensures
        r@ == packed_token_account(*account),
{
    let state = match account.state {
        TokenState::Uninitialized => AccountState::Uninitialized,
        TokenState::Initialized => AccountState::Initialized,
        TokenState::Frozen => AccountState::Frozen,
    };
    let (mint, owner) = (account.mint.bytes.into(), account.owner.bytes.into());
    let delegate = account.delegate.map(|a| a.bytes.into()).into();
    let close_authority = account.close_authority.map(|a| a.bytes.into()).into();
    let (amount, delegated_amount) = (account.amount, account.delegated_amount);
    let is_native = account.is_native.into();
    let mut data = vec![0u8; Account::LEN];
    let packed =
        Account { mint, owner, amount, delegate, state, is_native, delegated_amount, close_authority };
    Account::pack(packed, &mut data).unwrap();
    data
}

/// Packs with `spl_token_interface`'s `Mint::pack` into a zeroed buffer of
/// the packed length. Trusted: the buffer then holds the optional mint
/// authority, the little-endian supply, the decimals, the initialised byte
/// and the optional freeze authority, in this order.
#[verifier::external_body]
pub(crate) fn pack_mint(mint: &Mint) -> (r: Vec<u8>)
    ensures
        r@ == packed_mint(*mint),
{
    let packed = spl_token_interface::state::Mint {
        mint_authority: mint.mint_authority.map(|a| a.bytes.into()).into(),
        supply: mint.supply,
        decimals: mint.decimals,
        is_initialized: mint.is_initialized,
        freeze_authority: mint.freeze_authority.map(|a| a.bytes.into()).into(),
    };
    let mut data = vec![0u8; spl_token_interface::state::Mint::LEN];
    spl_token_interface::state::Mint::pack(packed, &mut data).unwrap();
    data
}

/// Calls `solana_rent::Rent::minimum_balance` on the default rent. Trusted:
/// for data within the permitted length it returns the storage overhead of
/// 128 bytes plus the data length, times 6960 lamports per byte.
#[verifier::external_body]
pub(crate) fn rent_minimum_balance(data_len: usize) -> (r: u64)
    requires
        data_len <= MAX_PERMITTED_DATA_LENGTH,
    ensures
        r == rent_exempt_minimum(data_len as nat),
{
    Rent::default().minimum_balance(data_len)
}

/// The token program's address.
pub fn token_program_id() -> (r: Address)
    ensures
        r@ == token_program_bytes(),
{
    let bytes: [u8; 32] = [
        6u8, 221, 246, 225, 215, 101, 161, 147, 217, 203, 225, 70, 206, 235, 121, 172, 28, 180, 133,
        237, 95, 91, 55, 145, 58, 140, 245, 133, 126, 255, 0, 169,
    ];
    assert(bytes@ =~= token_program_bytes());
    Address::new_from_array(bytes)
}

/// The associated-token-account program's address.
pub fn associated_token_program_id() -> (r: Address)
    ensures
        r@ == associated_token_program_bytes(),
{
    let bytes: [u8; 32] = [
        140u8, 151, 37, 143, 78, 36, 137, 241, 187, 61, 16, 41, 20, 142, 13, 131, 11, 90, 19, 153,
        218, 255, 16, 132, 4, 142, 123, 216, 219, 233, 248, 89,
    ];
    assert(bytes@ =~= associated_token_program_bytes());
    Address::new_from_array(bytes)
}

/// An initialised token account of `owner` for `mint` that holds `amount`,
/// with no delegate, no native reserve and no close authority.
pub fn plain_token_account(mint: Address, owner: Address, amount: u64) -> (r: TokenAccount)
    ensures
        r == (TokenAccount {
            mint,
            owner,
            amount,
            delegate: None,
            state: TokenState::Initialized,
            is_native: None,
            delegated_amount: 0,
            close_authority: None,
        }),
        packed_token_account(r) == token_account_layout(mint@, owner@, amount),
{
    let r = TokenAccount {
        mint,
        owner,
        amount,
        delegate: None,
        state: TokenState::Initialized,
        is_native: None,
        delegated_amount: 0,
        close_authority: None,
    };
    proof {
        assert(u64_le_bytes(0) =~= zeros(8));
    }
    r
}

/// An initialised mint under `authority`, with no freeze authority.
pub fn plain_mint(authority: Address, supply: u64, decimals: u8) -> (r: Mint)
    ensures
        r == (Mint {
            mint_authority: Some(authority),
            supply,
            decimals,
            is_initialized: true,
            freeze_authority: None,
        }),
        packed_mint(r) == mint_layout(authority@, supply, decimals),
{
    Mint {
        mint_authority: Some(authority),
        supply,
        decimals,
        is_initialized: true,
        freeze_authority: None,
    }
}

/// The rent-exempt account, owned by the token program, that holds the
/// packed token account.
pub fn create_account_for_token_account(token_account: TokenAccount) -> (r: AccountRecord)
    ensures
        r@ == token_program_account_view(packed_token_account(token_account)),
        r@.data.len() == 165,
{
    let data = pack_token_account(&token_account);
    AccountRecord {
        lamports: rent_minimum_balance(TOKEN_ACCOUNT_LEN),
        data,
        owner: token_program_id(),
        executable: false,
        rent_epoch: 0,
    }
}

/// The rent-exempt account, owned by the token program, that holds the
/// packed mint.
pub fn create_account_for_mint(mint: Mint) -> (r: AccountRecord)
    ensures
        r@ == token_program_account_view(packed_mint(mint)),
        r@.data.len() == 82,
{
    let data = pack_mint(&mint);
    AccountRecord {
        lamports: rent_minimum_balance(MINT_LEN),
        data,
        owner: token_program_id(),
        executable: false,
        rent_epoch: 0,
    }
}

/// The canonical token account address of `wallet` for `mint` under
/// `token_program`: the address derived from the three as seeds under the
/// associated-token-account program.
pub fn associated_token_address(wallet: &Address, mint: &Address, token_program: &Address) -> (r:
    Result<Address, DerivationError>)
    ensures
        match r {
            Ok(address) => program_address_of(wallet@, mint@, token_program@) matches Some(pair)
                && pair.0 == address@ && !crate::pda::on_curve(address@),
            Err(e) => program_address_of(wallet@, mint@, token_program@) is None,
        },
{
    let mut seeds: Vec<Vec<u8>> = Vec::new();
    seeds.push(wallet.to_vec());
    seeds.push(token_program.to_vec());
    seeds.push(mint.to_vec());
    assert(seed_list(seeds@) =~= associated_token_seeds(wallet@, mint@, token_program@));
    let program = associated_token_program_id();
    match create_pda(&seeds, &program) {
        Ok(pair) => Ok(pair.0),
        Err(e) => Err(e),
    }
}

/// What the network derives for an associated token account.
pub open spec fn program_address_of(wallet: Seq<u8>, mint: Seq<u8>, token_program: Seq<u8>)
    -> Option<(Seq<u8>, u8)> {
    crate::pda::program_address(
        associated_token_seeds(wallet, mint, token_program),
        associated_token_program_bytes(),
    )
}

/// A token account is read back as it was made: its mint, owner and amount
/// stand at the documented offsets.
pub proof fn lemma_token_account_layout_fields(mint: Seq<u8>, owner: Seq<u8>, amount: u64)
    requires
        mint.len() == 32,
        owner.len() == 32,
    ensures
        ({
            let data = token_account_layout(mint, owner, amount);
            &&& data.len() == 165
            &&& data.subrange(0, 32) == mint
            &&& data.subrange(32, 64) == owner
            &&& u64_from_le_bytes(data.subrange(64, 72)) == amount
        }),
{
    let data = token_account_layout(mint, owner, amount);
    lemma_u64_le_round_trip(amount);
    assert(data.subrange(0, 32) =~= mint);
    assert(data.subrange(32, 64) =~= owner);
    assert(data.subrange(64, 72) =~= u64_le_bytes(amount));
}

} // verus!
