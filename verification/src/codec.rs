//! The instruction codec: operation payloads on the way in, fixed-layout
//! account data on the way out.

use crate::account::AccountRecord;
use crate::address::Address;
use crate::digest::anchor_discriminator;
use crate::digest::discriminator_of;
use crate::encoding::u64_from_le;
use crate::encoding::u64_from_le_bytes;
use crate::encoding::u64_le_bytes;
use crate::encoding::u64_to_le;
use crate::error::TestContextError;
use vstd::prelude::*;
use vstd::slice::slice_subrange;
use vstd::string::StringSliceAdditionalSpecFns;

verus! {

/// Bytes of a token account that hold its mint.
pub const TOKEN_MINT_END: usize = 32;

/// Bytes of a token account up to the end of its owner.
pub const TOKEN_OWNER_END: usize = 64;

/// Bytes of a token account up to the end of its amount.
pub const TOKEN_AMOUNT_END: usize = 72;

/// Bytes of an offer record: discriminator, id, maker, two mints, wanted
/// amount and bump.
pub const OFFER_MIN_LEN: usize = 121;

/// The decoded escrow record.
#[derive(Debug, Clone, Copy)]
pub struct OfferData {
    pub id: u64,
    pub maker: Address,
    pub token_mint_a: Address,
    pub token_mint_b: Address,
    pub token_b_wanted_amount: u64,
    pub bump: u8,
}

/// The payload of a make-offer instruction under a given discriminator.
pub open spec fn make_offer_payload(
    discriminator: Seq<u8>,
    id: u64,
    offered_amount: u64,
    wanted_amount: u64,
) -> Seq<u8> {
    discriminator + u64_le_bytes(id) + u64_le_bytes(offered_amount) + u64_le_bytes(wanted_amount)
}

/// Does `offer` hold the fields laid out in `data`?
pub open spec fn offer_matches(offer: OfferData, data: Seq<u8>) -> bool {
    &&& offer.id == u64_from_le_bytes(data.subrange(8, 16))
    &&& offer.maker@ == data.subrange(16, 48)
    &&& offer.token_mint_a@ == data.subrange(48, 80)
    &&& offer.token_mint_b@ == data.subrange(80, 112)
    &&& offer.token_b_wanted_amount == u64_from_le_bytes(data.subrange(112, 120))
    &&& offer.bump == data[120]
}

/// Lays out a make-offer payload: the discriminator, then the three
/// arguments, each as eight little-endian bytes.
pub fn encode_make_offer(
    discriminator: &[u8; 8],
    id: u64,
    offered_amount: u64,
    wanted_amount: u64,
) -> (r: Vec<u8>)
    ensures
        r@ == make_offer_payload(discriminator@, id, offered_amount, wanted_amount),
        r@.len() == 32,
{
    let mut data: Vec<u8> = Vec::with_capacity(32);
    data.extend_from_slice(discriminator.as_slice());
    let id_bytes = u64_to_le(id);
    data.extend_from_slice(id_bytes.as_slice());
    let offered_bytes = u64_to_le(offered_amount);
    data.extend_from_slice(offered_bytes.as_slice());
    let wanted_bytes = u64_to_le(wanted_amount);
    data.extend_from_slice(wanted_bytes.as_slice());
    assert(data@ =~= make_offer_payload(discriminator@, id, offered_amount, wanted_amount));
    data
}

/// Lays out a take-offer payload: the discriminator alone.
pub fn encode_take_offer(discriminator: &[u8; 8]) -> (r: Vec<u8>)
    ensures
        r@ == discriminator@,
{
    let mut data: Vec<u8> = Vec::with_capacity(8);
    data.extend_from_slice(discriminator.as_slice());
    assert(data@ =~= discriminator@);
    data
}

/// The payload of the make-offer instruction.
pub fn build_make_offer_data(id: u64, offered_amount: u64, wanted_amount: u64) -> (r: Vec<u8>)
    ensures
        r@ == make_offer_payload(
            discriminator_of("global:make_offer".spec_bytes()),
            id,
            offered_amount,
            wanted_amount,
        ),
        r@.len() == 32,
{
    let discriminator = anchor_discriminator("global:make_offer");
    encode_make_offer(&discriminator, id, offered_amount, wanted_amount)
}

/// The payload of the take-offer instruction.
pub fn build_take_offer_data() -> (r: Vec<u8>)
    ensures
        r@ == discriminator_of("global:take_offer".spec_bytes()),
        r@.len() == 8,
{
    let discriminator = anchor_discriminator("global:take_offer");
    encode_take_offer(&discriminator)
}

/// Reads an address from exactly 32 bytes.
pub fn read_pubkey(data: &[u8]) -> (r: Result<Address, TestContextError>)
    ensures
        match r {
            Ok(address) => data@.len() == 32 && address@ == data@,
            Err(e) => data@.len() != 32 && e.is_validation("Invalid pubkey bytes"@),
        },
{
    if data.len() != 32 {
        return Err(TestContextError::validation("Invalid pubkey bytes"));
    }
    let mut bytes: [u8; 32] = [0u8; 32];
    let mut i: usize = 0;
    while i < 32
        invariant
            i <= 32,
            data@.len() == 32,
            forall|j: int| 0 <= j < i ==> bytes@[j] == data@[j],
        decreases 32 - i,
    {
        bytes[i] = data[i];
        i += 1;
    }
    assert(bytes@ =~= data@);
    Ok(Address::new_from_array(bytes))
}

/// Reads a little-endian number from exactly eight bytes.
pub fn read_u64(data: &[u8]) -> (r: Result<u64, TestContextError>)
    ensures
        match r {
            Ok(value) => data@.len() == 8 && value == u64_from_le_bytes(data@),
            Err(e) => data@.len() != 8 && e.is_validation("Invalid u64 bytes"@),
        },
{
    if data.len() != 8 {
        return Err(TestContextError::validation("Invalid u64 bytes"));
    }
    Ok(u64_from_le(data))
}

/// The balance of a token account: bytes 64 to 72, little-endian.
pub fn token_account_amount(account: &AccountRecord) -> (r: Result<u64, TestContextError>)
    ensures
        match r {
            Ok(amount) => account.data@.len() >= 72 && amount == u64_from_le_bytes(
                account.data@.subrange(64, 72),
            ),
            Err(e) => account.data@.len() < 72 && e.is_validation(
                "Token account data too short"@,
            ),
        },
{
    if account.data.len() < TOKEN_AMOUNT_END {
        return Err(TestContextError::validation("Token account data too short"));
    }
    read_u64(slice_subrange(account.data.as_slice(), TOKEN_OWNER_END, TOKEN_AMOUNT_END))
}

/// The owner of a token account: bytes 32 to 64.
pub fn token_account_owner(account: &AccountRecord) -> (r: Result<Address, TestContextError>)
    ensures
        match r {
            Ok(owner) => account.data@.len() >= 64 && owner@ == account.data@.subrange(32, 64),
            Err(e) => account.data@.len() < 64 && e.is_validation(
                "Token account data too short"@,
            ),
        },
{
    if account.data.len() < TOKEN_OWNER_END {
        return Err(TestContextError::validation("Token account data too short"));
    }
    read_pubkey(slice_subrange(account.data.as_slice(), TOKEN_MINT_END, TOKEN_OWNER_END))
}

/// The mint of a token account: bytes 0 to 32.
pub fn token_account_mint(account: &AccountRecord) -> (r: Result<Address, TestContextError>)
    ensures
        match r {
            Ok(mint) => account.data@.len() >= 32 && mint@ == account.data@.subrange(0, 32),
            Err(e) => account.data@.len() < 32 && e.is_validation(
                "Token account data too short"@,
            ),
        },
{
    if account.data.len() < TOKEN_MINT_END {
        return Err(TestContextError::validation("Token account data too short"));
    }
    read_pubkey(slice_subrange(account.data.as_slice(), 0, TOKEN_MINT_END))
}

/// Decodes the escrow record from an account's data. Data shorter than the
/// whole layout is refused, whatever its length.
pub fn offer_data_from_account(account: &AccountRecord) -> (r: Result<
    OfferData,
    TestContextError,
>)
    ensures
        match r {
            Ok(offer) => account.data@.len() >= 121 && offer_matches(offer, account.data@),
            Err(e) => account.data@.len() < 121 && e.is_validation(
                "Offer account data too short"@,
            ),
        },
{
    if account.data.len() < OFFER_MIN_LEN {
        return Err(TestContextError::validation("Offer account data too short"));
    }
    let data = account.data.as_slice();
    let id = u64_from_le(slice_subrange(data, 8, 16));
    let maker = read_pubkey(slice_subrange(data, 16, 48));
    let token_mint_a = read_pubkey(slice_subrange(data, 48, 80));
    let token_mint_b = read_pubkey(slice_subrange(data, 80, 112));
    let token_b_wanted_amount = u64_from_le(slice_subrange(data, 112, 120));
    let bump: u8 = data[120];
    match (maker, token_mint_a, token_mint_b) {
        (Ok(maker), Ok(token_mint_a), Ok(token_mint_b)) => Ok(
            OfferData { id, maker, token_mint_a, token_mint_b, token_b_wanted_amount, bump },
        ),
        _ => Err(TestContextError::validation("Offer account data too short")),
    }
}

/// A payload built for given amounts carries them: the three numbers are read
/// back from bytes 8 to 32 of any make-offer payload.
pub proof fn lemma_make_offer_payload_fields(
    discriminator: Seq<u8>,
    id: u64,
    offered_amount: u64,
    wanted_amount: u64,
)
    requires
        discriminator.len() == 8,
    ensures
        ({
            let p = make_offer_payload(discriminator, id, offered_amount, wanted_amount);
            &&& p.len() == 32
            &&& p.subrange(0, 8) == discriminator
            &&& u64_from_le_bytes(p.subrange(8, 16)) == id
            &&& u64_from_le_bytes(p.subrange(16, 24)) == offered_amount
            &&& u64_from_le_bytes(p.subrange(24, 32)) == wanted_amount
        }),
{
    let p = make_offer_payload(discriminator, id, offered_amount, wanted_amount);
    crate::encoding::lemma_u64_le_round_trip(id);
    crate::encoding::lemma_u64_le_round_trip(offered_amount);
    crate::encoding::lemma_u64_le_round_trip(wanted_amount);
    assert(p.subrange(0, 8) =~= discriminator);
    assert(p.subrange(8, 16) =~= u64_le_bytes(id));
    assert(p.subrange(16, 24) =~= u64_le_bytes(offered_amount));
    assert(p.subrange(24, 32) =~= u64_le_bytes(wanted_amount));
}

} // verus!
