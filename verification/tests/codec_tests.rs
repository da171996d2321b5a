use swap_tester::account::AccountRecord;
use swap_tester::address::Address;
use swap_tester::codec::build_make_offer_data;
use swap_tester::codec::build_take_offer_data;
use swap_tester::codec::encode_make_offer;
use swap_tester::codec::offer_data_from_account;
use swap_tester::codec::read_pubkey;
use swap_tester::codec::read_u64;
use swap_tester::codec::token_account_amount;
use swap_tester::codec::token_account_mint;
use swap_tester::codec::token_account_owner;
use swap_tester::digest::anchor_discriminator;
use swap_tester::encoding::u64_from_le;
use swap_tester::encoding::u64_to_le;
use swap_tester::error::TestContextError;

fn account_with(data: Vec<u8>) -> AccountRecord {
    AccountRecord { lamports: 1, data, owner: Address::zero(), executable: false, rent_epoch: 0 }
}

fn validation_text(e: TestContextError) -> String {
    match e {
        TestContextError::ValidationError(m) => m,
        other => panic!("not a validation error: {:?}", other),
    }
}

#[test]
fn u64_little_endian_of_a_million() {
    assert_eq!(u64_to_le(1_000_000), vec![64, 66, 15, 0, 0, 0, 0, 0]);
    assert_eq!(u64_to_le(0), vec![0; 8]);
    assert_eq!(u64_to_le(u64::MAX), vec![255; 8]);
    assert_eq!(u64_to_le(0x0102030405060708), vec![8, 7, 6, 5, 4, 3, 2, 1]);
}

#[test]
fn u64_decoding_undoes_encoding() {
    for x in [0u64, 1, 255, 256, 1_000_000, 0x0102030405060708, u64::MAX - 1, u64::MAX] {
        assert_eq!(u64_from_le(&u64_to_le(x)), x);
        assert_eq!(u64_to_le(x), x.to_le_bytes().to_vec());
    }
}

#[test]
fn discriminators_are_digest_prefixes() {
    assert_eq!(anchor_discriminator("global:make_offer"), [214, 98, 97, 35, 59, 12, 44, 178]);
    assert_eq!(anchor_discriminator("global:take_offer"), [128, 156, 242, 207, 237, 192, 103, 240]);
}

#[test]
fn make_offer_payload_is_discriminator_then_three_numbers() {
    let data = build_make_offer_data(1, 1_000_000, 2_000_000);
    let mut expected = vec![214, 98, 97, 35, 59, 12, 44, 178];
    expected.extend_from_slice(&1u64.to_le_bytes());
    expected.extend_from_slice(&1_000_000u64.to_le_bytes());
    expected.extend_from_slice(&2_000_000u64.to_le_bytes());
    assert_eq!(data, expected);
    assert_eq!(data.len(), 32);
}

#[test]
fn encode_make_offer_keeps_the_given_discriminator() {
    let data = encode_make_offer(&[1, 2, 3, 4, 5, 6, 7, 8], 9, 10, 11);
    assert_eq!(&data[..8], &[1, 2, 3, 4, 5, 6, 7, 8]);
    assert_eq!(&data[8..16], &9u64.to_le_bytes());
    assert_eq!(&data[16..24], &10u64.to_le_bytes());
    assert_eq!(&data[24..32], &11u64.to_le_bytes());
}

#[test]
fn take_offer_payload_is_the_discriminator_alone() {
    assert_eq!(build_take_offer_data(), vec![128, 156, 242, 207, 237, 192, 103, 240]);
}

#[test]
fn read_u64_wants_exactly_eight_bytes() {
    assert_eq!(read_u64(&[64, 66, 15, 0, 0, 0, 0, 0]).unwrap(), 1_000_000);
    assert_eq!(validation_text(read_u64(&[1, 2, 3]).unwrap_err()), "Invalid u64 bytes");
    assert_eq!(validation_text(read_u64(&[0; 9]).unwrap_err()), "Invalid u64 bytes");
    assert_eq!(validation_text(read_u64(&[]).unwrap_err()), "Invalid u64 bytes");
}

#[test]
fn read_pubkey_wants_exactly_32_bytes() {
    let bytes: Vec<u8> = (0u8..32).collect();
    assert_eq!(read_pubkey(&bytes).unwrap().bytes.to_vec(), bytes);
    assert_eq!(validation_text(read_pubkey(&bytes[..31]).unwrap_err()), "Invalid pubkey bytes");
    assert_eq!(validation_text(read_pubkey(&[0; 33]).unwrap_err()), "Invalid pubkey bytes");
}

#[test]
fn token_fields_stand_at_their_offsets() {
    let mut data = vec![0u8; 165];
    for i in 0..32 {
        data[i] = 1 + i as u8;
        data[32 + i] = 101 + i as u8;
    }
    data[64..72].copy_from_slice(&1_000_000u64.to_le_bytes());
    let account = account_with(data.clone());
    assert_eq!(token_account_mint(&account).unwrap().bytes.to_vec(), data[0..32].to_vec());
    assert_eq!(token_account_owner(&account).unwrap().bytes.to_vec(), data[32..64].to_vec());
    assert_eq!(token_account_amount(&account).unwrap(), 1_000_000);
}

#[test]
fn short_token_data_is_a_validation_error_at_every_length() {
    for len in 0..72usize {
        let account = account_with(vec![7u8; len]);
        assert_eq!(
            validation_text(token_account_amount(&account).unwrap_err()),
            "Token account data too short"
        );
        if len < 64 {
            assert_eq!(
                validation_text(token_account_owner(&account).unwrap_err()),
                "Token account data too short"
            );
        } else {
            assert!(token_account_owner(&account).is_ok());
        }
        if len < 32 {
            assert_eq!(
                validation_text(token_account_mint(&account).unwrap_err()),
                "Token account data too short"
            );
        } else {
            assert!(token_account_mint(&account).is_ok());
        }
    }
    assert!(token_account_amount(&account_with(vec![7u8; 72])).is_ok());
}

#[test]
fn short_offer_data_is_a_validation_error_at_every_length() {
    for len in 0..121usize {
        let account = account_with(vec![0u8; len]);
        assert_eq!(
            validation_text(offer_data_from_account(&account).unwrap_err()),
            "Offer account data too short"
        );
    }
}

#[test]
fn offer_record_is_decoded_field_by_field() {
    let mut data = vec![0xeeu8; 8];
    data.extend_from_slice(&7u64.to_le_bytes());
    data.extend_from_slice(&[1u8; 32]);
    data.extend_from_slice(&[2u8; 32]);
    data.extend_from_slice(&[3u8; 32]);
    data.extend_from_slice(&2_500_000u64.to_le_bytes());
    data.push(254);
    assert_eq!(data.len(), 121);
    data.extend_from_slice(&[9u8; 10]);
    let offer = offer_data_from_account(&account_with(data)).unwrap();
    assert_eq!(offer.id, 7);
    assert_eq!(offer.maker.bytes, [1u8; 32]);
    assert_eq!(offer.token_mint_a.bytes, [2u8; 32]);
    assert_eq!(offer.token_mint_b.bytes, [3u8; 32]);
    assert_eq!(offer.token_b_wanted_amount, 2_500_000);
    assert_eq!(offer.bump, 254);
}
