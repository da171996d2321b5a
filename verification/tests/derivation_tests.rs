use sha2::Digest;
use sha2::Sha256;
use solana_program_pack::Pack;
use solana_pubkey::Pubkey;
use spl_associated_token_account_interface::address::get_associated_token_address_with_program_id;
use swap_tester::address::Address;
use swap_tester::codec::token_account_amount;
use swap_tester::codec::token_account_mint;
use swap_tester::codec::token_account_owner;
use swap_tester::pda::create_pda;
use swap_tester::pda::derivation_outcome;
use swap_tester::pda::is_on_curve;
use swap_tester::pda::DerivationError;
use swap_tester::token::associated_token_address;
use swap_tester::token::associated_token_program_id;
use swap_tester::token::create_account_for_mint;
use swap_tester::token::plain_mint;
use swap_tester::token::Mint;
use swap_tester::token::TokenAccount;
use swap_tester::token::TokenState;
use swap_tester::token::create_account_for_token_account;
use swap_tester::token::plain_token_account;
use swap_tester::token::token_program_id;

fn addr(n: u8) -> Address {
    Address::new_from_array([n; 32])
}

fn base_point() -> Address {
    let mut bytes = [0x66u8; 32];
    bytes[0] = 0x58;
    Address::new_from_array(bytes)
}

#[test]
fn derivation_agrees_with_the_network_definition() {
    let program = addr(42);
    let maker = addr(7);
    let seeds = vec![b"offer".to_vec(), maker.bytes.to_vec(), 1u64.to_le_bytes().to_vec()];
    let (address, bump) = create_pda(&seeds, &program).unwrap();
    let (expected, expected_bump) = Pubkey::find_program_address(
        &[b"offer", &maker.bytes, &1u64.to_le_bytes()],
        &Pubkey::new_from_array(program.bytes),
    );
    assert_eq!(address.bytes, expected.to_bytes());
    assert_eq!(bump, expected_bump);
    assert_ne!(address.bytes, program.bytes);
}

#[test]
fn deriving_twice_gives_the_same_pair() {
    for n in 0u8..20 {
        let seeds = vec![vec![n; 5], vec![n.wrapping_mul(3); 32], Vec::new()];
        let first = create_pda(&seeds, &addr(n)).unwrap();
        let second = create_pda(&seeds, &addr(n)).unwrap();
        assert_eq!(first.0.bytes, second.0.bytes);
        assert_eq!(first.1, second.1);
    }
}

#[test]
fn a_derived_address_is_off_the_curve() {
    for n in 0u8..20 {
        let seeds = vec![vec![n], b"vault".to_vec()];
        let (address, _) = create_pda(&seeds, &addr(n)).unwrap();
        assert!(!is_on_curve(&address));
    }
}

#[test]
fn an_ordinary_key_is_on_the_curve() {
    assert!(is_on_curve(&base_point()));
    let (address, _) = create_pda(&vec![b"x".to_vec()], &addr(1)).unwrap();
    assert_ne!(address.bytes, base_point().bytes);
}

#[test]
fn too_many_seeds_are_refused() {
    let seeds: Vec<Vec<u8>> = (0u8..16).map(|i| vec![i]).collect();
    assert_eq!(create_pda(&seeds, &addr(1)).unwrap_err(), DerivationError::Exhausted);
    let seeds: Vec<Vec<u8>> = (0u8..15).map(|i| vec![i]).collect();
    assert!(create_pda(&seeds, &addr(1)).is_ok());
}

#[test]
fn a_seed_over_32_bytes_is_refused() {
    assert_eq!(create_pda(&vec![vec![1u8; 33]], &addr(1)).unwrap_err(), DerivationError::Exhausted);
    assert!(create_pda(&vec![vec![1u8; 32]], &addr(1)).is_ok());
}

#[test]
fn derivation_outcome_reports_exhaustion() {
    assert_eq!(derivation_outcome(None).unwrap_err(), DerivationError::Exhausted);
    let (address, bump) = derivation_outcome(Some((addr(3), 254))).unwrap();
    assert_eq!(address.bytes, [3u8; 32]);
    assert_eq!(bump, 254);
}

#[test]
fn program_addresses_are_the_published_ones() {
    assert_eq!(token_program_id().bytes, spl_token_interface::ID.to_bytes());
    assert_eq!(
        associated_token_program_id().bytes,
        spl_associated_token_account_interface::program::ID.to_bytes()
    );
    assert_eq!(token_program_id().to_text(), "TokenkegQfeZyiNwAJbNbGKPFXCWuBvf9Ss623VQ5DA");
    assert_eq!(
        associated_token_program_id().to_text(),
        "ATokenGPvbdGVxr1b2hvZbsiqW5xWH25efTNsLJA8knL"
    );
}

#[test]
fn associated_token_address_is_the_canonical_one() {
    for n in 1u8..10 {
        let wallet = addr(n);
        let mint = addr(n + 100);
        let ours = associated_token_address(&wallet, &mint, &token_program_id()).unwrap();
        let theirs = get_associated_token_address_with_program_id(
            &wallet.bytes.into(),
            &mint.bytes.into(),
            &token_program_id().bytes.into(),
        );
        assert_eq!(ours.bytes, theirs.to_bytes());
        assert!(!is_on_curve(&ours));
    }
}

#[test]
fn token_account_is_packed_as_the_token_program_reads_it() {
    let account = create_account_for_token_account(plain_token_account(addr(1), addr(2), 1_000_000));
    assert_eq!(account.data.len(), 165);
    assert_eq!(account.lamports, 2_039_280);
    assert_eq!(account.owner.bytes, token_program_id().bytes);
    assert!(!account.executable);
    assert_eq!(account.rent_epoch, 0);
    let unpacked = spl_token_interface::state::Account::unpack(&account.data).unwrap();
    assert_eq!(unpacked.mint.to_bytes(), [1u8; 32]);
    assert_eq!(unpacked.owner.to_bytes(), [2u8; 32]);
    assert_eq!(unpacked.amount, 1_000_000);
    assert!(unpacked.delegate.is_none());
    assert!(unpacked.is_native.is_none());
    assert!(unpacked.close_authority.is_none());
    assert_eq!(unpacked.delegated_amount, 0);
    assert_eq!(unpacked.state, spl_token_interface::state::AccountState::Initialized);
    let mut expected = vec![1u8; 32];
    expected.extend_from_slice(&[2u8; 32]);
    expected.extend_from_slice(&1_000_000u64.to_le_bytes());
    expected.extend_from_slice(&[0u8; 36]);
    expected.push(1);
    expected.extend_from_slice(&[0u8; 56]);
    assert_eq!(account.data, expected);
}

#[test]
fn token_account_fields_are_read_back() {
    for amount in [0u64, 1, 1_000_000, u64::MAX] {
        let account = create_account_for_token_account(plain_token_account(addr(11), addr(12), amount));
        assert_eq!(token_account_mint(&account).unwrap().bytes, [11u8; 32]);
        assert_eq!(token_account_owner(&account).unwrap().bytes, [12u8; 32]);
        assert_eq!(token_account_amount(&account).unwrap(), amount);
    }
}

#[test]
fn mint_is_packed_as_the_token_program_reads_it() {
    let account = create_account_for_mint(plain_mint(addr(5), 1_000_000, 6));
    assert_eq!(account.data.len(), 82);
    assert_eq!(account.lamports, 1_461_600);
    assert_eq!(account.owner.bytes, token_program_id().bytes);
    let mint = spl_token_interface::state::Mint::unpack(&account.data).unwrap();
    assert_eq!(mint.mint_authority.unwrap().to_bytes(), [5u8; 32]);
    assert_eq!(mint.supply, 1_000_000);
    assert_eq!(mint.decimals, 6);
    assert!(mint.is_initialized);
    assert!(mint.freeze_authority.is_none());
    let mut expected = vec![1u8, 0, 0, 0];
    expected.extend_from_slice(&[5u8; 32]);
    expected.extend_from_slice(&1_000_000u64.to_le_bytes());
    expected.push(6);
    expected.push(1);
    expected.extend_from_slice(&[0u8; 36]);
    assert_eq!(account.data, expected);
}

#[test]
fn address_text_is_base_58() {
    assert_eq!(Address::zero().to_text(), "11111111111111111111111111111111");
    assert!(Address::zero().is_zero());
    assert!(!addr(1).is_zero());
    assert!(addr(3).same(&addr(3)));
    assert!(!addr(3).same(&addr(4)));
    assert_eq!(addr(3).to_vec(), vec![3u8; 32]);
}

#[test]
fn every_field_of_a_token_account_is_packed() {
    let account = TokenAccount {
        mint: addr(1),
        owner: addr(2),
        amount: 3,
        delegate: Some(addr(4)),
        state: TokenState::Frozen,
        is_native: Some(5),
        delegated_amount: 6,
        close_authority: Some(addr(7)),
    };
    let record = create_account_for_token_account(account);
    let unpacked = spl_token_interface::state::Account::unpack(&record.data).unwrap();
    assert_eq!(unpacked.mint.to_bytes(), [1u8; 32]);
    assert_eq!(unpacked.owner.to_bytes(), [2u8; 32]);
    assert_eq!(unpacked.amount, 3);
    assert_eq!(unpacked.delegate.unwrap().to_bytes(), [4u8; 32]);
    assert_eq!(unpacked.state, spl_token_interface::state::AccountState::Frozen);
    assert_eq!(unpacked.is_native.unwrap(), 5);
    assert_eq!(unpacked.delegated_amount, 6);
    assert_eq!(unpacked.close_authority.unwrap().to_bytes(), [7u8; 32]);
    let mut expected = vec![1u8; 32];
    expected.extend_from_slice(&[2u8; 32]);
    expected.extend_from_slice(&3u64.to_le_bytes());
    expected.extend_from_slice(&[1, 0, 0, 0]);
    expected.extend_from_slice(&[4u8; 32]);
    expected.push(2);
    expected.extend_from_slice(&[1, 0, 0, 0]);
    expected.extend_from_slice(&5u64.to_le_bytes());
    expected.extend_from_slice(&6u64.to_le_bytes());
    expected.extend_from_slice(&[1, 0, 0, 0]);
    expected.extend_from_slice(&[7u8; 32]);
    assert_eq!(record.data, expected);
}

#[test]
fn every_field_of_a_mint_is_packed() {
    let mint = Mint {
        mint_authority: None,
        supply: 9,
        decimals: 2,
        is_initialized: false,
        freeze_authority: Some(addr(8)),
    };
    let record = create_account_for_mint(mint);
    let mut expected = vec![0u8; 36];
    expected.extend_from_slice(&9u64.to_le_bytes());
    expected.push(2);
    expected.push(0);
    expected.extend_from_slice(&[1, 0, 0, 0]);
    expected.extend_from_slice(&[8u8; 32]);
    assert_eq!(record.data, expected);
    let uninitialized = TokenAccount {
        mint: addr(1),
        owner: addr(2),
        amount: 0,
        delegate: None,
        state: TokenState::Uninitialized,
        is_native: None,
        delegated_amount: 0,
        close_authority: None,
    };
    assert_eq!(create_account_for_token_account(uninitialized).data[108], 0);
}

#[test]
fn addresses_are_equal_where_their_bytes_are() {
    assert_eq!(addr(3), addr(3));
    assert_ne!(addr(3), addr(4));
    assert!(addr(3) == Address::new_from_array([3u8; 32]));
    assert!(Address::zero() != base_point());
}

fn candidate(seeds: &[Vec<u8>], bump: u8, program: &Address) -> Address {
    let mut hasher = Sha256::new();
    for seed in seeds {
        hasher.update(seed);
    }
    hasher.update([bump]);
    hasher.update(program.bytes);
    hasher.update(b"ProgramDerivedAddress");
    Address::new_from_array(hasher.finalize().into())
}

#[test]
fn the_derived_address_is_the_first_candidate_off_the_curve() {
    let mut below_255 = 0;
    for n in 0u8..40 {
        let seeds = vec![b"offer".to_vec(), vec![n; 32], (n as u64).to_le_bytes().to_vec()];
        let program = addr(n.wrapping_add(9));
        let (address, bump) = create_pda(&seeds, &program).unwrap();
        assert!(bump >= 1);
        assert_eq!(address, candidate(&seeds, bump, &program));
        assert!(!is_on_curve(&address));
        for larger in (bump as u16 + 1)..=255 {
            assert!(is_on_curve(&candidate(&seeds, larger as u8, &program)));
        }
        if bump < 255 {
            below_255 += 1;
        }
    }
    assert!(below_255 > 0);
}

#[test]
fn no_seeds_at_all_are_admissible() {
    let program = addr(1);
    let (address, bump) = create_pda(&Vec::new(), &program).unwrap();
    assert_eq!(address, candidate(&[], bump, &program));
}
