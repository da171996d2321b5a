//! The checkpoints: what each one accepts of the ledger that the program
//! under test left behind.

use crate::account::AccountRecord;
use crate::account::AccountView;
use crate::address::base58_text;
use crate::address::Address;
use crate::codec::offer_data_from_account;
use crate::codec::offer_matches;
use crate::codec::token_account_amount;
use crate::codec::token_account_mint;
use crate::codec::token_account_owner;
use crate::codec::OfferData;
use crate::context::OracleOutcome;
use crate::context::SwapTestContext;
use crate::encoding::u64_from_le_bytes;
use crate::encoding::u64_le_bytes;
use crate::encoding::u64_to_le;
use crate::error::to_case_error;
use crate::error::to_case_error_from_context;
use crate::error::verdict;
use crate::error::CaseError;
use crate::error::Failure;
use crate::error::TestContextError;
use crate::fixture::offer_seed_list;
use crate::fixture::offer_seeds;
use crate::fixture::AmbientPrograms;
use crate::fixture::SwapFixture;
use crate::ledger::apply_deltas_spec;
use crate::ledger::keyed_views;
use crate::pda::create_pda;
use crate::pda::program_address;
use vstd::prelude::*;

verus! {

/// The ledger map that checkpoints read.
pub type Accounts = Map<Seq<u8>, AccountView>;

/// The text of the failure for data too short to hold a token account field.
pub open spec fn token_too_short() -> Failure {
    Failure::Validation("Token account data too short"@)
}

/// The account under `address`, or the failure that names the address.
pub open spec fn account_at(ledger: Accounts, address: Seq<u8>) -> Result<AccountView, Failure> {
    if ledger.contains_key(address) {
        Ok(ledger[address])
    } else {
        Err(Failure::AccountNotFound(base58_text(address)))
    }
}

/// The token balance in an account's data.
pub open spec fn amount_in(account: AccountView) -> Result<u64, Failure> {
    if account.data.len() < 72 {
        Err(token_too_short())
    } else {
        Ok(u64_from_le_bytes(account.data.subrange(64, 72)) as u64)
    }
}

/// The token owner in an account's data.
pub open spec fn owner_in(account: AccountView) -> Result<Seq<u8>, Failure> {
    if account.data.len() < 64 {
        Err(token_too_short())
    } else {
        Ok(account.data.subrange(32, 64))
    }
}

/// The mint in an account's data.
pub open spec fn mint_in(account: AccountView) -> Result<Seq<u8>, Failure> {
    if account.data.len() < 32 {
        Err(token_too_short())
    } else {
        Ok(account.data.subrange(0, 32))
    }
}

/// The ledger after an oracle's answer was taken in.
pub open spec fn ledger_after(before: Accounts, outcome: OracleOutcome) -> Accounts {
    match outcome {
        OracleOutcome::Success(accounts) => apply_deltas_spec(before, keyed_views(accounts@)),
        OracleOutcome::Failure(_) => before,
    }
}

/// What a checkpoint that needs the instruction to succeed reports where it
/// failed, and otherwise what `inspection` found in the ledger.
pub open spec fn after_success(outcome: OracleOutcome, inspection: Result<(), Failure>) -> Result<
    (),
    Failure,
> {
    match outcome {
        OracleOutcome::Success(_) => inspection,
        OracleOutcome::Failure(diagnostic) => Err(Failure::Execution(diagnostic@)),
    }
}

/// What a checkpoint that needs the instruction to fail reports: success
/// where the oracle refused, and the given mismatch where it did not.
pub open spec fn after_refusal(outcome: OracleOutcome, accepted: Seq<char>) -> Result<
    (),
    Failure,
> {
    match outcome {
        OracleOutcome::Success(_) => Err(Failure::InvalidData(accepted)),
        OracleOutcome::Failure(_) => Ok(()),
    }
}

/// The offer account belongs to the program under test.
pub open spec fn solana_model_inspection(f: SwapFixture) -> Result<(), Failure> {
    match account_at(f.ledger(), f.offer@) {
        Err(e) => Err(e),
        Ok(account) => if account.owner != f.program() {
            Err(Failure::InvalidData("Offer account owner does not match program id"@))
        } else {
            Ok(())
        },
    }
}

/// The vault's mint is token A.
pub open spec fn spl_token_basics_inspection(f: SwapFixture) -> Result<(), Failure> {
    match account_at(f.ledger(), f.vault@) {
        Err(e) => Err(e),
        Ok(account) => match mint_in(account) {
            Err(e) => Err(e),
            Ok(mint) => if mint != f.token_mint_a@ {
                Err(Failure::InvalidData("Vault mint mismatch"@))
            } else {
                Ok(())
            },
        },
    }
}

/// The vault holds the offered amount.
pub open spec fn cpi_transfer_inspection(f: SwapFixture) -> Result<(), Failure> {
    match account_at(f.ledger(), f.vault@) {
        Err(e) => Err(e),
        Ok(account) => match amount_in(account) {
            Err(e) => Err(e),
            Ok(amount) => if amount != f.offered_amount {
                Err(Failure::InvalidData("Vault balance does not match offered amount"@))
            } else {
                Ok(())
            },
        },
    }
}

/// The tokens left in the account under `address`: none where no account is
/// stored there or its data is too short to hold a balance.
pub open spec fn balance_left(ledger: Accounts, address: Seq<u8>) -> u64 {
    match account_at(ledger, address) {
        Err(_) => 0,
        Ok(account) => match amount_in(account) {
            Err(_) => 0,
            Ok(amount) => amount,
        },
    }
}

/// The taker holds the offered amount of token A, the maker the wanted
/// amount of token B, and the vault holds nothing any more.
pub open spec fn token_transfer_inspection(f: SwapFixture) -> Result<(), Failure> {
    match account_at(f.ledger(), f.taker_token_account_a@) {
        Err(e) => Err(e),
        Ok(taker_account) => match account_at(f.ledger(), f.maker_token_account_b@) {
            Err(e) => Err(e),
            Ok(maker_account) => match amount_in(taker_account) {
                Err(e) => Err(e),
                Ok(taker_amount) => match amount_in(maker_account) {
                    Err(e) => Err(e),
                    Ok(maker_amount) => if taker_amount != f.offered_amount || maker_amount
                        != f.wanted_amount || balance_left(f.ledger(), f.vault@) != 0 {
                        Err(Failure::InvalidData("Token balances did not transfer as expected"@))
                    } else {
                        Ok(())
                    },
                },
            },
        },
    }
}

/// The data of the offer account, where it is long enough to decode.
pub open spec fn offer_data_at(f: SwapFixture) -> Result<Seq<u8>, Failure> {
    match account_at(f.ledger(), f.offer@) {
        Err(e) => Err(e),
        Ok(account) => if account.data.len() < 121 {
            Err(Failure::Validation("Offer account data too short"@))
        } else {
            Ok(account.data)
        },
    }
}

/// The offer record names this scenario's id, maker, mints and wanted
/// amount.
pub open spec fn offer_inspection(f: SwapFixture) -> Result<(), Failure> {
    match offer_data_at(f) {
        Err(e) => Err(e),
        Ok(data) => if u64_from_le_bytes(data.subrange(8, 16)) != f.offer_id || data.subrange(
            16,
            48,
        ) != f.maker@ || data.subrange(48, 80) != f.token_mint_a@ || data.subrange(80, 112)
            != f.token_mint_b@ || u64_from_le_bytes(data.subrange(112, 120)) != f.wanted_amount {
            Err(Failure::InvalidData("Offer account data mismatch"@))
        } else {
            Ok(())
        },
    }
}

/// The maker's token A account is empty and the vault holds the offered
/// amount.
pub open spec fn make_offer_inspection(f: SwapFixture) -> Result<(), Failure> {
    match account_at(f.ledger(), f.maker_token_account_a@) {
        Err(e) => Err(e),
        Ok(maker_account) => match account_at(f.ledger(), f.vault@) {
            Err(e) => Err(e),
            Ok(vault_account) => match amount_in(maker_account) {
                Err(e) => Err(e),
                Ok(maker_amount) => match amount_in(vault_account) {
                    Err(e) => Err(e),
                    Ok(vault_amount) => if maker_amount != 0 || vault_amount != f.offered_amount {
                        Err(
                            Failure::InvalidData(
                                "Make offer transfer did not move tokens to vault"@,
                            ),
                        )
                    } else {
                        Ok(())
                    },
                },
            },
        },
    }
}

/// The offer's address and stored bump seed are those derived from the
/// prefix, the maker and the eight bytes of the offer id.
pub open spec fn pda_inspection(f: SwapFixture) -> Result<(), Failure> {
    match offer_data_at(f) {
        Err(e) => Err(e),
        Ok(data) => match program_address(
            offer_seeds(f.maker@, u64_le_bytes(f.offer_id)),
            f.program(),
        ) {
            None => Err(Failure::Derivation),
            Some(expected) => if expected.0 != f.offer@ || data[120] != expected.1 {
                Err(Failure::InvalidData("Offer PDA derivation mismatch"@))
            } else {
                Ok(())
            },
        },
    }
}

/// The vault is owned by the offer and holds token A.
pub open spec fn vault_inspection(f: SwapFixture) -> Result<(), Failure> {
    match account_at(f.ledger(), f.vault@) {
        Err(e) => Err(e),
        Ok(account) => match owner_in(account) {
            Err(e) => Err(e),
            Ok(owner) => match mint_in(account) {
                Err(e) => Err(e),
                Ok(mint) => if owner != f.offer@ || mint != f.token_mint_a@ {
                    Err(Failure::InvalidData("Vault ATA ownership or mint mismatch"@))
                } else {
                    Ok(())
                },
            },
        },
    }
}

/// What every checkpoint does to the fixture: the scenario stays, and the
/// ledger takes in the oracle's answer.
pub open spec fn took_in(before: SwapFixture, after: SwapFixture, outcome: OracleOutcome) -> bool {
    &&& after.wf()
    &&& after.same_scenario(&before)
    &&& after.ledger() == ledger_after(before.ledger(), outcome)
}

/// The account under `address`, as a checkpoint reads it.
pub fn read_account(fixture: &SwapFixture, address: &Address) -> (r: Result<
    AccountRecord,
    CaseError,
>)
    requires
        fixture.wf(),
    ensures
        match r {
            Ok(record) => account_at(fixture.ledger(), address@) == Ok::<AccountView, Failure>(
                record@,
            ),
            Err(e) => account_at(fixture.ledger(), address@) == Err::<AccountView, Failure>(e@),
        },
{
    match fixture.get_account(address) {
        Ok(record) => Ok(record),
        Err(e) => Err(to_case_error(e)),
    }
}

/// The token balance of an account, as a checkpoint reads it.
pub fn read_amount(account: &AccountRecord) -> (r: Result<u64, CaseError>)
    ensures
        match r {
            Ok(amount) => amount_in(account@) == Ok::<u64, Failure>(amount),
            Err(e) => amount_in(account@) == Err::<u64, Failure>(e@),
        },
{
    match token_account_amount(account) {
        Ok(amount) => {
            proof {
                crate::encoding::lemma_u64_le_bytes_of_decoded(account.data@.subrange(64, 72));
            }
            Ok(amount)
        },
        Err(e) => Err(to_case_error_from_context(e)),
    }
}

/// The token owner of an account, as a checkpoint reads it.
pub fn read_owner(account: &AccountRecord) -> (r: Result<Address, CaseError>)
    ensures
        match r {
            Ok(owner) => owner_in(account@) == Ok::<Seq<u8>, Failure>(owner@),
            Err(e) => owner_in(account@) == Err::<Seq<u8>, Failure>(e@),
        },
{
    match token_account_owner(account) {
        Ok(owner) => Ok(owner),
        Err(e) => Err(to_case_error_from_context(e)),
    }
}

/// The mint of an account, as a checkpoint reads it.
pub fn read_mint(account: &AccountRecord) -> (r: Result<Address, CaseError>)
    ensures
        match r {
            Ok(mint) => mint_in(account@) == Ok::<Seq<u8>, Failure>(mint@),
            Err(e) => mint_in(account@) == Err::<Seq<u8>, Failure>(e@),
        },
{
    match token_account_mint(account) {
        Ok(mint) => Ok(mint),
        Err(e) => Err(to_case_error_from_context(e)),
    }
}

/// The tokens left in the account under `address`.
pub fn read_balance_left(fixture: &SwapFixture, address: &Address) -> (r: u64)
    requires
        fixture.wf(),
    ensures
        r == balance_left(fixture.ledger(), address@),
{
    match read_account(fixture, address) {
        Ok(account) => match read_amount(&account) {
            Ok(amount) => amount,
            Err(_) => 0,
        },
        Err(_) => 0,
    }
}

/// The decoded offer record of the fixture, as a checkpoint reads it.
fn read_offer(fixture: &SwapFixture) -> (r: Result<(OfferData, Ghost<Seq<u8>>), CaseError>)
    requires
        fixture.wf(),
    ensures
        match r {
            Ok(pair) => offer_data_at(*fixture) == Ok::<Seq<u8>, Failure>(pair.1@)
                && pair.1@.len() >= 121 && offer_matches(pair.0, pair.1@),
            Err(e) => offer_data_at(*fixture) == Err::<Seq<u8>, Failure>(e@),
        },
{
    let account = match read_account(fixture, &fixture.offer) {
        Ok(account) => account,
        Err(e) => { return Err(e); },
    };
    match offer_data_from_account(&account) {
        Ok(offer) => Ok((offer, Ghost(account.data@))),
        Err(e) => Err(to_case_error_from_context(e)),
    }
}

/// Takes in the oracle's answer; a refusal becomes the checkpoint's failure.
pub fn make_offer_success(fixture: &mut SwapFixture, outcome: OracleOutcome) -> (r: Result<
    (),
    CaseError,
>)
    requires
        old(fixture).wf(),
    ensures
        took_in(*old(fixture), *final(fixture), outcome),
        verdict(r) == after_success(outcome, Ok(())),
{
    match fixture.execute_make_offer(outcome) {
        Ok(()) => Ok(()),
        Err(e) => Err(to_case_error(e)),
    }
}

/// Takes in the oracle's answer to take-offer; a refusal becomes the
/// checkpoint's failure.
pub fn take_offer_success(fixture: &mut SwapFixture, outcome: OracleOutcome) -> (r: Result<
    (),
    CaseError,
>)
    requires
        old(fixture).wf(),
    ensures
        took_in(*old(fixture), *final(fixture), outcome),
        verdict(r) == after_success(outcome, Ok(())),
{
    match fixture.execute_take_offer(outcome) {
        Ok(()) => Ok(()),
        Err(e) => Err(to_case_error(e)),
    }
}

/// The smoke run: the make-offer instruction was submitted, and whatever
/// the oracle answered is accepted.
pub fn run_make_offer_smoke(fixture: &mut SwapFixture, outcome: OracleOutcome) -> (r: Result<
    (),
    CaseError,
>)
    requires
        old(fixture).wf(),
    ensures
        took_in(*old(fixture), *final(fixture), outcome),
        r is Ok,
{
    match fixture.execute_make_offer(outcome) {
        Ok(()) => Ok(()),
        Err(_) => Ok(()),
    }
}

/// Accepts any answer of the oracle to make-offer.
pub fn run_rust_basics_check(fixture: &mut SwapFixture, outcome: OracleOutcome) -> (r: Result<
    (),
    CaseError,
>)
    requires
        old(fixture).wf(),
    ensures
        took_in(*old(fixture), *final(fixture), outcome),
        r is Ok,
{
    run_make_offer_smoke(fixture, outcome)
}

/// Account model: where make-offer succeeded, the offer account must belong
/// to the program under test. A refusal is accepted.
pub fn run_solana_model_check(fixture: &mut SwapFixture, outcome: OracleOutcome) -> (r: Result<
    (),
    CaseError,
>)
    requires
        old(fixture).wf(),
    ensures
        took_in(*old(fixture), *final(fixture), outcome),
        verdict(r) == (match outcome {
            OracleOutcome::Success(_) => solana_model_inspection(*final(fixture)),
            OracleOutcome::Failure(_) => Ok(()),
        }),
{
    match fixture.execute_make_offer(outcome) {
        Ok(()) => {
            let offer_account = match read_account(fixture, &fixture.offer) {
                Ok(account) => account,
                Err(e) => { return Err(e); },
            };
            if !offer_account.owner.same(&fixture.program_id) {
                return Err(CaseError::invalid_data("Offer account owner does not match program id"));
            }
            Ok(())
        },
        Err(_) => Ok(()),
    }
}

/// Token basics: after make-offer, the vault's mint is token A.
pub fn run_spl_token_basics_check(fixture: &mut SwapFixture, outcome: OracleOutcome) -> (r:
    Result<(), CaseError>)
    requires
        old(fixture).wf(),
    ensures
        took_in(*old(fixture), *final(fixture), outcome),
        verdict(r) == after_success(outcome, spl_token_basics_inspection(*final(fixture))),
{
    match make_offer_success(fixture, outcome) {
        Ok(()) => {},
        Err(e) => { return Err(e); },
    }
    let vault_account = match read_account(fixture, &fixture.vault) {
        Ok(account) => account,
        Err(e) => { return Err(e); },
    };
    let vault_mint = match read_mint(&vault_account) {
        Ok(mint) => mint,
        Err(e) => { return Err(e); },
    };
    if !vault_mint.same(&fixture.token_mint_a) {
        return Err(CaseError::invalid_data("Vault mint mismatch"));
    }
    Ok(())
}

/// Transfer into the vault: after make-offer, the vault holds the offered
/// amount.
pub fn run_cpi_transfer_check(fixture: &mut SwapFixture, outcome: OracleOutcome) -> (r: Result<
    (),
    CaseError,
>)
    requires
        old(fixture).wf(),
    ensures
        took_in(*old(fixture), *final(fixture), outcome),
        verdict(r) == after_success(outcome, cpi_transfer_inspection(*final(fixture))),
{
    match make_offer_success(fixture, outcome) {
        Ok(()) => {},
        Err(e) => { return Err(e); },
    }
    let vault_account = match read_account(fixture, &fixture.vault) {
        Ok(account) => account,
        Err(e) => { return Err(e); },
    };
    let vault_amount = match read_amount(&vault_account) {
        Ok(amount) => amount,
        Err(e) => { return Err(e); },
    };
    if vault_amount != fixture.offered_amount {
        return Err(CaseError::invalid_data("Vault balance does not match offered amount"));
    }
    Ok(())
}

/// Settlement: after take-offer, on a fixture that has taken in a
/// successful make-offer, the taker holds the offered amount of token A, the
/// maker the wanted amount of token B, and the vault is empty or gone.
pub fn run_token_transfer_check(fixture: &mut SwapFixture, take_offer: OracleOutcome) -> (r:
    Result<(), CaseError>)
    requires
        old(fixture).wf(),
    ensures
        took_in(*old(fixture), *final(fixture), take_offer),
        verdict(r) == after_success(take_offer, token_transfer_inspection(*final(fixture))),
{
    match take_offer_success(fixture, take_offer) {
        Ok(()) => {},
        Err(e) => { return Err(e); },
    }
    let taker_token_a = match read_account(fixture, &fixture.taker_token_account_a) {
        Ok(account) => account,
        Err(e) => { return Err(e); },
    };
    let maker_token_b = match read_account(fixture, &fixture.maker_token_account_b) {
        Ok(account) => account,
        Err(e) => { return Err(e); },
    };
    let taker_amount = match read_amount(&taker_token_a) {
        Ok(amount) => amount,
        Err(e) => { return Err(e); },
    };
    let maker_amount = match read_amount(&maker_token_b) {
        Ok(amount) => amount,
        Err(e) => { return Err(e); },
    };
    let vault_amount = read_balance_left(fixture, &fixture.vault);
    if taker_amount != fixture.offered_amount || maker_amount != fixture.wanted_amount
        || vault_amount != 0 {
        return Err(CaseError::invalid_data("Token balances did not transfer as expected"));
    }
    Ok(())
}

/// Offer record: after make-offer, the offer account names this scenario's
/// id, maker, mints and wanted amount.
pub fn run_offer_checks(fixture: &mut SwapFixture, outcome: OracleOutcome) -> (r: Result<
    (),
    CaseError,
>)
    requires
        old(fixture).wf(),
    ensures
        took_in(*old(fixture), *final(fixture), outcome),
        verdict(r) == after_success(outcome, offer_inspection(*final(fixture))),
{
    match make_offer_success(fixture, outcome) {
        Ok(()) => {},
        Err(e) => { return Err(e); },
    }
    let offer = match read_offer(fixture) {
        Ok(pair) => pair.0,
        Err(e) => { return Err(e); },
    };
    proof {
        let data = offer_data_at(*fixture)->Ok_0;
        crate::encoding::lemma_u64_le_bytes_of_decoded(data.subrange(8, 16));
        crate::encoding::lemma_u64_le_bytes_of_decoded(data.subrange(112, 120));
    }
    if offer.id != fixture.offer_id || !offer.maker.same(&fixture.maker)
        || !offer.token_mint_a.same(&fixture.token_mint_a) || !offer.token_mint_b.same(
        &fixture.token_mint_b,
    ) || offer.token_b_wanted_amount != fixture.wanted_amount {
        return Err(CaseError::invalid_data("Offer account data mismatch"));
    }
    Ok(())
}

/// Deposit: after make-offer, the maker's token A account is empty and the
/// vault holds the offered amount.
pub fn run_make_offer_checks(fixture: &mut SwapFixture, outcome: OracleOutcome) -> (r: Result<
    (),
    CaseError,
>)
    requires
        old(fixture).wf(),
    ensures
        took_in(*old(fixture), *final(fixture), outcome),
        verdict(r) == after_success(outcome, make_offer_inspection(*final(fixture))),
{
    match make_offer_success(fixture, outcome) {
        Ok(()) => {},
        Err(e) => { return Err(e); },
    }
    let maker_token_account = match read_account(fixture, &fixture.maker_token_account_a) {
        Ok(account) => account,
        Err(e) => { return Err(e); },
    };
    let vault_account = match read_account(fixture, &fixture.vault) {
        Ok(account) => account,
        Err(e) => { return Err(e); },
    };
    let maker_amount = match read_amount(&maker_token_account) {
        Ok(amount) => amount,
        Err(e) => { return Err(e); },
    };
    let vault_amount = match read_amount(&vault_account) {
        Ok(amount) => amount,
        Err(e) => { return Err(e); },
    };
    if maker_amount != 0 || vault_amount != fixture.offered_amount {
        return Err(CaseError::invalid_data("Make offer transfer did not move tokens to vault"));
    }
    Ok(())
}

/// Settlement, under its other name.
pub fn run_take_offer_checks(fixture: &mut SwapFixture, take_offer: OracleOutcome) -> (r: Result<
    (),
    CaseError,
>)
    requires
        old(fixture).wf(),
    ensures
        took_in(*old(fixture), *final(fixture), take_offer),
        verdict(r) == after_success(take_offer, token_transfer_inspection(*final(fixture))),
{
    run_token_transfer_check(fixture, take_offer)
}

/// Derivation: after make-offer, the offer's address and its stored bump
/// seed are the derived ones.
pub fn run_pda_checks(fixture: &mut SwapFixture, outcome: OracleOutcome) -> (r: Result<
    (),
    CaseError,
>)
    requires
        old(fixture).wf(),
    ensures
        took_in(*old(fixture), *final(fixture), outcome),
        verdict(r) == after_success(outcome, pda_inspection(*final(fixture))),
{
    match make_offer_success(fixture, outcome) {
        Ok(()) => {},
        Err(e) => { return Err(e); },
    }
    let offer = match read_offer(fixture) {
        Ok(pair) => pair.0,
        Err(e) => { return Err(e); },
    };
    let seeds = offer_seed_list(&fixture.maker, u64_to_le(fixture.offer_id));
    let (expected_offer, bump) = match create_pda(&seeds, &fixture.program_id) {
        Ok(pair) => pair,
        Err(_) => { return Err(to_case_error(crate::fixture::derivation_failed())); },
    };
    if !expected_offer.same(&fixture.offer) || offer.bump != bump {
        return Err(CaseError::invalid_data("Offer PDA derivation mismatch"));
    }
    Ok(())
}

/// Vault: after make-offer, the vault is owned by the offer and holds
/// token A.
pub fn run_vault_checks(fixture: &mut SwapFixture, outcome: OracleOutcome) -> (r: Result<
    (),
    CaseError,
>)
    requires
        old(fixture).wf(),
    ensures
        took_in(*old(fixture), *final(fixture), outcome),
        verdict(r) == after_success(outcome, vault_inspection(*final(fixture))),
{
    match make_offer_success(fixture, outcome) {
        Ok(()) => {},
        Err(e) => { return Err(e); },
    }
    let vault_account = match read_account(fixture, &fixture.vault) {
        Ok(account) => account,
        Err(e) => { return Err(e); },
    };
    let vault_owner = match read_owner(&vault_account) {
        Ok(owner) => owner,
        Err(e) => { return Err(e); },
    };
    let vault_mint = match read_mint(&vault_account) {
        Ok(mint) => mint,
        Err(e) => { return Err(e); },
    };
    if !vault_owner.same(&fixture.offer) || !vault_mint.same(&fixture.token_mint_a) {
        return Err(CaseError::invalid_data("Vault ATA ownership or mint mismatch"));
    }
    Ok(())
}

/// Access control: the take-offer instruction with an impostor in the
/// maker's place, submitted on a fixture that has taken in a successful
/// make-offer, must be refused.
pub fn run_security_checks(fixture: &mut SwapFixture, impostor_take_offer: OracleOutcome) -> (r:
    Result<(), CaseError>)
    requires
        old(fixture).wf(),
    ensures
        took_in(*old(fixture), *final(fixture), impostor_take_offer),
        verdict(r) == after_refusal(
            impostor_take_offer,
            "Security check failed: invalid maker accepted"@,
        ),
{
    match fixture.execute(impostor_take_offer) {
        Ok(()) => Err(CaseError::invalid_data("Security check failed: invalid maker accepted")),
        Err(_) => Ok(()),
    }
}

/// The scenario in which the maker holds nothing of what it offers.
pub fn error_scenario(context: SwapTestContext, programs: AmbientPrograms) -> (r: Result<
    SwapFixture,
    TestContextError,
>)
    requires
        context.wf(),
    ensures
        match r {
            Ok(fixture) => fixture.built_on(context, programs, 1_000_000, 1_000_000, 0, 1_000_000, 6),
            Err(e) => e == TestContextError::DerivationExhausted,
        },
{
    SwapFixture::new_with_amounts(context, programs, 1_000_000, 1_000_000, 0, 1_000_000, 6)
}

/// Insufficient funds: make-offer by a maker who holds nothing must be
/// refused, and the refusal leaves the ledger as it was.
pub fn run_error_checks(fixture: &mut SwapFixture, outcome: OracleOutcome) -> (r: Result<
    (),
    CaseError,
>)
    requires
        old(fixture).wf(),
    ensures
        took_in(*old(fixture), *final(fixture), outcome),
        verdict(r) == after_refusal(
            outcome,
            "Expected make_offer to fail with insufficient funds"@,
        ),
        outcome is Failure ==> final(fixture).ledger() == old(fixture).ledger(),
{
    match fixture.execute_make_offer(outcome) {
        Ok(()) => Err(
            CaseError::invalid_data("Expected make_offer to fail with insufficient funds"),
        ),
        Err(_) => Ok(()),
    }
}

/// Transfer into the vault, under its other name.
pub fn run_cpi_checks(fixture: &mut SwapFixture, outcome: OracleOutcome) -> (r: Result<
    (),
    CaseError,
>)
    requires
        old(fixture).wf(),
    ensures
        took_in(*old(fixture), *final(fixture), outcome),
        verdict(r) == after_success(outcome, cpi_transfer_inspection(*final(fixture))),
{
    run_cpi_transfer_check(fixture, outcome)
}

/// Settlement, under its third name.
pub fn run_testing_checks(fixture: &mut SwapFixture, take_offer: OracleOutcome) -> (r: Result<
    (),
    CaseError,
>)
    requires
        old(fixture).wf(),
    ensures
        took_in(*old(fixture), *final(fixture), take_offer),
        verdict(r) == after_success(take_offer, token_transfer_inspection(*final(fixture))),
{
    run_token_transfer_check(fixture, take_offer)
}

/// Where the deposit checkpoint accepts a ledger, the maker's token A
/// account is empty in it and the vault holds exactly the offered amount.
pub proof fn lemma_deposit_accepted(f: SwapFixture)
    requires
        make_offer_inspection(f) is Ok,
    ensures
        f.ledger().contains_key(f.maker_token_account_a@),
        f.ledger().contains_key(f.vault@),
        amount_in(f.ledger()[f.maker_token_account_a@]) == Ok::<u64, Failure>(0),
        amount_in(f.ledger()[f.vault@]) == Ok::<u64, Failure>(f.offered_amount),
{
}

/// Where the settlement checkpoint accepts a ledger, the taker holds
/// exactly the offered amount of token A in it, the maker exactly the
/// wanted amount of token B, and the vault no tokens.
pub proof fn lemma_settlement_accepted(f: SwapFixture)
    requires
        token_transfer_inspection(f) is Ok,
    ensures
        f.ledger().contains_key(f.taker_token_account_a@),
        f.ledger().contains_key(f.maker_token_account_b@),
        amount_in(f.ledger()[f.taker_token_account_a@]) == Ok::<u64, Failure>(f.offered_amount),
        amount_in(f.ledger()[f.maker_token_account_b@]) == Ok::<u64, Failure>(f.wanted_amount),
        balance_left(f.ledger(), f.vault@) == 0,
{
}

/// In a scenario whose maker starts with exactly what it offers, a deposit
/// that the checkpoint accepts has moved the whole amount: the maker's
/// balance went from the offered amount to nothing, and the vault, which
/// held no tokens, holds the offered amount. The scenario's token accounts,
/// offer and vault are taken to lie at different addresses.
pub proof fn lemma_accepted_deposit_conserves(
    before: SwapFixture,
    after: SwapFixture,
    context: SwapTestContext,
    programs: AmbientPrograms,
    wanted_amount: u64,
    taker_balance_b: u64,
    decimals: u8,
)
    requires
        before.built_on(
            context,
            programs,
            before.offered_amount,
            wanted_amount,
            before.offered_amount,
            taker_balance_b,
            decimals,
        ),
        after.same_scenario(&before),
        make_offer_inspection(after) is Ok,
        before.maker_token_account_a@ != before.maker_token_account_b@,
        before.maker_token_account_a@ != before.taker_token_account_a@,
        before.maker_token_account_a@ != before.taker_token_account_b@,
        before.maker_token_account_a@ != before.offer@,
        before.maker_token_account_a@ != before.vault@,
    ensures
        amount_in(before.ledger()[before.maker_token_account_a@]) == Ok::<u64, Failure>(
            before.offered_amount,
        ),
        before.ledger()[before.vault@].data.len() == 0,
        amount_in(after.ledger()[after.maker_token_account_a@]) == Ok::<u64, Failure>(0),
        amount_in(after.ledger()[after.vault@]) == Ok::<u64, Failure>(before.offered_amount),
{
    crate::token::lemma_token_account_layout_fields(
        before.token_mint_a@,
        before.maker@,
        before.offered_amount,
    );
    lemma_deposit_accepted(after);
}

} // verus!
