//! The test context: the ledger of one run, and the boundary to the
//! execution oracle.

use crate::account::create_system_account;
use crate::account::system_account_view;
use crate::account::AccountRecord;
use crate::account::AccountView;
use crate::account::KeyedAccount;
use crate::address::Address;
use crate::encoding::u64_le_bytes;
use crate::encoding::u64_to_le;
use crate::error::TestContextError;
use crate::ledger::apply_deltas_spec;
use crate::ledger::keyed_views;
use crate::ledger::Ledger;
use crate::ledger::Listing;
use crate::token::rent_minimum_balance;
use crate::token::token_program_account_view;
use crate::token::token_program_id;
use crate::token::zeros;
use solana_pubkey::Pubkey;
use vstd::prelude::*;

verus! {

/// What the execution oracle answered to one instruction.
#[derive(Debug)]
pub enum OracleOutcome {
    /// The program ran; these are the accounts as it left them.
    Success(Vec<KeyedAccount>),
    /// The program failed; this is the oracle's diagnostic.
    Failure(String),
}

/// The data of a token account written by hand: mint, owner and
/// little-endian amount in an 82-byte buffer that is zero elsewhere.
pub open spec fn plain_token_data(owner: Seq<u8>, mint: Seq<u8>, amount: u64) -> Seq<u8> {
    mint + owner + u64_le_bytes(amount) + zeros(10)
}

/// The state of accounts during one run, and the program under test.
pub struct SwapTestContext {
    accounts: Ledger,
    program_id: Address,
}

impl View for SwapTestContext {
    type V = Map<Seq<u8>, AccountView>;

    closed spec fn view(&self) -> Map<Seq<u8>, AccountView> {
        self.accounts@
    }
}

/// Calls `solana_pubkey::Pubkey::new_unique`, which counts up a process-wide
/// counter. Nothing is claimed of the address it returns.
#[verifier::external_body]
pub(crate) fn new_unique_address() -> (r: Address) {
    Address { bytes: Pubkey::new_unique().to_bytes() }
}

impl SwapTestContext {
    /// The context's ledger holds each address once.
    pub closed spec fn wf(&self) -> bool {
        self.accounts.wf()
    }

    /// The address of the program under test.
    pub closed spec fn program(&self) -> Seq<u8> {
        self.program_id@
    }

    /// The stored pairs, as the oracle is handed them.
    pub closed spec fn listing(&self) -> Listing {
        self.accounts.listing()
    }

    /// A context for `program_id` with no accounts.
    pub fn new(program_id: Address) -> (r: Result<SwapTestContext, TestContextError>)
        ensures
            r matches Ok(context) && context.wf() && context.program() == program_id@
                && context@ == Map::<Seq<u8>, AccountView>::empty(),
    {
        Ok(SwapTestContext { accounts: Ledger::new(), program_id })
    }

    /// The address of the program under test.
    pub fn program_id(&self) -> (r: Address)
        ensures
            r@ == self.program(),
    {
        self.program_id
    }

    /// Stores an account, replacing what was stored under the address.
    pub fn add_account(&mut self, pubkey: Address, account: AccountRecord)
        requires
            old(self).wf(),
        ensures
            final(self).wf(),
            final(self).program() == old(self).program(),
            final(self)@ == old(self)@.insert(pubkey@, account@),
    {
        self.accounts.put(pubkey, account);
    }

    /// A copy of the account stored under `pubkey`, if any.
    pub fn get_account(&self, pubkey: &Address) -> (r: Option<AccountRecord>)
        requires
            self.wf(),
        ensures
            match r {
                Some(record) => self@.contains_key(pubkey@) && record@ == self@[pubkey@],
                None => !self@.contains_key(pubkey@),
            },
    {
        self.accounts.get(pubkey)
    }

    /// Copies of all accounts, each address once: the snapshot that goes to
    /// the oracle with an instruction.
    pub fn get_account_list(&self) -> (r: Vec<KeyedAccount>)
        requires
            self.wf(),
        ensures
            keyed_views(r@) == self.listing(),
            crate::ledger::listing_map(self.listing()) == self@,
            crate::ledger::distinct_addresses(self.listing()),
    {
        proof {
            self.accounts.lemma_view_of_listing();
        }
        self.accounts.snapshot_all()
    }

    /// Takes in the oracle's answer to an instruction. On success every
    /// returned account is stored, in order. On failure the ledger stays as
    /// it was and the diagnostic comes back as an execution error.
    pub fn execute_instruction(&mut self, outcome: OracleOutcome) -> (r: Result<
        (),
        TestContextError,
    >)
        requires
            old(self).wf(),
        ensures
            final(self).wf(),
            final(self).program() == old(self).program(),
            match outcome {
                OracleOutcome::Success(accounts) => r is Ok && final(self)@ == apply_deltas_spec(
                    old(self)@,
                    keyed_views(accounts@),
                ),
                OracleOutcome::Failure(diagnostic) => r matches Err(e) && e.is_execution(
                    diagnostic@,
                ) && final(self)@ == old(self)@,
            },
    {
        match outcome {
            OracleOutcome::Success(accounts) => {
                self.accounts.apply_deltas(&accounts);
                Ok(())
            },
            OracleOutcome::Failure(diagnostic) => Err(
                TestContextError::ExecutionError(diagnostic),
            ),
        }
    }

    /// Stores a system-owned account with `lamports` under a fresh address,
    /// and returns the address.
    pub fn create_funded_account(&mut self, lamports: u64) -> (r: Address)
        requires
            old(self).wf(),
        ensures
            final(self).wf(),
            final(self).program() == old(self).program(),
            final(self)@ == old(self)@.insert(r@, system_account_view(lamports)),
    {
        let pubkey = new_unique_address();
        self.add_account(pubkey, create_system_account(lamports));
        pubkey
    }

    /// Stores a token account written by hand under a fresh address, and
    /// returns the address.
    pub fn create_token_account(&mut self, owner: Address, mint: Address, amount: u64) -> (r:
        Address)
        requires
            old(self).wf(),
        ensures
            final(self).wf(),
            final(self).program() == old(self).program(),
            final(self)@ == old(self)@.insert(
                r@,
                token_program_account_view(plain_token_data(owner@, mint@, amount)),
            ),
    {
        let pubkey = new_unique_address();
        let mut data: Vec<u8> = mint.to_vec();
        let owner_bytes = owner.to_vec();
        data.extend_from_slice(owner_bytes.as_slice());
        let amount_bytes = u64_to_le(amount);
        data.extend_from_slice(amount_bytes.as_slice());
        let mut i: usize = 0;
        while i < 10
            invariant
                i <= 10,
                data@ == mint@ + owner@ + u64_le_bytes(amount) + zeros(i as nat),
            decreases 10 - i,
        {
            data.push(0u8);
            assert(zeros(i as nat).push(0u8) =~= zeros((i + 1) as nat));
            assert(data@ =~= mint@ + owner@ + u64_le_bytes(amount) + zeros((i + 1) as nat));
            i += 1;
        }
        assert(data@.len() == 82);
        let account = AccountRecord {
            lamports: rent_minimum_balance(data.len()),
            data,
            owner: token_program_id(),
            executable: false,
            rent_epoch: 0,
        };
        self.add_account(pubkey, account);
        pubkey
    }
}

impl Default for SwapTestContext {
    /// A context without accounts, for a program with a fresh address.
    fn default() -> (r: SwapTestContext)
        ensures
            r.wf(),
            r@ == Map::<Seq<u8>, AccountView>::empty(),
    {
        SwapTestContext { accounts: Ledger::new(), program_id: new_unique_address() }
    }
}

} // verus!
