//! The canonical scenario: two actors, two mints, one offer and its vault.

use crate::account::empty_system_account;
use crate::account::empty_system_account_view;
use crate::account::system_account_view;
use crate::account::system_program_id;
use crate::account::AccountRecord;
use crate::account::AccountView;
use crate::account::KeyedAccount;
use crate::address::base58_text;
use crate::address::Address;
use crate::codec::build_make_offer_data;
use crate::codec::build_take_offer_data;
use crate::codec::make_offer_payload;
use crate::context::new_unique_address;
use crate::context::OracleOutcome;
use crate::context::SwapTestContext;
use crate::digest::discriminator_of;
use crate::encoding::u64_le_bytes;
use crate::encoding::u64_to_le;
use crate::error::TestContextError;
use crate::instruction::create_swap_instruction;
use crate::instruction::AccountMeta;
use crate::instruction::Instruction;
use crate::instruction::InstructionView;
use crate::ledger::apply_deltas_spec;
use crate::ledger::keyed_views;
use crate::pda::create_pda;
use crate::pda::program_address;
use crate::pda::seed_list;
use crate::token::associated_token_address;
use crate::token::create_account_for_mint;
use crate::token::create_account_for_token_account;
use crate::token::mint_layout;
use crate::token::plain_mint;
use crate::token::plain_token_account;
use crate::token::program_address_of;
use crate::token::token_account_layout;
use crate::token::token_program_account_view;
use crate::token::zeros;
use vstd::prelude::*;
use vstd::string::StringSliceAdditionalSpecFns;

verus! {

/// Units of token A that the maker offers unless told otherwise.
pub const DEFAULT_OFFERED_AMOUNT: u64 = 1_000_000;

/// Units of token B that the maker wants unless told otherwise.
pub const DEFAULT_WANTED_AMOUNT: u64 = 1_000_000;

/// Decimal places of both mints unless told otherwise.
pub const DEFAULT_MINT_DECIMALS: u8 = 6;

/// Lamports that each actor starts with.
pub const ACTOR_LAMPORTS: u64 = 1_000_000_000;

/// The identifier of the scenario's one offer.
pub const SCENARIO_OFFER_ID: u64 = 1;

/// The first seed of every offer address: the bytes of `offer`.
pub open spec fn offer_seed_prefix() -> Seq<u8> {
    seq![111u8, 102u8, 102u8, 101u8, 114u8]
}

/// The seeds of an offer address: the prefix, the maker, the identifier's
/// bytes.
pub open spec fn offer_seeds(maker: Seq<u8>, id_seed: Seq<u8>) -> Seq<Seq<u8>> {
    seq![offer_seed_prefix(), maker, id_seed]
}

/// The programs that every scenario needs, each with its address: the
/// system program, the token program, the associated-token-account program.
#[derive(Debug)]
pub struct AmbientPrograms {
    pub system: KeyedAccount,
    pub token: KeyedAccount,
    pub associated_token: KeyedAccount,
}

/// The addresses that all derived addresses of a scenario come from.
pub struct ScenarioRoots {
    pub program: Seq<u8>,
    pub maker: Seq<u8>,
    pub taker: Seq<u8>,
    pub token_mint_a: Seq<u8>,
    pub token_mint_b: Seq<u8>,
    pub token_program: Seq<u8>,
}

/// The address of the scenario's offer, where it can be derived.
pub open spec fn offer_address_of(roots: ScenarioRoots) -> Option<(Seq<u8>, u8)> {
    program_address(
        offer_seeds(roots.maker, u64_le_bytes(SCENARIO_OFFER_ID)),
        roots.program,
    )
}

/// Can all seven addresses of a scenario be derived: the four token
/// accounts, the offer, and the offer's vault?
pub open spec fn derivable(roots: ScenarioRoots) -> bool {
    &&& program_address_of(roots.maker, roots.token_mint_a, roots.token_program) is Some
    &&& program_address_of(roots.maker, roots.token_mint_b, roots.token_program) is Some
    &&& program_address_of(roots.taker, roots.token_mint_a, roots.token_program) is Some
    &&& program_address_of(roots.taker, roots.token_mint_b, roots.token_program) is Some
    &&& offer_address_of(roots) matches Some(offer) && program_address_of(
        offer.0,
        roots.token_mint_a,
        roots.token_program,
    ) is Some
}

/// The canonical swap scenario after it was built.
pub struct SwapFixture {
    pub context: SwapTestContext,
    pub program_id: Address,
    pub maker: Address,
    pub taker: Address,
    pub token_mint_a: Address,
    pub token_mint_b: Address,
    pub maker_token_account_a: Address,
    pub maker_token_account_b: Address,
    pub taker_token_account_a: Address,
    pub taker_token_account_b: Address,
    pub offer_id: u64,
    pub offer: Address,
    pub vault: Address,
    pub token_program: Address,
    pub associated_token_program: Address,
    pub offered_amount: u64,
    pub wanted_amount: u64,
    pub decimals_a: u8,
}

impl SwapFixture {
    /// The fixture's ledger holds each address once.
    pub open spec fn wf(&self) -> bool {
        self.context.wf()
    }

    /// The accounts of the scenario, by address.
    pub open spec fn ledger(&self) -> Map<Seq<u8>, AccountView> {
        self.context@
    }

    /// The address of the program under test.
    pub open spec fn program(&self) -> Seq<u8> {
        self.program_id@
    }

    /// The addresses that the scenario's derived addresses come from.
    pub open spec fn roots(&self) -> ScenarioRoots {
        ScenarioRoots {
            program: self.program(),
            maker: self.maker@,
            taker: self.taker@,
            token_mint_a: self.token_mint_a@,
            token_mint_b: self.token_mint_b@,
            token_program: self.token_program@,
        }
    }

    /// Every derived address of the fixture is the one that its roots give.
    pub open spec fn addresses_derived(&self) -> bool {
        let roots = self.roots();
        &&& program_address_of(roots.maker, roots.token_mint_a, roots.token_program) matches Some(
            p,
        ) && p.0 == self.maker_token_account_a@
        &&& program_address_of(roots.maker, roots.token_mint_b, roots.token_program) matches Some(
            p,
        ) && p.0 == self.maker_token_account_b@
        &&& program_address_of(roots.taker, roots.token_mint_a, roots.token_program) matches Some(
            p,
        ) && p.0 == self.taker_token_account_a@
        &&& program_address_of(roots.taker, roots.token_mint_b, roots.token_program) matches Some(
            p,
        ) && p.0 == self.taker_token_account_b@
        &&& offer_address_of(roots) matches Some(p) && p.0 == self.offer@
        &&& program_address_of(self.offer@, roots.token_mint_a, roots.token_program) matches Some(
            p,
        ) && p.0 == self.vault@
    }

    /// The ledger of a freshly built scenario: onto `base` come the three
    /// programs, the two funded actors, the two mints, the four token
    /// accounts, and the empty placeholders for offer and vault, in this
    /// order.
    pub open spec fn initial_ledger(
        &self,
        base: Map<Seq<u8>, AccountView>,
        programs: AmbientPrograms,
        maker_balance_a: u64,
        taker_balance_b: u64,
    ) -> Map<Seq<u8>, AccountView> {
        base.insert(programs.system.address@, programs.system.account@).insert(
            programs.token.address@,
            programs.token.account@,
        ).insert(programs.associated_token.address@, programs.associated_token.account@).insert(
            self.maker@,
            system_account_view(ACTOR_LAMPORTS),
        ).insert(self.taker@, system_account_view(ACTOR_LAMPORTS)).insert(
            self.token_mint_a@,
            token_program_account_view(mint_layout(self.maker@, maker_balance_a, self.decimals_a)),
        ).insert(
            self.token_mint_b@,
            token_program_account_view(mint_layout(self.taker@, taker_balance_b, self.decimals_a)),
        ).insert(
            self.maker_token_account_a@,
            token_program_account_view(
                token_account_layout(self.token_mint_a@, self.maker@, maker_balance_a),
            ),
        ).insert(
            self.maker_token_account_b@,
            token_program_account_view(token_account_layout(self.token_mint_b@, self.maker@, 0)),
        ).insert(
            self.taker_token_account_a@,
            token_program_account_view(token_account_layout(self.token_mint_a@, self.taker@, 0)),
        ).insert(
            self.taker_token_account_b@,
            token_program_account_view(
                token_account_layout(self.token_mint_b@, self.taker@, taker_balance_b),
            ),
        ).insert(self.offer@, empty_system_account_view()).insert(
            self.vault@,
            empty_system_account_view(),
        )
    }

    /// The thirteen addresses under which a fresh scenario stores its
    /// accounts, in the order they are stored.
    pub open spec fn scenario_addresses(&self, programs: AmbientPrograms) -> Seq<Seq<u8>> {
        seq![
            programs.system.address@,
            programs.token.address@,
            programs.associated_token.address@,
            self.maker@,
            self.taker@,
            self.token_mint_a@,
            self.token_mint_b@,
            self.maker_token_account_a@,
            self.maker_token_account_b@,
            self.taker_token_account_a@,
            self.taker_token_account_b@,
            self.offer@,
            self.vault@,
        ]
    }

    /// Does the ledger hold, under each of the scenario's addresses, the
    /// account that a fresh scenario stores there, and everywhere else what
    /// `base` held?
    pub open spec fn holds_fresh_accounts(
        &self,
        base: Map<Seq<u8>, AccountView>,
        programs: AmbientPrograms,
        maker_balance_a: u64,
        taker_balance_b: u64,
    ) -> bool {
        let l = self.ledger();
        &&& forall|i: int|
            0 <= i < 13 ==> l.contains_key(#[trigger] self.scenario_addresses(programs)[i])
        &&& l[programs.system.address@] == programs.system.account@
        &&& l[programs.token.address@] == programs.token.account@
        &&& l[programs.associated_token.address@] == programs.associated_token.account@
        &&& l[self.maker@] == system_account_view(ACTOR_LAMPORTS)
        &&& l[self.taker@] == system_account_view(ACTOR_LAMPORTS)
        &&& l[self.token_mint_a@] == token_program_account_view(
            mint_layout(self.maker@, maker_balance_a, self.decimals_a),
        )
        &&& l[self.token_mint_b@] == token_program_account_view(
            mint_layout(self.taker@, taker_balance_b, self.decimals_a),
        )
        &&& l[self.maker_token_account_a@] == token_program_account_view(
            token_account_layout(self.token_mint_a@, self.maker@, maker_balance_a),
        )
        &&& l[self.maker_token_account_b@] == token_program_account_view(
            token_account_layout(self.token_mint_b@, self.maker@, 0),
        )
        &&& l[self.taker_token_account_a@] == token_program_account_view(
            token_account_layout(self.token_mint_a@, self.taker@, 0),
        )
        &&& l[self.taker_token_account_b@] == token_program_account_view(
            token_account_layout(self.token_mint_b@, self.taker@, taker_balance_b),
        )
        &&& l[self.offer@] == empty_system_account_view()
        &&& l[self.vault@] == empty_system_account_view()
        &&& forall|k: Seq<u8>|
            !self.scenario_addresses(programs).contains(k) ==> (#[trigger] l.contains_key(k)
                == base.contains_key(k) && (base.contains_key(k) ==> l[k] == base[k]))
    }

    /// Is this the scenario built on `context` with the given programs and
    /// amounts?
    pub open spec fn built_on(
        &self,
        context: SwapTestContext,
        programs: AmbientPrograms,
        offered_amount: u64,
        wanted_amount: u64,
        maker_balance_a: u64,
        taker_balance_b: u64,
        decimals: u8,
    ) -> bool {
        &&& self.wf()
        &&& self.program() == context.program()
        &&& self.token_program@ == programs.token.address@
        &&& self.associated_token_program@ == programs.associated_token.address@
        &&& self.offer_id == SCENARIO_OFFER_ID
        &&& self.offered_amount == offered_amount
        &&& self.wanted_amount == wanted_amount
        &&& self.decimals_a == decimals
        &&& self.addresses_derived()
        &&& self.ledger() == self.initial_ledger(
            context@,
            programs,
            maker_balance_a,
            taker_balance_b,
        )
    }

    /// Do two fixtures describe the same scenario, whatever their ledgers
    /// hold?
    pub open spec fn same_scenario(&self, other: &SwapFixture) -> bool {
        &&& self.program() == other.program()
        &&& self.maker == other.maker
        &&& self.taker == other.taker
        &&& self.token_mint_a == other.token_mint_a
        &&& self.token_mint_b == other.token_mint_b
        &&& self.maker_token_account_a == other.maker_token_account_a
        &&& self.maker_token_account_b == other.maker_token_account_b
        &&& self.taker_token_account_a == other.taker_token_account_a
        &&& self.taker_token_account_b == other.taker_token_account_b
        &&& self.offer_id == other.offer_id
        &&& self.offer == other.offer
        &&& self.vault == other.vault
        &&& self.token_program == other.token_program
        &&& self.associated_token_program == other.associated_token_program
        &&& self.offered_amount == other.offered_amount
        &&& self.wanted_amount == other.wanted_amount
        &&& self.decimals_a == other.decimals_a
    }

    /// The accounts of the make-offer instruction, in the order the protocol
    /// fixes.
    pub open spec fn make_offer_accounts(&self) -> Seq<(Seq<u8>, bool, bool)> {
        seq![
            (self.maker@, true, true),
            (self.token_mint_a@, false, false),
            (self.token_mint_b@, false, false),
            (self.maker_token_account_a@, false, true),
            (self.offer@, false, true),
            (self.vault@, false, true),
            (zeros(32), false, false),
            (self.token_program@, false, false),
            (self.associated_token_program@, false, false),
        ]
    }

    /// The accounts of the take-offer instruction, in the order the protocol
    /// fixes.
    pub open spec fn take_offer_accounts(&self) -> Seq<(Seq<u8>, bool, bool)> {
        seq![
            (self.taker@, true, true),
            (self.maker@, false, true),
            (self.token_mint_a@, false, false),
            (self.token_mint_b@, false, false),
            (self.taker_token_account_a@, false, true),
            (self.taker_token_account_b@, false, true),
            (self.maker_token_account_b@, false, true),
            (self.offer@, false, true),
            (self.vault@, false, true),
            (zeros(32), false, false),
            (self.token_program@, false, false),
            (self.associated_token_program@, false, false),
        ]
    }

    /// Builds the scenario with the default amounts: the maker holds and
    /// offers 1,000,000 of token A, the taker holds 1,000,000 of token B,
    /// which is what the maker wants.
    pub fn new_default(context: SwapTestContext, programs: AmbientPrograms) -> (r: Result<
        SwapFixture,
        TestContextError,
    >)
        requires
            context.wf(),
        ensures
            match r {
                Ok(fixture) => fixture.built_on(
                    context,
                    programs,
                    1_000_000,
                    1_000_000,
                    1_000_000,
                    1_000_000,
                    6,
                ),
                Err(e) => e == TestContextError::DerivationExhausted,
            },
    {
        SwapFixture::new_with_amounts(
            context,
            programs,
            DEFAULT_OFFERED_AMOUNT,
            DEFAULT_WANTED_AMOUNT,
            DEFAULT_OFFERED_AMOUNT,
            DEFAULT_WANTED_AMOUNT,
            DEFAULT_MINT_DECIMALS,
        )
    }

    /// Builds the scenario for fresh actors and mints. It fails only where
    /// one of the scenario's addresses cannot be derived.
    pub fn new_with_amounts(
        context: SwapTestContext,
        programs: AmbientPrograms,
        offered_amount: u64,
        wanted_amount: u64,
        maker_balance_a: u64,
        taker_balance_b: u64,
        decimals: u8,
    ) -> (r: Result<SwapFixture, TestContextError>)
        requires
            context.wf(),
        ensures
            match r {
                Ok(fixture) => fixture.built_on(
                    context,
                    programs,
                    offered_amount,
                    wanted_amount,
                    maker_balance_a,
                    taker_balance_b,
                    decimals,
                ),
                Err(e) => e == TestContextError::DerivationExhausted,
            },
    {
        let maker = new_unique_address();
        let taker = new_unique_address();
        let token_mint_a = new_unique_address();
        let token_mint_b = new_unique_address();
        SwapFixture::new_with_addresses(
            context,
            programs,
            maker,
            taker,
            token_mint_a,
            token_mint_b,
            offered_amount,
            wanted_amount,
            maker_balance_a,
            taker_balance_b,
            decimals,
        )
    }

    /// Builds the scenario for given actors and mints. It succeeds exactly
    /// where all of the scenario's addresses can be derived.
    pub fn new_with_addresses(
        context: SwapTestContext,
        programs: AmbientPrograms,
        maker: Address,
        taker: Address,
        token_mint_a: Address,
        token_mint_b: Address,
        offered_amount: u64,
        wanted_amount: u64,
        maker_balance_a: u64,
        taker_balance_b: u64,
        decimals: u8,
    ) -> (r: Result<SwapFixture, TestContextError>)
        requires
            context.wf(),
        ensures
            match r {
                Ok(fixture) => {
                    &&& fixture.maker@ == maker@
                    &&& fixture.taker@ == taker@
                    &&& fixture.token_mint_a@ == token_mint_a@
                    &&& fixture.token_mint_b@ == token_mint_b@
                    &&& derivable(fixture.roots())
                    &&& fixture.built_on(
                        context,
                        programs,
                        offered_amount,
                        wanted_amount,
                        maker_balance_a,
                        taker_balance_b,
                        decimals,
                    )
                },
                Err(e) => {
                    &&& e == TestContextError::DerivationExhausted
                    &&& !derivable(
                        ScenarioRoots {
                            program: context.program(),
                            maker: maker@,
                            taker: taker@,
                            token_mint_a: token_mint_a@,
                            token_mint_b: token_mint_b@,
                            token_program: programs.token.address@,
                        },
                    )
                },
            },
    {
        let program_id = context.program_id();
        let token_program = programs.token.address;
        let associated_token_program = programs.associated_token.address;
        let maker_token_account_a = match associated_token_address(
            &maker,
            &token_mint_a,
            &token_program,
        ) {
            Ok(a) => a,
            Err(_) => { return Err(derivation_failed()); },
        };
        let maker_token_account_b = match associated_token_address(
            &maker,
            &token_mint_b,
            &token_program,
        ) {
            Ok(a) => a,
            Err(_) => { return Err(derivation_failed()); },
        };
        let taker_token_account_a = match associated_token_address(
            &taker,
            &token_mint_a,
            &token_program,
        ) {
            Ok(a) => a,
            Err(_) => { return Err(derivation_failed()); },
        };
        let taker_token_account_b = match associated_token_address(
            &taker,
            &token_mint_b,
            &token_program,
        ) {
            Ok(a) => a,
            Err(_) => { return Err(derivation_failed()); },
        };
        let seeds = offer_seed_list(&maker, u64_to_le(SCENARIO_OFFER_ID));
        let offer = match create_pda(&seeds, &program_id) {
            Ok(pair) => pair.0,
            Err(_) => { return Err(derivation_failed()); },
        };
        let vault = match associated_token_address(&offer, &token_mint_a, &token_program) {
            Ok(a) => a,
            Err(_) => { return Err(derivation_failed()); },
        };

        let mut context = context;
        context.add_account(programs.system.address, programs.system.account);
        context.add_account(programs.token.address, programs.token.account);
        context.add_account(programs.associated_token.address, programs.associated_token.account);
        context.add_account(maker, crate::account::create_system_account(ACTOR_LAMPORTS));
        context.add_account(taker, crate::account::create_system_account(ACTOR_LAMPORTS));
        context.add_account(token_mint_a, create_account_for_mint(plain_mint(maker, maker_balance_a, decimals)));
        context.add_account(token_mint_b, create_account_for_mint(plain_mint(taker, taker_balance_b, decimals)));
        context.add_account(
            maker_token_account_a,
            create_account_for_token_account(plain_token_account(token_mint_a, maker, maker_balance_a)),
        );
        context.add_account(
            maker_token_account_b,
            create_account_for_token_account(plain_token_account(token_mint_b, maker, 0)),
        );
        context.add_account(
            taker_token_account_a,
            create_account_for_token_account(plain_token_account(token_mint_a, taker, 0)),
        );
        context.add_account(
            taker_token_account_b,
            create_account_for_token_account(plain_token_account(token_mint_b, taker, taker_balance_b)),
        );
        context.add_account(offer, empty_system_account());
        context.add_account(vault, empty_system_account());

        Ok(
            SwapFixture {
                context,
                program_id,
                maker,
                taker,
                token_mint_a,
                token_mint_b,
                maker_token_account_a,
                maker_token_account_b,
                taker_token_account_a,
                taker_token_account_b,
                offer_id: SCENARIO_OFFER_ID,
                offer,
                vault,
                token_program,
                associated_token_program,
                offered_amount,
                wanted_amount,
                decimals_a: decimals,
            },
        )
    }

    /// The make-offer instruction of this scenario.
    pub fn make_offer_instruction(&self) -> (r: Instruction)
        ensures
            r@ == (InstructionView {
                program_id: self.program(),
                accounts: self.make_offer_accounts(),
                data: make_offer_payload(
                    discriminator_of("global:make_offer".spec_bytes()),
                    self.offer_id,
                    self.offered_amount,
                    self.wanted_amount,
                ),
            }),
    {
        let data = build_make_offer_data(self.offer_id, self.offered_amount, self.wanted_amount);
        let mut accounts: Vec<AccountMeta> = Vec::new();
        accounts.push(AccountMeta::new(self.maker, true));
        accounts.push(AccountMeta::new_readonly(self.token_mint_a, false));
        accounts.push(AccountMeta::new_readonly(self.token_mint_b, false));
        accounts.push(AccountMeta::new(self.maker_token_account_a, false));
        accounts.push(AccountMeta::new(self.offer, false));
        accounts.push(AccountMeta::new(self.vault, false));
        accounts.push(AccountMeta::new_readonly(system_program_id(), false));
        accounts.push(AccountMeta::new_readonly(self.token_program, false));
        accounts.push(AccountMeta::new_readonly(self.associated_token_program, false));
        assert(crate::instruction::meta_views(accounts@) =~= self.make_offer_accounts());
        create_swap_instruction(self.program_id, data, accounts)
    }

    /// The take-offer instruction of this scenario.
    pub fn take_offer_instruction(&self) -> (r: Instruction)
        ensures
            r@ == (InstructionView {
                program_id: self.program(),
                accounts: self.take_offer_accounts(),
                data: discriminator_of("global:take_offer".spec_bytes()),
            }),
    {
        let data = build_take_offer_data();
        let mut accounts: Vec<AccountMeta> = Vec::new();
        accounts.push(AccountMeta::new(self.taker, true));
        accounts.push(AccountMeta::new(self.maker, false));
        accounts.push(AccountMeta::new_readonly(self.token_mint_a, false));
        accounts.push(AccountMeta::new_readonly(self.token_mint_b, false));
        accounts.push(AccountMeta::new(self.taker_token_account_a, false));
        accounts.push(AccountMeta::new(self.taker_token_account_b, false));
        accounts.push(AccountMeta::new(self.maker_token_account_b, false));
        accounts.push(AccountMeta::new(self.offer, false));
        accounts.push(AccountMeta::new(self.vault, false));
        accounts.push(AccountMeta::new_readonly(system_program_id(), false));
        accounts.push(AccountMeta::new_readonly(self.token_program, false));
        accounts.push(AccountMeta::new_readonly(self.associated_token_program, false));
        assert(crate::instruction::meta_views(accounts@) =~= self.take_offer_accounts());
        create_swap_instruction(self.program_id, data, accounts)
    }

    /// The take-offer instruction with the taker put in the maker's place,
    /// without a signature: what an impostor would submit.
    pub fn impostor_take_offer_instruction(&self) -> (r: Instruction)
        ensures
            r@ == (InstructionView {
                program_id: self.program(),
                accounts: self.take_offer_accounts().update(1, (self.taker@, false, true)),
                data: discriminator_of("global:take_offer".spec_bytes()),
            }),
    {
        let mut instruction = self.take_offer_instruction();
        let replaced = instruction.substitute_account(1, AccountMeta::new(self.taker, false));
        assert(replaced);
        instruction
    }

    /// What a fresh scenario holds: where its thirteen addresses are
    /// pairwise different, each of them holds the account stored for it (the
    /// programs as given, the actors their lamports, the mints their supply,
    /// the token accounts their balances, offer and vault nothing), and every
    /// other address holds what the context held before.
    pub proof fn lemma_fresh_scenario_accounts(
        &self,
        context: SwapTestContext,
        programs: AmbientPrograms,
        offered_amount: u64,
        wanted_amount: u64,
        maker_balance_a: u64,
        taker_balance_b: u64,
        decimals: u8,
    )
        requires
            self.built_on(
                context,
                programs,
                offered_amount,
                wanted_amount,
                maker_balance_a,
                taker_balance_b,
                decimals,
            ),
            self.scenario_addresses(programs).no_duplicates(),
        ensures
            self.holds_fresh_accounts(context@, programs, maker_balance_a, taker_balance_b),
    {
        let s = self.scenario_addresses(programs);
        assert(s.len() == 13);
        assert(s[0] == programs.system.address@);
        assert(s[1] == programs.token.address@);
        assert(s[2] == programs.associated_token.address@);
        assert(s[3] == self.maker@);
        assert(s[4] == self.taker@);
        assert(s[5] == self.token_mint_a@);
        assert(s[6] == self.token_mint_b@);
        assert(s[7] == self.maker_token_account_a@);
        assert(s[8] == self.maker_token_account_b@);
        assert(s[9] == self.taker_token_account_a@);
        assert(s[10] == self.taker_token_account_b@);
        assert(s[11] == self.offer@);
        assert(s[12] == self.vault@);
        let l = self.ledger();
        assert forall|k: Seq<u8>| !s.contains(k) implies (#[trigger] l.contains_key(k)
            == context@.contains_key(k) && (context@.contains_key(k) ==> l[k] == context@[k])) by {
            assert(forall|i: int| 0 <= i < 13 ==> s[i] != k);
            assert(s[0] != k && s[1] != k && s[2] != k && s[3] != k && s[4] != k && s[5] != k
                && s[6] != k && s[7] != k && s[8] != k && s[9] != k && s[10] != k && s[11] != k
                && s[12] != k);
        }
    }

    /// Copies of all accounts of the scenario, for the oracle.
    pub fn get_account_list(&self) -> (r: Vec<KeyedAccount>)
        requires
            self.wf(),
        ensures
            crate::ledger::listing_map(keyed_views(r@)) == self.ledger(),
            crate::ledger::distinct_addresses(keyed_views(r@)),
    {
        self.context.get_account_list()
    }

    /// Takes in the oracle's answer to an instruction of this scenario: the
    /// returned accounts are stored on success, nothing changes on failure.
    pub fn execute(&mut self, outcome: OracleOutcome) -> (r: Result<(), TestContextError>)
        requires
            old(self).wf(),
        ensures
            final(self).wf(),
            final(self).same_scenario(old(self)),
            match outcome {
                OracleOutcome::Success(accounts) => r is Ok && final(self).ledger()
                    == apply_deltas_spec(old(self).ledger(), keyed_views(accounts@)),
                OracleOutcome::Failure(diagnostic) => r matches Err(e) && e.is_execution(
                    diagnostic@,
                ) && final(self).ledger() == old(self).ledger(),
            },
    {
        self.context.execute_instruction(outcome)
    }

    /// Takes in the oracle's answer to the make-offer instruction.
    pub fn execute_make_offer(&mut self, outcome: OracleOutcome) -> (r: Result<
        (),
        TestContextError,
    >)
        requires
            old(self).wf(),
        ensures
            final(self).wf(),
            final(self).same_scenario(old(self)),
            match outcome {
                OracleOutcome::Success(accounts) => r is Ok && final(self).ledger()
                    == apply_deltas_spec(old(self).ledger(), keyed_views(accounts@)),
                OracleOutcome::Failure(diagnostic) => r matches Err(e) && e.is_execution(
                    diagnostic@,
                ) && final(self).ledger() == old(self).ledger(),
            },
    {
        self.execute(outcome)
    }

    /// Takes in the oracle's answer to the take-offer instruction.
    pub fn execute_take_offer(&mut self, outcome: OracleOutcome) -> (r: Result<
        (),
        TestContextError,
    >)
        requires
            old(self).wf(),
        ensures
            final(self).wf(),
            final(self).same_scenario(old(self)),
            match outcome {
                OracleOutcome::Success(accounts) => r is Ok && final(self).ledger()
                    == apply_deltas_spec(old(self).ledger(), keyed_views(accounts@)),
                OracleOutcome::Failure(diagnostic) => r matches Err(e) && e.is_execution(
                    diagnostic@,
                ) && final(self).ledger() == old(self).ledger(),
            },
    {
        self.execute(outcome)
    }

    /// A copy of the account under `pubkey`, or the error that names the
    /// missing address in base-58.
    pub fn get_account(&self, pubkey: &Address) -> (r: Result<AccountRecord, TestContextError>)
        requires
            self.wf(),
        ensures
            match r {
                Ok(record) => self.ledger().contains_key(pubkey@) && record@ == self.ledger()[pubkey@],
                Err(e) => !self.ledger().contains_key(pubkey@) && e.is_not_found(
                    base58_text(pubkey@),
                ),
            },
    {
        match self.context.get_account(pubkey) {
            Some(record) => Ok(record),
            None => Err(TestContextError::AccountNotFound(pubkey.to_text())),
        }
    }

    /// The address of the program under test.
    pub fn program_id(&self) -> (r: Address)
        ensures
            r@ == self.program(),
    {
        self.program_id
    }
}

/// The error of a scenario whose addresses cannot be derived.
pub fn derivation_failed() -> (r: TestContextError)
    ensures
        r == TestContextError::DerivationExhausted,
{
    TestContextError::DerivationExhausted
}

/// The seed list of an offer address.
pub fn offer_seed_list(maker: &Address, id_seed: Vec<u8>) -> (r: Vec<Vec<u8>>)
    ensures
        seed_list(r@) == offer_seeds(maker@, id_seed@),
{
    let mut prefix: Vec<u8> = Vec::new();
    prefix.push(111u8);
    prefix.push(102u8);
    prefix.push(102u8);
    prefix.push(101u8);
    prefix.push(114u8);
    assert(prefix@ =~= offer_seed_prefix());
    let mut seeds: Vec<Vec<u8>> = Vec::new();
    seeds.push(prefix);
    seeds.push(maker.to_vec());
    seeds.push(id_seed);
    assert(seed_list(seeds@) =~= offer_seeds(maker@, id_seed@));
    seeds
}

} // verus!
