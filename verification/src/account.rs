//! Account records: the unit of simulated on-chain state.

use crate::address::Address;
use vstd::prelude::*;

verus! {

/// One simulated account: who owns it, what it holds.
#[derive(Debug)]
pub struct AccountRecord {
    pub lamports: u64,
    pub data: Vec<u8>,
    pub owner: Address,
    pub executable: bool,
    pub rent_epoch: u64,
}

/// The mathematical value of an account record.
pub struct AccountView {
    pub lamports: u64,
    pub data: Seq<u8>,
    pub owner: Seq<u8>,
    pub executable: bool,
    pub rent_epoch: u64,
}

impl View for AccountRecord {
    type V = AccountView;

    open spec fn view(&self) -> AccountView {
        AccountView {
            lamports: self.lamports,
            data: self.data@,
            owner: self.owner@,
            executable: self.executable,
            rent_epoch: self.rent_epoch,
        }
    }
}

/// An account record together with the address it is stored under.
#[derive(Debug)]
pub struct KeyedAccount {
    pub address: Address,
    pub account: AccountRecord,
}

impl View for KeyedAccount {
    type V = (Seq<u8>, AccountView);

    open spec fn view(&self) -> (Seq<u8>, AccountView) {
        (self.address@, self.account@)
    }
}

/// The value of an account that holds nothing and belongs to the system
/// program, whose address is all zero.
pub open spec fn empty_system_account_view() -> AccountView {
    AccountView {
        lamports: 0,
        data: Seq::empty(),
        owner: Seq::new(32, |i: int| 0u8),
        executable: false,
        rent_epoch: 0,
    }
}

/// The value of a system-owned account that holds `lamports` and no data.
pub open spec fn system_account_view(lamports: u64) -> AccountView {
    AccountView { lamports, ..empty_system_account_view() }
}

impl AccountRecord {
    /// An independent copy of the record.
    pub fn duplicate(&self) -> (r: AccountRecord)
        ensures
            r@ == self@,
    {
        let data = self.data.clone();
        assert(data@ =~= self.data@);
        AccountRecord {
            lamports: self.lamports,
            data,
            owner: self.owner,
            executable: self.executable,
            rent_epoch: self.rent_epoch,
        }
    }
}

impl Clone for AccountRecord {
    fn clone(&self) -> (r: AccountRecord)
        ensures
            r@ == self@,
    {
        self.duplicate()
    }
}

impl KeyedAccount {
    /// An independent copy of the pair.
    pub fn duplicate(&self) -> (r: KeyedAccount)
        ensures
            r@ == self@,
    {
        KeyedAccount { address: self.address, account: self.account.duplicate() }
    }
}

impl Clone for KeyedAccount {
    fn clone(&self) -> (r: KeyedAccount)
        ensures
            r@ == self@,
    {
        self.duplicate()
    }
}

/// The system program's address: 32 zero bytes.
pub fn system_program_id() -> (r: Address)
    ensures
        r@ == Seq::new(32, |i: int| 0u8),
{
    Address::zero()
}

/// A system-owned account that holds `lamports` and no data.
pub fn create_system_account(lamports: u64) -> (r: AccountRecord)
    ensures
        r@ == system_account_view(lamports),
{
    AccountRecord {
        lamports,
        data: Vec::new(),
        owner: system_program_id(),
        executable: false,
        rent_epoch: 0,
    }
}

/// A placeholder account: present, system-owned, with no lamports and no
/// data, waiting for a program to initialise it.
pub fn empty_system_account() -> (r: AccountRecord)
    ensures
        r@ == empty_system_account_view(),
{
    create_system_account(0)
}

} // verus!
