//! Instructions: the program to run, the accounts it may touch, and its
//! payload.

use crate::address::Address;
use vstd::prelude::*;

verus! {

/// One account of an instruction, with what the instruction may do to it.
#[derive(Debug, Clone, Copy)]
pub struct AccountMeta {
    pub pubkey: Address,
    pub is_signer: bool,
    pub is_writable: bool,
}

/// The value of an account reference: address, signer flag, writable flag.
pub type MetaView = (Seq<u8>, bool, bool);

impl View for AccountMeta {
    type V = MetaView;

    open spec fn view(&self) -> MetaView {
        (self.pubkey@, self.is_signer, self.is_writable)
    }
}

impl AccountMeta {
    /// A writable account.
    pub fn new(pubkey: Address, is_signer: bool) -> (r: AccountMeta)
        ensures
            r@ == (pubkey@, is_signer, true),
    {
        AccountMeta { pubkey, is_signer, is_writable: true }
    }

    /// A read-only account.
    pub fn new_readonly(pubkey: Address, is_signer: bool) -> (r: AccountMeta)
        ensures
            r@ == (pubkey@, is_signer, false),
    {
        AccountMeta { pubkey, is_signer, is_writable: false }
    }
}

/// An instruction for the execution oracle.
#[derive(Debug)]
pub struct Instruction {
    pub program_id: Address,
    pub accounts: Vec<AccountMeta>,
    pub data: Vec<u8>,
}

/// The mathematical value of an instruction.
pub struct InstructionView {
    pub program_id: Seq<u8>,
    pub accounts: Seq<MetaView>,
    pub data: Seq<u8>,
}

/// The values of a list of account references.
pub open spec fn meta_views(s: Seq<AccountMeta>) -> Seq<MetaView> {
    Seq::new(s.len(), |i: int| s[i]@)
}

impl View for Instruction {
    type V = InstructionView;

    open spec fn view(&self) -> InstructionView {
        InstructionView {
            program_id: self.program_id@,
            accounts: meta_views(self.accounts@),
            data: self.data@,
        }
    }
}

impl Instruction {
    /// Puts `meta` in place of the account at `index`, leaving the rest of
    /// the instruction as it is. An index past the last account changes
    /// nothing and is answered with `false`.
    pub fn substitute_account(&mut self, index: usize, meta: AccountMeta) -> (r: bool)
        ensures
            r == (index < old(self)@.accounts.len()),
            r ==> final(self)@ == (InstructionView {
                accounts: old(self)@.accounts.update(index as int, meta@),
                ..old(self)@
            }),
            !r ==> final(self)@ == old(self)@,
    {
        if index < self.accounts.len() {
            self.accounts[index] = meta;
            assert(meta_views(self.accounts@) =~= meta_views(old(self).accounts@).update(
                index as int,
                meta@,
            ));
            true
        } else {
            false
        }
    }
}

/// An instruction for `program_id` with the given payload and accounts.
pub fn create_swap_instruction(program_id: Address, data: Vec<u8>, accounts: Vec<AccountMeta>) -> (r:
    Instruction)
    ensures
        r@ == (InstructionView {
            program_id: program_id@,
            accounts: meta_views(accounts@),
            data: data@,
        }),
{
    Instruction { program_id, accounts, data }
}

} // verus!
