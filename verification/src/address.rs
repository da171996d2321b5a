//! 32-byte account addresses.

use solana_pubkey::Pubkey;
use std::str::FromStr;
use vstd::prelude::*;

verus! {

/// The base-58 text of a 32-byte address.
pub uninterp spec fn base58_text(address: Seq<u8>) -> Seq<char>;

/// The address that a base-58 text stands for, or `None` where the text is
/// not the base-58 form of 32 bytes.
pub uninterp spec fn base58_address(text: Seq<char>) -> Option<Seq<u8>>;

/// A 32-byte identifier of an account or a program.
#[derive(Clone, Copy, Debug)]
pub struct Address {
    pub bytes: [u8; 32],
}

impl View for Address {
    type V = Seq<u8>;

    open spec fn view(&self) -> Seq<u8> {
        self.bytes@
    }
}

/// The value of an address that may be missing.
pub open spec fn address_option_view(a: Option<Address>) -> Option<Seq<u8>> {
    match a {
        Some(address) => Some(address@),
        None => None,
    }
}

/// Formats with `solana_pubkey::Pubkey`'s `Display`. Trusted: the text is the
/// base-58 form of the 32 bytes, which depends on them alone.
#[verifier::external_body]
pub(crate) fn address_to_text(address: &Address) -> (r: String)
    ensures
        r@ == base58_text(address@),
{
    Pubkey::new_from_array(address.bytes).to_string()
}

/// Parses with `solana_pubkey::Pubkey::from_str`. Trusted: whether and to
/// which address a text decodes depends on the text alone.
#[verifier::external_body]
pub(crate) fn address_from_text(text: &str) -> (r: Option<Address>)
    ensures
        address_option_view(r) == base58_address(text@),
{
    match Pubkey::from_str(text) {
        Ok(key) => Some(Address { bytes: key.to_bytes() }),
        Err(_) => None,
    }
}

impl Address {
    /// The address in base-58 text.
    pub fn to_text(&self) -> (r: String)
        ensures
            r@ == base58_text(self@),
    {
        address_to_text(self)
    }

    /// Is this the all-zero address?
    pub fn is_zero(&self) -> (r: bool)
        ensures
            r == (self@ == Seq::new(32, |i: int| 0u8)),
    {
        let zero = Address::zero();
        self.same(&zero)
    }

    /// Wraps 32 raw bytes.
    pub fn new_from_array(bytes: [u8; 32]) -> (r: Address)
        ensures
            r@ == bytes@,
            r.bytes == bytes,
    {
        Address { bytes }
    }

    /// The all-zero address, which stands for "not set".
    pub fn zero() -> (r: Address)
        ensures
            r@ == Seq::new(32, |i: int| 0u8),
    {
        let r = Address { bytes: [0u8; 32] };
        assert(r@ =~= Seq::new(32, |i: int| 0u8));
        r
    }

    /// The 32 bytes as a vector.
    pub fn to_vec(&self) -> (r: Vec<u8>)
        ensures
            r@ == self@,
    {
        let mut out: Vec<u8> = Vec::with_capacity(32);
        let mut i: usize = 0;
        while i < 32
            invariant
                i <= 32,
                out@.len() == i,
                forall|j: int| 0 <= j < i ==> out@[j] == self.bytes@[j],
            decreases 32 - i,
        {
            out.push(self.bytes[i]);
            i += 1;
        }
        assert(out@ =~= self@);
        out
    }

    /// Byte-wise comparison of two addresses.
    pub fn same(&self, other: &Address) -> (r: bool)
        ensures
            r == (self@ == other@),
    {
        let mut i: usize = 0;
        while i < 32
            invariant
                i <= 32,
                forall|j: int| 0 <= j < i ==> self.bytes@[j] == other.bytes@[j],
            decreases 32 - i,
        {
            if self.bytes[i] != other.bytes[i] {
                assert(self@[i as int] != other@[i as int]);
                return false;
            }
            i += 1;
        }
        assert(self@ =~= other@);
        true
    }
}

impl PartialEq for Address {
    fn eq(&self, other: &Address) -> (r: bool) {
        self.same(other)
    }
}

impl Eq for Address {}

impl vstd::std_specs::cmp::PartialEqSpecImpl for Address {
    open spec fn obeys_eq_spec() -> bool {
        true
    }

    open spec fn eq_spec(&self, other: &Address) -> bool {
        self@ == other@
    }
}

} // verus!
