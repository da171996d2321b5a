//! The account ledger: every account of a run, found by its address.

use crate::account::AccountRecord;
use crate::account::AccountView;
use crate::account::KeyedAccount;
use crate::address::Address;
use vstd::prelude::*;

verus! {

/// A list of addressed account values, in the order they were stored.
pub type Listing = Seq<(Seq<u8>, AccountView)>;

/// The values of a sequence of stored pairs.
pub open spec fn keyed_views(s: Seq<KeyedAccount>) -> Listing {
    Seq::new(s.len(), |i: int| s[i]@)
}

/// No address occurs twice in the listing.
pub open spec fn distinct_addresses(s: Listing) -> bool {
    forall|i: int, j: int| 0 <= i < j < s.len() ==> s[i].0 != s[j].0
}

/// The map that storing the listing's pairs one after another builds up:
/// a later pair replaces an earlier one with the same address.
pub open spec fn listing_map(s: Listing) -> Map<Seq<u8>, AccountView>
    decreases s.len(),
{
    if s.len() == 0 {
        Map::empty()
    } else {
        listing_map(s.drop_last()).insert(s.last().0, s.last().1)
    }
}

/// The ledger after the pairs of `deltas` were stored into `m` in order.
pub open spec fn apply_deltas_spec(m: Map<Seq<u8>, AccountView>, deltas: Listing) -> Map<
    Seq<u8>,
    AccountView,
>
    decreases deltas.len(),
{
    if deltas.len() == 0 {
        m
    } else {
        apply_deltas_spec(m, deltas.drop_last()).insert(deltas.last().0, deltas.last().1)
    }
}

/// An address that the listing does not hold is not in its map.
pub proof fn lemma_listing_map_absent(s: Listing, k: Seq<u8>)
    requires
        forall|i: int| 0 <= i < s.len() ==> s[i].0 != k,
    ensures
        !listing_map(s).contains_key(k),
    decreases s.len(),
{
    if s.len() > 0 {
        lemma_listing_map_absent(s.drop_last(), k);
    }
}

/// With distinct addresses, the map holds each pair of the listing.
pub proof fn lemma_listing_map_present(s: Listing, i: int)
    requires
        distinct_addresses(s),
        0 <= i < s.len(),
    ensures
        listing_map(s).contains_key(s[i].0),
        listing_map(s)[s[i].0] == s[i].1,
    decreases s.len(),
{
    if i < s.len() - 1 {
        lemma_listing_map_present(s.drop_last(), i);
    }
}

/// Replacing the pair stored under an address is the same as inserting into
/// the map.
pub proof fn lemma_listing_map_update(s: Listing, i: int, v: AccountView)
    requires
        distinct_addresses(s),
        0 <= i < s.len(),
    ensures
        distinct_addresses(s.update(i, (s[i].0, v))),
        listing_map(s.update(i, (s[i].0, v))) == listing_map(s).insert(s[i].0, v),
    decreases s.len(),
{
    let k = s[i].0;
    let t = s.update(i, (k, v));
    if i == s.len() - 1 {
        assert(t.drop_last() =~= s.drop_last());
        assert(listing_map(t) =~= listing_map(s).insert(k, v));
    } else {
        lemma_listing_map_update(s.drop_last(), i, v);
        assert(t.drop_last() =~= s.drop_last().update(i, (k, v)));
        assert(s.last().0 != k);
        assert(listing_map(t) =~= listing_map(s).insert(k, v));
    }
}

/// Storing deltas one list after another is storing their concatenation.
pub proof fn lemma_apply_deltas_concat(m: Map<Seq<u8>, AccountView>, a: Listing, b: Listing)
    ensures
        apply_deltas_spec(apply_deltas_spec(m, a), b) == apply_deltas_spec(m, a + b),
    decreases b.len(),
{
    if b.len() == 0 {
        assert(a + b =~= a);
    } else {
        lemma_apply_deltas_concat(m, a, b.drop_last());
        assert((a + b).drop_last() =~= a + b.drop_last());
    }
}

/// All simulated accounts of one run. An account that was never stored is
/// absent; an account stored with empty data is present.
pub struct Ledger {
    entries: Vec<KeyedAccount>,
}

impl View for Ledger {
    type V = Map<Seq<u8>, AccountView>;

    closed spec fn view(&self) -> Map<Seq<u8>, AccountView> {
        listing_map(keyed_views(self.entries@))
    }
}

impl Ledger {
    /// The stored pairs, in the order their addresses first came in.
    pub closed spec fn listing(&self) -> Listing {
        keyed_views(self.entries@)
    }

    /// The ledger holds each address once.
    pub closed spec fn wf(&self) -> bool {
        distinct_addresses(keyed_views(self.entries@))
    }

    /// The ledger's map is the map of its listing, which holds no address
    /// twice.
    pub proof fn lemma_view_of_listing(&self)
        requires
            self.wf(),
        ensures
            self@ == listing_map(self.listing()),
            distinct_addresses(self.listing()),
    {
    }

    /// A ledger without accounts.
    pub fn new() -> (r: Ledger)
        ensures
            r.wf(),
            r@ == Map::<Seq<u8>, AccountView>::empty(),
            r.listing().len() == 0,
    {
        let r = Ledger { entries: Vec::new() };
        assert(keyed_views(r.entries@) =~= Seq::empty());
        r
    }

    /// How many accounts the ledger holds.
    pub fn len(&self) -> (r: usize)
        ensures
            r == self.listing().len(),
    {
        self.entries.len()
    }

    fn position(&self, address: &Address) -> (r: Option<usize>)
        ensures
            match r {
                Some(i) => i < self.entries@.len() && self.entries@[i as int].address@
                    == address@,
                None => forall|j: int|
                    0 <= j < self.entries@.len() ==> self.entries@[j].address@ != address@,
            },
    {
        let mut i: usize = 0;
        while i < self.entries.len()
            invariant
                i <= self.entries@.len(),
                forall|j: int| 0 <= j < i ==> self.entries@[j].address@ != address@,
            decreases self.entries@.len() - i,
        {
            if self.entries[i].address.same(address) {
                return Some(i);
            }
            i += 1;
        }
        None
    }

    /// Is an account stored under `address`?
    pub fn contains(&self, address: &Address) -> (r: bool)
        requires
            self.wf(),
        ensures
            r == self@.contains_key(address@),
    {
        let found = self.position(address);
        proof {
            let s = keyed_views(self.entries@);
            match found {
                Some(i) => {
                    lemma_listing_map_present(s, i as int);
                },
                None => {
                    lemma_listing_map_absent(s, address@);
                },
            }
        }
        found.is_some()
    }

    /// Stores `record` under `address`, replacing what was stored there.
    pub fn put(&mut self, address: Address, record: AccountRecord)
        requires
            old(self).wf(),
        ensures
            final(self).wf(),
            final(self)@ == old(self)@.insert(address@, record@),
    {
        let found = self.position(&address);
        let ghost before = keyed_views(self.entries@);
        match found {
            Some(i) => {
                proof {
                    lemma_listing_map_update(before, i as int, record@);
                }
                self.entries[i] = KeyedAccount { address, account: record };
                assert(keyed_views(self.entries@) =~= before.update(
                    i as int,
                    (before[i as int].0, record@),
                ));
            },
            None => {
                self.entries.push(KeyedAccount { address, account: record });
                let ghost after = keyed_views(self.entries@);
                assert(after.drop_last() =~= before);
                assert(after.last() == (address@, record@));
                assert forall|i: int, j: int| 0 <= i < j < after.len() implies after[i].0
                    != after[j].0 by {
                    if j < before.len() {
                        assert(before[i].0 != before[j].0);
                    } else {
                        assert(after[i] == before[i]);
                    }
                }
            },
        }
    }

    /// A copy of the account stored under `address`, if there is one. The
    /// copy shares nothing with the ledger.
    pub fn get(&self, address: &Address) -> (r: Option<AccountRecord>)
        requires
            self.wf(),
        ensures
            match r {
                Some(record) => self@.contains_key(address@) && record@ == self@[address@],
                None => !self@.contains_key(address@),
            },
    {
        let found = self.position(address);
        proof {
            let s = keyed_views(self.entries@);
            match found {
                Some(i) => {
                    lemma_listing_map_present(s, i as int);
                },
                None => {
                    lemma_listing_map_absent(s, address@);
                },
            }
        }
        match found {
            Some(i) => Some(self.entries[i].account.duplicate()),
            None => None,
        }
    }

    /// Copies of all stored pairs, each address once, for handing the whole
    /// working set to an execution oracle.
    pub fn snapshot_all(&self) -> (r: Vec<KeyedAccount>)
        ensures
            keyed_views(r@) == self.listing(),
    {
        let mut out: Vec<KeyedAccount> = Vec::new();
        let mut i: usize = 0;
        while i < self.entries.len()
            invariant
                i <= self.entries@.len(),
                out@.len() == i,
                forall|j: int| 0 <= j < i ==> out@[j]@ == self.entries@[j]@,
            decreases self.entries@.len() - i,
        {
            out.push(self.entries[i].duplicate());
            i += 1;
        }
        assert(keyed_views(out@) =~= keyed_views(self.entries@));
        out
    }

    /// Stores each pair of `deltas` in order, replacing or inserting.
    pub fn apply_deltas(&mut self, deltas: &Vec<KeyedAccount>)
        requires
            old(self).wf(),
        ensures
            final(self).wf(),
            final(self)@ == apply_deltas_spec(old(self)@, keyed_views(deltas@)),
    {
        let ghost all = keyed_views(deltas@);
        let mut i: usize = 0;
        assert(all.take(0) =~= Seq::empty());
        while i < deltas.len()
            invariant
                i <= deltas@.len(),
                all == keyed_views(deltas@),
                self.wf(),
                self@ == apply_deltas_spec(old(self)@, all.take(i as int)),
            decreases deltas@.len() - i,
        {
            let record = deltas[i].account.duplicate();
            self.put(deltas[i].address, record);
            proof {
                assert(all.take(i + 1).drop_last() =~= all.take(i as int));
                assert(all.take(i + 1).last() == deltas@[i as int]@);
            }
            i += 1;
        }
        assert(all.take(i as int) =~= all);
    }
}

} // verus!
