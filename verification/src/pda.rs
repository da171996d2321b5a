//! Program-derived addresses: deterministic addresses that no private key
//! stands behind.

use crate::address::Address;
use crate::digest::sha256;
use solana_pubkey::Pubkey;
use vstd::prelude::*;

verus! {

/// Do the 32 bytes encode a point of the Ed25519 curve, as every ordinary
/// public key does?
pub uninterp spec fn on_curve(address: Seq<u8>) -> bool;

/// Most seeds that a derivation takes besides the bump seed.
pub const MAX_SEEDS: usize = 15;

/// Most bytes in one seed.
pub const MAX_SEED_LEN: usize = 32;

/// Seed lists that the derivation refuses outright: too many seeds, or a
/// seed that is too long.
pub open spec fn inadmissible_seeds(seeds: Seq<Seq<u8>>) -> bool {
    seeds.len() > MAX_SEEDS || exists|i: int|
        0 <= i < seeds.len() && (#[trigger] seeds[i]).len() > MAX_SEED_LEN
}

/// The byte strings of a list of seeds.
pub open spec fn seed_list(seeds: Seq<Vec<u8>>) -> Seq<Seq<u8>> {
    Seq::new(seeds.len(), |i: int| seeds[i]@)
}

/// The marker that ends the input of every derivation: the bytes of
/// `ProgramDerivedAddress`.
pub open spec fn pda_marker() -> Seq<u8> {
    seq![
        80u8, 114u8, 111u8, 103u8, 114u8, 97u8, 109u8, 68u8, 101u8, 114u8, 105u8, 118u8, 101u8,
        100u8, 65u8, 100u8, 100u8, 114u8, 101u8, 115u8, 115u8,
    ]
}

/// The seeds one after another, as one byte string.
pub open spec fn joined(seeds: Seq<Seq<u8>>) -> Seq<u8>
    decreases seeds.len(),
{
    if seeds.len() == 0 {
        Seq::empty()
    } else {
        joined(seeds.drop_last()) + seeds.last()
    }
}

/// The candidate address for one bump seed: the SHA-256 digest of the
/// seeds, the bump seed, the program's address and the marker.
pub open spec fn candidate(seeds: Seq<Seq<u8>>, bump: u8, program: Seq<u8>) -> Seq<u8> {
    sha256(joined(seeds) + seq![bump] + program + pda_marker())
}

/// The first candidate off the curve among the bump seeds from `bump` down
/// to 1, with its bump seed.
pub open spec fn search(seeds: Seq<Seq<u8>>, program: Seq<u8>, bump: int) -> Option<(Seq<u8>, u8)>
    decreases bump,
{
    if bump < 1 {
        None
    } else if !on_curve(candidate(seeds, bump as u8, program)) {
        Some((candidate(seeds, bump as u8, program), bump as u8))
    } else {
        search(seeds, program, bump - 1)
    }
}

/// The address and bump seed derived from a seed list and an owning
/// program: none for an inadmissible seed list, and otherwise the first
/// candidate off the curve, tried from bump seed 255 down to 1.
pub open spec fn program_address(seeds: Seq<Seq<u8>>, program: Seq<u8>) -> Option<(Seq<u8>, u8)> {
    if inadmissible_seeds(seeds) {
        None
    } else {
        search(seeds, program, 255)
    }
}

/// Is `address` with `bump` the outcome of the search: the candidate of
/// `bump`, off the curve, with every larger bump seed's candidate on it?
pub open spec fn first_off_curve(
    seeds: Seq<Seq<u8>>,
    program: Seq<u8>,
    address: Seq<u8>,
    bump: u8,
) -> bool {
    &&& 1 <= bump
    &&& address == candidate(seeds, bump, program)
    &&& !on_curve(address)
    &&& forall|b: u8| bump < b ==> on_curve(#[trigger] candidate(seeds, b, program))
}

/// Is every candidate from bump seed 255 down to 1 on the curve?
pub open spec fn all_on_curve(seeds: Seq<Seq<u8>>, program: Seq<u8>) -> bool {
    forall|b: u8| 1 <= b ==> on_curve(#[trigger] candidate(seeds, b, program))
}

/// What the search from `bump` down finds: the candidate of the largest
/// bump seed whose candidate is off the curve, or nothing where all are on
/// it.
pub proof fn lemma_search(seeds: Seq<Seq<u8>>, program: Seq<u8>, bump: int)
    requires
        bump <= 255,
    ensures
        match search(seeds, program, bump) {
            Some(pair) => {
                &&& 1 <= pair.1 <= bump
                &&& pair.0 == candidate(seeds, pair.1, program)
                &&& !on_curve(pair.0)
                &&& forall|b: u8|
                    pair.1 < b <= bump ==> on_curve(#[trigger] candidate(seeds, b, program))
            },
            None => forall|b: u8|
                1 <= b <= bump ==> on_curve(#[trigger] candidate(seeds, b, program)),
        },
    decreases bump,
{
    if bump >= 1 && on_curve(candidate(seeds, bump as u8, program)) {
        lemma_search(seeds, program, bump - 1);
    }
}

/// The derived address is found by trying bump seeds from 255 downward: it
/// is the candidate of the largest bump seed, 1 at the least, whose
/// candidate lies off the curve. Nothing is derived exactly where the seed
/// list is inadmissible or every candidate lies on the curve.
pub proof fn lemma_program_address_is_first_off_curve(seeds: Seq<Seq<u8>>, program: Seq<u8>)
    ensures
        match program_address(seeds, program) {
            Some(pair) => !inadmissible_seeds(seeds) && first_off_curve(
                seeds,
                program,
                pair.0,
                pair.1,
            ),
            None => inadmissible_seeds(seeds) || all_on_curve(seeds, program),
        },
{
    lemma_search(seeds, program, 255);
}

/// Why no address was derived.
#[derive(Debug, Clone, Copy, PartialEq, Eq, Structural)]
pub enum DerivationError {
    /// No bump seed gave an address off the curve, or the seeds were not
    /// admissible.
    Exhausted,
}

/// The value of a derivation's outcome.
pub open spec fn found_view(found: Option<(Address, u8)>) -> Option<(Seq<u8>, u8)> {
    match found {
        Some(pair) => Some((pair.0@, pair.1)),
        None => None,
    }
}

/// What a derivation from `seeds` under `program` must return.
pub open spec fn derives(
    r: Result<(Address, u8), DerivationError>,
    seeds: Seq<Seq<u8>>,
    program: Seq<u8>,
) -> bool {
    match r {
        Ok(pair) => program_address(seeds, program) == Some((pair.0@, pair.1)) && first_off_curve(
            seeds,
            program,
            pair.0@,
            pair.1,
        ),
        Err(e) => program_address(seeds, program) is None && (inadmissible_seeds(seeds)
            || all_on_curve(seeds, program)),
    }
}

/// Calls `solana_pubkey::Pubkey::try_find_program_address`. Trusted: a list
/// of more than 15 seeds, or one with a seed over 32 bytes, gives nothing;
/// otherwise the bump seeds are tried from 255 down to 1, each candidate is
/// the SHA-256 digest of the seeds, the bump seed, the program's address and
/// the marker, and the first candidate off the curve comes back with its
/// bump seed.
#[verifier::external_body]
pub(crate) fn try_find_program_address(seeds: &Vec<Vec<u8>>, program_id: &Address) -> (r: Option<
    (Address, u8),
>)
    ensures
        found_view(r) == program_address(seed_list(seeds@), program_id@),
{
    let mut refs: Vec<&[u8]> = Vec::new();
    for seed in seeds.iter() {
        refs.push(seed.as_slice());
    }
    let program = Pubkey::new_from_array(program_id.bytes);
    match Pubkey::try_find_program_address(&refs, &program) {
        Some((address, bump)) => Some((Address { bytes: address.to_bytes() }, bump)),
        None => None,
    }
}

/// Calls `solana_pubkey::Pubkey::is_on_curve`. Trusted: the answer depends on
/// the 32 bytes alone.
#[verifier::external_body]
pub(crate) fn is_on_curve_raw(address: &Address) -> (r: bool)
    ensures
        r == on_curve(address@),
{
    Pubkey::new_from_array(address.bytes).is_on_curve()
}

/// Turns what the search found into the derivation's result.
pub fn derivation_outcome(found: Option<(Address, u8)>) -> (r: Result<
    (Address, u8),
    DerivationError,
>)
    ensures
        match found {
            Some(pair) => r == Ok::<(Address, u8), DerivationError>(pair),
            None => r == Err::<(Address, u8), DerivationError>(DerivationError::Exhausted),
        },
{
    match found {
        Some(pair) => Ok(pair),
        None => Err(DerivationError::Exhausted),
    }
}

/// Derives the address and bump seed for `seeds` under `program_id`: the
/// candidate of the largest bump seed from 255 down to 1 that lies off the
/// curve. Inadmissible seed lists are refused, and so is a list whose
/// candidates all lie on the curve.
pub fn create_pda(seeds: &Vec<Vec<u8>>, program_id: &Address) -> (r: Result<
    (Address, u8),
    DerivationError,
>)
    ensures
        derives(r, seed_list(seeds@), program_id@),
        inadmissible_seeds(seed_list(seeds@)) ==> r is Err,
{
    let found = try_find_program_address(seeds, program_id);
    proof {
        lemma_program_address_is_first_off_curve(seed_list(seeds@), program_id@);
    }
    derivation_outcome(found)
}

/// Could an ordinary key pair have this address?
pub fn is_on_curve(address: &Address) -> (r: bool)
    ensures
        r == on_curve(address@),
{
    is_on_curve_raw(address)
}

/// Derivation is deterministic: two derivations from the same seeds under the
/// same program succeed or fail together and, where they succeed, give the
/// same address and the same bump seed.
pub proof fn lemma_derivation_deterministic(
    seeds: Seq<Seq<u8>>,
    program: Seq<u8>,
    first: Result<(Address, u8), DerivationError>,
    second: Result<(Address, u8), DerivationError>,
)
    requires
        derives(first, seeds, program),
        derives(second, seeds, program),
    ensures
        first is Ok <==> second is Ok,
        first is Ok ==> first->Ok_0.0@ == second->Ok_0.0@ && first->Ok_0.1 == second->Ok_0.1,
{
}

/// A derived address is no ordinary key: it differs from every address that
/// lies on the curve.
pub proof fn lemma_derived_address_is_no_key(
    seeds: Seq<Seq<u8>>,
    program: Seq<u8>,
    derived: Result<(Address, u8), DerivationError>,
    key: Seq<u8>,
)
    requires
        derives(derived, seeds, program),
        derived is Ok,
        on_curve(key),
    ensures
        derived->Ok_0.0@ != key,
{
}

} // verus!
