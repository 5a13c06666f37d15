//! Account addresses and the derivation of program-owned addresses from seeds.
//!
//! A program-owned address is found by hashing a tuple of seeds with the program id
//! and rejecting every hash that is a point of the signing curve. The hashing is done
//! by `anchor_lang`'s `Pubkey`; this module states what its two entry points return
//! and builds on them.

use vstd::prelude::*;
use vstd::std_specs::cmp::PartialEqSpecImpl;
use anchor_lang::prelude::Pubkey;
use anchor_lang::solana_program::pubkey::PubkeyError;

verus! {

/// Longest seed, in bytes, that an address derivation accepts.
pub const MAX_SEED_LEN: usize = 32;

/// Largest number of seeds, the bump seed included, that an address derivation accepts.
pub const MAX_SEEDS: usize = 16;

/// A 32-byte account address.
#[derive(Clone, Copy, Debug, Eq)]
pub struct Address {
    pub bytes: [u8; 32],
}

impl View for Address {
    type V = Seq<u8>;

    open spec fn view(&self) -> Seq<u8> {
        self.bytes@
    }
}

impl PartialEq for Address {
    fn eq(&self, other: &Self) -> (r: bool) {
        let mut i: usize = 0;
        while i < 32
            invariant
                i <= 32,
                forall|j: int| 0 <= j < i ==> self.bytes[j] == other.bytes[j],
            decreases 32 - i,
        {
            if self.bytes[i] != other.bytes[i] {
                return false;
            }
            i += 1;
        }
        proof {
            assert(self.bytes =~= other.bytes);
        }
        true
    }
}

impl PartialEqSpecImpl for Address {
    open spec fn obeys_eq_spec() -> bool {
        true
    }

    open spec fn eq_spec(&self, other: &Self) -> bool {
        *self == *other
    }
}

impl Address {
    /// The address made of the given bytes.
    pub fn new(bytes: [u8; 32]) -> (r: Address)
        ensures
            r.bytes == bytes,
    {
        Address { bytes }
    }

    /// The bytes of the address, as a seed.
    pub fn to_seed(&self) -> (r: Vec<u8>)
        ensures
            r@ == self@,
    {
        let mut out: Vec<u8> = Vec::new();
        let mut i: usize = 0;
        while i < 32
            invariant
                i <= 32,
                out@.len() == i,
                forall|j: int| 0 <= j < i ==> out@[j] == self.bytes[j],
            decreases 32 - i,
        {
            out.push(self.bytes[i]);
            i += 1;
        }
        assert(out@ =~= self@);
        out
    }
}

/// Two addresses with the same bytes are the same address.
pub proof fn lemma_address_view_injective(a: Address, b: Address)
    requires
        a@ == b@,
    ensures
        a == b,
{
    assert forall|i: int| 0 <= i < 32 implies a.bytes[i] == b.bytes[i] by {
        assert(a@[i] == b@[i]);
    }
    assert(a.bytes =~= b.bytes);
}

/// Why a derivation gave no address.
#[derive(Clone, Copy, Debug, PartialEq, Eq, Structural)]
pub enum AddressError {
    /// There are more than `MAX_SEEDS` seeds, or one of them is longer than `MAX_SEED_LEN`.
    MaxSeedLengthExceeded,
    /// The seeds hash to a point of the signing curve.
    InvalidSeeds,
    /// The owner given for the address is not acceptable.
    IllegalOwner,
}

/// The byte sequences that a list of seeds stands for.
pub open spec fn seeds_view(seeds: Seq<Vec<u8>>) -> Seq<Seq<u8>> {
    seeds.map_values(|s: Vec<u8>| s@)
}

/// Whether the number of seeds and the length of each are within the limits.
pub open spec fn seeds_within_limits(seeds: Seq<Seq<u8>>) -> bool {
    &&& seeds.len() <= MAX_SEEDS
    &&& forall|i: int| 0 <= i < seeds.len() ==> (#[trigger] seeds[i]).len() <= MAX_SEED_LEN
}

/// The address that hashing the seeds with the program id gives, for seeds within the
/// limits: `None` where the hash is a point of the signing curve.
pub uninterp spec fn hashed_address(seeds: Seq<Seq<u8>>, program_id: Seq<u8>) -> Option<Seq<u8>>;

/// Whether a program signs for `authority` with the seeds: the seeds, their bump
/// seed included, are within the limits and hash to it.
pub open spec fn spec_signs_for(
    signer_seeds: Seq<Seq<u8>>,
    program_id: Seq<u8>,
    authority: Seq<u8>,
) -> bool {
    &&& seeds_within_limits(signer_seeds)
    &&& hashed_address(signer_seeds, program_id) == Some(authority)
}

/// Whether `address` is what the seeds, followed by the one-byte seed `bump`, hash to.
pub open spec fn derives_with_bump(
    seeds: Seq<Seq<u8>>,
    bump: u8,
    program_id: Seq<u8>,
    address: Seq<u8>,
) -> bool {
    spec_signs_for(seeds.push(seq![bump]), program_id, address)
}

/// Whether `bump` is the largest bump seed from 255 down to 1 with which the seeds hash
/// to an address off the curve, and `address` is that address.
pub open spec fn is_canonical(
    seeds: Seq<Seq<u8>>,
    bump: u8,
    program_id: Seq<u8>,
    address: Seq<u8>,
) -> bool {
    &&& bump >= 1
    &&& derives_with_bump(seeds, bump, program_id, address)
    &&& forall|b: u8| bump < b ==> (#[trigger] hashed_address(seeds.push(seq![b]), program_id)) is None
}

/// Whether no bump seed from 255 down to 1 gives the seeds an address.
pub open spec fn has_no_address(seeds: Seq<Seq<u8>>, program_id: Seq<u8>) -> bool {
    ||| !seeds_within_limits(seeds.push(seq![0u8]))
    ||| forall|b: u8| b >= 1 ==> (#[trigger] hashed_address(seeds.push(seq![b]), program_id)) is None
}

/// Calls `Pubkey::create_program_address`. Trusted: the call fails with
/// `MaxSeedLengthExceeded` exactly when the seeds are beyond the limits, otherwise
/// with `InvalidSeeds` exactly when `hashed_address` is `None`, and otherwise returns
/// the address that `hashed_address` names.
#[verifier::external_body]
fn create_program_address(seeds: &Vec<Vec<u8>>, program_id: &Address) -> (r: Result<Address, AddressError>)
    ensures
        !seeds_within_limits(seeds_view(seeds@)) ==> (r is Err && r->Err_0
            == AddressError::MaxSeedLengthExceeded),
        seeds_within_limits(seeds_view(seeds@)) && hashed_address(seeds_view(seeds@), program_id@)
            is None ==> (r is Err && r->Err_0 == AddressError::InvalidSeeds),
        seeds_within_limits(seeds_view(seeds@)) && hashed_address(seeds_view(seeds@), program_id@)
            is Some ==> (r is Ok && r->Ok_0@ == hashed_address(
            seeds_view(seeds@),
            program_id@,
        )->Some_0),
{
    let slices: Vec<&[u8]> = seeds.iter().map(|s| s.as_slice()).collect();
    match Pubkey::create_program_address(&slices, &Pubkey::new_from_array(program_id.bytes)) {
        Ok(key) => Ok(Address { bytes: key.to_bytes() }),
        Err(PubkeyError::MaxSeedLengthExceeded) => Err(AddressError::MaxSeedLengthExceeded),
        Err(PubkeyError::InvalidSeeds) => Err(AddressError::InvalidSeeds),
        Err(PubkeyError::IllegalOwner) => Err(AddressError::IllegalOwner),
    }
}

/// Calls `Pubkey::try_find_program_address`. Trusted: the call tries the bump seeds
/// from 255 down to 1 and returns the first with which the seeds hash to an address
/// off the curve, together with that address; it returns `None` where the seeds with
/// one more are beyond the limits or no bump seed gives an address.
#[verifier::external_body]
fn try_find_program_address(seeds: &Vec<Vec<u8>>, program_id: &Address) -> (r: Option<(Address, u8)>)
    ensures
        r matches Some((address, bump)) ==> is_canonical(
            seeds_view(seeds@),
            bump,
            program_id@,
            address@,
        ),
        r is None ==> has_no_address(seeds_view(seeds@), program_id@),
{
    let slices: Vec<&[u8]> = seeds.iter().map(|s| s.as_slice()).collect();
    match Pubkey::try_find_program_address(&slices, &Pubkey::new_from_array(program_id.bytes)) {
        Some((key, bump)) => Some((Address { bytes: key.to_bytes() }, bump)),
        None => None,
    }
}

/// Appends one seed to a list of seeds.
pub fn push_seed(seeds: &mut Vec<Vec<u8>>, seed: Vec<u8>)
    ensures
        seeds_view(final(seeds)@) == seeds_view(old(seeds)@).push(seed@),
{
    seeds.push(seed);
    assert(seeds_view(seeds@) =~= seeds_view(old(seeds)@).push(seed@));
}

/// A copy of a list of seeds.
pub fn copy_seeds(seeds: &Vec<Vec<u8>>) -> (r: Vec<Vec<u8>>)
    ensures
        seeds_view(r@) == seeds_view(seeds@),
{
    let mut out: Vec<Vec<u8>> = Vec::new();
    let mut i: usize = 0;
    while i < seeds.len()
        invariant
            i <= seeds.len(),
            out@.len() == i,
            forall|j: int| 0 <= j < i ==> out@[j]@ == seeds@[j]@,
        decreases seeds.len() - i,
    {
        let seed = vstd::slice::slice_to_vec(seeds[i].as_slice());
        out.push(seed);
        i += 1;
    }
    assert(seeds_view(out@) =~= seeds_view(seeds@));
    out
}

/// Finds the address that a program owns under the given seeds, with its bump seed:
/// the largest bump seed from 255 down to 1 that gives an address off the curve.
pub fn derive_address(seeds: &Vec<Vec<u8>>, program_id: &Address) -> (r: Option<(Address, u8)>)
    ensures
        r matches Some((address, bump)) ==> is_canonical(
            seeds_view(seeds@),
            bump,
            program_id@,
            address@,
        ),
        r is None ==> has_no_address(seeds_view(seeds@), program_id@),
{
    try_find_program_address(seeds, program_id)
}

/// Decides whether a program signs for `authority` with the seeds, their bump seed
/// included.
pub fn signs_for(authority: &Address, signer_seeds: &Vec<Vec<u8>>, program_id: &Address) -> (ok:
    bool)
    ensures
        ok == spec_signs_for(seeds_view(signer_seeds@), program_id@, authority@),
{
    match create_program_address(signer_seeds, program_id) {
        Ok(found) => {
            proof {
                if found@ == authority@ {
                    lemma_address_view_injective(found, *authority);
                }
            }
            found == *authority
        },
        Err(_) => false,
    }
}

/// Decides whether `address` is the one that the seeds and the bump seed derive.
pub fn verify_address(address: &Address, seeds: &Vec<Vec<u8>>, bump: u8, program_id: &Address) -> (ok:
    bool)
    ensures
        ok == derives_with_bump(seeds_view(seeds@), bump, program_id@, address@),
{
    let mut all = copy_seeds(seeds);
    let mut last: Vec<u8> = Vec::new();
    last.push(bump);
    assert(last@ =~= seq![bump]);
    push_seed(&mut all, last);
    signs_for(address, &all, program_id)
}

/// An address found by `derive_address` passes `verify_address` with its bump seed,
/// and no other address passes with the same seeds and bump seed.
pub proof fn lemma_derived_address_verifies(
    seeds: Seq<Seq<u8>>,
    bump: u8,
    program_id: Seq<u8>,
    address: Seq<u8>,
    other: Seq<u8>,
)
    requires
        is_canonical(seeds, bump, program_id, address),
    ensures
        derives_with_bump(seeds, bump, program_id, address),
        derives_with_bump(seeds, bump, program_id, other) ==> other == address,
{
}

/// The seeds determine the derived address and its bump seed.
pub proof fn lemma_canonical_is_unique(
    seeds: Seq<Seq<u8>>,
    program_id: Seq<u8>,
    bump1: u8,
    address1: Seq<u8>,
    bump2: u8,
    address2: Seq<u8>,
)
    requires
        is_canonical(seeds, bump1, program_id, address1),
        is_canonical(seeds, bump2, program_id, address2),
    ensures
        bump1 == bump2,
        address1 == address2,
{
    if bump1 < bump2 {
        assert(hashed_address(seeds.push(seq![bump2]), program_id) is None);
    }
    if bump2 < bump1 {
        assert(hashed_address(seeds.push(seq![bump1]), program_id) is None);
    }
}

} // verus!
