//! Account identities and deterministic address derivation.
//!
//! Every pool, authorization record and pending-release record lives at an
//! address derived deterministically from a list of seed byte strings and a
//! program identity. The derivation itself is done by the host chain's
//! runtime library; the engine only builds the seed lists and checks that a
//! referenced account sits at its expected derived location.

use vstd::prelude::*;

verus! {

/// A 32-byte account identity.
#[derive(Clone, Copy, Debug)]
pub struct AccountId {
    pub bytes: [u8; 32],
}

impl View for AccountId {
    type V = Seq<u8>;

    open spec fn view(&self) -> Seq<u8> {
        self.bytes@
    }
}

impl PartialEq for AccountId {
    fn eq(&self, other: &AccountId) -> (r: bool) {
        let mut i: usize = 0;
        while i < 32
            invariant
                0 <= i <= 32,
                forall|j: int| 0 <= j < i ==> self.bytes@[j] == other.bytes@[j],
            decreases 32 - i,
        {
            if self.bytes[i] != other.bytes[i] {
                assert(self.bytes@ != other.bytes@);
                return false;
            }
            i = i + 1;
        }
        assert(self.bytes@ =~= other.bytes@);
        true
    }
}

impl vstd::std_specs::cmp::PartialEqSpecImpl for AccountId {
    open spec fn obeys_eq_spec() -> bool {
        true
    }

    open spec fn eq_spec(&self, other: &AccountId) -> bool {
        self.bytes@ == other.bytes@
    }
}

/// The identity whose bytes are all zero, used to stand for the native
/// currency in token checks.
pub open spec fn zero_address() -> Seq<u8> {
    Seq::new(32, |i| 0u8)
}

impl Default for AccountId {
    fn default() -> (r: AccountId)
        ensures
            r@ == zero_address(),
    {
        let r = AccountId { bytes: [0u8; 32] };
        assert(r@ =~= zero_address());
        r
    }
}

impl AccountId {
    /// Copies the identity into a growable byte string, for use as a seed.
    pub fn to_vec(&self) -> (r: Vec<u8>)
        ensures
            r@ == self@,
    {
        let mut r: Vec<u8> = Vec::new();
        let mut i: usize = 0;
        while i < 32
            invariant
                0 <= i <= 32,
                r@.len() == i,
                forall|j: int| 0 <= j < i ==> r@[j] == self.bytes@[j],
            decreases 32 - i,
        {
            r.push(self.bytes[i]);
            i = i + 1;
        }
        assert(r@ =~= self@);
        r
    }

    /// True exactly when this is the all-zero identity.
    pub fn is_zero(&self) -> (r: bool)
        ensures
            r == (self@ == zero_address()),
    {
        let mut i: usize = 0;
        while i < 32
            invariant
                0 <= i <= 32,
                forall|j: int| 0 <= j < i ==> self.bytes@[j] == 0u8,
            decreases 32 - i,
        {
            if self.bytes[i] != 0u8 {
                assert(self@[i as int] != zero_address()[i as int]);
                return false;
            }
            i = i + 1;
        }
        assert(self@ =~= zero_address());
        true
    }
}

/// The address and bump seed that the host runtime derives from a seed list
/// and a program identity, or nothing when no viable bump seed exists for
/// that list. The derivation is a function of the seeds and the program
/// identity alone.
pub uninterp spec fn derived_address(seeds: Seq<Seq<u8>>, program_id: Seq<u8>) -> Option<
    (Seq<u8>, u8),
>;

/// Relies on solana-program's `Pubkey::try_find_program_address`: the result
/// depends on the seed slices and the program identity alone, and is `None`
/// exactly when the runtime cannot derive an address from them (no viable
/// bump seed, too many seeds, or an over-long seed).
#[verifier::external_body]
pub(crate) fn find_derived_address(seeds: &Vec<Vec<u8>>, program_id: &AccountId) -> (r: Option<
    (AccountId, u8),
>)
    ensures
        (match r {
            Some(p) => Some((p.0@, p.1)),
            None => None,
        }) == derived_address(seeds.deep_view(), program_id@),
{
    let seed_refs: Vec<&[u8]> = seeds.iter().map(|s| s.as_slice()).collect();
    let pid = solana_program::pubkey::Pubkey::new_from_array(program_id.bytes);
    solana_program::pubkey::Pubkey::try_find_program_address(&seed_refs, &pid).map(
        |p: (solana_program::pubkey::Pubkey, u8)| (AccountId { bytes: p.0.to_bytes() }, p.1),
    )
}

} // verus!
