//! Small helpers: sequence sums, byte copies, the entropy formula and the
//! funding arithmetic for a resize.

use vstd::bytes::spec_u64_from_le_bytes;
use vstd::prelude::*;

verus! {

/// The sum of `f` over all elements of `s`.
pub open spec fn seq_sum<A>(s: Seq<A>, f: spec_fn(A) -> nat) -> nat
    decreases s.len(),
{
    if s.len() == 0 {
        0
    } else {
        f(s.first()) + seq_sum(s.drop_first(), f)
    }
}

/// Peels the element at `i` off the sum of the suffix starting there.
pub proof fn lemma_seq_sum_skip<A>(s: Seq<A>, f: spec_fn(A) -> nat, i: int)
    requires
        0 <= i < s.len(),
    ensures
        seq_sum(s.skip(i), f) == f(s[i]) + seq_sum(s.skip(i + 1), f),
{
    assert(s.skip(i).first() == s[i]);
    assert(s.skip(i).drop_first() =~= s.skip(i + 1));
}

/// The sum over the whole sequence is the sum over its suffix from zero.
pub proof fn lemma_seq_sum_all<A>(s: Seq<A>, f: spec_fn(A) -> nat)
    ensures
        seq_sum(s.skip(0), f) == seq_sum(s, f),
        seq_sum(s.skip(s.len() as int), f) == 0,
{
    assert(s.skip(0) =~= s);
    assert(s.skip(s.len() as int) =~= Seq::<A>::empty());
}

/// Copies a byte string.
pub fn clone_bytes(v: &Vec<u8>) -> (r: Vec<u8>)
    ensures
        r@ == v@,
{
    let mut r: Vec<u8> = Vec::new();
    let mut i: usize = 0;
    while i < v.len()
        invariant
            0 <= i <= v@.len(),
            r@ == v@.take(i as int),
        decreases v@.len() - i,
    {
        r.push(v[i]);
        assert(v@.take(i + 1) =~= v@.take(i as int).push(v@[i as int]));
        i = i + 1;
    }
    assert(v@.take(v@.len() as int) =~= v@);
    r
}

/// The pseudo-random draw entropy: the recent slot-hash word at offset 12 of
/// the host's slot-hash data, less the current timestamp (saturating).
///
/// Reduced modulo the live record count, the word selects a slot uniformly
/// for an unbiased slot hash — but this is *not* secure randomness: an
/// adversary who controls request ordering within a time slot can bias it.
/// A stronger beacon can be substituted without changing the allocator's
/// interface, which only takes the final word.
pub open spec fn spec_pseudo_random_number(data: Seq<u8>, timestamp: i64) -> u64
    recommends
        data.len() >= 20,
        timestamp >= 0,
{
    let x = spec_u64_from_le_bytes(data.subrange(12, 20));
    if x >= timestamp {
        (x - timestamp) as u64
    } else {
        0
    }
}

/// Computes the draw entropy from the host's raw slot-hash bytes and the
/// current timestamp.
pub fn pseudo_random_number(recent_slothashes_data: &Vec<u8>, timestamp: i64) -> (r: u64)
    requires
        recent_slothashes_data@.len() >= 20,
        timestamp >= 0,
    ensures
        r == spec_pseudo_random_number(recent_slothashes_data@, timestamp),
{
    let slice = vstd::slice::slice_subrange(recent_slothashes_data.as_slice(), 12, 20);
    let x = vstd::bytes::u64_from_le_bytes(slice);
    let t = timestamp as u64;
    if x >= t {
        x - t
    } else {
        0
    }
}

/// What the payer owes, or is owed, when the backing region is resized: the
/// difference between the region's new minimum balance and its current one.
#[derive(Clone, Copy, Debug, PartialEq, Eq, Structural)]
pub enum ResizeFunding {
    /// The payer must fund the difference.
    Fund { amount: u64 },
    /// The difference is returned to the payer.
    Refund { amount: u64 },
    /// The balance already matches.
    Unchanged,
}

/// Decides how a resize is funded: growth is funded by the payer, shrinkage
/// returns the difference, and an exact match moves nothing.
pub fn resize_account_funding(current_balance: u64, new_minimum_balance: u64) -> (r: ResizeFunding)
    ensures
        new_minimum_balance > current_balance ==> r == (ResizeFunding::Fund {
            amount: (new_minimum_balance - current_balance) as u64,
        }),
        new_minimum_balance < current_balance ==> r == (ResizeFunding::Refund {
            amount: (current_balance - new_minimum_balance) as u64,
        }),
        new_minimum_balance == current_balance ==> r == ResizeFunding::Unchanged,
{
    if new_minimum_balance > current_balance {
        ResizeFunding::Fund { amount: new_minimum_balance - current_balance }
    } else if new_minimum_balance < current_balance {
        ResizeFunding::Refund { amount: current_balance - new_minimum_balance }
    } else {
        ResizeFunding::Unchanged
    }
}


} // verus!
