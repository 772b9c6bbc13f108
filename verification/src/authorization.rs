//! The per-user authorization ledger.
//!
//! One record per (pool, phase, user) triple tracks a quota of permitted
//! draws: `remaining` counts permitted future draws (absent means
//! unlimited), `count` the draws made. A phase whose authorization rule is
//! default-allow lets users without a record draw freely, with no record
//! ever created implicitly; default-deny requires a record. Records are
//! created and closed by the pool's authority alone.

use crate::address::{derived_address, find_derived_address, AccountId};
use crate::config::MintConfig;
use crate::errors::ErrorCode;
use crate::phase::{MintPhase, MintPhaseAuthorizationMode};
use vstd::prelude::*;

verus! {

/// A quota record for one (pool, phase, user) triple.
#[derive(Clone, Copy, Debug)]
pub struct MintPhaseAuthorization {
    /// Bump seed of the record's derived address.
    pub bump: u8,
    /// The pool this record belongs to.
    pub mint_config: AccountId,
    /// The phase this record belongs to.
    pub mint_phase_index: u8,
    /// The user this record belongs to.
    pub user: AccountId,
    /// Draws made under this record. Saturating.
    pub count: u64,
    /// Permitted future draws; absent means unlimited. Saturating.
    pub remaining: Option<u64>,
}

/// The seed-list prefix of an authorization record's derived address.
pub open spec fn spec_authorization_prefix() -> Seq<u8> {
    seq![97u8, 117u8, 116u8, 104u8, 111u8, 114u8, 105u8, 122u8, 97u8, 116u8, 105u8, 111u8, 110u8]
}

/// The seed-list prefix of an authorization record's derived address.
pub fn authorization_prefix() -> (r: Vec<u8>)
    ensures
        r@ == spec_authorization_prefix(),
{
    let mut r: Vec<u8> = Vec::new();
    r.push(97u8);
    r.push(117u8);
    r.push(116u8);
    r.push(104u8);
    r.push(111u8);
    r.push(114u8);
    r.push(105u8);
    r.push(122u8);
    r.push(97u8);
    r.push(116u8);
    r.push(105u8);
    r.push(111u8);
    r.push(110u8);
    assert(r@ =~= spec_authorization_prefix());
    r
}

/// The seed list of a record's derived address, before the bump seed.
pub open spec fn spec_authorization_seeds(
    mint_config: Seq<u8>,
    mint_phase_ix: u8,
    user: Seq<u8>,
) -> Seq<Seq<u8>> {
    seq![spec_authorization_prefix(), mint_config, seq![mint_phase_ix], user]
}

impl MintPhaseAuthorization {
    /// Checks that the record for this triple really sits at `expected_key`
    /// under `program_id`, and returns the full seed list, bump included.
    pub fn seeds(
        mint_config: &AccountId,
        mint_phase_ix: u8,
        user: &AccountId,
        expected_key: &AccountId,
        program_id: &AccountId,
    ) -> (r: Result<Vec<Vec<u8>>, ErrorCode>)
        ensures
            match derived_address(
                spec_authorization_seeds(mint_config@, mint_phase_ix, user@),
                program_id@,
            ) {
                None => r == Err::<Vec<Vec<u8>>, ErrorCode>(
                    ErrorCode::InvalidMintPhaseAuthorization,
                ),
                Some(kb) => if kb.0 == expected_key@ {
                    r matches Ok(s) && s.deep_view() == spec_authorization_seeds(
                        mint_config@,
                        mint_phase_ix,
                        user@,
                    ).push(seq![kb.1])
                } else {
                    r == Err::<Vec<Vec<u8>>, ErrorCode>(ErrorCode::InvalidMintPhaseAuthorization)
                },
            },
    {
        let mut seeds: Vec<Vec<u8>> = Vec::new();
        seeds.push(authorization_prefix());
        seeds.push(mint_config.to_vec());
        let mut ix_seed: Vec<u8> = Vec::new();
        ix_seed.push(mint_phase_ix);
        assert(ix_seed@ =~= seq![mint_phase_ix]);
        seeds.push(ix_seed);
        seeds.push(user.to_vec());
        assert(seeds.deep_view() =~~= spec_authorization_seeds(mint_config@, mint_phase_ix, user@));
        match find_derived_address(&seeds, program_id) {
            None => Err(ErrorCode::InvalidMintPhaseAuthorization),
            Some((key, bump)) => {
                if key == *expected_key {
                    let mut bump_seed: Vec<u8> = Vec::new();
                    bump_seed.push(bump);
                    assert(bump_seed@ =~= seq![bump]);
                    seeds.push(bump_seed);
                    assert(seeds.deep_view() =~~= spec_authorization_seeds(
                        mint_config@,
                        mint_phase_ix,
                        user@,
                    ).push(seq![bump]));
                    Ok(seeds)
                } else {
                    Err(ErrorCode::InvalidMintPhaseAuthorization)
                }
            },
        }
    }
}

/// Creates (or overwrites) the quota record for one triple: `remaining` set
/// as given, `count` reset to zero. Only the pool's authority may do so.
pub fn set_mint_phase_authorization(
    mint_config: &MintConfig,
    signer: &AccountId,
    bump: u8,
    mint_config_key: AccountId,
    mint_phase_ix: u8,
    user: AccountId,
    remaining: Option<u64>,
) -> (r: Result<MintPhaseAuthorization, ErrorCode>)
    ensures
        signer@ != mint_config.authority@ ==> r == Err::<MintPhaseAuthorization, ErrorCode>(
            ErrorCode::InvalidAuthority,
        ),
        signer@ == mint_config.authority@ ==> r == Ok::<MintPhaseAuthorization, ErrorCode>(
            MintPhaseAuthorization {
                bump,
                mint_config: mint_config_key,
                mint_phase_index: mint_phase_ix,
                user,
                count: 0,
                remaining,
            },
        ),
{
    if !(*signer == mint_config.authority) {
        return Err(ErrorCode::InvalidAuthority);
    }
    Ok(
        MintPhaseAuthorization {
            bump,
            mint_config: mint_config_key,
            mint_phase_index: mint_phase_ix,
            user,
            count: 0,
            remaining,
        },
    )
}

/// Closes a quota record, reclaiming its storage. The record must belong to
/// the pool, and only the pool's authority may close it.
pub fn close_mint_phase_authorization(
    authorization: MintPhaseAuthorization,
    mint_config: &MintConfig,
    mint_config_key: &AccountId,
    signer: &AccountId,
) -> (r: Result<(), ErrorCode>)
    ensures
        authorization.mint_config@ != mint_config_key@ ==> r == Err::<(), ErrorCode>(
            ErrorCode::InvalidMintPhaseAuthorization,
        ),
        authorization.mint_config@ == mint_config_key@ && signer@ != mint_config.authority@ ==> r
            == Err::<(), ErrorCode>(ErrorCode::InvalidAuthority),
        authorization.mint_config@ == mint_config_key@ && signer@ == mint_config.authority@ ==> r
            == Ok::<(), ErrorCode>(()),
{
    if !(authorization.mint_config == *mint_config_key) {
        return Err(ErrorCode::InvalidMintPhaseAuthorization);
    }
    if !(*signer == mint_config.authority) {
        return Err(ErrorCode::InvalidAuthority);
    }
    Ok(())
}

/// A record's stored triple matches the request's.
pub open spec fn spec_triple_matches(
    a: MintPhaseAuthorization,
    mint_config_key: Seq<u8>,
    mint_phase_ix: u8,
    user: Seq<u8>,
) -> bool {
    &&& a.mint_config@ == mint_config_key
    &&& a.mint_phase_index == mint_phase_ix
    &&& a.user@ == user
}

/// The record after one successful draw: `remaining` down one and `count`
/// up one, both saturating.
pub open spec fn spec_consumed(a: MintPhaseAuthorization) -> MintPhaseAuthorization {
    MintPhaseAuthorization {
        count: if a.count == u64::MAX {
            u64::MAX
        } else {
            (a.count + 1) as u64
        },
        remaining: match a.remaining {
            Some(n) => Some(
                if n == 0 {
                    0u64
                } else {
                    (n - 1) as u64
                },
            ),
            None => None,
        },
        ..a
    }
}

/// The ledger's decision for one draw: the updated record on success (the
/// record stays absent under default-allow), or the failure.
pub open spec fn spec_check_and_consume(
    record: Option<MintPhaseAuthorization>,
    mode: MintPhaseAuthorizationMode,
    mint_config_key: Seq<u8>,
    mint_phase_ix: u8,
    user: Seq<u8>,
) -> Result<Option<MintPhaseAuthorization>, ErrorCode> {
    match record {
        None => if mode == MintPhaseAuthorizationMode::DefaultDisallowed {
            Err(ErrorCode::InvalidMintPhaseAuthorization)
        } else {
            Ok(None)
        },
        Some(a) => if !spec_triple_matches(a, mint_config_key, mint_phase_ix, user) {
            Err(ErrorCode::InvalidMintPhaseAuthorization)
        } else if a.remaining == Some(0u64) {
            Err(ErrorCode::MintPhaseAuthorizationsUsed)
        } else {
            Ok(Some(spec_consumed(a)))
        },
    }
}

/// The whole authorization gate of one draw, as the draw handler runs it: no
/// rule consults nothing; otherwise the holder must have signed and be the
/// user or the authority, the supplied record account must sit at the
/// triple's derived address, and the ledger decides.
pub open spec fn spec_handle_authorization(
    phase_authorization: Option<crate::phase::MintPhaseAuthorizationCheck>,
    authority: Seq<u8>,
    program_id: Seq<u8>,
    mint_config_key: Seq<u8>,
    mint_phase_ix: u8,
    user: Seq<u8>,
    holder: Seq<u8>,
    holder_is_signer: bool,
    authorization_key: Seq<u8>,
    record: Option<MintPhaseAuthorization>,
) -> Result<Option<MintPhaseAuthorization>, ErrorCode> {
    match phase_authorization {
        None => Ok(record),
        Some(check) => if !holder_is_signer {
            Err(ErrorCode::HolderNotSigner)
        } else if holder != user && holder != authority {
            Err(ErrorCode::IncorrectAuthorizationHolder)
        } else {
            match derived_address(
                spec_authorization_seeds(mint_config_key, mint_phase_ix, user),
                program_id,
            ) {
                None => Err(ErrorCode::InvalidMintPhaseAuthorization),
                Some(kb) => if kb.0 != authorization_key {
                    Err(ErrorCode::InvalidMintPhaseAuthorization)
                } else {
                    spec_check_and_consume(record, check.mode, mint_config_key, mint_phase_ix, user)
                },
            }
        },
    }
}

/// Consults and updates the ledger for one draw.
///
/// With no record, default-deny fails the draw and default-allow permits it
/// with no bookkeeping; no record is ever created here. With a record, a
/// stored triple differing from the request is a tamper error, a present
/// zero `remaining` is quota exhaustion, and otherwise the record is
/// decremented and its draw count incremented, both saturating.
pub fn check_and_consume(
    record: &mut Option<MintPhaseAuthorization>,
    mode: MintPhaseAuthorizationMode,
    mint_config_key: &AccountId,
    mint_phase_ix: u8,
    user: &AccountId,
) -> (r: Result<(), ErrorCode>)
    ensures
        match spec_check_and_consume(*old(record), mode, mint_config_key@, mint_phase_ix, user@) {
            Ok(updated) => r == Ok::<(), ErrorCode>(()) && *final(record) == updated,
            Err(e) => r == Err::<(), ErrorCode>(e) && *final(record) == *old(record),
        },
{
    match record {
        None => {
            if mode == MintPhaseAuthorizationMode::DefaultDisallowed {
                Err(ErrorCode::InvalidMintPhaseAuthorization)
            } else {
                Ok(())
            }
        },
        Some(a) => {
            if !(a.mint_config == *mint_config_key) || a.mint_phase_index != mint_phase_ix || !(
            a.user == *user) {
                return Err(ErrorCode::InvalidMintPhaseAuthorization);
            }
            if let Some(remaining) = a.remaining {
                if remaining == 0 {
                    return Err(ErrorCode::MintPhaseAuthorizationsUsed);
                }
                a.remaining = Some(remaining - 1);
            }
            a.count = if a.count == u64::MAX {
                u64::MAX
            } else {
                a.count + 1
            };
            Ok(())
        },
    }
}

/// Consults the ledger for one draw exactly as the draw handler does: first
/// the holder must have signed, and be either the user or the pool's
/// authority; then the supplied record account must sit at the triple's
/// derived address; then the record itself is consulted and updated.
///
/// A phase without an authorization rule consults nothing.
pub fn handle_authorization_checks(
    program_id: &AccountId,
    mint_config: &MintConfig,
    mint_config_key: &AccountId,
    mint_phase_ix: u8,
    mint_phase: &MintPhase,
    user: &AccountId,
    holder: &AccountId,
    holder_is_signer: bool,
    authorization_key: &AccountId,
    record: &mut Option<MintPhaseAuthorization>,
) -> (r: Result<(), ErrorCode>)
    ensures
        match spec_handle_authorization(
            mint_phase.authorization,
            mint_config.authority@,
            program_id@,
            mint_config_key@,
            mint_phase_ix,
            user@,
            holder@,
            holder_is_signer,
            authorization_key@,
            *old(record),
        ) {
            Ok(updated) => r == Ok::<(), ErrorCode>(()) && *final(record) == updated,
            Err(e) => r == Err::<(), ErrorCode>(e) && *final(record) == *old(record),
        },
{
    let check = match &mint_phase.authorization {
        Some(c) => c,
        None => {
            return Ok(());
        },
    };
    if !holder_is_signer {
        return Err(ErrorCode::HolderNotSigner);
    }
    if !(*holder == *user) && !(*holder == mint_config.authority) {
        return Err(ErrorCode::IncorrectAuthorizationHolder);
    }
    match MintPhaseAuthorization::seeds(
        mint_config_key,
        mint_phase_ix,
        user,
        authorization_key,
        program_id,
    ) {
        Ok(_seeds) => {},
        Err(e) => {
            return Err(e);
        },
    }
    check_and_consume(record, check.mode, mint_config_key, mint_phase_ix, user)
}

/// The record after `k` successful draws.
pub open spec fn spec_consumed_n(a: MintPhaseAuthorization, k: nat) -> MintPhaseAuthorization
    decreases k,
{
    if k == 0 {
        a
    } else {
        spec_consumed(spec_consumed_n(a, (k - 1) as nat))
    }
}

/// Quota monotonicity: a record created with `remaining = n` and a zero
/// draw count supports exactly `n` consumptions. After `k` of them the
/// record still names its triple, its draw count reads exactly `k` and its
/// quota exactly `n - k`; while `k < n` the next consumption is permitted,
/// and at `k == n` the quota reads zero, which the ledger rejects with the
/// quota-exhausted error.
pub proof fn lemma_quota_monotonic(a: MintPhaseAuthorization, n: u64, k: nat)
    requires
        a.remaining == Some(n),
        a.count == 0,
        k <= n,
    ensures
        spec_consumed_n(a, k).remaining == Some((n - k) as u64),
        spec_consumed_n(a, k).count == k,
        spec_consumed_n(a, k).mint_config == a.mint_config,
        spec_consumed_n(a, k).mint_phase_index == a.mint_phase_index,
        spec_consumed_n(a, k).user == a.user,
        k < n ==> spec_consumed_n(a, k).remaining != Some(0u64),
        k == n ==> spec_consumed_n(a, k).remaining == Some(0u64),
    decreases k,
{
    if k > 0 {
        lemma_quota_monotonic(a, n, (k - 1) as nat);
    }
}

} // verus!
