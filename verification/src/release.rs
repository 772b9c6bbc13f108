//! Pending-release records: the lock placed on a freshly drawn item.
//!
//! When the output template names a release authority, each drawn item is
//! locked at issuance and a pending-release record is created holding the
//! pool, the item and the recipient. A later release action, signed by the
//! release authority, lifts the lock and destroys the record.

use crate::address::{derived_address, find_derived_address, AccountId};
use crate::config::MintConfig;
use crate::errors::ErrorCode;
use vstd::prelude::*;

verus! {

/// A drawn-but-locked item: the pool it came from, the item, the recipient.
#[derive(Clone, Copy, Debug)]
pub struct OutputMintPendingRelease {
    /// Bump seed of the record's derived address.
    pub bump: u8,
    /// The pool the item was drawn from.
    pub mint_config: AccountId,
    /// The locked item's identity.
    pub mint: AccountId,
    /// The recipient awaiting the release.
    pub holder: AccountId,
}

/// The seed-list prefix of a pending-release record's derived address.
pub open spec fn spec_release_prefix() -> Seq<u8> {
    seq![
        111u8,
        117u8,
        116u8,
        112u8,
        117u8,
        116u8,
        45u8,
        109u8,
        105u8,
        110u8,
        116u8,
        45u8,
        114u8,
        101u8,
        108u8,
        101u8,
        97u8,
        115u8,
        101u8,
    ]
}

/// The seed list of a pending-release record's derived address, before the
/// bump seed.
pub open spec fn spec_release_seeds(mint_config: Seq<u8>, mint: Seq<u8>) -> Seq<Seq<u8>> {
    seq![spec_release_prefix(), mint_config, mint]
}

impl OutputMintPendingRelease {
    /// The seed-list prefix of a pending-release record's derived address.
    pub fn seed_prefix() -> (r: Vec<u8>)
        ensures
            r@ == spec_release_prefix(),
    {
        let mut r: Vec<u8> = Vec::new();
        r.push(111u8);
        r.push(117u8);
        r.push(116u8);
        r.push(112u8);
        r.push(117u8);
        r.push(116u8);
        r.push(45u8);
        r.push(109u8);
        r.push(105u8);
        r.push(110u8);
        r.push(116u8);
        r.push(45u8);
        r.push(114u8);
        r.push(101u8);
        r.push(108u8);
        r.push(101u8);
        r.push(97u8);
        r.push(115u8);
        r.push(101u8);
        assert(r@ =~= spec_release_prefix());
        r
    }

    /// Storage to allocate for one record: the 8-byte discriminator, the
    /// bump and the three identities.
    pub fn default_size() -> (r: usize)
        ensures
            r == 105,
    {
        105
    }

    /// Checks that the record for this (pool, item) pair really sits at
    /// `expected_key` under `program_id`, and returns the full seed list and
    /// the bump seed.
    pub fn seeds(
        mint_config: &AccountId,
        mint_id: &AccountId,
        expected_key: &AccountId,
        program_id: &AccountId,
    ) -> (r: Result<(Vec<Vec<u8>>, u8), ErrorCode>)
        ensures
            match derived_address(spec_release_seeds(mint_config@, mint_id@), program_id@) {
                None => r == Err::<(Vec<Vec<u8>>, u8), ErrorCode>(
                    ErrorCode::InvalidOutputMintsPendingRelease,
                ),
                Some(kb) => if kb.0 == expected_key@ {
                    r matches Ok(s) && s.0.deep_view() == spec_release_seeds(
                        mint_config@,
                        mint_id@,
                    ).push(seq![kb.1]) && s.1 == kb.1
                } else {
                    r == Err::<(Vec<Vec<u8>>, u8), ErrorCode>(
                        ErrorCode::InvalidOutputMintsPendingRelease,
                    )
                },
            },
    {
        let mut seeds: Vec<Vec<u8>> = Vec::new();
        seeds.push(OutputMintPendingRelease::seed_prefix());
        seeds.push(mint_config.to_vec());
        seeds.push(mint_id.to_vec());
        assert(seeds.deep_view() =~~= spec_release_seeds(mint_config@, mint_id@));
        match find_derived_address(&seeds, program_id) {
            None => Err(ErrorCode::InvalidOutputMintsPendingRelease),
            Some((key, bump)) => {
                if key == *expected_key {
                    let mut bump_seed: Vec<u8> = Vec::new();
                    bump_seed.push(bump);
                    assert(bump_seed@ =~= seq![bump]);
                    seeds.push(bump_seed);
                    assert(seeds.deep_view() =~~= spec_release_seeds(mint_config@, mint_id@).push(
                        seq![bump],
                    ));
                    Ok((seeds, bump))
                } else {
                    Err(ErrorCode::InvalidOutputMintsPendingRelease)
                }
            },
        }
    }
}

/// Builds the pending-release record for a fresh draw, when the output
/// template names a release authority; a template without one locks nothing.
///
/// The supplied record account must sit at the (pool, item) pair's derived
/// address.
pub fn create_pending_release(
    mint_config: &MintConfig,
    mint_config_key: &AccountId,
    output_mint: &AccountId,
    user: &AccountId,
    pending_release_key: &AccountId,
    program_id: &AccountId,
) -> (r: Result<Option<OutputMintPendingRelease>, ErrorCode>)
    ensures
        mint_config.output_mint_config.release_authority is None ==> r == Ok::<
            Option<OutputMintPendingRelease>,
            ErrorCode,
        >(None),
        mint_config.output_mint_config.release_authority is Some ==> match derived_address(
            spec_release_seeds(mint_config_key@, output_mint@),
            program_id@,
        ) {
            None => r == Err::<Option<OutputMintPendingRelease>, ErrorCode>(
                ErrorCode::InvalidOutputMintsPendingRelease,
            ),
            Some(kb) => if kb.0 == pending_release_key@ {
                r == Ok::<Option<OutputMintPendingRelease>, ErrorCode>(
                    Some(
                        OutputMintPendingRelease {
                            bump: kb.1,
                            mint_config: *mint_config_key,
                            mint: *output_mint,
                            holder: *user,
                        },
                    ),
                )
            } else {
                r == Err::<Option<OutputMintPendingRelease>, ErrorCode>(
                    ErrorCode::InvalidOutputMintsPendingRelease,
                )
            },
        },
{
    if mint_config.output_mint_config.release_authority.is_none() {
        return Ok(None);
    }
    let (_seeds, bump) = match OutputMintPendingRelease::seeds(
        mint_config_key,
        output_mint,
        pending_release_key,
        program_id,
    ) {
        Ok(p) => p,
        Err(e) => {
            return Err(e);
        },
    };
    Ok(
        Some(
            OutputMintPendingRelease {
                bump,
                mint_config: *mint_config_key,
                mint: *output_mint,
                holder: *user,
            },
        ),
    )
}

/// Gates the release of a locked item and returns the record's signing seed
/// list for the unlock call.
///
/// The record must name this pool and this item; the signer must be the
/// configured release authority (a template without one lets anyone
/// release); and the record must sit at its derived address. The record is
/// destroyed by the host after the unlock, which makes the release
/// irreversible.
pub fn release_output_mint(
    mint_config: &MintConfig,
    pending_release: &OutputMintPendingRelease,
    mint_config_key: &AccountId,
    output_mint: &AccountId,
    release_authority: &AccountId,
    pending_release_key: &AccountId,
    program_id: &AccountId,
) -> (r: Result<Vec<Vec<u8>>, ErrorCode>)
    ensures
        !(pending_release.mint_config@ == mint_config_key@ && pending_release.mint@
            == output_mint@) ==> r == Err::<Vec<Vec<u8>>, ErrorCode>(
            ErrorCode::InvalidOutputMintsPendingRelease,
        ),
        (pending_release.mint_config@ == mint_config_key@ && pending_release.mint@
            == output_mint@ && (mint_config.output_mint_config.release_authority matches Some(ra)
            && ra@ != release_authority@)) ==> r == Err::<Vec<Vec<u8>>, ErrorCode>(
            ErrorCode::InvalidAuthority,
        ),
        (pending_release.mint_config@ == mint_config_key@ && pending_release.mint@
            == output_mint@ && (mint_config.output_mint_config.release_authority is None
            || (mint_config.output_mint_config.release_authority matches Some(ra) && ra@
            == release_authority@))) ==> match derived_address(
            spec_release_seeds(pending_release.mint_config@, pending_release.mint@),
            program_id@,
        ) {
            None => r == Err::<Vec<Vec<u8>>, ErrorCode>(
                ErrorCode::InvalidOutputMintsPendingRelease,
            ),
            Some(kb) => if kb.0 == pending_release_key@ {
                r matches Ok(s) && s.deep_view() == spec_release_seeds(
                    pending_release.mint_config@,
                    pending_release.mint@,
                ).push(seq![kb.1])
            } else {
                r == Err::<Vec<Vec<u8>>, ErrorCode>(ErrorCode::InvalidOutputMintsPendingRelease)
            },
        },
{
    if !(pending_release.mint_config == *mint_config_key) || !(pending_release.mint
        == *output_mint) {
        return Err(ErrorCode::InvalidOutputMintsPendingRelease);
    }
    match &mint_config.output_mint_config.release_authority {
        Some(ra) => {
            if !(*ra == *release_authority) {
                return Err(ErrorCode::InvalidAuthority);
            }
        },
        None => {},
    }
    let (seeds, _bump) = match OutputMintPendingRelease::seeds(
        &pending_release.mint_config,
        &pending_release.mint,
        pending_release_key,
        program_id,
    ) {
        Ok(p) => p,
        Err(e) => {
            return Err(e);
        },
    };
    Ok(seeds)
}

} // verus!
