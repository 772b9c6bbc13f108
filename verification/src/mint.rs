//! The draw request, end to end.
//!
//! One draw gates on the phase's time and count conditions, evaluates the
//! phase's token checks, consults the authorization ledger, removes one
//! pseudo-randomly selected record from the store and reports the region's
//! new size, all as a single decision: any failure leaves the pool and the
//! ledger record untouched, and the host performs the named token-check
//! actions, issues the drawn item and resizes the storage only on success.

use crate::address::AccountId;
use crate::authorization::{handle_authorization_checks, spec_handle_authorization,
    MintPhaseAuthorization};
use crate::config::{spec_account_size, MintConfig};
use crate::entry::{spec_decode_entry, MintEntry};
use crate::errors::ErrorCode;
use crate::phase::{get_phase, spec_phase_open, MintPhaseTokenCheck};
use crate::pool::PoolAccount;
use crate::token_check::{evaluate_token_check, spec_evaluate_token_check, TokenCheckAction,
    TokenCheckContext};
use vstd::prelude::*;

verus! {

/// One creator entry applied to a drawn item: the pool itself comes first,
/// verified and without a royalty share; the configured creators follow,
/// unverified.
#[derive(Clone, Copy, Debug, PartialEq)]
pub struct OutputCreator {
    pub address: AccountId,
    pub verified: bool,
    pub share: u8,
}

/// The creator list applied to every drawn item: the pool's own verified
/// zero-share entry, then the configured creators, unverified, with their
/// shares.
pub fn output_mint_creators(mint_config: &MintConfig, mint_config_key: &AccountId) -> (r: Vec<
    OutputCreator,
>)
    ensures
        r@.len() == mint_config.output_mint_config.creators@.len() + 1,
        r@[0] == (OutputCreator { address: *mint_config_key, verified: true, share: 0u8 }),
        forall|i: int|
            1 <= i < r@.len() ==> r@[i] == (OutputCreator {
                address: mint_config.output_mint_config.creators@[i - 1].address,
                verified: false,
                share: mint_config.output_mint_config.creators@[i - 1].share,
            }),
{
    let mut creators: Vec<OutputCreator> = Vec::new();
    creators.push(OutputCreator { address: *mint_config_key, verified: true, share: 0u8 });
    let mut i: usize = 0;
    while i < mint_config.output_mint_config.creators.len()
        invariant
            0 <= i <= mint_config.output_mint_config.creators@.len(),
            creators@.len() == i + 1,
            creators@[0] == (OutputCreator {
                address: *mint_config_key,
                verified: true,
                share: 0u8,
            }),
            forall|j: int|
                1 <= j < creators@.len() ==> creators@[j] == (OutputCreator {
                    address: mint_config.output_mint_config.creators@[j - 1].address,
                    verified: false,
                    share: mint_config.output_mint_config.creators@[j - 1].share,
                }),
        decreases mint_config.output_mint_config.creators@.len() - i,
    {
        let c = &mint_config.output_mint_config.creators[i];
        creators.push(OutputCreator { address: c.address, verified: false, share: c.share });
        i = i + 1;
    }
    creators
}

/// The actions of a phase's token checks, in order, or the first check's
/// failure.
pub open spec fn spec_token_check_actions(
    checks: Seq<MintPhaseTokenCheck>,
    ctxs: Seq<TokenCheckContext>,
) -> Result<Seq<TokenCheckAction>, ErrorCode>
    recommends
        checks.len() == ctxs.len(),
    decreases checks.len(),
{
    if checks.len() == 0 {
        Ok(Seq::<TokenCheckAction>::empty())
    } else {
        match spec_evaluate_token_check(checks.first(), ctxs.first()) {
            Err(e) => Err(e),
            Ok(a) => match spec_token_check_actions(checks.drop_first(), ctxs.drop_first()) {
                Err(e) => Err(e),
                Ok(rest) => Ok(seq![a] + rest),
            },
        }
    }
}

/// Peels the check at `i` off the suffix of the check list starting there.
proof fn lemma_token_check_actions_skip(
    checks: Seq<MintPhaseTokenCheck>,
    ctxs: Seq<TokenCheckContext>,
    i: int,
)
    requires
        checks.len() == ctxs.len(),
        0 <= i < checks.len(),
    ensures
        spec_token_check_actions(checks.skip(i), ctxs.skip(i)) == (match spec_evaluate_token_check(
            checks[i],
            ctxs[i],
        ) {
            Err(e) => Err(e),
            Ok(a) => match spec_token_check_actions(checks.skip(i + 1), ctxs.skip(i + 1)) {
                Err(e) => Err(e),
                Ok(rest) => Ok(seq![a] + rest),
            },
        }),
{
    assert(checks.skip(i).first() == checks[i]);
    assert(ctxs.skip(i).first() == ctxs[i]);
    assert(checks.skip(i).drop_first() =~= checks.skip(i + 1));
    assert(ctxs.skip(i).drop_first() =~= ctxs.skip(i + 1));
}

/// Everything the host must do after a successful draw.
pub struct MintOutcome {
    /// The drawn item, to hand to the issuance collaborator.
    pub entry: MintEntry,
    /// The token-check actions to perform, one per check of the phase.
    pub actions: Vec<TokenCheckAction>,
    /// Whether the item is issued through the compressed-output path.
    pub compressed: bool,
    /// Whether the item must be verified into the pool's collection.
    pub verify_collection: bool,
    /// The backing region's exact size after the draw; the host shrinks the
    /// storage to it and reconciles the freed funds.
    pub new_account_size: usize,
}

/// Runs one draw request against the pool.
///
/// The phase must exist and be open at `timestamp` (the authority may enter
/// a pending phase, nobody a closed one); every token check of the phase
/// must pass on the supplied facts; an item must remain; and the
/// authorization ledger must permit the draw, consuming one quota use. Then
/// one record — at slot `entropy mod remaining` — is removed and decoded,
/// and the pool's count, record block and region size all advance in the
/// same step. Any failure leaves the pool and the ledger record exactly as
/// they were.
pub fn mint(
    pool: &mut PoolAccount,
    program_id: &AccountId,
    mint_config_key: &AccountId,
    mint_phase_ix: u8,
    payer: &AccountId,
    timestamp: i64,
    entropy: u64,
    token_check_contexts: &Vec<TokenCheckContext>,
    user: &AccountId,
    holder: &AccountId,
    holder_is_signer: bool,
    authorization_key: &AccountId,
    authorization_record: &mut Option<MintPhaseAuthorization>,
) -> (r: Result<MintOutcome, ErrorCode>)
    requires
        old(pool).wf(),
        (mint_phase_ix as int) < old(pool).config.mint_phases@.len()
            ==> token_check_contexts@.len() == old(pool).config.mint_phases@[
            mint_phase_ix as int
        ].token_checks@.len(),
    ensures
        r matches Err(e) ==> *final(pool) == *old(pool) && *final(authorization_record) == *old(
            authorization_record,
        ),
        (mint_phase_ix as int) >= old(pool).config.mint_phases@.len() ==> (r matches Err(e) && e
            == ErrorCode::InvalidPhase),
        (mint_phase_ix as int) < old(pool).config.mint_phases@.len() ==> {
            let phase = old(pool).config.mint_phases@[mint_phase_ix as int];
            let is_authority = payer@ == old(pool).config.authority@;
            let checks = spec_token_check_actions(phase.token_checks@, token_check_contexts@);
            let auth = spec_handle_authorization(
                phase.authorization,
                old(pool).config.authority@,
                program_id@,
                mint_config_key@,
                mint_phase_ix,
                user@,
                holder@,
                holder_is_signer,
                authorization_key@,
                *old(authorization_record),
            );
            &&& (!spec_phase_open(phase, timestamp, old(pool).config.count, is_authority) ==> (
            r matches Err(e) && e == ErrorCode::PhaseNotActive))
            &&& (spec_phase_open(phase, timestamp, old(pool).config.count, is_authority) ==> {
                &&& (checks matches Err(e) ==> r == Err::<MintOutcome, ErrorCode>(e))
                &&& (checks is Ok && old(pool).spec_remaining() == 0 ==> (r matches Err(e) && e
                    == ErrorCode::NotTokensRemaining))
                &&& (auth matches Err(e) ==> (checks is Ok && old(pool).spec_remaining() > 0
                    ==> r == Err::<MintOutcome, ErrorCode>(e)))
                &&& (checks matches Ok(actions) ==> (auth matches Ok(updated) ==> (old(
                    pool,
                ).spec_remaining() > 0 ==> {
                    let index = entropy as int % old(pool).spec_remaining() as int;
                    &&& r matches Ok(out)
                    &&& out.entry@ == spec_decode_entry(old(pool).records()[index])
                    &&& out.actions@ == actions
                    &&& out.compressed == (
                    old(pool).config.output_mint_config.merkle_tree is Some)
                    &&& out.verify_collection == (
                    old(pool).config.output_mint_config.collection is Some)
                    &&& out.new_account_size == spec_account_size(final(pool).config)
                    &&& *final(authorization_record) == updated
                    &&& final(pool).wf()
                    &&& final(pool).config.count == old(pool).config.count + 1
                    &&& final(pool).config.supply == old(pool).config.supply
                    &&& final(pool).config.authority == old(pool).config.authority
                    &&& final(pool).config.mint_phases == old(pool).config.mint_phases
                    &&& final(pool).config.output_mint_config == old(
                        pool,
                    ).config.output_mint_config
                    &&& final(pool).config.name == old(pool).config.name
                    &&& final(pool).config.bump == old(pool).config.bump
                    &&& final(pool).config.metadata == old(pool).config.metadata
                    &&& final(pool).records() == old(pool).records().update(
                        index,
                        old(pool).records().last(),
                    ).drop_last()
                    &&& final(pool).records().to_multiset() == old(
                        pool,
                    ).records().to_multiset().remove(old(pool).records()[index])
                })))
            })
        },
{
    let is_authority = *payer == pool.config.authority;
    let mint_phase = match get_phase(&pool.config, mint_phase_ix, is_authority, timestamp) {
        Ok(p) => p,
        Err(e) => {
            return Err(e);
        },
    };

    // Token checks.
    let ghost checks_seq = mint_phase.token_checks@;
    let ghost ctxs_seq = token_check_contexts@;
    let mut actions: Vec<TokenCheckAction> = Vec::new();
    proof {
        assert(checks_seq.skip(0) =~= checks_seq);
        assert(ctxs_seq.skip(0) =~= ctxs_seq);
    }
    let mut i: usize = 0;
    while i < mint_phase.token_checks.len()
        invariant
            0 <= i <= checks_seq.len(),
            old(pool).wf(),
            *pool == *old(pool),
            *authorization_record == *old(authorization_record),
            (mint_phase_ix as int) < old(pool).config.mint_phases@.len(),
            checks_seq == mint_phase.token_checks@,
            checks_seq == old(pool).config.mint_phases@[mint_phase_ix as int].token_checks@,
            ctxs_seq == token_check_contexts@,
            checks_seq.len() == ctxs_seq.len(),
            spec_phase_open(
                old(pool).config.mint_phases@[mint_phase_ix as int],
                timestamp,
                old(pool).config.count,
                payer@ == old(pool).config.authority@,
            ),
            spec_token_check_actions(checks_seq, ctxs_seq) == (match spec_token_check_actions(
                checks_seq.skip(i as int),
                ctxs_seq.skip(i as int),
            ) {
                Ok(rest) => Ok::<Seq<TokenCheckAction>, ErrorCode>(actions@ + rest),
                Err(e) => Err::<Seq<TokenCheckAction>, ErrorCode>(e),
            }),
        decreases checks_seq.len() - i,
    {
        proof {
            lemma_token_check_actions_skip(checks_seq, ctxs_seq, i as int);
        }
        let a = match evaluate_token_check(&mint_phase.token_checks[i], &token_check_contexts[i]) {
            Ok(a) => a,
            Err(e) => {
                return Err(e);
            },
        };
        let ghost pre_actions = actions@;
        actions.push(a);
        proof {
            let gi = i as int;
            assert(spec_evaluate_token_check(checks_seq[gi], ctxs_seq[gi]) == Ok::<
                TokenCheckAction,
                ErrorCode,
            >(a));
            let s1 = spec_token_check_actions(checks_seq.skip(gi + 1), ctxs_seq.skip(gi + 1));
            match s1 {
                Ok(rest) => {
                    assert(pre_actions + (seq![a] + rest) =~= actions@ + rest);
                    assert(spec_token_check_actions(checks_seq.skip(gi), ctxs_seq.skip(gi))
                        == Ok::<Seq<TokenCheckAction>, ErrorCode>(seq![a] + rest));
                    assert(spec_token_check_actions(checks_seq, ctxs_seq) == Ok::<
                        Seq<TokenCheckAction>,
                        ErrorCode,
                    >(pre_actions + (seq![a] + rest)));
                    assert(spec_token_check_actions(checks_seq, ctxs_seq) == Ok::<
                        Seq<TokenCheckAction>,
                        ErrorCode,
                    >(actions@ + rest));
                },
                Err(e) => {
                    assert(spec_token_check_actions(checks_seq.skip(gi), ctxs_seq.skip(gi))
                        == Err::<Seq<TokenCheckAction>, ErrorCode>(e));
                    assert(spec_token_check_actions(checks_seq, ctxs_seq) == Err::<
                        Seq<TokenCheckAction>,
                        ErrorCode,
                    >(e));
                },
            }
        }
        i = i + 1;
    }
    proof {
        assert(checks_seq.skip(checks_seq.len() as int) =~= Seq::<MintPhaseTokenCheck>::empty());
        assert(ctxs_seq.skip(ctxs_seq.len() as int) =~= Seq::<TokenCheckContext>::empty());
        assert(actions@ + Seq::<TokenCheckAction>::empty() =~= actions@);
    }

    // The draw must have something to draw before the ledger is touched.
    let remaining = pool.config.remaining_tokens();
    if remaining == 0 {
        return Err(ErrorCode::NotTokensRemaining);
    }

    // Authorization ledger.
    match handle_authorization_checks(
        program_id,
        &pool.config,
        mint_config_key,
        mint_phase_ix,
        mint_phase,
        user,
        holder,
        holder_is_signer,
        authorization_key,
        authorization_record,
    ) {
        Ok(_u) => {},
        Err(e) => {
            return Err(e);
        },
    }

    let compressed = pool.config.output_mint_config.merkle_tree.is_some();
    let verify_collection = pool.config.output_mint_config.collection.is_some();

    // Draw.
    let entry = match crate::pool::get_random_output_mint(pool, entropy) {
        Ok(e) => e,
        Err(_e) => {
            proof {
                assert(false);
            }
            return Err(ErrorCode::NotTokensRemaining);
        },
    };

    // The region shrank by one record, so its new size surely fits.
    let new_account_size = match pool.config.account_size() {
        Ok(v) => v,
        Err(_e) => {
            proof {
                assert(false);
            }
            return Err(ErrorCode::ArithmeticOverflow);
        },
    };

    Ok(MintOutcome { entry, actions, compressed, verify_collection, new_account_size })
}

} // verus!
