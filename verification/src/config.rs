//! Pool configuration: the aggregate root's header data.
//!
//! The header is persisted in a fixed binary layout: an 8-byte account
//! discriminator, then each field in declaration order; byte strings carry a
//! 4-byte little-endian length prefix, options a 1-byte tag (plus the value
//! when present), enums a 1-byte tag, and integers their little-endian
//! width. The packed item records sit immediately after the header, so every
//! edit that changes the header's serialized size must relocate them.

use crate::address::{derived_address, find_derived_address, AccountId};
use crate::entry::MINT_ENTRY_SIZE;
use crate::errors::ErrorCode;
use crate::phase::{MintPhase, MintPhaseAuthorizationCheck, MintPhaseStartEndCondition,
    MintPhaseTokenCheck};
use crate::utils::{clone_bytes, lemma_seq_sum_all, lemma_seq_sum_skip, seq_sum};
use vstd::prelude::*;

verus! {

/// One royalty recipient of the output items.
#[derive(Clone, Copy, Debug)]
pub struct Creator {
    pub address: AccountId,
    /// Royalty share, in percent.
    pub share: u8,
}

/// The standard of the output items.
#[derive(Clone, Copy, Debug, PartialEq, Eq, Structural)]
pub enum TokenStandard {
    NonFungible,
    FungibleAsset,
    Fungible,
    NonFungibleEdition,
    ProgrammableNonFungible,
}

impl TokenStandard {
    /// The standard to use on the compressed-output path, where the
    /// programmable standard is not representable.
    pub fn bg_token_standard(&self) -> (r: Result<TokenStandard, ErrorCode>)
        ensures
            *self == TokenStandard::ProgrammableNonFungible ==> r == Err::<
                TokenStandard,
                ErrorCode,
            >(ErrorCode::InvalidTokenStandard),
            *self != TokenStandard::ProgrammableNonFungible ==> r == Ok::<
                TokenStandard,
                ErrorCode,
            >(*self),
    {
        match self {
            TokenStandard::ProgrammableNonFungible => Err(ErrorCode::InvalidTokenStandard),
            _ => Ok(*self),
        }
    }
}

/// Royalty, collection and creator metadata applied uniformly to drawn items.
pub struct OutputMintConfig {
    /// Royalty amount, in basis points.
    pub seller_fee_basis_points: u16,
    /// Standard of the output items.
    pub token_standard: TokenStandard,
    /// Collection the output items are verified into, if any.
    pub collection: Option<AccountId>,
    /// Ruleset of programmable output items, if any.
    pub ruleset: Option<AccountId>,
    /// Royalty recipients set on the output items.
    pub creators: Vec<Creator>,
    /// Compressed-output target; when set, drawn items are issued compressed.
    pub merkle_tree: Option<AccountId>,
    /// When set, drawn items stay locked until this identity releases them.
    pub release_authority: Option<AccountId>,
}

/// The pool's header: authority, counters, output template and phase list.
pub struct MintConfig {
    /// Bump seed of the pool's derived address.
    pub bump: u8,
    /// The identity permitted to mutate this configuration.
    pub authority: AccountId,
    /// Immutable name; a seed of the pool's derived address.
    pub name: Vec<u8>,
    /// Total items ever added. Monotonic.
    pub supply: u64,
    /// Total items drawn. Monotonic, never above `supply`.
    pub count: u64,
    /// Template applied to drawn items.
    pub output_mint_config: OutputMintConfig,
    /// The eligibility phases; the index is a phase's external identifier.
    pub mint_phases: Vec<MintPhase>,
    /// Free-form descriptive byte string.
    pub metadata: Vec<u8>,
}

/// How many creators the asset registry accepts on one item, the pool's own
/// mandatory entry included.
pub const MAX_CREATOR_LIMIT: usize = 5;

/// An output template is valid when its creator list leaves room for the
/// pool's own entry and a compressed-output target is not combined with a
/// programmable standard or a ruleset.
pub open spec fn spec_output_config_valid(o: OutputMintConfig) -> bool {
    &&& o.creators@.len() < MAX_CREATOR_LIMIT
    &&& !(o.merkle_tree is Some && (o.ruleset is Some || o.token_standard
        == TokenStandard::ProgrammableNonFungible))
}

/// A configuration is valid exactly when its output template is.
pub open spec fn spec_config_valid(c: MintConfig) -> bool {
    spec_output_config_valid(c.output_mint_config)
}

/// Serialized size of an optional identity: a tag byte, plus 32 bytes when
/// present.
pub open spec fn spec_opt_key_size(o: Option<AccountId>) -> nat {
    match o {
        Some(_) => 33,
        None => 1,
    }
}

/// Serialized size of an optional 64-bit integer.
pub open spec fn spec_opt_u64_size(o: Option<u64>) -> nat {
    match o {
        Some(_) => 9,
        None => 1,
    }
}

/// Serialized size of an optional signed 64-bit integer.
pub open spec fn spec_opt_i64_size(o: Option<i64>) -> nat {
    match o {
        Some(_) => 9,
        None => 1,
    }
}

/// Serialized size of a start or end condition's two optional thresholds.
pub open spec fn spec_condition_size(c: MintPhaseStartEndCondition) -> nat {
    spec_opt_i64_size(c.time_seconds) + spec_opt_u64_size(c.count)
}

/// Serialized size of an optional condition.
pub open spec fn spec_opt_condition_size(o: Option<MintPhaseStartEndCondition>) -> nat {
    match o {
        Some(c) => 1 + spec_condition_size(c),
        None => 1,
    }
}

/// Serialized size of one token check: kind tag, address, amount, optional
/// transfer target and mode tag.
pub open spec fn spec_token_check_size(t: MintPhaseTokenCheck) -> nat {
    1 + 32 + 8 + spec_opt_key_size(t.transfer_target) + 1
}

/// Serialized size of an optional authorization rule: a tag byte, plus the
/// mode tag when present.
pub open spec fn spec_opt_authorization_size(o: Option<MintPhaseAuthorizationCheck>) -> nat {
    match o {
        Some(_) => 2,
        None => 1,
    }
}

/// The token-check size as a function value, for summing over a list.
pub open spec fn token_check_size_fn() -> spec_fn(MintPhaseTokenCheck) -> nat {
    |t: MintPhaseTokenCheck| spec_token_check_size(t)
}

/// Serialized size of one phase: both optional conditions, the length-prefixed
/// token-check list, the optional authorization rule and the length-prefixed
/// metadata.
pub open spec fn spec_phase_size(p: MintPhase) -> nat {
    spec_opt_condition_size(p.start_condition) + spec_opt_condition_size(p.end_condition) + 4
        + seq_sum(p.token_checks@, token_check_size_fn()) + spec_opt_authorization_size(
        p.authorization,
    ) + 4 + p.metadata@.len()
}

/// The phase size as a function value, for summing over the phase list.
pub open spec fn phase_size_fn() -> spec_fn(MintPhase) -> nat {
    |p: MintPhase| spec_phase_size(p)
}

/// Serialized size of the output template: royalty amount, standard tag,
/// the four optional identities and the length-prefixed creator list of
/// 33-byte entries.
pub open spec fn spec_output_mint_config_size(o: OutputMintConfig) -> nat {
    2 + 1 + spec_opt_key_size(o.collection) + spec_opt_key_size(o.ruleset) + 4 + 33
        * o.creators@.len() + spec_opt_key_size(o.merkle_tree) + spec_opt_key_size(
        o.release_authority,
    )
}

/// Serialized size of a header assembled from its parts: the 8-byte
/// discriminator, the bump, the authority, the length-prefixed name, both
/// counters, the output template, the length-prefixed phase list and the
/// length-prefixed metadata.
pub open spec fn spec_config_serialized_size_parts(
    name_len: nat,
    output: OutputMintConfig,
    phases: Seq<MintPhase>,
    metadata_len: nat,
) -> nat {
    8 + 1 + 32 + 4 + name_len + 8 + 8 + spec_output_mint_config_size(output) + 4 + seq_sum(
        phases,
        phase_size_fn(),
    ) + 4 + metadata_len
}

/// Serialized size of the whole header.
pub open spec fn spec_config_serialized_size(c: MintConfig) -> nat {
    spec_config_serialized_size_parts(
        c.name@.len(),
        c.output_mint_config,
        c.mint_phases@,
        c.metadata@.len(),
    )
}

/// Size of the pool's whole backing region: the header followed by one
/// packed record per undrawn item.
pub open spec fn spec_account_size(c: MintConfig) -> nat
    recommends
        c.count <= c.supply,
{
    (spec_config_serialized_size(c) + (c.supply - c.count) * MINT_ENTRY_SIZE) as nat
}

/// Serialized size of an optional identity.
fn opt_key_size(o: &Option<AccountId>) -> (r: usize)
    ensures
        r == spec_opt_key_size(*o),
        r <= 33,
{
    match o {
        Some(_) => 33,
        None => 1,
    }
}

/// Serialized size of an optional condition.
fn opt_condition_size(o: &Option<MintPhaseStartEndCondition>) -> (r: usize)
    ensures
        r == spec_opt_condition_size(*o),
        r <= 19,
{
    match o {
        None => 1,
        Some(c) => {
            let t: usize = if c.time_seconds.is_some() {
                9
            } else {
                1
            };
            let n: usize = if c.count.is_some() {
                9
            } else {
                1
            };
            1 + t + n
        },
    }
}

/// Serialized size of one token check.
fn token_check_size(t: &MintPhaseTokenCheck) -> (r: usize)
    ensures
        r == spec_token_check_size(*t),
        r <= 75,
{
    42 + opt_key_size(&t.transfer_target)
}

/// Serialized size of an optional authorization rule.
fn opt_authorization_size(o: &Option<MintPhaseAuthorizationCheck>) -> (r: usize)
    ensures
        r == spec_opt_authorization_size(*o),
        r <= 2,
{
    match o {
        Some(_) => 2,
        None => 1,
    }
}

/// Serialized size of one phase, or the overflow error when it does not fit
/// the address space.
pub fn phase_serialized_size(p: &MintPhase) -> (r: Result<usize, ErrorCode>)
    ensures
        match r {
            Ok(v) => v == spec_phase_size(*p),
            Err(e) => e == ErrorCode::ArithmeticOverflow && spec_phase_size(*p) > usize::MAX,
        },
{
    let mut size: usize = opt_condition_size(&p.start_condition) + opt_condition_size(
        &p.end_condition,
    ) + 4;
    let ghost s0 = size as nat;
    proof {
        lemma_seq_sum_all(p.token_checks@, token_check_size_fn());
    }
    let mut i: usize = 0;
    while i < p.token_checks.len()
        invariant
            0 <= i <= p.token_checks@.len(),
            size as nat + seq_sum(p.token_checks@.skip(i as int), token_check_size_fn()) == s0 + seq_sum(
                p.token_checks@,
                token_check_size_fn(),
            ),
            s0 == spec_opt_condition_size(p.start_condition) + spec_opt_condition_size(
                p.end_condition,
            ) + 4,
        decreases p.token_checks@.len() - i,
    {
        proof {
            lemma_seq_sum_skip(p.token_checks@, token_check_size_fn(), i as int);
            assert(token_check_size_fn()(p.token_checks@[i as int]) == spec_token_check_size(
                p.token_checks@[i as int],
            ));
        }
        let c = token_check_size(&p.token_checks[i]);
        size = match size.checked_add(c) {
            Some(v) => v,
            None => {
                return Err(ErrorCode::ArithmeticOverflow);
            },
        };
        i = i + 1;
    }
    proof {
        lemma_seq_sum_all(p.token_checks@, token_check_size_fn());
    }
    let a = opt_authorization_size(&p.authorization);
    size = match size.checked_add(a) {
        Some(v) => v,
        None => {
            return Err(ErrorCode::ArithmeticOverflow);
        },
    };
    size = match size.checked_add(4) {
        Some(v) => v,
        None => {
            return Err(ErrorCode::ArithmeticOverflow);
        },
    };
    size = match size.checked_add(p.metadata.len()) {
        Some(v) => v,
        None => {
            return Err(ErrorCode::ArithmeticOverflow);
        },
    };
    Ok(size)
}

/// Serialized size of the output template, or the overflow error.
fn output_mint_config_size(o: &OutputMintConfig) -> (r: Result<usize, ErrorCode>)
    ensures
        match r {
            Ok(v) => v == spec_output_mint_config_size(*o),
            Err(e) => e == ErrorCode::ArithmeticOverflow && spec_output_mint_config_size(*o)
                > usize::MAX,
        },
{
    let base: usize = 2 + 1 + opt_key_size(&o.collection) + opt_key_size(&o.ruleset) + 4
        + opt_key_size(&o.merkle_tree) + opt_key_size(&o.release_authority);
    let creators = match o.creators.len().checked_mul(33) {
        Some(v) => v,
        None => {
            return Err(ErrorCode::ArithmeticOverflow);
        },
    };
    match base.checked_add(creators) {
        Some(v) => Ok(v),
        None => Err(ErrorCode::ArithmeticOverflow),
    }
}

/// Serialized size of the whole header, or the overflow error.
pub fn config_serialized_size(c: &MintConfig) -> (r: Result<usize, ErrorCode>)
    ensures
        match r {
            Ok(v) => v == spec_config_serialized_size(*c),
            Err(e) => e == ErrorCode::ArithmeticOverflow && spec_config_serialized_size(*c)
                > usize::MAX,
        },
{
    let mut size: usize = 69;
    size = match size.checked_add(c.name.len()) {
        Some(v) => v,
        None => {
            return Err(ErrorCode::ArithmeticOverflow);
        },
    };
    let output = match output_mint_config_size(&c.output_mint_config) {
        Ok(v) => v,
        Err(e) => {
            return Err(e);
        },
    };
    size = match size.checked_add(output) {
        Some(v) => v,
        None => {
            return Err(ErrorCode::ArithmeticOverflow);
        },
    };
    let ghost s0 = size as nat;
    proof {
        lemma_seq_sum_all(c.mint_phases@, phase_size_fn());
    }
    let mut i: usize = 0;
    while i < c.mint_phases.len()
        invariant
            0 <= i <= c.mint_phases@.len(),
            size as nat + seq_sum(c.mint_phases@.skip(i as int), phase_size_fn()) == s0 + seq_sum(
                c.mint_phases@,
                phase_size_fn(),
            ),
            s0 == 69 + c.name@.len() + spec_output_mint_config_size(c.output_mint_config),
        decreases c.mint_phases@.len() - i,
    {
        proof {
            lemma_seq_sum_skip(c.mint_phases@, phase_size_fn(), i as int);
            assert(phase_size_fn()(c.mint_phases@[i as int]) == spec_phase_size(c.mint_phases@[i as int]));
        }
        let p = match phase_serialized_size(&c.mint_phases[i]) {
            Ok(v) => v,
            Err(e) => {
                return Err(e);
            },
        };
        size = match size.checked_add(p) {
            Some(v) => v,
            None => {
                return Err(ErrorCode::ArithmeticOverflow);
            },
        };
        i = i + 1;
    }
    proof {
        lemma_seq_sum_all(c.mint_phases@, phase_size_fn());
    }
    size = match size.checked_add(c.metadata.len()) {
        Some(v) => v,
        None => {
            return Err(ErrorCode::ArithmeticOverflow);
        },
    };
    Ok(size)
}

/// The seed-list prefix of a pool's derived address.
pub open spec fn spec_mint_config_prefix() -> Seq<u8> {
    seq![109u8, 105u8, 110u8, 116u8, 45u8, 99u8, 111u8, 110u8, 102u8, 105u8, 103u8]
}

/// The seed-list prefix of a pool's derived address, as bytes.
pub fn mint_config_prefix() -> (r: Vec<u8>)
    ensures
        r@ == spec_mint_config_prefix(),
{
    let mut r: Vec<u8> = Vec::new();
    r.push(109u8);
    r.push(105u8);
    r.push(110u8);
    r.push(116u8);
    r.push(45u8);
    r.push(99u8);
    r.push(111u8);
    r.push(110u8);
    r.push(102u8);
    r.push(105u8);
    r.push(103u8);
    assert(r@ =~= spec_mint_config_prefix());
    r
}

impl MintConfig {
    /// Undrawn items: the live record count.
    pub fn remaining_tokens(&self) -> (r: u64)
        requires
            self.count <= self.supply,
        ensures
            r == self.supply - self.count,
    {
        self.supply - self.count
    }

    /// Size of the pool's whole backing region under this header: the
    /// serialized header followed by one packed record per undrawn item.
    pub fn account_size(&self) -> (r: Result<usize, ErrorCode>)
        requires
            self.count <= self.supply,
        ensures
            match r {
                Ok(v) => v == spec_account_size(*self),
                Err(e) => e == ErrorCode::ArithmeticOverflow && spec_account_size(*self)
                    > usize::MAX,
            },
    {
        let base = match config_serialized_size(self) {
            Ok(v) => v,
            Err(e) => {
                return Err(e);
            },
        };
        let remaining = self.supply - self.count;
        let total: u128 = base as u128 + (remaining as u128) * (MINT_ENTRY_SIZE as u128);
        if total > usize::MAX as u128 {
            Err(ErrorCode::ArithmeticOverflow)
        } else {
            Ok(total as usize)
        }
    }

    /// Validates the configuration: rejects a creator list that leaves no
    /// room for the pool's own entry, and a compressed-output target combined
    /// with a programmable standard or a ruleset.
    pub fn check_valid(&self) -> (r: Result<(), ErrorCode>)
        ensures
            self.output_mint_config.creators@.len() >= MAX_CREATOR_LIMIT ==> r == Err::<
                (),
                ErrorCode,
            >(ErrorCode::TooManyCreators),
            self.output_mint_config.creators@.len() < MAX_CREATOR_LIMIT && !spec_config_valid(
                *self,
            ) ==> r == Err::<(), ErrorCode>(ErrorCode::ProgrammableAndMerkleTree),
            spec_config_valid(*self) ==> r == Ok::<(), ErrorCode>(()),
    {
        if self.output_mint_config.creators.len() > MAX_CREATOR_LIMIT - 1 {
            return Err(ErrorCode::TooManyCreators);
        }
        if self.output_mint_config.merkle_tree.is_some() && (self.output_mint_config.ruleset.is_some()
            || self.output_mint_config.token_standard == TokenStandard::ProgrammableNonFungible) {
            return Err(ErrorCode::ProgrammableAndMerkleTree);
        }
        Ok(())
    }

    /// Checks that a pool claiming `name` really sits at `expected_key` under
    /// `program_id`, and returns the full seed list, bump seed included.
    ///
    /// Fails exactly when the derived address differs from the expected one,
    /// or no address can be derived from these seeds at all.
    pub fn seeds(name: &Vec<u8>, expected_key: &AccountId, program_id: &AccountId) -> (r: Result<
        Vec<Vec<u8>>,
        ErrorCode,
    >)
        ensures
            match derived_address(seq![spec_mint_config_prefix(), name@], program_id@) {
                None => r == Err::<Vec<Vec<u8>>, ErrorCode>(ErrorCode::InvalidMintConfigId),
                Some(kb) => if kb.0 == expected_key@ {
                    r matches Ok(s) && s.deep_view() == seq![
                        spec_mint_config_prefix(),
                        name@,
                        seq![kb.1],
                    ]
                } else {
                    r == Err::<Vec<Vec<u8>>, ErrorCode>(ErrorCode::InvalidMintConfigId)
                },
            },
    {
        let mut seeds: Vec<Vec<u8>> = Vec::new();
        seeds.push(mint_config_prefix());
        seeds.push(clone_bytes(name));
        assert(seeds.deep_view() =~~= seq![spec_mint_config_prefix(), name@]);
        match find_derived_address(&seeds, program_id) {
            None => Err(ErrorCode::InvalidMintConfigId),
            Some((key, bump)) => {
                if key == *expected_key {
                    let mut bump_seed: Vec<u8> = Vec::new();
                    bump_seed.push(bump);
                    assert(bump_seed@ =~= seq![bump]);
                    seeds.push(bump_seed);
                    assert(seeds.deep_view() =~~= seq![
                        spec_mint_config_prefix(),
                        name@,
                        seq![bump],
                    ]);
                    Ok(seeds)
                } else {
                    Err(ErrorCode::InvalidMintConfigId)
                }
            },
        }
    }
}

} // verus!
