//! Evaluation of a phase's token checks.
//!
//! A token check requires the caller to prove ownership, transfer or burn of
//! a specified asset before a draw is allowed. The host hands the engine
//! plain facts it read from the supplied proof accounts; the engine decides
//! whether the proof satisfies the check and, for transfer and burn modes,
//! which action the host must then perform. The all-zero address stands for
//! the native currency.

use crate::address::{zero_address, AccountId};
use crate::errors::ErrorCode;
use crate::phase::{MintPhaseTokenCheck, MintPhaseTokenCheckAddressKind, MintPhaseTokenCheckMode};
use vstd::prelude::*;

verus! {

/// What the host read from a supplied token account.
#[derive(Clone, Copy, Debug)]
pub struct TokenAccountFacts {
    /// The token account's own address.
    pub address: AccountId,
    /// The wallet that owns the token account.
    pub owner: AccountId,
    /// The asset the token account holds.
    pub mint: AccountId,
    /// The balance held.
    pub amount: u64,
}

/// What the host read from a supplied metadata account: one creator entry.
#[derive(Clone, Copy, Debug)]
pub struct CreatorFacts {
    pub address: AccountId,
    pub verified: bool,
}

/// What the host read from a supplied metadata account.
pub struct MetadataFacts {
    /// Whether the metadata account is owned by the asset registry.
    pub owned_by_registry: bool,
    /// The asset the metadata describes.
    pub mint: AccountId,
    /// The verified-collection stamp, if any: collection key and flag.
    pub collection: Option<CreatorFacts>,
    /// The creator list, if any.
    pub creators: Option<Vec<CreatorFacts>>,
}

/// Everything the host supplies to evaluate one token check.
pub struct TokenCheckContext {
    /// The wallet asked to satisfy the check.
    pub holder: AccountId,
    /// Whether that wallet signed the request.
    pub holder_is_signer: bool,
    /// The wallet's native balance, for checks on the native currency.
    pub holder_balance: u64,
    /// The supplied token account, where the check names an asset.
    pub token_account: Option<TokenAccountFacts>,
    /// The supplied metadata account, for collection and creator checks.
    pub metadata: Option<MetadataFacts>,
    /// The supplied transfer target, for transfer-mode checks.
    pub supplied_transfer_target: Option<AccountId>,
}

/// The side effect the host must perform once a check passes.
#[derive(Clone, Copy, Debug, PartialEq)]
pub enum TokenCheckAction {
    /// A balance was verified; nothing to perform.
    Verified,
    /// Move native currency from the holder to the target.
    TransferNative { from: AccountId, to: AccountId, amount: u64 },
    /// Move tokens out of the holder's token account to the target wallet.
    TransferToken { from: AccountId, to: AccountId, amount: u64 },
    /// Burn tokens out of the given source account.
    Burn { from: AccountId, amount: u64 },
}

/// The check names the native currency: a raw-asset check on the all-zero
/// address.
pub open spec fn spec_is_native(check: MintPhaseTokenCheck) -> bool {
    check.address_kind == MintPhaseTokenCheckAddressKind::Mint && check.address@ == zero_address()
}

/// Validates the funding source the holder supplied for one check, before
/// any amount is considered.
///
/// A raw-asset check on the native currency needs no further accounts. Any
/// other check needs a token account owned by the holder; a raw-asset check
/// also pins its asset, while collection and creator checks need a metadata
/// account, owned by the registry and describing the same asset, carrying
/// the verified collection stamp or a verified creator entry for the checked
/// address.
pub open spec fn spec_validate_source(check: MintPhaseTokenCheck, ctx: TokenCheckContext) -> Result<
    (),
    ErrorCode,
> {
    if spec_is_native(check) {
        Ok(())
    } else {
        match ctx.token_account {
            None => Err(ErrorCode::InvalidTokenCheckHolderTokenAccount),
            Some(ta) => if ta.owner@ != ctx.holder@ {
                Err(ErrorCode::InvalidTokenCheckHolderTokenAccount)
            } else if check.address_kind == MintPhaseTokenCheckAddressKind::Mint {
                if ta.mint@ != check.address@ {
                    Err(ErrorCode::InvalidTokenCheckHolderTokenAccount)
                } else {
                    Ok(())
                }
            } else {
                match ctx.metadata {
                    None => Err(ErrorCode::InvalidMintMetadataOwner),
                    Some(md) => if !md.owned_by_registry {
                        Err(ErrorCode::InvalidMintMetadataOwner)
                    } else if md.mint@ != ta.mint@ {
                        Err(ErrorCode::InvalidMintMetadata)
                    } else if check.address_kind == MintPhaseTokenCheckAddressKind::Collection {
                        match md.collection {
                            None => Err(ErrorCode::InvalidMintMetadata),
                            Some(col) => if col.verified && col.address@ == check.address@ {
                                Ok(())
                            } else {
                                Err(ErrorCode::InvalidMintMetadata)
                            },
                        }
                    } else {
                        match md.creators {
                            None => Err(ErrorCode::InvalidMintMetadata),
                            Some(cs) => if exists|i: int|
                                0 <= i < cs@.len() && cs@[i].verified && cs@[i].address@
                                    == check.address@ {
                                Ok(())
                            } else {
                                Err(ErrorCode::InvalidMintMetadata)
                            },
                        }
                    },
                }
            },
        }
    }
}

/// The balance the validated source holds: the wallet's native balance for a
/// native check, the token account's balance otherwise.
pub open spec fn spec_source_amount(check: MintPhaseTokenCheck, ctx: TokenCheckContext) -> u64 {
    if spec_is_native(check) {
        ctx.holder_balance
    } else {
        match ctx.token_account {
            Some(ta) => ta.amount,
            None => 0,
        }
    }
}

/// Decides one token check from the supplied facts.
///
/// The holder must have signed; the supplied source must validate; then a
/// verify-balance check requires the source to hold the amount, and a
/// transfer or burn check requires the supplied transfer target to match the
/// configured one (for transfers) and names the action the host performs.
pub open spec fn spec_evaluate_token_check(
    check: MintPhaseTokenCheck,
    ctx: TokenCheckContext,
) -> Result<TokenCheckAction, ErrorCode> {
    if !ctx.holder_is_signer {
        Err(ErrorCode::HolderNotSigner)
    } else {
        match spec_validate_source(check, ctx) {
            Err(e) => Err(e),
            Ok(_u) => match check.mode {
                MintPhaseTokenCheckMode::Check => if spec_source_amount(check, ctx)
                    < check.amount {
                    Err(ErrorCode::InvalidTokenCheck)
                } else {
                    Ok(TokenCheckAction::Verified)
                },
                MintPhaseTokenCheckMode::Transfer => {
                    let target_ok = check.transfer_target matches Some(t)
                        && ctx.supplied_transfer_target matches Some(s) && s@ == t@;
                    if !target_ok {
                        Err(ErrorCode::InvalidTokenCheckTransferTarget)
                    } else {
                        match ctx.supplied_transfer_target {
                            Some(target) => if spec_is_native(check) {
                                Ok(
                                    TokenCheckAction::TransferNative {
                                        from: ctx.holder,
                                        to: target,
                                        amount: check.amount,
                                    },
                                )
                            } else {
                                match ctx.token_account {
                                    Some(ta) => Ok(
                                        TokenCheckAction::TransferToken {
                                            from: ta.address,
                                            to: target,
                                            amount: check.amount,
                                        },
                                    ),
                                    None => Err(ErrorCode::InvalidTokenCheckHolderTokenAccount),
                                }
                            },
                            None => Err(ErrorCode::InvalidTokenCheckTransferTarget),
                        }
                    }
                },
                MintPhaseTokenCheckMode::Burn => {
                    if spec_is_native(check) {
                        Ok(TokenCheckAction::Burn { from: ctx.holder, amount: check.amount })
                    } else {
                        match ctx.token_account {
                            Some(ta) => Ok(
                                TokenCheckAction::Burn { from: ta.address, amount: check.amount },
                            ),
                            None => Err(ErrorCode::InvalidTokenCheckHolderTokenAccount),
                        }
                    }
                },
            },
        }
    }
}

/// Searches a creator list for a verified entry naming `address`.
fn has_verified_creator(creators: &Vec<CreatorFacts>, address: &AccountId) -> (r: bool)
    ensures
        r == exists|i: int|
            0 <= i < creators@.len() && creators@[i].verified && creators@[i].address@ == address@,
{
    let mut i: usize = 0;
    while i < creators.len()
        invariant
            0 <= i <= creators@.len(),
            forall|j: int|
                0 <= j < i ==> !(#[trigger] creators@[j].verified && creators@[j].address@
                    == address@),
        decreases creators@.len() - i,
    {
        let c = &creators[i];
        if c.verified && c.address == *address {
            return true;
        }
        i = i + 1;
    }
    false
}

/// Evaluates one token check against the facts the host supplied.
pub fn evaluate_token_check(check: &MintPhaseTokenCheck, ctx: &TokenCheckContext) -> (r: Result<
    TokenCheckAction,
    ErrorCode,
>)
    ensures
        r == spec_evaluate_token_check(*check, *ctx),
{
    if !ctx.holder_is_signer {
        return Err(ErrorCode::HolderNotSigner);
    }
    let is_native = match check.address_kind {
        MintPhaseTokenCheckAddressKind::Mint => check.address.is_zero(),
        _ => false,
    };
    assert(is_native == spec_is_native(*check));

    // Validate the funding source.
    if !is_native {
        let ta = match &ctx.token_account {
            Some(ta) => ta,
            None => {
                return Err(ErrorCode::InvalidTokenCheckHolderTokenAccount);
            },
        };
        if !(ta.owner == ctx.holder) {
            return Err(ErrorCode::InvalidTokenCheckHolderTokenAccount);
        }
        match check.address_kind {
            MintPhaseTokenCheckAddressKind::Mint => {
                if !(ta.mint == check.address) {
                    return Err(ErrorCode::InvalidTokenCheckHolderTokenAccount);
                }
            },
            _ => {
                let md = match &ctx.metadata {
                    Some(md) => md,
                    None => {
                        return Err(ErrorCode::InvalidMintMetadataOwner);
                    },
                };
                if !md.owned_by_registry {
                    return Err(ErrorCode::InvalidMintMetadataOwner);
                }
                if !(md.mint == ta.mint) {
                    return Err(ErrorCode::InvalidMintMetadata);
                }
                match check.address_kind {
                    MintPhaseTokenCheckAddressKind::Collection => {
                        match &md.collection {
                            None => {
                                return Err(ErrorCode::InvalidMintMetadata);
                            },
                            Some(col) => {
                                if !(col.verified && col.address == check.address) {
                                    return Err(ErrorCode::InvalidMintMetadata);
                                }
                            },
                        }
                    },
                    _ => {
                        match &md.creators {
                            None => {
                                return Err(ErrorCode::InvalidMintMetadata);
                            },
                            Some(cs) => {
                                if !has_verified_creator(cs, &check.address) {
                                    return Err(ErrorCode::InvalidMintMetadata);
                                }
                            },
                        }
                    },
                }
            },
        }
    }
    assert(spec_validate_source(*check, *ctx) == Ok::<(), ErrorCode>(()));

    // Decide the action.
    match check.mode {
        MintPhaseTokenCheckMode::Check => {
            let amount = if is_native {
                ctx.holder_balance
            } else {
                match &ctx.token_account {
                    Some(ta) => ta.amount,
                    None => 0,
                }
            };
            if amount < check.amount {
                Err(ErrorCode::InvalidTokenCheck)
            } else {
                Ok(TokenCheckAction::Verified)
            }
        },
        MintPhaseTokenCheckMode::Transfer => {
            let target = match &ctx.supplied_transfer_target {
                Some(t) => t,
                None => {
                    return Err(ErrorCode::InvalidTokenCheckTransferTarget);
                },
            };
            let configured = match &check.transfer_target {
                Some(t) => t,
                None => {
                    return Err(ErrorCode::InvalidTokenCheckTransferTarget);
                },
            };
            if !(*target == *configured) {
                return Err(ErrorCode::InvalidTokenCheckTransferTarget);
            }
            if is_native {
                Ok(
                    TokenCheckAction::TransferNative {
                        from: ctx.holder,
                        to: *target,
                        amount: check.amount,
                    },
                )
            } else {
                match &ctx.token_account {
                    Some(ta) => Ok(
                        TokenCheckAction::TransferToken {
                            from: ta.address,
                            to: *target,
                            amount: check.amount,
                        },
                    ),
                    None => Err(ErrorCode::InvalidTokenCheckHolderTokenAccount),
                }
            }
        },
        MintPhaseTokenCheckMode::Burn => {
            if is_native {
                Ok(TokenCheckAction::Burn { from: ctx.holder, amount: check.amount })
            } else {
                match &ctx.token_account {
                    Some(ta) => Ok(TokenCheckAction::Burn { from: ta.address, amount: check.amount }),
                    None => Err(ErrorCode::InvalidTokenCheckHolderTokenAccount),
                }
            }
        },
    }
}

} // verus!
