//! Failure conditions surfaced by the allocation engine.
//!
//! Every operation either succeeds or reports exactly one of these
//! conditions; no operation commits partially.

use vstd::prelude::*;

verus! {

/// The failure conditions of the engine.
#[derive(Clone, Copy, Debug, PartialEq, Eq, Structural)]
pub enum ErrorCode {
    /// The signer does not match the stored authority.
    InvalidAuthority,
    /// A referenced authorization record does not match its expected derived
    /// address, or its stored key triple does not match the request, or the
    /// phase requires a record and none exists.
    InvalidMintPhaseAuthorization,
    /// An item-record index is outside the live range.
    InvalidIndex,
    /// A supplied program account is not the expected program.
    InvalidProgramId,
    /// The output template names more creators than the registry allows.
    TooManyCreators,
    /// The pool's address does not match its expected derived location.
    InvalidMintConfigId,
    /// The output token standard cannot be used on the compressed path.
    InvalidTokenStandard,
    /// A compressed-output pool cannot also use a programmable standard or ruleset.
    ProgrammableAndMerkleTree,
    /// Item records can no longer be added: a draw has already happened.
    MintingAlreadyStarted,
    /// The phase index is outside the phase list.
    InvalidPhase,
    /// The phase is pending or closed.
    PhaseNotActive,
    /// No items remain to draw.
    NotTokensRemaining,
    /// The token-check holder did not sign the request.
    HolderNotSigner,
    /// A supplied token account does not belong to the holder or names the
    /// wrong token.
    InvalidTokenCheckHolderTokenAccount,
    /// The supplied transfer target does not match the configured one.
    InvalidTokenCheckTransferTarget,
    /// The holder's balance is below the required amount.
    InvalidTokenCheck,
    /// A supplied metadata account fails the expected shape check.
    InvalidMintMetadata,
    /// A supplied metadata account is not owned by the expected registry.
    InvalidMintMetadataOwner,
    /// The authorization record's quota is exhausted.
    MintPhaseAuthorizationsUsed,
    /// The authorization holder is neither the user nor the authority.
    IncorrectAuthorizationHolder,
    /// The release action is not yet permitted.
    ReleaseTimeInvalid,
    /// A referenced pending-release record does not match the pool and item.
    InvalidOutputMintsPendingRelease,
    /// A checked addition, subtraction or multiplication would wrap.
    ArithmeticOverflow,
}

} // verus!
