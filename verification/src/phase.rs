//! The phase-eligibility state machine.
//!
//! A phase is Pending while its start condition is defined and unmet, Open
//! once the start condition is met (or absent), and Closed once its end
//! condition is met. A condition is met when *either* its timestamp
//! threshold or its draw-count threshold is reached; an absent sub-condition
//! never blocks on that axis. The configuring authority may bypass Pending
//! but never Closed. The machine keeps no state of its own: it is evaluated
//! fresh from the wall-clock time and the pool's global draw count.

use crate::address::AccountId;
use crate::config::MintConfig;
use crate::errors::ErrorCode;
use vstd::prelude::*;

verus! {

/// A start or end condition: met when either threshold is reached.
#[derive(Clone, Copy, Debug)]
pub struct MintPhaseStartEndCondition {
    /// Timestamp threshold, in seconds.
    pub time_seconds: Option<i64>,
    /// Global draw-count threshold.
    pub count: Option<u64>,
}

/// The kind of address a token check names.
#[derive(Clone, Copy, Debug, PartialEq, Eq, Structural)]
pub enum MintPhaseTokenCheckAddressKind {
    /// The address is a raw asset address.
    Mint,
    /// The address is a collection address.
    Collection,
    /// The address is a creator address.
    Creator,
}

/// What a token check does with the required amount.
#[derive(Clone, Copy, Debug, PartialEq, Eq, Structural)]
pub enum MintPhaseTokenCheckMode {
    /// Verify that the holder owns the amount.
    Check,
    /// Transfer the amount to the configured target.
    Transfer,
    /// Burn the amount.
    Burn,
}

/// A gating rule the caller must satisfy before a draw is allowed.
#[derive(Clone, Copy, Debug)]
pub struct MintPhaseTokenCheck {
    /// What kind of address this check names.
    pub address_kind: MintPhaseTokenCheckAddressKind,
    /// The checked address; the all-zero identity stands for the native
    /// currency.
    pub address: AccountId,
    /// The required amount.
    pub amount: u64,
    /// Where a transfer-mode check sends the amount.
    pub transfer_target: Option<AccountId>,
    /// Whether the amount is verified, transferred or burned.
    pub mode: MintPhaseTokenCheckMode,
}

/// The implicit policy when no authorization record exists for a user.
#[derive(Clone, Copy, Debug, PartialEq, Eq, Structural)]
pub enum MintPhaseAuthorizationMode {
    /// A missing record denies the draw.
    DefaultDisallowed,
    /// A missing record permits the draw, with no bookkeeping.
    DefaultAllowed,
}

/// The authorization rule of a phase, consulted against the per-user ledger.
#[derive(Clone, Copy, Debug)]
pub struct MintPhaseAuthorizationCheck {
    pub mode: MintPhaseAuthorizationMode,
}

/// One eligibility phase of the distribution.
pub struct MintPhase {
    /// If set, the condition must be met (or the caller must be the
    /// authority) for the phase to be open.
    pub start_condition: Option<MintPhaseStartEndCondition>,
    /// If set and met, the phase is closed for everyone.
    pub end_condition: Option<MintPhaseStartEndCondition>,
    /// Token checks to satisfy on every draw from this phase.
    pub token_checks: Vec<MintPhaseTokenCheck>,
    /// Authorization rule, consulted against the per-user ledger.
    pub authorization: Option<MintPhaseAuthorizationCheck>,
    /// Free-form descriptive byte string.
    pub metadata: Vec<u8>,
}

/// A condition is met when either of its present thresholds is reached.
pub open spec fn spec_condition_met(
    c: MintPhaseStartEndCondition,
    timestamp: i64,
    count: u64,
) -> bool {
    ||| (c.time_seconds matches Some(t) && timestamp >= t)
    ||| (c.count matches Some(n) && count >= n)
}

/// A phase has started when it has no start condition, the condition is met,
/// or the caller is the authority (the administrative override).
pub open spec fn spec_phase_started(
    p: MintPhase,
    timestamp: i64,
    count: u64,
    is_authority: bool,
) -> bool {
    match p.start_condition {
        None => true,
        Some(c) => spec_condition_met(c, timestamp, count) || is_authority,
    }
}

/// A phase has ended when its end condition is met; nobody can bypass this.
pub open spec fn spec_phase_ended(p: MintPhase, timestamp: i64, count: u64) -> bool {
    match p.end_condition {
        None => false,
        Some(c) => spec_condition_met(c, timestamp, count),
    }
}

/// A phase is open for a caller when it has started and has not ended.
pub open spec fn spec_phase_open(
    p: MintPhase,
    timestamp: i64,
    count: u64,
    is_authority: bool,
) -> bool {
    spec_phase_started(p, timestamp, count, is_authority) && !spec_phase_ended(
        p,
        timestamp,
        count,
    )
}

/// Evaluates whether one condition is met.
fn condition_met(c: &MintPhaseStartEndCondition, timestamp: i64, count: u64) -> (r: bool)
    ensures
        r == spec_condition_met(*c, timestamp, count),
{
    let mut met = false;
    if let Some(t) = c.time_seconds {
        if timestamp >= t {
            met = true;
        }
    }
    if let Some(n) = c.count {
        if count >= n {
            met = true;
        }
    }
    met
}

/// Looks up a phase by index and gates on its start and end conditions.
///
/// Returns the phase exactly when the index is in range and the phase is
/// open at `timestamp` under the pool's current draw count; a pending phase
/// can be entered by the authority, a closed one by nobody.
pub fn get_phase<'a>(
    mint_config: &'a MintConfig,
    phase_ix: u8,
    is_authority: bool,
    timestamp: i64,
) -> (r: Result<&'a MintPhase, ErrorCode>)
    ensures
        (phase_ix as int) >= mint_config.mint_phases@.len() ==> r == Err::<
            &'a MintPhase,
            ErrorCode,
        >(ErrorCode::InvalidPhase),
        (phase_ix as int) < mint_config.mint_phases@.len() && !spec_phase_open(
            mint_config.mint_phases@[phase_ix as int],
            timestamp,
            mint_config.count,
            is_authority,
        ) ==> r == Err::<&'a MintPhase, ErrorCode>(ErrorCode::PhaseNotActive),
        (phase_ix as int) < mint_config.mint_phases@.len() && spec_phase_open(
            mint_config.mint_phases@[phase_ix as int],
            timestamp,
            mint_config.count,
            is_authority,
        ) ==> (r matches Ok(p) && *p == mint_config.mint_phases@[phase_ix as int]),
{
    if (phase_ix as usize) >= mint_config.mint_phases.len() {
        return Err(ErrorCode::InvalidPhase);
    }
    let mint_phase = &mint_config.mint_phases[phase_ix as usize];

    if let Some(start_condition) = &mint_phase.start_condition {
        let started = condition_met(start_condition, timestamp, mint_config.count);
        if !started && !is_authority {
            return Err(ErrorCode::PhaseNotActive);
        }
    }

    if let Some(end_condition) = &mint_phase.end_condition {
        let ended = condition_met(end_condition, timestamp, mint_config.count);
        if ended {
            return Err(ErrorCode::PhaseNotActive);
        }
    }

    Ok(mint_phase)
}

/// A phase whose start condition names only a draw-count threshold opens for
/// non-authority callers exactly when the global count reaches it.
///
/// The timestamp axis of the condition is absent, so the opening moment does
/// not depend on the wall clock at all.
pub proof fn lemma_count_threshold_gates(
    p: MintPhase,
    threshold: u64,
    timestamp: i64,
    count: u64,
)
    requires
        p.start_condition == Some(
            MintPhaseStartEndCondition { time_seconds: None, count: Some(threshold) },
        ),
        p.end_condition is None,
    ensures
        spec_phase_open(p, timestamp, count, false) <==> count >= threshold,
{
}

} // verus!
