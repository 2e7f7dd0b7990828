//! What the wager programs share: account keys, the error taxonomy, and the
//! checks that guard a commitment to randomness and its settlement.
use crate::keys::{keys_equal, Pubkey};
use crate::randomness::{revealed_at, RandomnessRecord};
use vstd::prelude::*;

verus! {

/// Why a commit or a settle was refused. A refused step changes nothing.
#[derive(Clone, Copy, Debug, PartialEq, Eq, Structural)]
pub enum ErrorCode {
    /// The signer is not the player that owns the state.
    Unauthorized,
    /// A commit while an earlier commitment is still unsettled.
    AlreadyPending,
    /// The randomness account's bytes are not a randomness record.
    InvalidRandomnessAccount,
    /// The randomness was not seeded in the slot just before the commit.
    CommitmentStale,
    /// The randomness is already revealed at commit time.
    AlreadyRevealed,
    /// The player cannot cover the wager.
    InsufficientFunds,
    /// A settle with no commitment outstanding.
    NoPendingCommitment,
    /// The randomness offered at settle is not the one committed to.
    CommitmentMismatch,
    /// The committed randomness is not revealed yet: retry later.
    NotYetResolved,
    /// A counter of the player's state would pass `u64::MAX`.
    ArithmeticOverflow,
}

/// Randomness seeded at `seed_slot` is fresh in `clock_slot`: it was seeded in
/// the slot just before.
pub open spec fn is_fresh(seed_slot: u64, clock_slot: u64) -> bool {
    seed_slot as int + 1 == clock_slot as int
}

/// Whether randomness seeded at `seed_slot` is fresh in `clock_slot`.
pub fn fresh_seed(seed_slot: u64, clock_slot: u64) -> (r: bool)
    ensures
        r == is_fresh(seed_slot, clock_slot),
{
    clock_slot >= 1 && seed_slot == clock_slot - 1
}

/// The outcome of the checks that every settle makes, given the pending
/// commitment (`pending`, `committed_key`, `commit_slot`), the account offered
/// (`key`, and its record if it could be read) and the slot.
pub open spec fn settle_check(
    pending: bool,
    committed_key: Pubkey,
    commit_slot: u64,
    key: Pubkey,
    rec: Option<RandomnessRecord>,
    clock_slot: u64,
) -> Result<[u8; 32], ErrorCode> {
    if !pending {
        Err(ErrorCode::NoPendingCommitment)
    } else if key != committed_key {
        Err(ErrorCode::CommitmentMismatch)
    } else {
        match rec {
            None => Err(ErrorCode::InvalidRandomnessAccount),
            Some(r) => if r.seed_slot != commit_slot {
                Err(ErrorCode::CommitmentMismatch)
            } else if !revealed_at(r, clock_slot) {
                Err(ErrorCode::NotYetResolved)
            } else {
                Ok(r.value)
            },
        }
    }
}

/// Makes the checks of `settle_check` and hands back the revealed value.
pub fn check_settle(
    pending: bool,
    committed_key: &Pubkey,
    commit_slot: u64,
    key: &Pubkey,
    rec: &Option<RandomnessRecord>,
    clock_slot: u64,
) -> (r: Result<[u8; 32], ErrorCode>)
    ensures
        r == settle_check(pending, *committed_key, commit_slot, *key, *rec, clock_slot),
{
    if !pending {
        return Err(ErrorCode::NoPendingCommitment);
    }
    if !keys_equal(key, committed_key) {
        return Err(ErrorCode::CommitmentMismatch);
    }
    match rec {
        None => Err(ErrorCode::InvalidRandomnessAccount),
        Some(r) => {
            if r.seed_slot != commit_slot {
                Err(ErrorCode::CommitmentMismatch)
            } else {
                match r.get_value(clock_slot) {
                    None => Err(ErrorCode::NotYetResolved),
                    Some(v) => Ok(v),
                }
            }
        },
    }
}

} // verus!
