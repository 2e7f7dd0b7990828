//! Book-keeping of a program that consumes verified oracle quotes: who may
//! submit them, how many were submitted, and how many feeds they carried.
use crate::keys::{keys_equal, Pubkey};
use vstd::prelude::*;

verus! {

/// A feed value above this, a price of $100k at the feeds' scale of 18
/// decimals, is counted as high.
pub const HIGH_VALUE_THRESHOLD: i128 = 100_000_000_000_000_000_000_000;

/// The program's state.
#[derive(Clone, Copy, Debug)]
pub struct ProgramState {
    /// The only signer allowed to submit quotes and hand over authority.
    pub authority: Pubkey,
    /// Quotes processed so far.
    pub oracle_calls: u64,
    /// The slot of the last quote processed.
    pub last_update_slot: u64,
    /// Feeds processed so far, over all quotes.
    pub total_feeds_processed: u64,
}

/// One feed of a verified quote.
#[derive(Clone, Copy, Debug)]
pub struct FeedValue {
    pub feed_id: [u8; 32],
    /// The value, scaled to 18 decimals.
    pub value: i128,
}

/// What processing one quote found.
#[derive(Clone, Copy, Debug, PartialEq, Eq, Structural)]
pub struct QuoteSummary {
    /// Feeds in the quote.
    pub feeds_processed: u64,
    /// Feeds whose value is above `HIGH_VALUE_THRESHOLD`.
    pub high_value_feeds: u64,
}

/// Refusals of the program.
#[derive(Clone, Copy, Debug, PartialEq, Eq, Structural)]
pub enum ErrorCode {
    /// The signer is not the program's authority.
    UnauthorizedAccess,
    /// A counter of the state would pass `u64::MAX`.
    ArithmeticOverflow,
}

/// The counters of `s` can take one more quote carrying `n` feeds.
pub open spec fn counters_fit(s: ProgramState, n: int) -> bool {
    s.oracle_calls < u64::MAX && s.total_feeds_processed as int + n <= u64::MAX as int
}

/// The state of a new program with authority `authority`.
pub fn initialize(authority: Pubkey) -> (r: ProgramState)
    ensures
        r == (ProgramState {
            authority,
            oracle_calls: 0,
            last_update_slot: 0,
            total_feeds_processed: 0,
        }),
{
    ProgramState { authority, oracle_calls: 0, last_update_slot: 0, total_feeds_processed: 0 }
}

/// Admits `signer` if it is the program's authority.
pub fn check_authority(state: &ProgramState, signer: &Pubkey) -> (r: Result<(), ErrorCode>)
    ensures
        r is Ok <==> *signer == state.authority,
        r is Err ==> r == Err::<(), ErrorCode>(ErrorCode::UnauthorizedAccess),
{
    if keys_equal(&state.authority, signer) {
        Ok(())
    } else {
        Err(ErrorCode::UnauthorizedAccess)
    }
}

/// The number of feeds in `feeds` whose value is above the threshold.
pub open spec fn high_value_count(feeds: Seq<FeedValue>) -> nat
    decreases feeds.len(),
{
    if feeds.len() == 0 {
        0
    } else {
        high_value_count(feeds.drop_last()) + if feeds.last().value > HIGH_VALUE_THRESHOLD {
            1nat
        } else {
            0nat
        }
    }
}

/// Records a verified quote from slot `quote_slot` carrying `feeds`,
/// submitted by `signer`.
pub fn process_oracle_data(
    state: &mut ProgramState,
    signer: Pubkey,
    quote_slot: u64,
    feeds: &Vec<FeedValue>,
) -> (r: Result<QuoteSummary, ErrorCode>)
    ensures
        signer != old(state).authority ==> r == Err::<QuoteSummary, ErrorCode>(
            ErrorCode::UnauthorizedAccess,
        ) && *final(state) == *old(state),
        signer == old(state).authority && !counters_fit(*old(state), feeds.len() as int) ==> r
            == Err::<QuoteSummary, ErrorCode>(ErrorCode::ArithmeticOverflow) && *final(state)
            == *old(state),
        signer == old(state).authority && counters_fit(*old(state), feeds.len() as int) ==> r == Ok::<QuoteSummary, ErrorCode>(
            QuoteSummary {
                feeds_processed: feeds.len() as u64,
                high_value_feeds: high_value_count(feeds@) as u64,
            },
        ) && *final(state) == (ProgramState {
            oracle_calls: (old(state).oracle_calls + 1) as u64,
            last_update_slot: quote_slot,
            total_feeds_processed: (old(state).total_feeds_processed + feeds.len()) as u64,
            ..*old(state)
        }),
{
    if check_authority(state, &signer).is_err() {
        return Err(ErrorCode::UnauthorizedAccess);
    }
    if state.oracle_calls == u64::MAX || feeds.len() as u64 > u64::MAX - state.total_feeds_processed {
        return Err(ErrorCode::ArithmeticOverflow);
    }
    state.oracle_calls = state.oracle_calls + 1;
    state.last_update_slot = quote_slot;
    let mut feeds_processed: u64 = 0;
    let mut high_value_feeds: u64 = 0;
    let mut i: usize = 0;
    while i < feeds.len()
        invariant
            i <= feeds.len(),
            feeds_processed == i,
            high_value_feeds == high_value_count(feeds@.subrange(0, i as int)),
            high_value_feeds <= i,
            feeds.len() <= u64::MAX - old(state).total_feeds_processed,
        decreases feeds.len() - i,
    {
        proof {
            assert(feeds@.subrange(0, i + 1).drop_last() =~= feeds@.subrange(0, i as int));
        }
        if feeds[i].value > HIGH_VALUE_THRESHOLD {
            high_value_feeds = high_value_feeds + 1;
        }
        feeds_processed = feeds_processed + 1;
        i = i + 1;
    }
    assert(feeds@.subrange(0, feeds.len() as int) =~= feeds@);
    state.total_feeds_processed = state.total_feeds_processed + feeds_processed;
    Ok(QuoteSummary { feeds_processed, high_value_feeds })
}

/// Hands the authority over to `new_authority`, if `signer` holds it; gives
/// back the authority that was replaced.
pub fn update_authority(state: &mut ProgramState, signer: Pubkey, new_authority: Pubkey) -> (r:
    Result<Pubkey, ErrorCode>)
    ensures
        signer != old(state).authority ==> r == Err::<Pubkey, ErrorCode>(
            ErrorCode::UnauthorizedAccess,
        ) && *final(state) == *old(state),
        signer == old(state).authority ==> r == Ok::<Pubkey, ErrorCode>(old(state).authority)
            && *final(state) == (ProgramState { authority: new_authority, ..*old(state) }),
{
    if check_authority(state, &signer).is_err() {
        return Err(ErrorCode::UnauthorizedAccess);
    }
    let previous = state.authority;
    state.authority = new_authority;
    Ok(previous)
}

} // verus!
