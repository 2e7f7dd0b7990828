//! Pancake stacking: each flip commits to fresh randomness; when it is
//! revealed the pancake lands (two chances in three) and the stack grows by
//! one, or it falls and the stack is knocked back to zero.
use crate::commitment::{check_settle, fresh_seed, is_fresh, settle_check, ErrorCode};
use crate::keys::{default_key, keys_equal, zero_key, Pubkey};
use crate::randomness::{
    read_record, record_in, revealed_at, RandomnessRecord,
};
use vstd::prelude::*;

verus! {

/// One player's stack.
#[derive(Clone, Copy, Debug)]
pub struct PlayerState {
    /// The only signer allowed to flip; fixed at creation.
    pub authority: Pubkey,
    /// Pancakes caught in a row.
    pub stack_height: u64,
    /// The randomness account of the outstanding flip.
    pub randomness_account: Pubkey,
    /// Whether a flip is outstanding.
    pub has_pending_flip: bool,
    /// The seed slot of the committed randomness.
    pub commit_slot: u64,
    pub bump: u8,
}

/// A new, empty stack for `user`.
pub open spec fn initial_state(user: Pubkey, bump: u8) -> PlayerState {
    PlayerState {
        authority: user,
        stack_height: 0,
        randomness_account: zero_key(),
        has_pending_flip: false,
        commit_slot: 0,
        bump,
    }
}

/// Creates the stack of `user`.
pub fn initialize(user: Pubkey, bump: u8) -> (r: PlayerState)
    ensures
        r == initial_state(user, bump),
{
    PlayerState {
        authority: user,
        stack_height: 0,
        randomness_account: default_key(),
        has_pending_flip: false,
        commit_slot: 0,
        bump,
    }
}

/// What a flip does: the result and the new state. `rec` is the record read
/// from the randomness account, if it could be read.
pub open spec fn flip_step(
    s: PlayerState,
    signer: Pubkey,
    key: Pubkey,
    rec: Option<RandomnessRecord>,
    clock_slot: u64,
) -> (Result<(), ErrorCode>, PlayerState) {
    if signer != s.authority {
        (Err(ErrorCode::Unauthorized), s)
    } else if s.has_pending_flip {
        (Err(ErrorCode::AlreadyPending), s)
    } else {
        match rec {
            None => (Err(ErrorCode::InvalidRandomnessAccount), s),
            Some(r) => if !is_fresh(r.seed_slot, clock_slot) {
                (Err(ErrorCode::CommitmentStale), s)
            } else if revealed_at(r, clock_slot) {
                (Err(ErrorCode::AlreadyRevealed), s)
            } else {
                (
                    Ok(()),
                    PlayerState {
                        randomness_account: key,
                        has_pending_flip: true,
                        commit_slot: r.seed_slot,
                        ..s
                    },
                )
            },
        }
    }
}

/// Commits `signer`'s flip to the randomness account `key`, whose record is
/// `rec`.
pub fn commit_flip(
    state: &mut PlayerState,
    signer: Pubkey,
    key: Pubkey,
    rec: Option<RandomnessRecord>,
    clock_slot: u64,
) -> (r: Result<(), ErrorCode>)
    ensures
        (r, *final(state)) == flip_step(*old(state), signer, key, rec, clock_slot),
{
    if !keys_equal(&signer, &state.authority) {
        return Err(ErrorCode::Unauthorized);
    }
    if state.has_pending_flip {
        return Err(ErrorCode::AlreadyPending);
    }
    let r = match rec {
        None => {
            return Err(ErrorCode::InvalidRandomnessAccount);
        },
        Some(r) => r,
    };
    if !fresh_seed(r.seed_slot, clock_slot) {
        return Err(ErrorCode::CommitmentStale);
    }
    if r.get_value(clock_slot).is_some() {
        return Err(ErrorCode::AlreadyRevealed);
    }
    state.randomness_account = key;
    state.has_pending_flip = true;
    state.commit_slot = r.seed_slot;
    Ok(())
}

/// Flips a pancake: reads the randomness account `key` from its bytes `data`
/// and commits to it as `commit_flip` does.
pub fn flip_pancake(
    state: &mut PlayerState,
    signer: Pubkey,
    key: Pubkey,
    data: &[u8],
    clock_slot: u64,
) -> (r: Result<(), ErrorCode>)
    ensures
        (r, *final(state)) == flip_step(
            *old(state),
            signer,
            key,
            record_in(data@),
            clock_slot,
        ),
{
    let rec = read_record(data);
    let r = commit_flip(state, signer, key, rec, clock_slot);
    r
}

/// The pancake lands for a revealed value whose first byte is 0 or 1 modulo 3.
pub open spec fn lands(value: [u8; 32]) -> bool {
    value@[0] % 3 < 2
}

/// What a catch does: the result (whether the pancake landed) and the new
/// state. A landing on a stack that is already `u64::MAX` high is refused.
pub open spec fn catch_step(
    s: PlayerState,
    key: Pubkey,
    rec: Option<RandomnessRecord>,
    clock_slot: u64,
) -> (Result<bool, ErrorCode>, PlayerState) {
    match settle_check(s.has_pending_flip, s.randomness_account, s.commit_slot, key, rec, clock_slot) {
        Err(e) => (Err(e), s),
        Ok(v) => if lands(v) && s.stack_height == u64::MAX {
            (Err(ErrorCode::ArithmeticOverflow), s)
        } else {
            (
            Ok(lands(v)),
            PlayerState {
                stack_height: if lands(v) {
                    (s.stack_height + 1) as u64
                } else {
                    0
                },
                randomness_account: zero_key(),
                has_pending_flip: false,
                ..s
            },
            )
        },
    }
}

/// Settles the outstanding flip against the randomness account `key`, whose
/// record is `rec`, and grows or knocks over the stack.
pub fn settle_catch(
    state: &mut PlayerState,
    key: Pubkey,
    rec: Option<RandomnessRecord>,
    clock_slot: u64,
) -> (r: Result<bool, ErrorCode>)
    ensures
        (r, *final(state)) == catch_step(
            *old(state),
            key,
            rec,
            clock_slot,
        ),
{
    let value = match check_settle(
        state.has_pending_flip,
        &state.randomness_account,
        state.commit_slot,
        &key,
        &rec,
        clock_slot,
    ) {
        Err(e) => {
            return Err(e);
        },
        Ok(v) => v,
    };
    let landed = value[0] % 3 < 2;
    if landed && state.stack_height == u64::MAX {
        return Err(ErrorCode::ArithmeticOverflow);
    }
    state.has_pending_flip = false;
    state.randomness_account = default_key();
    if landed {
        state.stack_height = state.stack_height + 1;
    } else {
        state.stack_height = 0;
    }
    Ok(landed)
}

/// Catches the pancake: reads the randomness account `key` from its bytes
/// `data` and settles as `settle_catch` does.
pub fn catch_pancake(
    state: &mut PlayerState,
    key: Pubkey,
    data: &[u8],
    clock_slot: u64,
) -> (r: Result<bool, ErrorCode>)
    ensures
        (r, *final(state)) == catch_step(
            *old(state),
            key,
            record_in(data@),
            clock_slot,
        ),
{
    let rec = read_record(data);
    let r = settle_catch(state, key, rec, clock_slot);
    r
}

/// A flip is outstanding exactly between a successful flip and the catch
/// that follows it: a new stack has none, a successful flip opens one and
/// needs none open, a successful catch closes one and needs one open, and a
/// refused step leaves the state as it was.
pub proof fn lemma_pending_between_flip_and_catch(
    s: PlayerState,
    signer: Pubkey,
    key: Pubkey,
    rec: Option<RandomnessRecord>,
    clock_slot: u64,
    user: Pubkey,
    bump: u8,
)
    ensures
        !initial_state(user, bump).has_pending_flip,
        ({
            let (r, s2) = flip_step(s, signer, key, rec, clock_slot);
            &&& r is Ok ==> !s.has_pending_flip && s2.has_pending_flip
            &&& r is Err ==> s2 == s
        }),
        ({
            let (r, s2) = catch_step(s, key, rec, clock_slot);
            &&& r is Ok ==> s.has_pending_flip && !s2.has_pending_flip
            &&& r is Err ==> s2 == s
        }),
{
}

/// Catching a flip a second time fails with `NoPendingCommitment` and
/// changes nothing, whatever the second call is given.
pub proof fn lemma_catch_twice(
    s: PlayerState,
    key: Pubkey,
    rec: Option<RandomnessRecord>,
    clock_slot: u64,
    key2: Pubkey,
    rec2: Option<RandomnessRecord>,
    clock_slot2: u64,
)
    requires
        catch_step(s, key, rec, clock_slot).0 is Ok,
    ensures
        ({
            let (_, s2) = catch_step(s, key, rec, clock_slot);
            catch_step(s2, key2, rec2, clock_slot2) == (
                Err::<bool, ErrorCode>(ErrorCode::NoPendingCommitment),
                s2,
            )
        }),
{
}

/// Catching before the committed randomness is revealed fails with
/// `NotYetResolved` and changes nothing; the same catch in the reveal slot
/// succeeds, unless the pancake lands on a stack that cannot grow.
pub proof fn lemma_catch_before_reveal(
    s: PlayerState,
    rec: RandomnessRecord,
    clock_slot: u64,
)
    requires
        s.has_pending_flip,
        rec.seed_slot == s.commit_slot,
        clock_slot != rec.reveal_slot,
    ensures
        catch_step(s, s.randomness_account, Some(rec), clock_slot) == (
            Err::<bool, ErrorCode>(ErrorCode::NotYetResolved),
            s,
        ),
        s.stack_height < u64::MAX || !lands(rec.value) ==> catch_step(
            s,
            s.randomness_account,
            Some(rec),
            rec.reveal_slot,
        ).0 is Ok,
{
}

/// The owner flipping while a flip is outstanding fails with
/// `AlreadyPending` and changes nothing.
pub proof fn lemma_flip_while_pending(
    s: PlayerState,
    key: Pubkey,
    rec: Option<RandomnessRecord>,
    clock_slot: u64,
)
    requires
        s.has_pending_flip,
    ensures
        flip_step(s, s.authority, key, rec, clock_slot) == (
            Err::<(), ErrorCode>(ErrorCode::AlreadyPending),
            s,
        ),
{
}

/// The owner flipping against randomness that was not seeded in the slot
/// just before fails with `CommitmentStale` and changes nothing.
pub proof fn lemma_flip_stale(s: PlayerState, key: Pubkey, rec: RandomnessRecord, clock_slot: u64)
    requires
        !s.has_pending_flip,
        !is_fresh(rec.seed_slot, clock_slot),
    ensures
        flip_step(s, s.authority, key, Some(rec), clock_slot) == (
            Err::<(), ErrorCode>(ErrorCode::CommitmentStale),
            s,
        ),
{
}

/// A call of the game, with what its caller hands it.
pub enum PancakeCall {
    Flip { signer: Pubkey, key: Pubkey, rec: Option<RandomnessRecord>, clock_slot: u64 },
    Catch { key: Pubkey, rec: Option<RandomnessRecord>, clock_slot: u64 },
}

/// Whether `c` succeeds on `s`, and the state after it.
pub open spec fn apply_call(s: PlayerState, c: PancakeCall) -> (bool, PlayerState) {
    match c {
        PancakeCall::Flip { signer, key, rec, clock_slot } => {
            let (r, s2) = flip_step(s, signer, key, rec, clock_slot);
            (r is Ok, s2)
        },
        PancakeCall::Catch { key, rec, clock_slot } => {
            let (r, s2) = catch_step(s, key, rec, clock_slot);
            (r is Ok, s2)
        },
    }
}

/// The state after the calls `calls`, made in order on `s`.
pub open spec fn run_calls(s: PlayerState, calls: Seq<PancakeCall>) -> PlayerState
    decreases calls.len(),
{
    if calls.len() == 0 {
        s
    } else {
        apply_call(run_calls(s, calls.drop_last()), calls.last()).1
    }
}

/// The last of `calls`, made in order on `s`, that succeeded is a flip.
pub open spec fn last_success_is_flip(s: PlayerState, calls: Seq<PancakeCall>) -> bool
    decreases calls.len(),
{
    if calls.len() == 0 {
        false
    } else if apply_call(run_calls(s, calls.drop_last()), calls.last()).0 {
        calls.last() is Flip
    } else {
        last_success_is_flip(s, calls.drop_last())
    }
}

/// Over any sequence of flips and catches on a new stack: a flip is
/// outstanding exactly when the last call that succeeded was a flip;
/// successful flips and catches alternate, starting with a flip; and the
/// authority never changes.
pub proof fn lemma_pending_over_calls(user: Pubkey, bump: u8, calls: Seq<PancakeCall>)
    ensures
        run_calls(initial_state(user, bump), calls).has_pending_flip == last_success_is_flip(
            initial_state(user, bump),
            calls,
        ),
        run_calls(initial_state(user, bump), calls).authority == user,
        forall|i: int|
            0 <= i < calls.len() && #[trigger] apply_call(
                run_calls(initial_state(user, bump), calls.subrange(0, i)),
                calls[i],
            ).0 ==> (calls[i] is Flip <==> !last_success_is_flip(
                initial_state(user, bump),
                calls.subrange(0, i),
            )),
    decreases calls.len(),
{
    let s0 = initial_state(user, bump);
    if calls.len() > 0 {
        let prefix = calls.drop_last();
        lemma_pending_over_calls(user, bump, prefix);
        let n = calls.len() - 1;
        assert forall|i: int|
            0 <= i < calls.len() && #[trigger] apply_call(
                run_calls(s0, calls.subrange(0, i)),
                calls[i],
            ).0 implies (calls[i] is Flip <==> !last_success_is_flip(
                s0,
                calls.subrange(0, i),
            )) by {
            if i < n {
                assert(calls.subrange(0, i) =~= prefix.subrange(0, i));
                assert(calls[i] == prefix[i]);
            } else {
                assert(calls.subrange(0, i) =~= prefix);
            }
        }
    }
}

} // verus!
