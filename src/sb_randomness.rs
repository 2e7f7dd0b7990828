//! A coin flip for lamports: the player stakes a wager on heads or tails,
//! commits to randomness seeded in the slot before, and settles once the
//! randomness is revealed; a right guess is paid twice the wager out of escrow.
use crate::commitment::{check_settle, fresh_seed, is_fresh, settle_check, ErrorCode};
use crate::keys::{default_key, keys_equal, zero_key, Pubkey};
use crate::randomness::{read_record, record_in, RandomnessRecord};
use vstd::bytes::{spec_u32_to_le_bytes, spec_u64_to_le_bytes, u32_to_le_bytes, u64_to_le_bytes};
use vstd::prelude::*;

verus! {

/// The wager that every player starts with.
pub const DEFAULT_WAGER: u64 = 100;

/// One player's game.
#[derive(Clone, Copy, Debug)]
pub struct PlayerState {
    /// The only signer allowed to commit; fixed at creation.
    pub allowed_user: Pubkey,
    /// The last flip: `true` for heads.
    pub latest_flip_result: bool,
    /// The randomness account of the outstanding commitment.
    pub randomness_account: Pubkey,
    /// The guess of the outstanding commitment: `true` for heads.
    pub current_guess: bool,
    /// The stake, in lamports.
    pub wager: u64,
    /// Whether a commitment is outstanding.
    pub has_pending_commitment: bool,
    /// The seed slot of the committed randomness.
    pub commit_slot: u64,
    pub bump: u8,
}

/// The lamports of the player's wallet and of the shared escrow account.
#[derive(Clone, Copy, Debug, PartialEq, Eq, Structural)]
pub struct Balances {
    pub user: u64,
    pub escrow: u64,
}

impl Balances {
    /// The two balances together fit in a `u64`, as all lamports do.
    pub open spec fn wf(&self) -> bool {
        self.user as int + self.escrow as int <= u64::MAX as int
    }
}

/// How a successful settle ended.
#[derive(Clone, Copy, Debug, PartialEq, Eq, Structural)]
pub enum Settlement {
    /// The guess was right and twice the wager went from escrow to the player.
    Paid,
    /// The guess was right but escrow could not cover the payout: nothing moved.
    PayoutDeferred,
    /// The guess was wrong: the wager stays in escrow.
    Lost,
}

/// Moves `amount` lamports from `from` to `to`, if `from` holds them.
pub fn transfer(from: &mut u64, to: &mut u64, amount: u64) -> (r: Result<(), ErrorCode>)
    requires
        *old(from) as int + *old(to) as int <= u64::MAX as int,
    ensures
        amount <= *old(from) ==> r is Ok && *final(from) == *old(from) - amount && *final(to)
            == *old(to) + amount,
        amount > *old(from) ==> r == Err::<(), ErrorCode>(ErrorCode::InsufficientFunds)
            && *final(from) == *old(from) && *final(to) == *old(to),
{
    if amount > *from {
        return Err(ErrorCode::InsufficientFunds);
    }
    *from = *from - amount;
    *to = *to + amount;
    Ok(())
}

/// The data of the system program's `Transfer` instruction: its tag 2 as a
/// little-endian `u32`, then the lamports.
pub open spec fn spec_transfer_data(lamports: u64) -> Seq<u8> {
    spec_u32_to_le_bytes(2) + spec_u64_to_le_bytes(lamports)
}

/// Builds the data of a system-program `Transfer` of `lamports`.
pub fn transfer_data(lamports: u64) -> (r: Vec<u8>)
    ensures
        r@ == spec_transfer_data(lamports),
        r@.len() == 12,
{
    proof {
        vstd::bytes::lemma_auto_spec_u32_to_from_le_bytes();
        vstd::bytes::lemma_auto_spec_u64_to_from_le_bytes();
    }
    let mut data = u32_to_le_bytes(2);
    let mut amount = u64_to_le_bytes(lamports);
    data.append(&mut amount);
    data
}

/// A new game for `user`: no commitment, the default wager.
pub open spec fn initial_state(user: Pubkey, bump: u8) -> PlayerState {
    PlayerState {
        allowed_user: user,
        latest_flip_result: false,
        randomness_account: zero_key(),
        current_guess: false,
        wager: DEFAULT_WAGER,
        has_pending_commitment: false,
        commit_slot: 0,
        bump,
    }
}

/// Creates the game of `user`.
pub fn initialize(user: Pubkey, bump: u8) -> (r: PlayerState)
    ensures
        r == initial_state(user, bump),
{
    PlayerState {
        allowed_user: user,
        latest_flip_result: false,
        randomness_account: default_key(),
        current_guess: false,
        wager: DEFAULT_WAGER,
        has_pending_commitment: false,
        commit_slot: 0,
        bump,
    }
}

/// What a commit does: the result, the new state and the new balances.
/// `rec` is the record read from the randomness account, if it could be read.
pub open spec fn commit_step(
    s: PlayerState,
    b: Balances,
    signer: Pubkey,
    key: Pubkey,
    rec: Option<RandomnessRecord>,
    clock_slot: u64,
    guess: bool,
) -> (Result<(), ErrorCode>, PlayerState, Balances) {
    if signer != s.allowed_user {
        (Err(ErrorCode::Unauthorized), s, b)
    } else if s.has_pending_commitment {
        (Err(ErrorCode::AlreadyPending), s, b)
    } else {
        match rec {
            None => (Err(ErrorCode::InvalidRandomnessAccount), s, b),
            Some(r) => if !is_fresh(r.seed_slot, clock_slot) {
                (Err(ErrorCode::CommitmentStale), s, b)
            } else if s.wager > b.user {
                (Err(ErrorCode::InsufficientFunds), s, b)
            } else {
                (
                    Ok(()),
                    PlayerState {
                        randomness_account: key,
                        current_guess: guess,
                        has_pending_commitment: true,
                        commit_slot: r.seed_slot,
                        ..s
                    },
                    Balances { user: (b.user - s.wager) as u64, escrow: (b.escrow + s.wager) as u64 },
                )
            },
        }
    }
}

/// Commits `signer`'s guess to the randomness account `key`, whose record is
/// `rec`, and moves the wager into escrow.
pub fn commit_flip(
    state: &mut PlayerState,
    balances: &mut Balances,
    signer: Pubkey,
    key: Pubkey,
    rec: Option<RandomnessRecord>,
    clock_slot: u64,
    guess: bool,
) -> (r: Result<(), ErrorCode>)
    requires
        old(balances).wf(),
    ensures
        (r, *final(state), *final(balances)) == commit_step(
            *old(state),
            *old(balances),
            signer,
            key,
            rec,
            clock_slot,
            guess,
        ),
{
    if !keys_equal(&signer, &state.allowed_user) {
        return Err(ErrorCode::Unauthorized);
    }
    if state.has_pending_commitment {
        return Err(ErrorCode::AlreadyPending);
    }
    let r = match rec {
        None => {
            return Err(ErrorCode::InvalidRandomnessAccount);
        },
        Some(r) => r,
    };
    if !fresh_seed(r.seed_slot, clock_slot) {
        return Err(ErrorCode::CommitmentStale);
    }
    // The collateral is taken now: whoever reveals the randomness could
    // otherwise walk away from a losing flip.
    let moved = transfer(&mut balances.user, &mut balances.escrow, state.wager);
    if moved.is_err() {
        return Err(ErrorCode::InsufficientFunds);
    }
    state.randomness_account = key;
    state.current_guess = guess;
    state.has_pending_commitment = true;
    state.commit_slot = r.seed_slot;
    Ok(())
}

/// Flips the coin: reads the randomness account `key` from its bytes `data`
/// and commits to it as `commit_flip` does.
pub fn coin_flip(
    state: &mut PlayerState,
    balances: &mut Balances,
    signer: Pubkey,
    key: Pubkey,
    data: &[u8],
    clock_slot: u64,
    guess: bool,
) -> (r: Result<(), ErrorCode>)
    requires
        old(balances).wf(),
    ensures
        (r, *final(state), *final(balances)) == commit_step(
            *old(state),
            *old(balances),
            signer,
            key,
            record_in(data@),
            clock_slot,
            guess,
        ),
{
    let rec = read_record(data);
    let r = commit_flip(state, balances, signer, key, rec, clock_slot, guess);
    r
}

/// Heads, for a revealed value: its first byte is even.
pub open spec fn is_heads(value: [u8; 32]) -> bool {
    value@[0] % 2 == 0
}

/// Escrow can pay out twice `wager` and keep `reserve` lamports.
pub open spec fn can_pay(escrow: u64, wager: u64, reserve: u64) -> bool {
    2 * wager as int + reserve as int <= escrow as int
}

/// What a settle does: the result, the new state and the new balances.
/// `reserve` is what escrow must keep to stay rent-exempt.
pub open spec fn settle_step(
    s: PlayerState,
    b: Balances,
    key: Pubkey,
    rec: Option<RandomnessRecord>,
    clock_slot: u64,
    reserve: u64,
) -> (Result<Settlement, ErrorCode>, PlayerState, Balances) {
    match settle_check(
        s.has_pending_commitment,
        s.randomness_account,
        s.commit_slot,
        key,
        rec,
        clock_slot,
    ) {
        Err(e) => (Err(e), s, b),
        Ok(v) => {
            let heads = is_heads(v);
            let s2 = PlayerState {
                latest_flip_result: heads,
                randomness_account: zero_key(),
                has_pending_commitment: false,
                ..s
            };
            if heads != s.current_guess {
                (Ok(Settlement::Lost), s2, b)
            } else if can_pay(b.escrow, s.wager, reserve) {
                (
                    Ok(Settlement::Paid),
                    s2,
                    Balances {
                        user: (b.user + 2 * s.wager) as u64,
                        escrow: (b.escrow - 2 * s.wager) as u64,
                    },
                )
            } else {
                (Ok(Settlement::PayoutDeferred), s2, b)
            }
        },
    }
}

/// Settles the outstanding commitment against the randomness account `key`,
/// whose record is `rec`, and pays out a right guess if escrow can.
pub fn settle_with(
    state: &mut PlayerState,
    balances: &mut Balances,
    key: Pubkey,
    rec: Option<RandomnessRecord>,
    clock_slot: u64,
    reserve: u64,
) -> (r: Result<Settlement, ErrorCode>)
    requires
        old(balances).wf(),
    ensures
        (r, *final(state), *final(balances)) == settle_step(
            *old(state),
            *old(balances),
            key,
            rec,
            clock_slot,
            reserve,
        ),
{
    let value = match check_settle(
        state.has_pending_commitment,
        &state.randomness_account,
        state.commit_slot,
        &key,
        &rec,
        clock_slot,
    ) {
        Err(e) => {
            return Err(e);
        },
        Ok(v) => v,
    };
    let heads = value[0] % 2 == 0;
    state.latest_flip_result = heads;
    state.randomness_account = default_key();
    state.has_pending_commitment = false;
    if heads != state.current_guess {
        return Ok(Settlement::Lost);
    }
    let payout: u128 = 2 * (state.wager as u128);
    if payout + (reserve as u128) > balances.escrow as u128 {
        return Ok(Settlement::PayoutDeferred);
    }
    let moved = transfer(&mut balances.escrow, &mut balances.user, payout as u64);
    assert(moved is Ok);
    Ok(Settlement::Paid)
}

/// Settles the flip: reads the randomness account `key` from its bytes `data`
/// and settles as `settle_with` does.
pub fn settle_flip(
    state: &mut PlayerState,
    balances: &mut Balances,
    key: Pubkey,
    data: &[u8],
    clock_slot: u64,
    reserve: u64,
) -> (r: Result<Settlement, ErrorCode>)
    requires
        old(balances).wf(),
    ensures
        (r, *final(state), *final(balances)) == settle_step(
            *old(state),
            *old(balances),
            key,
            record_in(data@),
            clock_slot,
            reserve,
        ),
{
    let rec = read_record(data);
    let r = settle_with(state, balances, key, rec, clock_slot, reserve);
    r
}

/// A commitment is outstanding exactly between a successful commit and the
/// settle that follows it: a new game has none, a successful commit opens one
/// and needs none open, a successful settle closes one and needs one open, and
/// a refused step leaves the state as it was.
pub proof fn lemma_pending_between_commit_and_settle(
    s: PlayerState,
    b: Balances,
    signer: Pubkey,
    key: Pubkey,
    rec: Option<RandomnessRecord>,
    clock_slot: u64,
    guess: bool,
    reserve: u64,
    user: Pubkey,
    bump: u8,
)
    ensures
        !initial_state(user, bump).has_pending_commitment,
        ({
            let (r, s2, b2) = commit_step(s, b, signer, key, rec, clock_slot, guess);
            &&& r is Ok ==> !s.has_pending_commitment && s2.has_pending_commitment
            &&& r is Err ==> s2 == s && b2 == b
        }),
        ({
            let (r, s2, b2) = settle_step(s, b, key, rec, clock_slot, reserve);
            &&& r is Ok ==> s.has_pending_commitment && !s2.has_pending_commitment
            &&& r is Err ==> s2 == s && b2 == b
        }),
{
}

/// Settling a commitment a second time fails with `NoPendingCommitment` and
/// changes nothing, whatever the second call is given.
pub proof fn lemma_settle_twice(
    s: PlayerState,
    b: Balances,
    key: Pubkey,
    rec: Option<RandomnessRecord>,
    clock_slot: u64,
    reserve: u64,
    key2: Pubkey,
    rec2: Option<RandomnessRecord>,
    clock_slot2: u64,
    reserve2: u64,
)
    requires
        settle_step(s, b, key, rec, clock_slot, reserve).0 is Ok,
    ensures
        ({
            let (_, s2, b2) = settle_step(s, b, key, rec, clock_slot, reserve);
            settle_step(s2, b2, key2, rec2, clock_slot2, reserve2) == (
                Err::<Settlement, ErrorCode>(ErrorCode::NoPendingCommitment),
                s2,
                b2,
            )
        }),
{
}

/// The owner committing while a commitment is outstanding fails with
/// `AlreadyPending` and changes nothing.
pub proof fn lemma_commit_while_pending(
    s: PlayerState,
    b: Balances,
    key: Pubkey,
    rec: Option<RandomnessRecord>,
    clock_slot: u64,
    guess: bool,
)
    requires
        s.has_pending_commitment,
    ensures
        commit_step(s, b, s.allowed_user, key, rec, clock_slot, guess) == (
            Err::<(), ErrorCode>(ErrorCode::AlreadyPending),
            s,
            b,
        ),
{
}

/// The owner committing to randomness that was not seeded in the slot just
/// before fails with `CommitmentStale`, and no lamports move.
pub proof fn lemma_commit_stale(
    s: PlayerState,
    b: Balances,
    key: Pubkey,
    rec: RandomnessRecord,
    clock_slot: u64,
    guess: bool,
)
    requires
        !s.has_pending_commitment,
        !is_fresh(rec.seed_slot, clock_slot),
    ensures
        commit_step(s, b, s.allowed_user, key, Some(rec), clock_slot, guess) == (
            Err::<(), ErrorCode>(ErrorCode::CommitmentStale),
            s,
            b,
        ),
{
}

/// Settling the committed randomness before it is revealed fails with
/// `NotYetResolved` and changes nothing; the same settle in the reveal slot
/// succeeds.
pub proof fn lemma_settle_before_reveal(
    s: PlayerState,
    b: Balances,
    rec: RandomnessRecord,
    clock_slot: u64,
    reserve: u64,
)
    requires
        s.has_pending_commitment,
        rec.seed_slot == s.commit_slot,
        clock_slot != rec.reveal_slot,
    ensures
        settle_step(s, b, s.randomness_account, Some(rec), clock_slot, reserve) == (
            Err::<Settlement, ErrorCode>(ErrorCode::NotYetResolved),
            s,
            b,
        ),
        settle_step(s, b, s.randomness_account, Some(rec), rec.reveal_slot, reserve).0 is Ok,
{
}

/// Lamports are only moved between the player and escrow, never made or lost;
/// they go into escrow only on a successful commit (the wager), and out of it
/// only on a settle that the player won while escrow could pay twice the
/// wager and keep its reserve.
pub proof fn lemma_escrow_discipline(
    s: PlayerState,
    b: Balances,
    signer: Pubkey,
    key: Pubkey,
    rec: Option<RandomnessRecord>,
    clock_slot: u64,
    guess: bool,
    reserve: u64,
)
    requires
        b.wf(),
    ensures
        ({
            let (r, _, b2) = commit_step(s, b, signer, key, rec, clock_slot, guess);
            &&& b2.user + b2.escrow == b.user + b.escrow
            &&& b2.escrow >= b.escrow
            &&& b2.escrow != b.escrow ==> r is Ok && b2.escrow == b.escrow + s.wager
        }),
        ({
            let (r, _, b2) = settle_step(s, b, key, rec, clock_slot, reserve);
            &&& b2.user + b2.escrow == b.user + b.escrow
            &&& b2.escrow <= b.escrow
            &&& b2.escrow != b.escrow ==> r == Ok::<Settlement, ErrorCode>(Settlement::Paid)
                && can_pay(b.escrow, s.wager, reserve) && b2.escrow == b.escrow - 2 * s.wager
        }),
{
}

/// A settle that the player wins clears the commitment; escrow pays twice
/// the wager to the player if it can while keeping its reserve, and else
/// nothing moves.
pub proof fn lemma_winning_settle(
    s: PlayerState,
    b: Balances,
    rec: RandomnessRecord,
    reserve: u64,
)
    requires
        b.wf(),
        s.has_pending_commitment,
        rec.seed_slot == s.commit_slot,
        is_heads(rec.value) == s.current_guess,
    ensures
        ({
            let (r, s2, b2) = settle_step(
                s,
                b,
                s.randomness_account,
                Some(rec),
                rec.reveal_slot,
                reserve,
            );
            &&& !s2.has_pending_commitment
            &&& can_pay(b.escrow, s.wager, reserve) ==> r == Ok::<Settlement, ErrorCode>(
                Settlement::Paid,
            ) && b2.escrow == b.escrow - 2 * s.wager && b2.user == b.user + 2 * s.wager
            &&& !can_pay(b.escrow, s.wager, reserve) ==> r == Ok::<Settlement, ErrorCode>(
                Settlement::PayoutDeferred,
            ) && b2 == b
        }),
{
}

/// A call of the game, with what its caller hands it.
pub enum FlipCall {
    Commit {
        signer: Pubkey,
        key: Pubkey,
        rec: Option<RandomnessRecord>,
        clock_slot: u64,
        guess: bool,
    },
    Settle { key: Pubkey, rec: Option<RandomnessRecord>, clock_slot: u64, reserve: u64 },
}

/// Whether `c` succeeds on `s` and `b`, and the state and balances after it.
pub open spec fn apply_call(s: PlayerState, b: Balances, c: FlipCall) -> (
    bool,
    PlayerState,
    Balances,
) {
    match c {
        FlipCall::Commit { signer, key, rec, clock_slot, guess } => {
            let (r, s2, b2) = commit_step(s, b, signer, key, rec, clock_slot, guess);
            (r is Ok, s2, b2)
        },
        FlipCall::Settle { key, rec, clock_slot, reserve } => {
            let (r, s2, b2) = settle_step(s, b, key, rec, clock_slot, reserve);
            (r is Ok, s2, b2)
        },
    }
}

/// The state and balances after the calls `calls`, made in order.
pub open spec fn run_calls(s: PlayerState, b: Balances, calls: Seq<FlipCall>) -> (
    PlayerState,
    Balances,
)
    decreases calls.len(),
{
    if calls.len() == 0 {
        (s, b)
    } else {
        let (s1, b1) = run_calls(s, b, calls.drop_last());
        let (_, s2, b2) = apply_call(s1, b1, calls.last());
        (s2, b2)
    }
}

/// The last of `calls`, made in order, that succeeded is a commit.
pub open spec fn last_success_is_commit(s: PlayerState, b: Balances, calls: Seq<FlipCall>) -> bool
    decreases calls.len(),
{
    if calls.len() == 0 {
        false
    } else if ({
        let (s1, b1) = run_calls(s, b, calls.drop_last());
        apply_call(s1, b1, calls.last()).0
    }) {
        calls.last() is Commit
    } else {
        last_success_is_commit(s, b, calls.drop_last())
    }
}

/// Over any sequence of commits and settles on a new game: a commitment is
/// outstanding exactly when the last call that succeeded was a commit;
/// successful commits and settles alternate, starting with a commit; and
/// the player allowed to commit never changes.
pub proof fn lemma_pending_over_calls(user: Pubkey, bump: u8, b: Balances, calls: Seq<FlipCall>)
    ensures
        run_calls(initial_state(user, bump), b, calls).0.has_pending_commitment
            == last_success_is_commit(initial_state(user, bump), b, calls),
        run_calls(initial_state(user, bump), b, calls).0.allowed_user == user,
        forall|i: int|
            0 <= i < calls.len() && #[trigger] apply_call(
                run_calls(initial_state(user, bump), b, calls.subrange(0, i)).0,
                run_calls(initial_state(user, bump), b, calls.subrange(0, i)).1,
                calls[i],
            ).0 ==> (calls[i] is Commit <==> !last_success_is_commit(
                initial_state(user, bump),
                b,
                calls.subrange(0, i),
            )),
    decreases calls.len(),
{
    let s0 = initial_state(user, bump);
    if calls.len() > 0 {
        let prefix = calls.drop_last();
        lemma_pending_over_calls(user, bump, b, prefix);
        let n = calls.len() - 1;
        assert forall|i: int|
            0 <= i < calls.len() && #[trigger] apply_call(
                run_calls(s0, b, calls.subrange(0, i)).0,
                run_calls(s0, b, calls.subrange(0, i)).1,
                calls[i],
            ).0 implies (calls[i] is Commit <==> !last_success_is_commit(
                s0,
                b,
                calls.subrange(0, i),
            )) by {
            if i < n {
                assert(calls.subrange(0, i) =~= prefix.subrange(0, i));
                assert(calls[i] == prefix[i]);
            } else {
                assert(calls.subrange(0, i) =~= prefix);
            }
        }
    }
}

} // verus!
