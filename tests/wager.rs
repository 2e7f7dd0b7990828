use sb_wager::commitment::ErrorCode;
use sb_wager::pancake_stacker;
use sb_wager::randomness::{parse_randomness, ParseError, RandomnessRecord};
use sb_wager::sb_randomness::{
    coin_flip, initialize, settle_flip, transfer, Balances, PlayerState, Settlement,
};

const DISCRIMINATOR: [u8; 8] = [10, 66, 229, 135, 220, 239, 217, 114];

fn randomness_account(seed_slot: u64, reveal_slot: u64, first_byte: u8) -> Vec<u8> {
    let mut data = vec![0u8; 408];
    data[..8].copy_from_slice(&DISCRIMINATOR);
    data[104..112].copy_from_slice(&seed_slot.to_le_bytes());
    data[144..152].copy_from_slice(&reveal_slot.to_le_bytes());
    for i in 0..32 {
        data[152 + i] = first_byte.wrapping_add(i as u8 * 2);
    }
    data
}

const USER: [u8; 32] = [7u8; 32];
const OTHER: [u8; 32] = [8u8; 32];
const RANDOMNESS: [u8; 32] = [9u8; 32];

fn committed(balances: &mut Balances, guess: bool) -> PlayerState {
    let mut state = initialize(USER, 254);
    let data = randomness_account(10, 12, 0);
    assert_eq!(coin_flip(&mut state, balances, USER, RANDOMNESS, &data, 11, guess), Ok(()));
    state
}

#[test]
fn new_player_has_no_commitment() {
    let state = initialize(USER, 254);
    assert!(!state.has_pending_commitment);
    assert_eq!(state.wager, 100);
    assert_eq!(state.allowed_user, USER);
    assert_eq!(state.randomness_account, [0u8; 32]);
}

#[test]
fn commit_sets_pending_and_moves_wager() {
    let mut balances = Balances { user: 1000, escrow: 1000 };
    let state = committed(&mut balances, true);
    assert!(state.has_pending_commitment);
    assert_eq!(state.randomness_account, RANDOMNESS);
    assert_eq!(state.commit_slot, 10);
    assert!(state.current_guess);
    assert_eq!(balances, Balances { user: 900, escrow: 1100 });
}

#[test]
fn win_with_funded_escrow_pays_double() {
    let mut balances = Balances { user: 1000, escrow: 1000 };
    let mut state = committed(&mut balances, true);
    let escrow_before = balances.escrow;
    let user_before = balances.user;
    // First byte 0 is even: heads.
    let data = randomness_account(10, 12, 0);
    let r = settle_flip(&mut state, &mut balances, RANDOMNESS, &data, 12, 0);
    assert_eq!(r, Ok(Settlement::Paid));
    assert_eq!(balances.escrow, escrow_before - 200);
    assert_eq!(balances.user, user_before + 200);
    assert!(!state.has_pending_commitment);
    assert!(state.latest_flip_result);
    assert_eq!(state.randomness_account, [0u8; 32]);
}

#[test]
fn win_with_underfunded_escrow_defers_payout() {
    let mut balances = Balances { user: 1000, escrow: 50 };
    let mut state = committed(&mut balances, true);
    let before = balances;
    let data = randomness_account(10, 12, 0);
    let r = settle_flip(&mut state, &mut balances, RANDOMNESS, &data, 12, 0);
    assert_eq!(r, Ok(Settlement::PayoutDeferred));
    assert_eq!(balances, before);
    assert!(!state.has_pending_commitment);
}

#[test]
fn payout_keeps_escrow_reserve() {
    let mut balances = Balances { user: 1000, escrow: 150 };
    let mut state = committed(&mut balances, true);
    // Escrow holds 250: it can pay 200 but not keep a reserve of 51 as well.
    let data = randomness_account(10, 12, 0);
    let r = settle_flip(&mut state, &mut balances, RANDOMNESS, &data, 12, 51);
    assert_eq!(r, Ok(Settlement::PayoutDeferred));
    assert_eq!(balances.escrow, 250);
}

#[test]
fn wrong_guess_loses_wager() {
    let mut balances = Balances { user: 1000, escrow: 1000 };
    let mut state = committed(&mut balances, false);
    let before = balances;
    let data = randomness_account(10, 12, 0);
    let r = settle_flip(&mut state, &mut balances, RANDOMNESS, &data, 12, 0);
    assert_eq!(r, Ok(Settlement::Lost));
    assert_eq!(balances, before);
    assert!(!state.has_pending_commitment);
}

#[test]
fn tails_on_odd_first_byte() {
    let mut balances = Balances { user: 1000, escrow: 1000 };
    let mut state = committed(&mut balances, false);
    let data = randomness_account(10, 12, 3);
    let r = settle_flip(&mut state, &mut balances, RANDOMNESS, &data, 12, 0);
    assert_eq!(r, Ok(Settlement::Paid));
    assert!(!state.latest_flip_result);
    assert_eq!(balances, Balances { user: 1100, escrow: 900 });
}

#[test]
fn settle_twice_fails_second_time() {
    let mut balances = Balances { user: 1000, escrow: 1000 };
    let mut state = committed(&mut balances, true);
    let data = randomness_account(10, 12, 0);
    assert!(settle_flip(&mut state, &mut balances, RANDOMNESS, &data, 12, 0).is_ok());
    let after_first = (state, balances);
    let r = settle_flip(&mut state, &mut balances, RANDOMNESS, &data, 12, 0);
    assert_eq!(r, Err(ErrorCode::NoPendingCommitment));
    assert_eq!(balances, after_first.1);
    assert_eq!(state.randomness_account, after_first.0.randomness_account);
    assert!(!state.has_pending_commitment);
}

#[test]
fn commit_while_pending_fails_unchanged() {
    let mut balances = Balances { user: 1000, escrow: 1000 };
    let mut state = committed(&mut balances, true);
    let before = (state, balances);
    let data = randomness_account(20, 22, 0);
    let r = coin_flip(&mut state, &mut balances, USER, OTHER, &data, 21, false);
    assert_eq!(r, Err(ErrorCode::AlreadyPending));
    assert_eq!(balances, before.1);
    assert_eq!(state.randomness_account, RANDOMNESS);
    assert_eq!(state.commit_slot, 10);
    assert!(state.current_guess);
}

#[test]
fn stale_commit_moves_no_funds() {
    let mut balances = Balances { user: 1000, escrow: 1000 };
    let mut state = initialize(USER, 254);
    // Seeded two slots before the commit.
    let data = randomness_account(9, 12, 0);
    let r = coin_flip(&mut state, &mut balances, USER, RANDOMNESS, &data, 11, true);
    assert_eq!(r, Err(ErrorCode::CommitmentStale));
    assert_eq!(balances, Balances { user: 1000, escrow: 1000 });
    assert!(!state.has_pending_commitment);
    // Seeded in the commit slot itself.
    let data = randomness_account(11, 12, 0);
    let r = coin_flip(&mut state, &mut balances, USER, RANDOMNESS, &data, 11, true);
    assert_eq!(r, Err(ErrorCode::CommitmentStale));
    // Slot 0 has no slot before it.
    let data = randomness_account(0, 12, 0);
    let r = coin_flip(&mut state, &mut balances, USER, RANDOMNESS, &data, 0, true);
    assert_eq!(r, Err(ErrorCode::CommitmentStale));
    assert_eq!(balances, Balances { user: 1000, escrow: 1000 });
}

#[test]
fn settle_before_reveal_then_retry() {
    let mut balances = Balances { user: 1000, escrow: 1000 };
    let mut state = committed(&mut balances, true);
    let before = balances;
    let data = randomness_account(10, 12, 0);
    let r = settle_flip(&mut state, &mut balances, RANDOMNESS, &data, 11, 0);
    assert_eq!(r, Err(ErrorCode::NotYetResolved));
    assert!(state.has_pending_commitment);
    assert_eq!(balances, before);
    let r = settle_flip(&mut state, &mut balances, RANDOMNESS, &data, 12, 0);
    assert_eq!(r, Ok(Settlement::Paid));
    assert!(!state.has_pending_commitment);
}

#[test]
fn commit_needs_funds() {
    let mut balances = Balances { user: 99, escrow: 1000 };
    let mut state = initialize(USER, 254);
    let data = randomness_account(10, 12, 0);
    let r = coin_flip(&mut state, &mut balances, USER, RANDOMNESS, &data, 11, true);
    assert_eq!(r, Err(ErrorCode::InsufficientFunds));
    assert_eq!(balances, Balances { user: 99, escrow: 1000 });
    assert!(!state.has_pending_commitment);
}

#[test]
fn commit_by_stranger_refused() {
    let mut balances = Balances { user: 1000, escrow: 1000 };
    let mut state = initialize(USER, 254);
    let data = randomness_account(10, 12, 0);
    let r = coin_flip(&mut state, &mut balances, OTHER, RANDOMNESS, &data, 11, true);
    assert_eq!(r, Err(ErrorCode::Unauthorized));
    assert!(!state.has_pending_commitment);
}

#[test]
fn commit_with_bad_account_bytes() {
    let mut balances = Balances { user: 1000, escrow: 1000 };
    let mut state = initialize(USER, 254);
    let mut data = randomness_account(10, 12, 0);
    data[0] = 11;
    let r = coin_flip(&mut state, &mut balances, USER, RANDOMNESS, &data, 11, true);
    assert_eq!(r, Err(ErrorCode::InvalidRandomnessAccount));
    let short = randomness_account(10, 12, 0)[..200].to_vec();
    let r = coin_flip(&mut state, &mut balances, USER, RANDOMNESS, &short, 11, true);
    assert_eq!(r, Err(ErrorCode::InvalidRandomnessAccount));
    assert_eq!(balances, Balances { user: 1000, escrow: 1000 });
}

#[test]
fn settle_against_other_randomness_refused() {
    let mut balances = Balances { user: 1000, escrow: 1000 };
    let mut state = committed(&mut balances, true);
    let data = randomness_account(10, 12, 0);
    let r = settle_flip(&mut state, &mut balances, OTHER, &data, 12, 0);
    assert_eq!(r, Err(ErrorCode::CommitmentMismatch));
    // Same account key, but reseeded since the commit.
    let data = randomness_account(30, 32, 0);
    let r = settle_flip(&mut state, &mut balances, RANDOMNESS, &data, 32, 0);
    assert_eq!(r, Err(ErrorCode::CommitmentMismatch));
    assert!(state.has_pending_commitment);
}

#[test]
fn transfer_moves_or_refuses() {
    let mut from = 500u64;
    let mut to = 20u64;
    assert_eq!(transfer(&mut from, &mut to, 200), Ok(()));
    assert_eq!((from, to), (300, 220));
    assert_eq!(transfer(&mut from, &mut to, 301), Err(ErrorCode::InsufficientFunds));
    assert_eq!((from, to), (300, 220));
    assert_eq!(transfer(&mut from, &mut to, 300), Ok(()));
    assert_eq!((from, to), (0, 520));
}

#[test]
fn value_only_in_reveal_slot() {
    let rec = RandomnessRecord { seed_slot: 5, reveal_slot: 7, value: [3; 32] };
    assert_eq!(rec.get_value(7), Some([3; 32]));
    assert_eq!(rec.get_value(6), None);
    assert_eq!(rec.get_value(8), None);
}

#[test]
fn fields_read_from_account_bytes() {
    let data = randomness_account(77, 79, 5);
    let mut state = pancake_stacker::initialize(USER, 1);
    assert_eq!(pancake_stacker::flip_pancake(&mut state, USER, RANDOMNESS, &data, 78), Ok(()));
    assert_eq!(state.commit_slot, 77);
    // Revealed at slot 79, not before.
    let r = pancake_stacker::catch_pancake(&mut state, RANDOMNESS, &data, 78);
    assert_eq!(r, Err(ErrorCode::NotYetResolved));
    // First byte 5: 5 % 3 == 2, the pancake falls.
    let r = pancake_stacker::catch_pancake(&mut state, RANDOMNESS, &data, 79);
    assert_eq!(r, Ok(false));
}

#[test]
fn pancake_lands_and_stacks() {
    let mut state = pancake_stacker::initialize(USER, 1);
    for (i, first_byte) in [0u8, 1, 3, 4].iter().enumerate() {
        let seed = 100 + 10 * i as u64;
        let data = randomness_account(seed, seed + 2, *first_byte);
        assert_eq!(pancake_stacker::flip_pancake(&mut state, USER, RANDOMNESS, &data, seed + 1), Ok(()));
        assert!(state.has_pending_flip);
        assert_eq!(pancake_stacker::catch_pancake(&mut state, RANDOMNESS, &data, seed + 2), Ok(true));
        assert!(!state.has_pending_flip);
        assert_eq!(state.stack_height, i as u64 + 1);
    }
    let data = randomness_account(200, 202, 2);
    assert_eq!(pancake_stacker::flip_pancake(&mut state, USER, RANDOMNESS, &data, 201), Ok(()));
    assert_eq!(pancake_stacker::catch_pancake(&mut state, RANDOMNESS, &data, 202), Ok(false));
    assert_eq!(state.stack_height, 0);
}

#[test]
fn pancake_refusals() {
    let mut state = pancake_stacker::initialize(USER, 1);
    let data = randomness_account(10, 12, 0);
    assert_eq!(
        pancake_stacker::catch_pancake(&mut state, RANDOMNESS, &data, 12),
        Err(ErrorCode::NoPendingCommitment)
    );
    assert_eq!(
        pancake_stacker::flip_pancake(&mut state, OTHER, RANDOMNESS, &data, 11),
        Err(ErrorCode::Unauthorized)
    );
    assert_eq!(
        pancake_stacker::flip_pancake(&mut state, USER, RANDOMNESS, &data, 12),
        Err(ErrorCode::CommitmentStale)
    );
    let revealed = randomness_account(10, 11, 0);
    assert_eq!(
        pancake_stacker::flip_pancake(&mut state, USER, RANDOMNESS, &revealed, 11),
        Err(ErrorCode::AlreadyRevealed)
    );
    assert!(!state.has_pending_flip);
    assert_eq!(pancake_stacker::flip_pancake(&mut state, USER, RANDOMNESS, &data, 11), Ok(()));
    assert_eq!(
        pancake_stacker::flip_pancake(&mut state, USER, RANDOMNESS, &data, 11),
        Err(ErrorCode::AlreadyPending)
    );
    assert_eq!(
        pancake_stacker::catch_pancake(&mut state, RANDOMNESS, &data, 11),
        Err(ErrorCode::NotYetResolved)
    );
    assert_eq!(
        pancake_stacker::catch_pancake(&mut state, OTHER, &data, 12),
        Err(ErrorCode::CommitmentMismatch)
    );
    assert!(state.has_pending_flip);
    assert_eq!(pancake_stacker::catch_pancake(&mut state, RANDOMNESS, &data, 12), Ok(true));
    assert_eq!(
        pancake_stacker::catch_pancake(&mut state, RANDOMNESS, &data, 12),
        Err(ErrorCode::NoPendingCommitment)
    );
}

#[test]
fn parse_reads_fields_or_says_why_not() {
    let data = randomness_account(77, 79, 5);
    let rec = parse_randomness(&data).unwrap();
    assert_eq!(rec.seed_slot, 77);
    assert_eq!(rec.reveal_slot, 79);
    assert_eq!(rec.value[0], 5);
    assert_eq!(rec.value[31], 5 + 62);
    // Reading from an odd offset in a larger buffer gives the same record.
    let mut shifted = vec![0u8];
    shifted.extend_from_slice(&data);
    let again = parse_randomness(&shifted[1..]).unwrap();
    assert_eq!((again.seed_slot, again.reveal_slot, again.value), (77, 79, rec.value));
    let mut longer = data.clone();
    longer.extend_from_slice(&[1, 2, 3]);
    assert_eq!(parse_randomness(&longer).unwrap().seed_slot, 77);
    assert_eq!(parse_randomness(&data[..407]).unwrap_err(), ParseError::InvalidData);
    assert_eq!(parse_randomness(&data[..7]).unwrap_err(), ParseError::InvalidDiscriminator);
    let mut wrong = data.clone();
    wrong[3] ^= 1;
    assert_eq!(parse_randomness(&wrong).unwrap_err(), ParseError::InvalidDiscriminator);
}

#[test]
fn full_stack_refuses_to_grow() {
    let mut state = pancake_stacker::initialize(USER, 1);
    state.stack_height = u64::MAX;
    let data = randomness_account(10, 12, 0);
    assert_eq!(pancake_stacker::flip_pancake(&mut state, USER, RANDOMNESS, &data, 11), Ok(()));
    assert_eq!(
        pancake_stacker::catch_pancake(&mut state, RANDOMNESS, &data, 12),
        Err(ErrorCode::ArithmeticOverflow)
    );
    assert!(state.has_pending_flip);
    assert_eq!(state.stack_height, u64::MAX);
    // A fall still settles it.
    let falls = randomness_account(10, 12, 2);
    assert_eq!(pancake_stacker::catch_pancake(&mut state, RANDOMNESS, &falls, 12), Ok(false));
    assert_eq!(state.stack_height, 0);
    assert!(!state.has_pending_flip);
}

#[test]
fn system_transfer_instruction_bytes() {
    let data = sb_wager::sb_randomness::transfer_data(0x0102030405060708);
    assert_eq!(data, vec![2, 0, 0, 0, 8, 7, 6, 5, 4, 3, 2, 1]);
}
