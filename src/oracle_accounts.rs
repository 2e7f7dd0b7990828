//! A framework-free oracle program: its instruction tags, the checks on the
//! accounts it is handed, and the system-program call that creates its
//! accounts.
use crate::keys::{
    default_key, is_zero_key, keys_equal, lemma_same_bytes_same_key, pubkey_bytes_eq, Pubkey,
};
use vstd::bytes::{spec_u32_to_le_bytes, spec_u64_to_le_bytes, u32_to_le_bytes, u64_to_le_bytes};
use vstd::prelude::*;

verus! {

/// Bytes of a quote account: discriminator, queue and quote data.
pub const ORACLE_ACCOUNT_SIZE: usize = 8 + 32 + 1024;

/// Bytes of the state account: the authorised signer's address.
pub const STATE_ACCOUNT_SIZE: usize = 32;

/// The program's custom error for a signer other than the stored one.
pub const UNAUTHORIZED_SIGNER: u32 = 1;

/// The program's custom error for a state account it does not own.
pub const INVALID_STATE_ACCOUNT: u32 = 2;

/// The errors the program returns.
#[derive(Clone, Copy, Debug, PartialEq, Eq, Structural)]
pub enum ProgramError {
    InvalidInstructionData,
    NotEnoughAccountKeys,
    IncorrectProgramId,
    InvalidArgument,
    InvalidSeeds,
    Custom(u32),
}

/// The program's instructions, by the tag in the first byte of their data.
#[derive(Clone, Copy, Debug, PartialEq, Eq, Structural)]
pub enum Instruction {
    /// 0: write the quote of the transaction's first instruction, unverified.
    Crank,
    /// 1: verify the quote account and show its feeds.
    Read,
    /// 2: create the state account and store the payer in it.
    InitState,
    /// 3: create the quote account for the feeds of the first instruction.
    InitOracle,
}

/// The instruction whose data is `data`.
pub open spec fn decoded(data: Seq<u8>) -> Result<Instruction, ProgramError> {
    if data.len() == 0 {
        Err(ProgramError::InvalidInstructionData)
    } else if data[0] == 0 {
        Ok(Instruction::Crank)
    } else if data[0] == 1 {
        Ok(Instruction::Read)
    } else if data[0] == 2 {
        Ok(Instruction::InitState)
    } else if data[0] == 3 {
        Ok(Instruction::InitOracle)
    } else {
        Err(ProgramError::InvalidInstructionData)
    }
}

/// Picks the instruction that `instruction_data` asks for.
pub fn process_instruction(instruction_data: &[u8]) -> (r: Result<Instruction, ProgramError>)
    ensures
        r == decoded(instruction_data@),
{
    if instruction_data.len() == 0 {
        return Err(ProgramError::InvalidInstructionData);
    }
    match instruction_data[0] {
        0 => Ok(Instruction::Crank),
        1 => Ok(Instruction::Read),
        2 => Ok(Instruction::InitState),
        3 => Ok(Instruction::InitOracle),
        _ => Err(ProgramError::InvalidInstructionData),
    }
}

/// The accounts that an instruction takes, in order.
pub open spec fn spec_account_count(ix: Instruction) -> usize {
    match ix {
        Instruction::Crank => 6,
        Instruction::Read => 5,
        Instruction::InitState => 3,
        Instruction::InitOracle => 5,
    }
}

/// Admits the `given` accounts for `ix` if they are exactly as many as it
/// takes.
pub fn check_account_count(ix: Instruction, given: usize) -> (r: Result<(), ProgramError>)
    ensures
        r is Ok <==> given == spec_account_count(ix),
        r is Err ==> r == Err::<(), ProgramError>(ProgramError::NotEnoughAccountKeys),
{
    let needed: usize = match ix {
        Instruction::Crank => 6,
        Instruction::Read => 5,
        Instruction::InitState => 3,
        Instruction::InitOracle => 5,
    };
    if given == needed {
        Ok(())
    } else {
        Err(ProgramError::NotEnoughAccountKeys)
    }
}

/// An account is the program's state account: the program owns it and it
/// holds exactly one address.
pub open spec fn spec_is_state_account(owner: Pubkey, program_id: Pubkey, data_len: usize) -> bool {
    owner == program_id && data_len == STATE_ACCOUNT_SIZE
}

/// Whether an account owned by `owner`, holding `data_len` bytes, is the
/// state account of the program `program_id`.
pub fn is_state_account(owner: &Pubkey, program_id: &Pubkey, data_len: usize) -> (r: bool)
    ensures
        r == spec_is_state_account(*owner, *program_id, data_len),
{
    let same = pubkey_bytes_eq(owner.as_slice(), program_id.as_slice());
    proof {
        assert(owner@.subrange(0, 32) =~= owner@ && program_id@.subrange(0, 32) =~= program_id@);
        if owner@ == program_id@ {
            lemma_same_bytes_same_key(*owner, *program_id);
        }
    }
    same && data_len == STATE_ACCOUNT_SIZE
}

/// Admits a crank: the state account (owned by `state_owner`, holding
/// `state_data`) belongs to `program_id` and stores `payer`.
pub fn crank(state_owner: &Pubkey, program_id: &Pubkey, state_data: &[u8], payer: &Pubkey) -> (r:
    Result<(), ProgramError>)
    ensures
        !spec_is_state_account(*state_owner, *program_id, state_data@.len() as usize) ==> r == Err::<
            (),
            ProgramError,
        >(ProgramError::Custom(INVALID_STATE_ACCOUNT)),
        spec_is_state_account(*state_owner, *program_id, state_data@.len() as usize) ==> (r is Ok
            <==> state_data@ == payer@) && (r is Err ==> r == Err::<(), ProgramError>(
            ProgramError::Custom(UNAUTHORIZED_SIGNER),
        )),
{
    if !is_state_account(state_owner, program_id, state_data.len()) {
        return Err(ProgramError::Custom(INVALID_STATE_ACCOUNT));
    }
    let same = pubkey_bytes_eq(state_data, payer.as_slice());
    assert(state_data@.subrange(0, 32) =~= state_data@ && payer@.subrange(0, 32) =~= payer@);
    if !same {
        return Err(ProgramError::Custom(UNAUTHORIZED_SIGNER));
    }
    Ok(())
}

/// The program address derived from `seeds` for the program `program_id`,
/// with its bump seed, if one exists.
pub uninterp spec fn program_address_of(seeds: Seq<Seq<u8>>, program_id: Seq<u8>) -> Option<
    (Seq<u8>, u8),
>;

/// The byte views of `seeds`.
pub open spec fn seed_views(seeds: Seq<Vec<u8>>) -> Seq<Seq<u8>> {
    seeds.map_values(|s: Vec<u8>| s@)
}

/// Relies on `Pubkey::try_find_program_address`: the first bump seed, from
/// 255 down, that puts the hash of the seeds off the curve, and the address;
/// none if there is no such seed or there are too many seeds. It depends on
/// the seeds and the program alone.
#[verifier::external_body]
fn try_find_program_address(seeds: &Vec<Vec<u8>>, program_id: &Pubkey) -> (r: Option<(Pubkey, u8)>)
    ensures
        match r {
            Some((address, bump)) => program_address_of(seed_views(seeds@), program_id@) == Some(
                (address@, bump),
            ),
            None => program_address_of(seed_views(seeds@), program_id@) is None,
        },
{
    let refs: Vec<&[u8]> = seeds.iter().map(|s| s.as_slice()).collect();
    let program = solana_program::pubkey::Pubkey::new_from_array(*program_id);
    solana_program::pubkey::Pubkey::try_find_program_address(&refs, &program).map(
        |(address, bump)| (address.to_bytes(), bump),
    )
}

/// The bytes of the address `k`.
fn key_bytes(k: &Pubkey) -> (r: Vec<u8>)
    ensures
        r@ == k@,
{
    let mut r: Vec<u8> = Vec::new();
    let mut i: usize = 0;
    while i < 32
        invariant
            i <= 32,
            r@ == k@.subrange(0, i as int),
        decreases 32 - i,
    {
        r.push(k[i]);
        proof {
            assert(k@.subrange(0, i + 1) =~= k@.subrange(0, i as int).push(k@[i as int]));
        }
        i = i + 1;
    }
    assert(k@.subrange(0, 32) =~= k@);
    r
}

/// How to create a missing account: the data of the system program's
/// `CreateAccount` instruction, and the bump seed that signs for the address.
#[derive(Clone, Debug)]
pub struct CreateAccount {
    pub bump: u8,
    pub data: Vec<u8>,
}

/// What initialising an account gives: nothing to do if it holds lamports;
/// else a refusal of a wrong system program, of seeds without an address, or
/// of an account that is not the derived address; else the account to create
/// with `space` bytes and `rent_lamports`, owned by the program.
pub open spec fn init_plan(
    lamports: u64,
    system_program: Pubkey,
    seeds: Seq<Seq<u8>>,
    program_id: Pubkey,
    account: Pubkey,
    space: u64,
    rent_lamports: u64,
    r: Result<Option<CreateAccount>, ProgramError>,
) -> bool {
    if lamports != 0 {
        r == Ok::<Option<CreateAccount>, ProgramError>(None)
    } else if !is_zero_key(system_program) {
        r == Err::<Option<CreateAccount>, ProgramError>(ProgramError::IncorrectProgramId)
    } else {
        match program_address_of(seeds, program_id@) {
            None => r == Err::<Option<CreateAccount>, ProgramError>(ProgramError::InvalidSeeds),
            Some((address, bump)) => if address != account@ {
                r == Err::<Option<CreateAccount>, ProgramError>(ProgramError::InvalidArgument)
            } else {
                r matches Ok(Some(c)) && c.bump == bump && c.data@ == spec_create_account_data(
                    rent_lamports,
                    space,
                    program_id,
                )
            },
        }
    }
}

/// Whether `k` is the system program.
fn check_system_program(k: &Pubkey) -> (r: bool)
    ensures
        r == is_zero_key(*k),
{
    let zero = default_key();
    let r = keys_equal(k, &zero);
    proof {
        if k@ == zero@ {
            lemma_same_bytes_same_key(*k, zero);
        }
    }
    r
}

/// Plans the creation of `account` at the address derived from `seeds`.
fn plan_account(
    lamports: u64,
    system_program: &Pubkey,
    seeds: &Vec<Vec<u8>>,
    program_id: &Pubkey,
    account: &Pubkey,
    space: u64,
    rent_lamports: u64,
) -> (r: Result<Option<CreateAccount>, ProgramError>)
    ensures
        init_plan(
            lamports,
            *system_program,
            seed_views(seeds@),
            *program_id,
            *account,
            space,
            rent_lamports,
            r,
        ),
{
    if lamports != 0 {
        return Ok(None);
    }
    if !check_system_program(system_program) {
        return Err(ProgramError::IncorrectProgramId);
    }
    let (address, bump) = match try_find_program_address(seeds, program_id) {
        None => {
            return Err(ProgramError::InvalidSeeds);
        },
        Some(found) => found,
    };
    if !keys_equal(&address, account) {
        proof {
            if address@ == account@ {
                lemma_same_bytes_same_key(address, *account);
            }
        }
        return Err(ProgramError::InvalidArgument);
    }
    Ok(Some(CreateAccount { bump, data: create_account_data(rent_lamports, space, program_id) }))
}

/// The seeds of a quote account: the queue, then each feed id.
pub open spec fn quote_seeds(queue: Pubkey, feed_ids: Seq<[u8; 32]>) -> Seq<Seq<u8>> {
    seq![queue@] + feed_ids.map_values(|f: [u8; 32]| f@)
}

/// Plans the creation of the quote account `oracle_account` (holding
/// `lamports`) for the feeds `feed_ids` of `queue`: it must be the address
/// derived from the queue and the feed ids.
pub fn init_quote_account_if_needed(
    program_id: &Pubkey,
    oracle_account: &Pubkey,
    lamports: u64,
    queue: &Pubkey,
    system_program: &Pubkey,
    feed_ids: &Vec<[u8; 32]>,
    rent_lamports: u64,
) -> (r: Result<Option<CreateAccount>, ProgramError>)
    ensures
        init_plan(
            lamports,
            *system_program,
            quote_seeds(*queue, feed_ids@),
            *program_id,
            *oracle_account,
            ORACLE_ACCOUNT_SIZE as u64,
            rent_lamports,
            r,
        ),
{
    let mut seeds: Vec<Vec<u8>> = Vec::new();
    seeds.push(key_bytes(queue));
    let mut i: usize = 0;
    while i < feed_ids.len()
        invariant
            i <= feed_ids.len(),
            seed_views(seeds@) == quote_seeds(*queue, feed_ids@.subrange(0, i as int)),
        decreases feed_ids.len() - i,
    {
        let seed = key_bytes(&feed_ids[i]);
        let ghost before = seeds@;
        seeds.push(seed);
        proof {
            assert(seeds@ == before.push(seed));
            assert(seed_views(seeds@) =~= seed_views(before).push(feed_ids@[i as int]@));
            assert(feed_ids@.subrange(0, i + 1) =~= feed_ids@.subrange(0, i as int).push(
                feed_ids@[i as int],
            ));
            assert(quote_seeds(*queue, feed_ids@.subrange(0, i + 1)) =~= quote_seeds(
                *queue,
                feed_ids@.subrange(0, i as int),
            ).push(feed_ids@[i as int]@));
        }
        i = i + 1;
    }
    assert(feed_ids@.subrange(0, feed_ids.len() as int) =~= feed_ids@);
    plan_account(
        lamports,
        system_program,
        &seeds,
        program_id,
        oracle_account,
        ORACLE_ACCOUNT_SIZE as u64,
        rent_lamports,
    )
}

/// The seed of the state account.
pub open spec fn state_seeds() -> Seq<Seq<u8>> {
    seq![seq![115u8, 116u8, 97u8, 116u8, 101u8]]
}

/// Plans the creation of the state account `state_account` (holding
/// `lamports`): it must be the address derived from the seed `b"state"`.
pub fn init_state_account_if_needed(
    program_id: &Pubkey,
    state_account: &Pubkey,
    lamports: u64,
    system_program: &Pubkey,
    rent_lamports: u64,
) -> (r: Result<Option<CreateAccount>, ProgramError>)
    ensures
        init_plan(
            lamports,
            *system_program,
            state_seeds(),
            *program_id,
            *state_account,
            STATE_ACCOUNT_SIZE as u64,
            rent_lamports,
            r,
        ),
{
    let mut seeds: Vec<Vec<u8>> = Vec::new();
    seeds.push(vec![115u8, 116u8, 97u8, 116u8, 101u8]);
    assert(seed_views(seeds@) =~= state_seeds());
    plan_account(
        lamports,
        system_program,
        &seeds,
        program_id,
        state_account,
        STATE_ACCOUNT_SIZE as u64,
        rent_lamports,
    )
}

/// The data of the system program's `CreateAccount` instruction: its tag 0 as
/// a little-endian `u32`, then the lamports, the space and the owner.
pub open spec fn spec_create_account_data(lamports: u64, space: u64, owner: Pubkey) -> Seq<u8> {
    spec_u32_to_le_bytes(0) + spec_u64_to_le_bytes(lamports) + spec_u64_to_le_bytes(space)
        + owner@
}

/// Builds the data of a `CreateAccount` instruction for an account of
/// `space` bytes funded with `lamports` and owned by `owner`.
pub fn create_account_data(lamports: u64, space: u64, owner: &Pubkey) -> (r: Vec<u8>)
    ensures
        r@ == spec_create_account_data(lamports, space, *owner),
        r@.len() == 52,
{
    proof {
        vstd::bytes::lemma_auto_spec_u32_to_from_le_bytes();
        vstd::bytes::lemma_auto_spec_u64_to_from_le_bytes();
    }
    let mut data = u32_to_le_bytes(0);
    let mut lamport_bytes = u64_to_le_bytes(lamports);
    data.append(&mut lamport_bytes);
    let mut space_bytes = u64_to_le_bytes(space);
    data.append(&mut space_bytes);
    let mut i: usize = 0;
    let ghost head = data@;
    while i < 32
        invariant
            i <= 32,
            head.len() == 20,
            data@ == head + owner@.subrange(0, i as int),
        decreases 32 - i,
    {
        data.push(owner[i]);
        proof {
            assert(owner@.subrange(0, i + 1) =~= owner@.subrange(0, i as int).push(owner@[i as int]));
        }
        i = i + 1;
    }
    assert(owner@.subrange(0, 32) =~= owner@);
    data
}

} // verus!
