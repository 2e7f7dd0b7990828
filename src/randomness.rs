//! The randomness account of the oracle network, as the wager programs read it.
use switchboard_on_demand::accounts::RandomnessAccountData;
use switchboard_on_demand::OnDemandError;
use crate::keys::lemma_same_bytes_same_key;
use vstd::bytes::spec_u64_from_le_bytes;
use vstd::prelude::*;

verus! {

/// Bytes of a randomness account: an 8-byte discriminator followed by the
/// 400-byte record.
pub const ACCOUNT_SIZE: usize = 408;

/// Offsets, within the account bytes, of the fields that the wagers read.
pub const SEED_SLOT_OFFSET: usize = 104;
pub const REVEAL_SLOT_OFFSET: usize = 144;
pub const VALUE_OFFSET: usize = 152;

/// The 8 bytes that open every randomness account.
pub open spec fn discriminator() -> Seq<u8> {
    seq![10u8, 66u8, 229u8, 135u8, 220u8, 239u8, 217u8, 114u8]
}

/// What a wager needs of a randomness account: the slot whose hash seeded it,
/// the slot at which its value was revealed, and that value.
#[derive(Clone, Copy, Debug)]
pub struct RandomnessRecord {
    pub seed_slot: u64,
    pub reveal_slot: u64,
    pub value: [u8; 32],
}

/// Why account bytes could not be read as a randomness record.
#[derive(Clone, Copy, Debug, PartialEq, Eq, Structural)]
pub enum ParseError {
    /// Fewer than 8 bytes, or the wrong discriminator.
    InvalidDiscriminator,
    /// The right discriminator, but too few bytes for the record.
    InvalidData,
    /// The record could not be laid over the bytes where they lie in memory
    /// (which the aligned copy that is read rules out).
    AccountDeserializeError,
}

/// `data` is a randomness account with the right discriminator.
pub open spec fn has_discriminator(data: Seq<u8>) -> bool {
    data.len() >= 8 && data.subrange(0, 8) == discriminator()
}

/// The little-endian `u64` at `off` in `data`.
pub open spec fn u64_at(data: Seq<u8>, off: int) -> u64 {
    spec_u64_from_le_bytes(data.subrange(off, off + 8))
}

/// `rec` holds the fields that `data` stores (little-endian, as on every
/// runtime the programs run on).
pub open spec fn record_of(data: Seq<u8>, rec: RandomnessRecord) -> bool {
    &&& rec.seed_slot == u64_at(data, SEED_SLOT_OFFSET as int)
    &&& rec.reveal_slot == u64_at(data, REVEAL_SLOT_OFFSET as int)
    &&& rec.value@ == data.subrange(VALUE_OFFSET as int, VALUE_OFFSET as int + 32)
}

/// `data` holds a randomness account: the discriminator, then the record.
pub open spec fn well_formed(data: Seq<u8>) -> bool {
    has_discriminator(data) && data.len() >= ACCOUNT_SIZE
}

/// What reading `data` gives: the record it stores, or why it has none.
pub open spec fn parse_outcome(data: Seq<u8>, r: Result<RandomnessRecord, ParseError>) -> bool {
    if !has_discriminator(data) {
        r == Err::<RandomnessRecord, ParseError>(ParseError::InvalidDiscriminator)
    } else if data.len() < ACCOUNT_SIZE {
        r == Err::<RandomnessRecord, ParseError>(ParseError::InvalidData)
    } else {
        r matches Ok(rec) && record_of(data, rec)
    }
}

/// Relies on `RandomnessAccountData::parse`: it checks the discriminator, then
/// the length, then casts the 400 bytes after the discriminator to the record;
/// the fields are copied out. The bytes are first copied to the start of
/// `buf`, seen as bytes through `bytemuck::cast_slice_mut`: `u64` words are
/// 8-byte aligned, so the cast, which needs only that alignment, succeeds.
#[verifier::external_body]
fn parse_account(data: &[u8], buf: &mut Vec<u64>) -> (r: Result<RandomnessRecord, ParseError>)
    requires
        8 * old(buf).len() >= data@.len(),
    ensures
        parse_outcome(data@, r),
{
    let bytes = &mut bytemuck::cast_slice_mut::<u64, u8>(buf.as_mut_slice())[..data.len()];
    bytes.copy_from_slice(data);
    let cell = std::cell::RefCell::new(bytes);
    let r = match RandomnessAccountData::parse(cell.borrow()) {
        Ok(acc) => Ok(RandomnessRecord {
            seed_slot: acc.seed_slot,
            reveal_slot: acc.reveal_slot,
            value: acc.value,
        }),
        Err(OnDemandError::InvalidDiscriminator) => Err(ParseError::InvalidDiscriminator),
        Err(OnDemandError::InvalidData) => Err(ParseError::InvalidData),
        Err(_) => Err(ParseError::AccountDeserializeError),
    };
    r
}

/// Reads the randomness record stored in the account bytes `data`.
pub fn parse_randomness(data: &[u8]) -> (r: Result<RandomnessRecord, ParseError>)
    ensures
        parse_outcome(data@, r),
{
    let mut buf: Vec<u64> = vec![0u64; data.len() / 8 + 1];
    parse_account(data, &mut buf)
}

/// The record that `data` stores, if it is well formed.
pub open spec fn record_in(data: Seq<u8>) -> Option<RandomnessRecord> {
    if well_formed(data) {
        Some(choose|rec: RandomnessRecord| record_of(data, rec))
    } else {
        None
    }
}

/// Account bytes store one record at most.
pub proof fn lemma_record_unique(data: Seq<u8>, a: RandomnessRecord, b: RandomnessRecord)
    requires
        record_of(data, a),
        record_of(data, b),
    ensures
        a == b,
{
    lemma_same_bytes_same_key(a.value, b.value);
}

/// The record that the account bytes `data` store, if they store one.
pub fn read_record(data: &[u8]) -> (r: Option<RandomnessRecord>)
    ensures
        r == record_in(data@),
{
    match parse_randomness(data) {
        Ok(rec) => {
            proof {
                let c = choose|c: RandomnessRecord| record_of(data@, c);
                lemma_record_unique(data@, rec, c);
            }
            Some(rec)
        },
        Err(_) => None,
    }
}

/// A record's value is revealed at `clock_slot`.
pub open spec fn revealed_at(rec: RandomnessRecord, clock_slot: u64) -> bool {
    clock_slot == rec.reveal_slot
}

impl RandomnessRecord {
    /// The random value, available only in the slot in which it was revealed.
    pub fn get_value(&self, clock_slot: u64) -> (r: Option<[u8; 32]>)
        ensures
            revealed_at(*self, clock_slot) <==> r is Some,
            r matches Some(v) ==> v == self.value,
    {
        if clock_slot != self.reveal_slot {
            None
        } else {
            Some(self.value)
        }
    }
}

} // verus!
