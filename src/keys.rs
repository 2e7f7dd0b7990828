//! Account addresses.
use switchboard_on_demand::check_pubkey_eq;
use vstd::prelude::*;

verus! {

/// A 32-byte account address.
pub type Pubkey = [u8; 32];

/// The all-zero address: the system program's, and where a cleared
/// commitment points.
pub open spec fn is_zero_key(k: Pubkey) -> bool {
    k@ == Seq::new(32, |i: int| 0u8)
}

/// The all-zero address.
pub open spec fn zero_key() -> Pubkey {
    choose|k: Pubkey| is_zero_key(k)
}

/// The all-zero address.
pub fn default_key() -> (r: Pubkey)
    ensures
        r == zero_key(),
        is_zero_key(r),
{
    let r = [0u8; 32];
    assert(r@ =~= Seq::new(32, |i: int| 0u8));
    proof {
        assert(is_zero_key(r));
        let k = zero_key();
        assert(is_zero_key(k));
        lemma_same_bytes_same_key(k, r);
    }
    r
}

/// Whether two addresses are the same.
pub fn keys_equal(a: &Pubkey, b: &Pubkey) -> (r: bool)
    ensures
        r == (*a == *b),
{
    let mut i: usize = 0;
    while i < 32
        invariant
            i <= 32,
            forall|j: int| 0 <= j < i ==> a@[j] == b@[j],
        decreases 32 - i,
    {
        if a[i] != b[i] {
            assert(a@[i as int] != b@[i as int]);
            return false;
        }
        i = i + 1;
    }
    proof {
        assert(a@ =~= b@);
        lemma_same_bytes_same_key(*a, *b);
    }
    true
}

/// Two addresses with the same bytes are the same address.
pub proof fn lemma_same_bytes_same_key(a: Pubkey, b: Pubkey)
    requires
        a@ == b@,
    ensures
        a == b,
{
    broadcast use vstd::array::group_array_axioms;

    assert(a =~= b);
}

/// Relies on `switchboard_on_demand::check_pubkey_eq`: it compares the first
/// 32 bytes of each side (read as four `u64`s), so both must hold that many.
#[verifier::external_body]
pub(crate) fn pubkey_bytes_eq(lhs: &[u8], rhs: &[u8]) -> (r: bool)
    requires
        lhs@.len() >= 32,
        rhs@.len() >= 32,
    ensures
        r == (lhs@.subrange(0, 32) == rhs@.subrange(0, 32)),
{
    check_pubkey_eq(lhs, rhs)
}

} // verus!
