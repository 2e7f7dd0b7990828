//! How feed values and their age are shown.
use vstd::prelude::*;
use vstd::string::{StrSliceExecFns, StringExecFns};

verus! {

/// Feed values are fixed-point numbers with this many decimals.
pub const DECIMALS: usize = 18;

/// Slots since `quote_slot`, or 0 for a quote from the future.
pub fn staleness(current_slot: u64, quote_slot: u64) -> (r: u64)
    ensures
        r == if current_slot >= quote_slot {
            (current_slot - quote_slot) as u64
        } else {
            0
        },
{
    current_slot.saturating_sub(quote_slot)
}

/// The digits `s` of a value scaled to 18 decimals, with the decimal point
/// put in: text shorter than 18 characters comes back as it is.
pub open spec fn with_decimal_point(s: Seq<char>) -> Seq<char> {
    if s.len() < DECIMALS {
        s
    } else {
        s.subrange(0, s.len() - DECIMALS) + seq!['.'] + s.subrange(
            s.len() - DECIMALS,
            s.len() as int,
        )
    }
}

/// Puts the decimal point into the digits `s` of a value scaled to 18
/// decimals.
pub fn fmt(s: &str) -> (r: String)
    ensures
        r@ == with_decimal_point(s@),
{
    let n = s.unicode_len();
    if n < DECIMALS {
        return String::from_str(s);
    }
    let split = n - DECIMALS;
    let mut r = String::from_str(s.substring_char(0, split));
    let point = ".";
    proof {
        reveal_strlit(".");
    }
    r.append(point);
    r.append(s.substring_char(split, n));
    r
}

} // verus!
