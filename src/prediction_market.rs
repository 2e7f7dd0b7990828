//! Checks that an oracle quote carries the feed of a given Kalshi order: the
//! feed's id is the SHA-256 digest of the feed definition, which is rebuilt
//! from the order id.
use vstd::prelude::*;
use vstd::string::StringExecFns;

verus! {

/// The SHA-256 digest of `data`.
pub uninterp spec fn sha256_of(data: Seq<u8>) -> Seq<u8>;

/// Relies on `solana_program::hash::hash`: the SHA-256 digest of `data`, 32
/// bytes that depend on `data` alone.
#[verifier::external_body]
fn sha256(data: &[u8]) -> (r: [u8; 32])
    ensures
        r@ == sha256_of(data@),
{
    solana_program::hash::hash(data).to_bytes()
}

/// Where the Kalshi API serves an order.
pub open spec fn order_url_prefix() -> Seq<char> {
    "https://api.elections.kalshi.com/trade-api/v2/portfolio/orders/"@
}

/// The Kalshi API address of the order `order_id`.
pub fn kalshi_order_url(order_id: &str) -> (r: String)
    ensures
        r@ == order_url_prefix() + order_id@,
{
    let mut url = String::from_str("https://api.elections.kalshi.com/trade-api/v2/portfolio/orders/");
    url.append(order_id);
    url
}

/// The id of the feed whose encoded definition is `encoded_feed`.
pub fn create_kalshi_feed_id(encoded_feed: &[u8]) -> (r: [u8; 32])
    ensures
        r@ == sha256_of(encoded_feed@),
{
    sha256(encoded_feed)
}

/// Refusals of the feed check.
#[derive(Clone, Copy, Debug, PartialEq, Eq, Structural)]
pub enum ErrorCode {
    /// The quote carries no feed.
    NoOracleFeeds,
    /// The quote's first feed is not the expected one.
    FeedMismatch,
}

/// What checking the feed ids of a quote against `expected` gives.
pub open spec fn feed_check(feed_ids: Seq<[u8; 32]>, expected: Seq<u8>) -> Result<(), ErrorCode> {
    if feed_ids.len() == 0 {
        Err(ErrorCode::NoOracleFeeds)
    } else if feed_ids[0]@ != expected {
        Err(ErrorCode::FeedMismatch)
    } else {
        Ok(())
    }
}

/// Admits a quote whose first feed id (of `feed_ids`) is `expected`.
pub fn check_feed_id(feed_ids: &Vec<[u8; 32]>, expected: &[u8; 32]) -> (r: Result<(), ErrorCode>)
    ensures
        r == feed_check(feed_ids@, expected@),
{
    if feed_ids.len() == 0 {
        return Err(ErrorCode::NoOracleFeeds);
    }
    let first = &feed_ids[0];
    let mut i: usize = 0;
    while i < 32
        invariant
            i <= 32,
            feed_ids@.len() > 0,
            *first == feed_ids@[0],
            forall|j: int| 0 <= j < i ==> first@[j] == expected@[j],
        decreases 32 - i,
    {
        if first[i] != expected[i] {
            assert(first@[i as int] != expected@[i as int]);
            return Err(ErrorCode::FeedMismatch);
        }
        i = i + 1;
    }
    assert(first@ =~= expected@);
    Ok(())
}

/// Admits a quote whose first feed id (of `feed_ids`) is the id of the feed
/// definition `encoded_feed`.
pub fn verify_kalshi_feed(feed_ids: &Vec<[u8; 32]>, encoded_feed: &[u8]) -> (r: Result<
    (),
    ErrorCode,
>)
    ensures
        r == feed_check(feed_ids@, sha256_of(encoded_feed@)),
{
    let expected = create_kalshi_feed_id(encoded_feed);
    check_feed_id(feed_ids, &expected)
}

} // verus!
