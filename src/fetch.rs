//! Fetching a quote: the request URL, the status rule, and how each outcome
//! enters the cycle's snapshot.

use vstd::prelude::*;
use vstd::string::*;

verus! {

/// Why a quote could not be had.
#[derive(Debug, Clone, Copy, PartialEq, Eq, Structural)]
pub enum FetchError {
    /// The request did not complete.
    Network,
    /// The server answered with a status that is not a success.
    Status(u16),
    /// The body was not a ticker with a USD price.
    Body,
}

/// The ticker endpoint; the coin id follows it.
pub open spec fn ticker_base() -> Seq<char> {
    "https://api.coinpaprika.com/v1/tickers/"@
}

/// A status in the success class, 200 to 299.
pub open spec fn is_success(code: u16) -> bool {
    200 <= code && code <= 299
}

/// What a response status means for the fetch.
pub open spec fn status_outcome(code: u16) -> Result<(), FetchError> {
    if is_success(code) {
        Ok(())
    } else {
        Err(FetchError::Status(code))
    }
}

/// What a fetch outcome puts in the snapshot: the price text, or nothing (the
/// failure marker) whatever the error was.
pub open spec fn quote_of(r: Result<String, FetchError>) -> Option<String> {
    match r {
        Ok(p) => Some(p),
        Err(_) => None,
    }
}

/// The snapshot of one cycle, one entry per fetch outcome, in order.
pub open spec fn snapshot_of(results: Seq<Result<String, FetchError>>) -> Seq<Option<String>> {
    results.map_values(|r: Result<String, FetchError>| quote_of(r))
}

/// The URL that gives the ticker of a coin.
pub fn ticker_url(coin_id: &str) -> (r: String)
    ensures
        r@ == ticker_base() + coin_id@,
{
    let mut url = String::from_str("https://api.coinpaprika.com/v1/tickers/");
    url.append(coin_id);
    url
}

/// Whether a response status counts as a success.
pub fn is_success_status(code: u16) -> (r: bool)
    ensures
        r == is_success(code),
{
    200 <= code && code <= 299
}

/// Accepts a response status, or turns it into the fetch's error.
pub fn check_status(code: u16) -> (r: Result<(), FetchError>)
    ensures
        r == status_outcome(code),
{
    if is_success_status(code) {
        Ok(())
    } else {
        Err(FetchError::Status(code))
    }
}

/// The snapshot entry for one fetch outcome.
pub fn quote_from(result: &Result<String, FetchError>) -> (r: Option<String>)
    ensures
        r == quote_of(*result),
{
    match result {
        Ok(p) => Some(p.clone()),
        Err(_) => None,
    }
}

/// Builds the cycle's snapshot from the fetch outcomes, keeping their order.
pub fn record_fetches(results: &Vec<Result<String, FetchError>>) -> (r: Vec<Option<String>>)
    ensures
        r@ == snapshot_of(results@),
{
    let mut out: Vec<Option<String>> = Vec::new();
    let mut i: usize = 0;
    while i < results.len()
        invariant
            i <= results@.len(),
            out@ == snapshot_of(results@.subrange(0, i as int)),
        decreases results@.len() - i,
    {
        let q = quote_from(&results[i]);
        out.push(q);
        proof {
            assert(results@.subrange(0, i + 1) =~= results@.subrange(0, i as int).push(results@[i as int]));
            assert(snapshot_of(results@.subrange(0, i + 1)) =~= snapshot_of(
                results@.subrange(0, i as int),
            ).push(quote_of(results@[i as int])));
        }
        i = i + 1;
    }
    proof {
        assert(results@.subrange(0, i as int) =~= results@);
    }
    out
}

/// A response with a status that is not a success leaves the same snapshot
/// as a request that never completed.
pub proof fn lemma_status_failure_is_network_failure(
    results: Seq<Result<String, FetchError>>,
    k: int,
    code: u16,
)
    requires
        0 <= k < results.len(),
        !is_success(code),
    ensures
        status_outcome(code) == Err::<(), FetchError>(FetchError::Status(code)),
        snapshot_of(results.update(k, Err(FetchError::Status(code)))) == snapshot_of(
            results.update(k, Err(FetchError::Network)),
        ),
{
    assert(snapshot_of(results.update(k, Err(FetchError::Status(code)))) =~= snapshot_of(
        results.update(k, Err(FetchError::Network)),
    ));
}

} // verus!
