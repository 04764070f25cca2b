//! The requests the hub makes of the remote market API on its own account:
//! their endpoints and query parameters, and when a paged listing goes on.

use crate::streams::pairs_view;
use vstd::prelude::*;
use vstd::string::*;

verus! {

/// Most bets the API returns in one page.
pub const PAGE_LIMIT: usize = 1000;

/// Query of one page of a user's bets: `userId`, `before` (empty for the
/// first page), `limit`.
pub fn bets_page_query(user_id: &String, before: &String) -> (r: Vec<(String, String)>)
    ensures
        pairs_view(r@) == seq![
            ("userId"@, user_id@),
            ("before"@, before@),
            ("limit"@, "1000"@),
        ],
{
    let mut r: Vec<(String, String)> = Vec::new();
    r.push((String::from_str("userId"), user_id.clone()));
    r.push((String::from_str("before"), before.clone()));
    r.push((String::from_str("limit"), String::from_str("1000")));
    assert(pairs_view(r@) =~= seq![
        ("userId"@, user_id@),
        ("before"@, before@),
        ("limit"@, "1000"@),
    ]);
    r
}

/// Where the listing of a user's bets goes on after a page whose bets have ids
/// `ids`: nowhere when the page was not full, else before its last bet.
pub fn next_page_cursor(ids: &Vec<String>) -> (r: Option<String>)
    ensures
        ids@.len() < PAGE_LIMIT ==> r is None,
        ids@.len() >= PAGE_LIMIT ==> r is Some && r->0@ == ids@.last()@,
{
    if ids.len() < PAGE_LIMIT {
        None
    } else {
        Some(ids[ids.len() - 1].clone())
    }
}

/// Query of a market search that wants the single best match for `term`.
pub fn search_query(term: &String) -> (r: Vec<(String, String)>)
    ensures
        pairs_view(r@) == seq![("term"@, term@), ("limit"@, "1"@)],
{
    let mut r: Vec<(String, String)> = Vec::new();
    r.push((String::from_str("term"), term.clone()));
    r.push((String::from_str("limit"), String::from_str("1")));
    assert(pairs_view(r@) =~= seq![("term"@, term@), ("limit"@, "1"@)]);
    r
}

/// Parameters of the bet stream of one market: `contractId=<market id>`.
pub fn market_stream_params(market_id: &String) -> (r: Vec<(String, String)>)
    ensures
        pairs_view(r@) == seq![("contractId"@, market_id@)],
{
    let mut r: Vec<(String, String)> = Vec::new();
    r.push((String::from_str("contractId"), market_id.clone()));
    assert(pairs_view(r@) =~= seq![("contractId"@, market_id@)]);
    r
}

/// Endpoint of one market: `market/<id>`.
pub fn market_endpoint(market_id: &String) -> (r: String)
    ensures
        r@ == "market/"@ + market_id@,
{
    String::from_str("market/").concat(market_id.as_str())
}

/// Endpoint that sells a position in a market: `market/<id>/sell`.
pub fn sell_endpoint(market_id: &String) -> (r: String)
    ensures
        r@ == "market/"@ + market_id@ + "/sell"@,
{
    market_endpoint(market_id).concat("/sell")
}

/// The market a search found, when it found exactly one.
pub fn single_match<T>(markets: Vec<T>) -> (r: Option<T>)
    ensures
        markets@.len() == 1 ==> r == Some(markets@[0]),
        markets@.len() != 1 ==> r is None,
{
    let mut markets = markets;
    if markets.len() == 1 {
        markets.pop()
    } else {
        None
    }
}

/// Error text of a search that did not find exactly one market.
pub fn no_market_text(term: &String) -> (r: String)
    ensures
        r@ == "no markets found for term "@ + term@,
{
    String::from_str("no markets found for term ").concat(term.as_str())
}

} // verus!
