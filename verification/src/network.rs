//! The fetch layer without its transport: which address each request goes
//! to, and what the status of an answer means.

use vstd::prelude::*;
use vstd::string::*;
use crate::error::{FetchError, FetchErrorKind};
use crate::market::{symbol_10y, symbol_3m, symbol_5y};
use crate::text::{decimal_digits, decimal_string};

verus! {

/// The upstream endpoints that the fetch layer calls.
#[derive(Clone, Copy, Debug, PartialEq, Eq, Structural)]
pub enum Endpoint {
    /// The real-time quote of one symbol.
    Quote,
    /// The free-text symbol search.
    Search,
    /// The extended metrics of one symbol.
    Details,
    /// The batch of reference yields.
    MarketStatus,
    /// The request that issues the access token.
    Crumb,
}

/// Whether an HTTP status reports success: 200 to 299.
pub open spec fn is_success(status: u16) -> bool {
    200 <= status <= 299
}

/// How the status line of a refused request begins, by endpoint.
pub open spec fn failure_label(endpoint: Endpoint) -> Seq<char> {
    match endpoint {
        Endpoint::Quote => "Failed to fetch quote: HTTP "@,
        Endpoint::Search => "Search failed: "@,
        Endpoint::Details => "Yahoo Error: "@,
        Endpoint::MarketStatus => "Yields Error: "@,
        Endpoint::Crumb => "Failed to get crumb: "@,
    }
}

/// The kind of failure that a refused request is: a refused token request
/// is a credential failure, any other a network failure.
pub open spec fn failure_kind(endpoint: Endpoint) -> FetchErrorKind {
    match endpoint {
        Endpoint::Crumb => FetchErrorKind::Credential,
        _ => FetchErrorKind::Network,
    }
}

/// Judges the status of an answer. A status from 200 to 299 lets the answer
/// through; any other is a failure that names the status.
pub fn check_status(endpoint: Endpoint, status: u16) -> (res: Result<(), FetchError>)
    ensures
        res is Ok <==> is_success(status),
        res is Err ==> res->Err_0.kind == failure_kind(endpoint) && res->Err_0.detail@
            == failure_label(endpoint) + decimal_digits(status as nat),
{
    if status >= 200 && status <= 299 {
        Ok(())
    } else {
        let label = match endpoint {
            Endpoint::Quote => "Failed to fetch quote: HTTP ",
            Endpoint::Search => "Search failed: ",
            Endpoint::Details => "Yahoo Error: ",
            Endpoint::MarketStatus => "Yields Error: ",
            Endpoint::Crumb => "Failed to get crumb: ",
        };
        let kind = match endpoint {
            Endpoint::Crumb => FetchErrorKind::Credential,
            _ => FetchErrorKind::Network,
        };
        let mut detail = String::from_str(label);
        let digits = decimal_string(status as u64);
        detail.append(digits.as_str());
        Err(FetchError { kind, detail })
    }
}

/// The address of the quote of `symbol`, with the API key `key`.
pub open spec fn quote_address(symbol: Seq<char>, key: Seq<char>) -> Seq<char> {
    "https://finnhub.io/api/v1/quote?symbol="@ + symbol + "&token="@ + key
}

/// The address of a search for `query`.
pub open spec fn search_address(query: Seq<char>) -> Seq<char> {
    "https://query2.finance.yahoo.com/v1/finance/search?q="@ + query + "&lang=en-US"@
}

/// The address of the metrics of `symbol`, with the access token `crumb`.
pub open spec fn details_address(symbol: Seq<char>, crumb: Seq<char>) -> Seq<char> {
    "https://query1.finance.yahoo.com/v7/finance/quote?symbols="@ + symbol + "&crumb="@ + crumb
}

/// The address of the batch of the three reference yields, with the access
/// token `crumb`.
pub open spec fn market_status_address(crumb: Seq<char>) -> Seq<char> {
    "https://query1.finance.yahoo.com/v7/finance/quote?symbols="@ + symbol_10y() + ","@
        + symbol_5y() + ","@ + symbol_3m() + "&crumb="@ + crumb
}

/// Builds the address of the quote of `symbol`.
pub fn quote_url(symbol: &str, key: &str) -> (url: String)
    ensures
        url@ == quote_address(symbol@, key@),
{
    let mut url = String::from_str("https://finnhub.io/api/v1/quote?symbol=");
    url.append(symbol);
    url.append("&token=");
    url.append(key);
    url
}

/// Builds the address of a search for `query`.
pub fn search_url(query: &str) -> (url: String)
    ensures
        url@ == search_address(query@),
{
    let mut url = String::from_str("https://query2.finance.yahoo.com/v1/finance/search?q=");
    url.append(query);
    url.append("&lang=en-US");
    url
}

/// Builds the address of the metrics of `symbol`.
pub fn details_url(symbol: &str, crumb: &str) -> (url: String)
    ensures
        url@ == details_address(symbol@, crumb@),
{
    let mut url = String::from_str("https://query1.finance.yahoo.com/v7/finance/quote?symbols=");
    url.append(symbol);
    url.append("&crumb=");
    url.append(crumb);
    url
}

/// Builds the address of the batch of the three reference yields.
pub fn market_status_url(crumb: &str) -> (url: String)
    ensures
        url@ == market_status_address(crumb@),
{
    let mut url = String::from_str("https://query1.finance.yahoo.com/v7/finance/quote?symbols=");
    url.append("^TNX");
    url.append(",");
    url.append("^FVX");
    url.append(",");
    url.append("^IRX");
    url.append("&crumb=");
    url.append(crumb);
    url
}

/// The address that is asked first in a handshake, for its cookies alone.
pub fn warmup_url() -> (url: &'static str)
    ensures
        url@ == "https://fc.yahoo.com"@,
{
    "https://fc.yahoo.com"
}

/// The address that issues the access token.
pub fn crumb_url() -> (url: &'static str)
    ensures
        url@ == "https://query1.finance.yahoo.com/v1/test/getcrumb"@,
{
    "https://query1.finance.yahoo.com/v1/test/getcrumb"
}

} // verus!
