//! Matches of a symbol search.

use vstd::prelude::*;

verus! {

/// One match of a symbol search: the symbol, and where upstream gives them
/// its display name and the type of the instrument.
#[derive(Debug, PartialEq, Eq)]
pub struct YahooSearchResult {
    pub symbol: String,
    pub name: Option<String>,
    pub quote_type: Option<String>,
}

/// The answer of the search endpoint: the matches in upstream's order.
#[derive(Debug, PartialEq, Eq)]
pub struct YahooSearchResponse {
    pub quotes: Vec<YahooSearchResult>,
}

/// What a search match holds, as texts.
pub struct SearchResultView {
    pub symbol: Seq<char>,
    pub name: Option<Seq<char>>,
    pub quote_type: Option<Seq<char>>,
}

impl DeepView for YahooSearchResult {
    type V = SearchResultView;

    open spec fn deep_view(&self) -> SearchResultView {
        SearchResultView {
            symbol: self.symbol@,
            name: self.name.deep_view(),
            quote_type: self.quote_type.deep_view(),
        }
    }
}

impl DeepView for YahooSearchResponse {
    type V = Seq<SearchResultView>;

    open spec fn deep_view(&self) -> Seq<SearchResultView> {
        self.quotes.deep_view()
    }
}

impl YahooSearchResponse {
    /// The matches that the answer holds. An answer without matches gives an
    /// empty list, which is no failure.
    pub fn into_results(self) -> (results: Vec<YahooSearchResult>)
        ensures
            results.deep_view() == self.deep_view(),
    {
        self.quotes
    }
}

} // verus!
