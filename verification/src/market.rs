//! Market data as the dashboard holds it, and the rules that turn upstream
//! records into it.

use vstd::prelude::*;
use vstd::string::*;
use crate::decimal::{clamp_i64, Decimal};
use crate::error::{FetchError, FetchErrorKind};
use crate::text::str_eq;

verus! {

/// The last price of an instrument and its change on the day, in percent.
#[derive(Clone, Copy, Debug, PartialEq, Eq, Structural)]
pub struct FinnhubQuote {
    pub price: Decimal,
    pub percent: Decimal,
}

/// One point of a price history: a Unix time in seconds and the closing
/// price at that time.
#[derive(Clone, Copy, Debug, PartialEq, Eq, Structural)]
pub struct HistoryPoint {
    pub timestamp: i64,
    pub close: Decimal,
}

/// The extended metrics of one instrument.
#[derive(Clone, Copy, Debug, PartialEq, Eq, Structural)]
pub struct StockDetails {
    pub market_cap: u64,
    pub pe_ratio: Option<Decimal>,
    pub dividend_yield: Option<Decimal>,
    pub high_52w: Decimal,
    pub low_52w: Decimal,
    pub year_return: Option<Decimal>,
}

/// Three reference yields, in percent.
#[derive(Clone, Copy, Debug, PartialEq, Eq, Structural)]
pub struct MarketStatus {
    pub yield_10y: Decimal,
    pub yield_5y: Decimal,
    pub yield_3m: Decimal,
}

impl MarketStatus {
    /// The spread of the yield curve: the ten-year yield less the
    /// three-month yield.
    pub open spec fn spread(self) -> Decimal {
        Decimal { micros: clamp_i64(self.yield_10y.micros - self.yield_3m.micros) }
    }

    /// The ten-year yield less the three-month yield. It is computed from the
    /// two yields on every call and stored nowhere.
    pub fn spread_10y_3m(&self) -> (spread: Decimal)
        ensures
            spread == self.spread(),
    {
        self.yield_10y.saturating_sub(&self.yield_3m)
    }
}

/// One record of the upstream quote endpoint. Equities and funds fill
/// different subsets of the fields.
#[derive(Debug)]
pub struct YahooQuote {
    pub market_cap: Option<u64>,
    pub net_assets: Option<u64>,
    pub pe_ratio: Option<Decimal>,
    pub dividend_yield: Option<Decimal>,
    pub trailing_yield: Option<Decimal>,
    pub high_52w: Option<Decimal>,
    pub low_52w: Option<Decimal>,
    pub ytd_return: Option<Decimal>,
    pub fifty_two_week_change: Option<Decimal>,
    pub symbol: String,
    pub regular_market_price: Option<Decimal>,
}

/// The value of `d`, or zero where there is none.
pub open spec fn or_zero(d: Option<Decimal>) -> Decimal {
    match d {
        Some(v) => v,
        None => Decimal { micros: 0 },
    }
}

/// The yield of an instrument in percent: the instrument's own yield field
/// where it is filled, else the trailing yield, which upstream gives as a
/// fraction, times one hundred.
pub open spec fn resolved_yield(q: YahooQuote) -> Option<Decimal> {
    match q.dividend_yield {
        Some(y) => Some(y),
        None => match q.trailing_yield {
            Some(t) => Some(Decimal { micros: clamp_i64(t.micros * 100) }),
            None => None,
        },
    }
}

/// The size of an instrument: its market capitalisation where upstream
/// reports one, else its net assets (funds), else zero.
pub open spec fn resolved_cap(q: YahooQuote) -> u64 {
    match q.market_cap {
        Some(c) => c,
        None => match q.net_assets {
            Some(n) => n,
            None => 0,
        },
    }
}

/// The trailing return of an instrument: year to date where upstream
/// reports it, else the change over fifty-two weeks.
pub open spec fn resolved_return(q: YahooQuote) -> Option<Decimal> {
    match q.ytd_return {
        Some(r) => Some(r),
        None => q.fifty_two_week_change,
    }
}

/// The metrics that one upstream record resolves to.
pub open spec fn details_of(q: YahooQuote) -> StockDetails {
    StockDetails {
        market_cap: resolved_cap(q),
        pe_ratio: q.pe_ratio,
        dividend_yield: resolved_yield(q),
        high_52w: or_zero(q.high_52w),
        low_52w: or_zero(q.low_52w),
        year_return: resolved_return(q),
    }
}

/// Resolves one upstream record into the metrics of the instrument.
pub fn resolve_details(q: &YahooQuote) -> (d: StockDetails)
    ensures
        d == details_of(*q),
{
    let final_yield = match q.dividend_yield {
        Some(y) => Some(y),
        None => match q.trailing_yield {
            Some(t) => Some(t.to_percent()),
            None => None,
        },
    };
    let cap: u64 = match q.market_cap {
        Some(c) => c,
        None => match q.net_assets {
            Some(n) => n,
            None => 0,
        },
    };
    let perf = match q.ytd_return {
        Some(r) => Some(r),
        None => q.fifty_two_week_change,
    };
    StockDetails {
        market_cap: cap,
        pe_ratio: q.pe_ratio,
        dividend_yield: final_yield,
        high_52w: match q.high_52w {
            Some(h) => h,
            None => Decimal::zero(),
        },
        low_52w: match q.low_52w {
            Some(l) => l,
            None => Decimal::zero(),
        },
        year_return: perf,
    }
}

/// The metrics of the instrument that a quote response describes: those of
/// its first record. A response without records is a failure of kind
/// `EmptyResult`.
pub fn details_from_quotes(quotes: &Vec<YahooQuote>) -> (res: Result<StockDetails, FetchError>)
    ensures
        quotes.len() > 0 ==> res == Ok::<StockDetails, FetchError>(details_of(quotes[0])),
        quotes.len() == 0 ==> res is Err && res->Err_0.kind == FetchErrorKind::EmptyResult
            && res->Err_0.detail@ == "No data found"@,
{
    if quotes.len() == 0 {
        Err(FetchError::new(FetchErrorKind::EmptyResult, "No data found"))
    } else {
        Ok(resolve_details(&quotes[0]))
    }
}

/// The symbol under which upstream lists the ten-year yield.
pub open spec fn symbol_10y() -> Seq<char> {
    "^TNX"@
}

/// The symbol under which upstream lists the five-year yield.
pub open spec fn symbol_5y() -> Seq<char> {
    "^FVX"@
}

/// The symbol under which upstream lists the three-month yield.
pub open spec fn symbol_3m() -> Seq<char> {
    "^IRX"@
}

/// The price of the last record of `quotes` that carries `symbol`; zero
/// where no record carries it or that record has no price.
pub open spec fn last_price_of(quotes: Seq<YahooQuote>, symbol: Seq<char>) -> Decimal
    decreases quotes.len(),
{
    if quotes.len() == 0 {
        Decimal { micros: 0 }
    } else if quotes.last().symbol@ == symbol {
        or_zero(quotes.last().regular_market_price)
    } else {
        last_price_of(quotes.drop_last(), symbol)
    }
}

/// The market status that a batch of records describes. Each yield is found
/// by the symbol of its record, wherever in the batch that record stands.
pub open spec fn status_of(quotes: Seq<YahooQuote>) -> MarketStatus {
    MarketStatus {
        yield_10y: last_price_of(quotes, symbol_10y()),
        yield_5y: last_price_of(quotes, symbol_5y()),
        yield_3m: last_price_of(quotes, symbol_3m()),
    }
}

/// Reads the three reference yields out of a batch of records, matching each
/// record by its symbol and not by its place.
pub fn market_status_from_quotes(quotes: &Vec<YahooQuote>) -> (status: MarketStatus)
    ensures
        status == status_of(quotes@),
{
    let mut y10 = Decimal::zero();
    let mut y5 = Decimal::zero();
    let mut y3m = Decimal::zero();
    let mut i: usize = 0;
    proof {
        reveal_strlit("^TNX");
        reveal_strlit("^FVX");
        reveal_strlit("^IRX");
        assert("^TNX"@[1] != "^FVX"@[1]);
        assert("^TNX"@[1] != "^IRX"@[1]);
        assert("^FVX"@[1] != "^IRX"@[1]);
    }
    while i < quotes.len()
        invariant
            i <= quotes.len(),
            symbol_10y() != symbol_5y(),
            symbol_10y() != symbol_3m(),
            symbol_5y() != symbol_3m(),
            y10 == last_price_of(quotes@.take(i as int), symbol_10y()),
            y5 == last_price_of(quotes@.take(i as int), symbol_5y()),
            y3m == last_price_of(quotes@.take(i as int), symbol_3m()),
        decreases quotes.len() - i,
    {
        let q = &quotes[i];
        let val = match q.regular_market_price {
            Some(p) => p,
            None => Decimal::zero(),
        };
        proof {
            let grown = quotes@.take(i + 1);
            assert(grown.drop_last() =~= quotes@.take(i as int));
            assert(grown.last() == quotes@[i as int]);
        }
        if str_eq(q.symbol.as_str(), "^TNX") {
            y10 = val;
        } else if str_eq(q.symbol.as_str(), "^FVX") {
            y5 = val;
        } else if str_eq(q.symbol.as_str(), "^IRX") {
            y3m = val;
        }
        i = i + 1;
    }
    assert(quotes@.take(quotes.len() as int) =~= quotes@);
    MarketStatus { yield_10y: y10, yield_5y: y5, yield_3m: y3m }
}

/// A price history as the chart takes it: the points of the response in
/// their order. A response without points is a failure of kind
/// `EmptyResult`, never an empty history.
pub fn history_from_points(points: Vec<HistoryPoint>) -> (res: Result<Vec<HistoryPoint>, FetchError>)
    ensures
        points.len() > 0 ==> res is Ok && res->Ok_0@ == points@,
        points.len() == 0 ==> res is Err && res->Err_0.kind == FetchErrorKind::EmptyResult
            && res->Err_0.detail@ == "History data is empty"@,
{
    if points.len() == 0 {
        Err(FetchError::new(FetchErrorKind::EmptyResult, "History data is empty"))
    } else {
        Ok(points)
    }
}

/// The number of seconds in the 365 days that a history covers.
pub const HISTORY_SPAN_SECONDS: i64 = 31_536_000;

/// The window of a history request made at `now`: from 365 days before
/// `now` up to `now`, as Unix times in seconds.
pub fn history_window(now: i64) -> (window: (i64, i64))
    requires
        now - HISTORY_SPAN_SECONDS >= i64::MIN,
    ensures
        window.0 == now - HISTORY_SPAN_SECONDS,
        window.1 == now,
{
    (now - HISTORY_SPAN_SECONDS, now)
}

} // verus!
