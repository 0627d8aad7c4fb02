//! What a frame shows, as a value: the render pass computes it from the
//! state and touches nothing. Every field that has not arrived yet is shown
//! by a placeholder.

use vstd::prelude::*;
use vstd::string::*;
use crate::app::{cursor_view, App, Color, HistoryState, HistoryView, InputMode};
use crate::decimal::{billions_text, format_billions, Decimal};
use crate::market::{FinnhubQuote, HistoryPoint, MarketStatus, StockDetails};
use crate::search::{SearchResultView, YahooSearchResult};
use crate::text::{clone_strings, pad_right, padded};

verus! {

/// Which prompt lies over the dashboard.
#[derive(Debug, PartialEq, Eq, Clone, Copy, Structural)]
pub enum Overlay {
    /// None: the dashboard alone.
    Dashboard,
    /// The prompt for a symbol, with the search matches below it.
    SymbolPrompt,
    /// The prompt for the API key.
    KeyPrompt,
}

/// The prompt that a mode calls for. The key prompt goes before the symbol
/// prompt, which goes before the bare dashboard.
pub open spec fn overlay_of(mode: InputMode) -> Overlay {
    match mode {
        InputMode::KeyEntry => Overlay::KeyPrompt,
        InputMode::Editing => Overlay::SymbolPrompt,
        InputMode::Normal => Overlay::Dashboard,
    }
}

/// The prompt that lies over the dashboard in `mode`.
pub fn overlay_for(mode: InputMode) -> (overlay: Overlay)
    ensures
        overlay == overlay_of(mode),
{
    match mode {
        InputMode::KeyEntry => Overlay::KeyPrompt,
        InputMode::Editing => Overlay::SymbolPrompt,
        InputMode::Normal => Overlay::Dashboard,
    }
}

/// The key hints of a mode.
pub open spec fn hints_of(mode: InputMode) -> Seq<char> {
    match mode {
        InputMode::Normal => "q:Quit  a:Add  d:Del  \u{2193}/\u{2191}:Nav  Enter:Select"@,
        InputMode::Editing => "Enter:Confirm  Esc:Cancel"@,
        InputMode::KeyEntry => "Enter:Save  Esc:Quit"@,
    }
}

/// The key hints shown in the footer in `mode`.
pub fn hints_for(mode: InputMode) -> (hints: &'static str)
    ensures
        hints@ == hints_of(mode),
{
    match mode {
        InputMode::Normal => "q:Quit  a:Add  d:Del  \u{2193}/\u{2191}:Nav  Enter:Select",
        InputMode::Editing => "Enter:Confirm  Esc:Cancel",
        InputMode::KeyEntry => "Enter:Save  Esc:Quit",
    }
}

/// The banner above the dashboard.
#[derive(Debug, PartialEq, Eq)]
pub enum Banner {
    /// No market status has arrived yet.
    Loading(&'static str),
    /// The three yields and their spread, each as it is written.
    Yields { short: String, mid: String, long: String, spread: String, spread_color: Color },
}

/// The colour of a spread: red where the curve is inverted, else green.
pub open spec fn spread_color_of(spread: Decimal) -> Color {
    if spread.micros < 0 {
        Color::Red
    } else {
        Color::Green
    }
}

/// Whether `banner` is the banner for `status`.
pub open spec fn banner_shows(banner: Banner, status: Option<MarketStatus>) -> bool {
    match status {
        None => banner matches Banner::Loading(text) && text@ == "Loading Market Data..."@,
        Some(s) => banner matches Banner::Yields { short, mid, long, spread, spread_color }
            && short@ == "13W: "@ + s.yield_3m.text_2() + "%  "@ && mid@ == "5Y: "@
            + s.yield_5y.text_2() + "%  "@ && long@ == "10Y: "@ + s.yield_10y.text_2() + "%  "@
            && spread@ == "10Y-3M Spread: "@ + s.spread().text_2() + "%"@ && spread_color
            == spread_color_of(s.spread()),
    }
}

/// Writes a yield after its label.
fn yield_text(label: &str, value: &Decimal) -> (text: String)
    ensures
        text@ == label@ + value.text_2() + "%  "@,
{
    let mut text = String::from_str(label);
    let number = value.format_2();
    text.append(number.as_str());
    text.append("%  ");
    text
}

/// The banner for a market status, or its placeholder.
pub fn banner_for(status: &Option<MarketStatus>) -> (banner: Banner)
    ensures
        banner_shows(banner, *status),
{
    match status {
        None => Banner::Loading("Loading Market Data..."),
        Some(s) => {
            let spread = s.spread_10y_3m();
            let mut spread_text = String::from_str("10Y-3M Spread: ");
            let number = spread.format_2();
            spread_text.append(number.as_str());
            spread_text.append("%");
            Banner::Yields {
                short: yield_text("13W: ", &s.yield_3m),
                mid: yield_text("5Y: ", &s.yield_5y),
                long: yield_text("10Y: ", &s.yield_10y),
                spread: spread_text,
                spread_color: if spread.micros < 0 {
                    Color::Red
                } else {
                    Color::Green
                },
            }
        },
    }
}

/// The date of a Unix time in UTC, year, month and day joined by hyphens,
/// as the calendar library writes it.
pub uninterp spec fn date_text(timestamp: i64) -> Seq<char>;

/// Calls chrono's `DateTime::from_timestamp` and `DateTime::format` with the
/// pattern `%Y-%m-%d`; a time that chrono cannot hold is written as the
/// date of time zero. Trusted: the text depends on the time alone; it is
/// named `date_text`, and nothing else is claimed of it.
#[verifier::external_body]
fn date_label(timestamp: i64) -> (label: String)
    ensures
        label@ == date_text(timestamp),
{
    chrono::DateTime::from_timestamp(timestamp, 0).unwrap_or_default().format("%Y-%m-%d").to_string()
}

/// A chart of a price history.
#[derive(Debug, PartialEq, Eq)]
pub struct Chart {
    /// Green where the last close is not below the first, else red.
    pub color: Color,
    /// The time of the first point.
    pub start: i64,
    /// The time of the last point.
    pub end: i64,
    /// The date of the first point.
    pub start_label: String,
    /// The date of the last point.
    pub end_label: String,
    /// The lowest close.
    pub low: Decimal,
    /// The highest close.
    pub high: Decimal,
    /// The lowest close, rounded to a whole.
    pub low_label: String,
    /// The highest close, rounded to a whole.
    pub high_label: String,
    /// The points to draw, oldest first.
    pub points: Vec<HistoryPoint>,
}

/// The chart panel.
#[derive(Debug, PartialEq, Eq)]
pub enum ChartPanel {
    /// There is no history to draw; the text says why.
    Placeholder(&'static str),
    /// The history, ready to draw.
    Chart(Chart),
}

/// Whether `low` is the lowest close of `points`.
pub open spec fn is_lowest_close(points: Seq<HistoryPoint>, low: Decimal) -> bool {
    &&& exists|i: int| 0 <= i < points.len() && points[i].close == low
    &&& forall|i: int| 0 <= i < points.len() ==> low.micros <= points[i].close.micros
}

/// Whether `high` is the highest close of `points`.
pub open spec fn is_highest_close(points: Seq<HistoryPoint>, high: Decimal) -> bool {
    &&& exists|i: int| 0 <= i < points.len() && points[i].close == high
    &&& forall|i: int| 0 <= i < points.len() ==> high.micros >= points[i].close.micros
}

/// The colour of a chart: by whether the price ended below where it began.
pub open spec fn chart_color_of(points: Seq<HistoryPoint>) -> Color {
    if points.last().close.micros >= points[0].close.micros {
        Color::Green
    } else {
        Color::Red
    }
}

/// Whether `chart` is the chart of `points`.
pub open spec fn chart_shows(chart: Chart, points: Seq<HistoryPoint>) -> bool {
    &&& chart.color == chart_color_of(points)
    &&& chart.start == points[0].timestamp
    &&& chart.end == points.last().timestamp
    &&& chart.start_label@ == date_text(points[0].timestamp)
    &&& chart.end_label@ == date_text(points.last().timestamp)
    &&& is_lowest_close(points, chart.low)
    &&& is_highest_close(points, chart.high)
    &&& chart.low_label@ == chart.low.text_0()
    &&& chart.high_label@ == chart.high.text_0()
    &&& chart.points@ == points
}

/// Whether `panel` is the chart panel for `history`: a chart for a history
/// with points, and a placeholder otherwise, one for a history that was
/// never asked for and another for one that could not be had.
pub open spec fn chart_panel_shows(panel: ChartPanel, history: HistoryView) -> bool {
    match history {
        HistoryView::NotRequested => panel matches ChartPanel::Placeholder(text) && text@
            == "Press Enter to load Chart"@,
        HistoryView::Unavailable => panel matches ChartPanel::Placeholder(text) && text@
            == "No chart data available"@,
        HistoryView::Loaded(points) => if points.len() > 0 {
            panel matches ChartPanel::Chart(chart) && chart_shows(chart, points)
        } else {
            panel matches ChartPanel::Placeholder(text) && text@ == "No chart data available"@
        },
    }
}

/// The chart of a history with at least one point.
pub fn chart_of(points: &Vec<HistoryPoint>) -> (chart: Chart)
    requires
        points.len() > 0,
    ensures
        chart_shows(chart, points@),
{
    let first = points[0];
    let last = points[points.len() - 1];
    let mut low = first.close;
    let mut high = first.close;
    let mut i: usize = 1;
    assert(points@.take(1)[0].close == first.close);
    while i < points.len()
        invariant
            1 <= i <= points.len(),
            is_lowest_close(points@.take(i as int), low),
            is_highest_close(points@.take(i as int), high),
        decreases points.len() - i,
    {
        let ghost seen = points@.take(i as int);
        let ghost grown = points@.take(i + 1);
        let ghost low_at = choose|k: int| 0 <= k < seen.len() && seen[k].close == low;
        let ghost high_at = choose|k: int| 0 <= k < seen.len() && seen[k].close == high;
        let close = points[i].close;
        if close.micros < low.micros {
            low = close;
            assert(grown[i as int].close == low);
        } else {
            assert(grown[low_at].close == low);
        }
        if close.micros > high.micros {
            high = close;
            assert(grown[i as int].close == high);
        } else {
            assert(grown[high_at].close == high);
        }
        assert forall|k: int| 0 <= k < grown.len() implies low.micros <= grown[k].close.micros
            && high.micros >= grown[k].close.micros by {
            if k < i {
                assert(grown[k] == seen[k]);
            }
        }
        i = i + 1;
    }
    assert(points@.take(points.len() as int) =~= points@);
    Chart {
        color: if last.close.micros >= first.close.micros {
            Color::Green
        } else {
            Color::Red
        },
        start: first.timestamp,
        end: last.timestamp,
        start_label: date_label(first.timestamp),
        end_label: date_label(last.timestamp),
        low,
        high,
        low_label: low.format_0(),
        high_label: high.format_0(),
        points: copy_points(points),
    }
}

/// A copy of the points of a history, in their order.
fn copy_points(points: &Vec<HistoryPoint>) -> (copy: Vec<HistoryPoint>)
    ensures
        copy@ == points@,
{
    let mut copy: Vec<HistoryPoint> = Vec::new();
    let mut i: usize = 0;
    while i < points.len()
        invariant
            i <= points.len(),
            copy@ == points@.take(i as int),
        decreases points.len() - i,
    {
        copy.push(points[i]);
        assert(copy@ =~= points@.take(i + 1));
        i = i + 1;
    }
    assert(points@.take(points.len() as int) =~= points@);
    copy
}

/// The chart panel for a history, or its placeholder.
pub fn chart_panel_for(history: &HistoryState) -> (panel: ChartPanel)
    ensures
        chart_panel_shows(panel, history@),
{
    match history {
        HistoryState::NotRequested => ChartPanel::Placeholder("Press Enter to load Chart"),
        HistoryState::Unavailable => ChartPanel::Placeholder("No chart data available"),
        HistoryState::Loaded(points) => {
            if points.len() > 0 {
                ChartPanel::Chart(chart_of(points))
            } else {
                ChartPanel::Placeholder("No chart data available")
            }
        },
    }
}

/// The values of the fundamentals panel, each as it is written.
#[derive(Debug, PartialEq, Eq)]
pub struct Fundamentals {
    pub price: String,
    pub high_52w: String,
    pub low_52w: String,
    pub market_cap: String,
    pub pe_ratio: String,
    pub dividend_yield: String,
    pub year_return: String,
}

/// The fundamentals panel.
#[derive(Debug, PartialEq, Eq)]
pub enum FundamentalsPanel {
    /// No metrics have arrived yet.
    Loading(&'static str),
    /// The metrics, ready to draw.
    Loaded(Fundamentals),
}

/// An amount of money with two decimal places.
pub open spec fn money_text(amount: Decimal) -> Seq<char> {
    "$"@ + amount.text_2()
}

/// A number with two decimal places and a unit, or `N/A` where upstream
/// reported none.
pub open spec fn optional_text(value: Option<Decimal>, suffix: Seq<char>) -> Seq<char> {
    match value {
        Some(v) => v.text_2() + suffix,
        None => "N/A"@,
    }
}

/// The price as the panel shows it: the price of the quote, or `N/A` while
/// no quote has arrived.
pub open spec fn price_text(quote: Option<FinnhubQuote>) -> Seq<char> {
    match quote {
        Some(q) => money_text(q.price),
        None => "N/A"@,
    }
}

/// Whether `panel` is the fundamentals panel for `details` and `quote`.
pub open spec fn fundamentals_show(
    panel: FundamentalsPanel,
    details: Option<StockDetails>,
    quote: Option<FinnhubQuote>,
) -> bool {
    match details {
        None => panel matches FundamentalsPanel::Loading(text) && text@
            == "\u{1F427}\u{1F427}\u{1F427}"@,
        Some(d) => panel matches FundamentalsPanel::Loaded(f) && f.price@ == price_text(quote)
            && f.high_52w@ == money_text(d.high_52w) && f.low_52w@ == money_text(d.low_52w)
            && f.market_cap@ == "$"@ + billions_text(d.market_cap as nat) + "B"@ && f.pe_ratio@
            == optional_text(d.pe_ratio, ""@) && f.dividend_yield@ == optional_text(
            d.dividend_yield,
            "%"@,
        ) && f.year_return@ == optional_text(d.year_return, "%"@),
    }
}

/// Writes an amount of money.
fn format_money(amount: &Decimal) -> (text: String)
    ensures
        text@ == money_text(*amount),
{
    let mut text = String::from_str("$");
    let number = amount.format_2();
    text.append(number.as_str());
    text
}

/// Writes a number with its unit, or `N/A`.
fn format_optional(value: &Option<Decimal>, suffix: &str) -> (text: String)
    ensures
        text@ == optional_text(*value, suffix@),
{
    match value {
        Some(v) => {
            let mut text = v.format_2();
            text.append(suffix);
            text
        },
        None => String::from_str("N/A"),
    }
}

/// The fundamentals panel for the metrics and the quote, or its
/// placeholder.
pub fn fundamentals_for(details: &Option<StockDetails>, quote: &Option<FinnhubQuote>) -> (panel:
    FundamentalsPanel)
    ensures
        fundamentals_show(panel, *details, *quote),
{
    match details {
        None => FundamentalsPanel::Loading("\u{1F427}\u{1F427}\u{1F427}"),
        Some(d) => {
            let price = match quote {
                Some(q) => format_money(&q.price),
                None => String::from_str("N/A"),
            };
            let mut market_cap = String::from_str("$");
            let billions = format_billions(d.market_cap);
            market_cap.append(billions.as_str());
            market_cap.append("B");
            proof {
                reveal_strlit("");
                assert(""@ =~= Seq::<char>::empty());
            }
            let pe_ratio = format_optional(&d.pe_ratio, "");
            FundamentalsPanel::Loaded(
                Fundamentals {
                    price,
                    high_52w: format_money(&d.high_52w),
                    low_52w: format_money(&d.low_52w),
                    market_cap,
                    pe_ratio,
                    dividend_yield: format_optional(&d.dividend_yield, "%"),
                    year_return: format_optional(&d.year_return, "%"),
                },
            )
        },
    }
}

/// The text of an optional field, or `missing` where it is not filled.
pub open spec fn text_or(field: Option<Seq<char>>, missing: Seq<char>) -> Seq<char> {
    match field {
        Some(t) => t,
        None => missing,
    }
}

/// The line of the list for one search match: the symbol in a column of
/// eight, the type of instrument in a column of ten, then the name.
pub open spec fn result_line(result: SearchResultView) -> Seq<char> {
    padded(result.symbol, 8) + " | "@ + padded(text_or(result.quote_type, Seq::empty()), 10)
        + " | "@ + text_or(result.name, "Unknown"@)
}

/// The lines of the list for `results`: one for each, in their order.
pub open spec fn result_lines(results: Seq<SearchResultView>) -> Seq<Seq<char>> {
    Seq::new(results.len(), |i: int| result_line(results[i]))
}

/// Writes the line of the list for one search match.
pub fn search_line(result: &YahooSearchResult) -> (line: String)
    ensures
        line@ == result_line(result.deep_view()),
{
    let mut line = pad_right(result.symbol.as_str(), 8);
    line.append(" | ");
    let kind = match &result.quote_type {
        Some(t) => pad_right(t.as_str(), 10),
        None => {
            proof {
                reveal_strlit("");
                assert(""@ =~= Seq::<char>::empty());
            }
            pad_right("", 10)
        },
    };
    line.append(kind.as_str());
    line.append(" | ");
    match &result.name {
        Some(n) => {
            line.append(n.as_str());
        },
        None => {
            line.append("Unknown");
        },
    }
    line
}

/// Writes the lines of the list for `results`.
pub fn search_lines(results: &Vec<YahooSearchResult>) -> (lines: Vec<String>)
    ensures
        lines.deep_view() == result_lines(results.deep_view()),
{
    let mut lines: Vec<String> = Vec::new();
    let mut i: usize = 0;
    while i < results.len()
        invariant
            i <= results.len(),
            lines.len() == i,
            forall|j: int| 0 <= j < i ==> lines[j]@ == result_line(results[j].deep_view()),
        decreases results.len() - i,
    {
        lines.push(search_line(&results[i]));
        i = i + 1;
    }
    assert(lines.deep_view() =~= result_lines(results.deep_view()));
    lines
}

/// How much of the screen a prompt covers, in percent of its width and of
/// its height. The bare dashboard has no prompt.
pub open spec fn prompt_size_of(overlay: Overlay) -> Option<(u16, u16)> {
    match overlay {
        Overlay::Dashboard => None,
        Overlay::SymbolPrompt => Some((60u16, 40u16)),
        Overlay::KeyPrompt => Some((60u16, 20u16)),
    }
}

/// The share of the screen that a prompt covers.
pub fn prompt_size(overlay: Overlay) -> (size: Option<(u16, u16)>)
    ensures
        size == prompt_size_of(overlay),
{
    match overlay {
        Overlay::Dashboard => None,
        Overlay::SymbolPrompt => Some((60, 40)),
        Overlay::KeyPrompt => Some((60, 20)),
    }
}

/// The three shares, in percent, that centre a band of `percent` between
/// two equal margins: each margin is half of what the band leaves, rounded
/// down.
pub fn centered_percentages(percent: u16) -> (shares: (u16, u16, u16))
    requires
        percent <= 100,
    ensures
        shares.0 == (100 - percent) / 2,
        shares.1 == percent,
        shares.2 == shares.0,
        shares.0 + shares.1 + shares.2 <= 100,
{
    let margin: u16 = (100 - percent) / 2;
    (margin, percent, margin)
}

/// Everything that one frame shows.
#[derive(Debug)]
pub struct Scene {
    /// The banner above the dashboard.
    pub banner: Banner,
    /// The watchlist, in display order.
    pub watchlist: Vec<String>,
    /// The symbol of the watchlist that is highlighted.
    pub selected: Option<usize>,
    /// The chart panel.
    pub chart: ChartPanel,
    /// The fundamentals panel.
    pub fundamentals: FundamentalsPanel,
    /// The prompt that lies over the dashboard.
    pub overlay: Overlay,
    /// What the prompt shows as typed.
    pub input: String,
    /// The list of search matches below the symbol prompt.
    pub search_lines: Vec<String>,
    /// The search match that is highlighted.
    pub search_selected: Option<usize>,
    /// The status line.
    pub status: String,
    /// The colour of the status line.
    pub status_color: Color,
    /// The key hints in the footer.
    pub hints: &'static str,
}

/// Computes what the frame for a state shows. The state is read and not
/// changed; nothing is fetched. The banner, the chart and the fundamentals
/// each show a placeholder while their data has not arrived; the watchlist,
/// the cursors, the input and the status line are shown as the state holds
/// them.
pub fn ui(app: &App) -> (scene: Scene)
    ensures
        banner_shows(scene.banner, app@.market_status),
        scene.watchlist.deep_view() == app@.stocks,
        cursor_view(scene.selected) == app@.selected,
        chart_panel_shows(scene.chart, app@.stock_history),
        fundamentals_show(scene.fundamentals, app@.details, app@.current_quote),
        scene.overlay == overlay_of(app@.input_mode),
        scene.input@ == app@.input,
        scene.search_lines.deep_view() == result_lines(app@.search_results),
        cursor_view(scene.search_selected) == app@.search_selected,
        scene.status@ == app@.message,
        scene.status_color == app@.message_color,
        scene.hints@ == hints_of(app@.input_mode),
{
    Scene {
        banner: banner_for(&app.market_status),
        watchlist: clone_strings(&app.stocks),
        selected: app.selected,
        chart: chart_panel_for(&app.stock_history),
        fundamentals: fundamentals_for(&app.details, &app.current_quote),
        overlay: overlay_for(app.input_mode),
        input: app.input.clone(),
        search_lines: search_lines(&app.search_results),
        search_selected: app.search_selected,
        status: app.message.clone(),
        status_color: app.message_color,
        hints: hints_for(app.input_mode),
    }
}

} // verus!
