//! The one-line report for a status bar: each symbol of the watchlist with
//! its price, coloured by the direction of the day.

use vstd::prelude::*;
use vstd::string::*;
use crate::market::FinnhubQuote;
use crate::text::{join, joined};

verus! {

/// What the status bar is handed: the text of the bar, the text of the
/// tooltip, and the style class.
#[derive(Debug, PartialEq, Eq)]
pub struct WaybarOutput {
    pub text: String,
    pub tooltip: String,
    pub class: String,
}

/// How the quote fetch for one symbol of the watchlist ended: with a quote,
/// or without one.
#[derive(Debug)]
pub struct QuoteOutcome {
    pub symbol: String,
    pub quote: Option<FinnhubQuote>,
}

/// The colour of a symbol whose day is not negative.
pub open spec fn up_color() -> Seq<char> {
    "#a6e3a1"@
}

/// The colour of a symbol whose day is negative.
pub open spec fn down_color() -> Seq<char> {
    "#f38ba8"@
}

/// The colour that a quote is shown in: by the sign of its change.
pub open spec fn trend_color(quote: FinnhubQuote) -> Seq<char> {
    if quote.percent.micros >= 0 {
        up_color()
    } else {
        down_color()
    }
}

/// The arrow that a quote is shown with: by the sign of its change.
pub open spec fn trend_icon(quote: FinnhubQuote) -> Seq<char> {
    if quote.percent.micros >= 0 {
        "\u{f176}"@
    } else {
        "\u{f175}"@
    }
}

/// The piece of the bar for one symbol: symbol, price and arrow in the
/// colour of the day; for a symbol without a quote, the symbol and three
/// question marks in grey.
pub open spec fn bar_part(outcome: QuoteOutcome) -> Seq<char> {
    match outcome.quote {
        Some(quote) => "<span color='"@ + trend_color(quote) + "'>"@ + outcome.symbol@ + " "@
            + quote.price.text_2() + " "@ + trend_icon(quote) + "</span>"@,
        None => "<span color='#6c7086'>"@ + outcome.symbol@ + " ???</span>"@,
    }
}

/// The line of the tooltip for a symbol with a quote: symbol, price and
/// change in the colour of the day.
pub open spec fn tooltip_part(symbol: Seq<char>, quote: FinnhubQuote) -> Seq<char> {
    "<span color='"@ + trend_color(quote) + "'>"@ + symbol + ": $"@ + quote.price.text_2() + " ("@
        + quote.percent.text_2() + "%)</span>"@
}

/// The pieces of the bar for the first `n` outcomes: one for each.
pub open spec fn bar_parts(outcomes: Seq<QuoteOutcome>, n: nat) -> Seq<Seq<char>>
    decreases n,
{
    if n == 0 {
        Seq::empty()
    } else {
        bar_parts(outcomes, (n - 1) as nat).push(bar_part(outcomes[n - 1]))
    }
}

/// The lines of the tooltip for the first `n` outcomes: one for each
/// outcome with a quote, none for the others.
pub open spec fn tooltip_parts(outcomes: Seq<QuoteOutcome>, n: nat) -> Seq<Seq<char>>
    decreases n,
{
    if n == 0 {
        Seq::empty()
    } else {
        let before = tooltip_parts(outcomes, (n - 1) as nat);
        match outcomes[n - 1].quote {
            Some(quote) => before.push(tooltip_part(outcomes[n - 1].symbol@, quote)),
            None => before,
        }
    }
}

/// Writes the piece of the bar for one symbol.
pub fn format_bar_part(outcome: &QuoteOutcome) -> (part: String)
    ensures
        part@ == bar_part(*outcome),
{
    match outcome.quote {
        Some(quote) => {
            let up = quote.percent.micros >= 0;
            let mut part = String::from_str("<span color='");
            part.append(
                if up {
                    "#a6e3a1"
                } else {
                    "#f38ba8"
                },
            );
            part.append("'>");
            part.append(outcome.symbol.as_str());
            part.append(" ");
            let price = quote.price.format_2();
            part.append(price.as_str());
            part.append(" ");
            part.append(
                if up {
                    "\u{f176}"
                } else {
                    "\u{f175}"
                },
            );
            part.append("</span>");
            assert(part@ =~= bar_part(*outcome));
            part
        },
        None => {
            let mut part = String::from_str("<span color='#6c7086'>");
            part.append(outcome.symbol.as_str());
            part.append(" ???</span>");
            part
        },
    }
}

/// Writes the line of the tooltip for a symbol with a quote.
pub fn format_tooltip_part(symbol: &str, quote: &FinnhubQuote) -> (part: String)
    ensures
        part@ == tooltip_part(symbol@, *quote),
{
    let mut part = String::from_str("<span color='");
    part.append(
        if quote.percent.micros >= 0 {
            "#a6e3a1"
        } else {
            "#f38ba8"
        },
    );
    part.append("'>");
    part.append(symbol);
    part.append(": $");
    let price = quote.price.format_2();
    part.append(price.as_str());
    part.append(" (");
    let percent = quote.percent.format_2();
    part.append(percent.as_str());
    part.append("%)</span>");
    assert(part@ =~= tooltip_part(symbol@, *quote));
    part
}

/// Builds the report from the outcomes of the quote fetches, in the order of
/// the watchlist. The bar holds one piece per symbol, separated by spaces;
/// the tooltip one line per symbol that has a quote.
pub fn waybar_output(outcomes: &Vec<QuoteOutcome>) -> (output: WaybarOutput)
    ensures
        output.text@ == joined(bar_parts(outcomes@, outcomes@.len()), " "@),
        output.tooltip@ == joined(tooltip_parts(outcomes@, outcomes@.len()), "\n"@),
        output.class@ == "finance"@,
{
    let mut text_parts: Vec<String> = Vec::new();
    let mut tooltip_lines: Vec<String> = Vec::new();
    let mut i: usize = 0;
    assert(text_parts.deep_view() =~= bar_parts(outcomes@, 0));
    assert(tooltip_lines.deep_view() =~= tooltip_parts(outcomes@, 0));
    while i < outcomes.len()
        invariant
            i <= outcomes.len(),
            text_parts.deep_view() == bar_parts(outcomes@, i as nat),
            tooltip_lines.deep_view() == tooltip_parts(outcomes@, i as nat),
        decreases outcomes.len() - i,
    {
        let ghost parts_before = text_parts.deep_view();
        let ghost lines_before = tooltip_lines.deep_view();
        let part = format_bar_part(&outcomes[i]);
        text_parts.push(part);
        assert(text_parts.deep_view() =~= parts_before.push(bar_part(outcomes@[i as int])));
        match &outcomes[i].quote {
            Some(quote) => {
                let line = format_tooltip_part(outcomes[i].symbol.as_str(), quote);
                tooltip_lines.push(line);
                assert(tooltip_lines.deep_view() =~= lines_before.push(
                    tooltip_part(outcomes@[i as int].symbol@, *quote),
                ));
            },
            None => {},
        }
        i = i + 1;
    }
    WaybarOutput {
        text: join(&text_parts, " "),
        tooltip: join(&tooltip_lines, "\n"),
        class: String::from_str("finance"),
    }
}

} // verus!
