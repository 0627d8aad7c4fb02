//! The events that reach the dashboard and what each one does to its state.
//!
//! Every producer (the render tick, the keyboard, the market poll, the
//! fetches) hands its events to one consumer. The consumer applies each event
//! with `App::handle_event`, performs the effect that comes back, and paints.
//! A fetch result carries the symbol it was asked for and is applied only
//! while that symbol is in focus.

use vstd::prelude::*;
use vstd::string::*;
use vstd::utf8::encode_utf8;
use crate::app::{
    lemma_cursor_moves_stay_valid, lemma_remove_keeps_distinct, lemma_submission_keeps_wf,
    AddOutcome, App, AppView, Color, HistoryState, HistoryView, InputMode,
};
use crate::config::{Config, ConfigView};
use crate::error::FetchError;
use crate::market::{FinnhubQuote, HistoryPoint, MarketStatus, StockDetails};
use crate::search::{SearchResultView, YahooSearchResult};
use crate::text::{
    decimal_digits, decimal_string, pop_char, push_char, str_eq, to_uppercase, trim_str, trimmed,
    uppercase_of,
};

verus! {

/// The keys that the dashboard tells apart.
#[derive(Debug, PartialEq, Eq, Clone, Copy, Structural)]
pub enum KeyCode {
    Char(char),
    Backspace,
    Enter,
    Esc,
    Up,
    Down,
    Delete,
    Other,
}

/// Whether a key went down, is held, or came up.
#[derive(Debug, PartialEq, Eq, Clone, Copy, Structural)]
pub enum KeyKind {
    Press,
    Repeat,
    Release,
}

/// One event of the terminal.
#[derive(Debug)]
pub enum InputEvent {
    /// Text that was pasted.
    Paste(String),
    /// A key and what happened to it.
    Key(KeyCode, KeyKind),
    /// Anything else: a resize, the mouse, the focus.
    Other,
}

/// One event of the stream that the consumer loop applies.
#[derive(Debug)]
pub enum AppEvent {
    /// The quote fetch for a symbol ended.
    QuoteFetched(String, Result<FinnhubQuote, FetchError>),
    /// The history fetch for a symbol ended.
    HistoryFetched(String, Result<Vec<HistoryPoint>, FetchError>),
    /// The metrics fetch for a symbol ended.
    DetailsFetched(String, Result<StockDetails, FetchError>),
    /// The terminal reported an event.
    Input(InputEvent),
    /// A search ended with these matches.
    SearchResultsFetched(Vec<YahooSearchResult>),
    /// A search failed.
    SearchFailed(FetchError),
    /// The periodic market poll ended.
    MarketFetched(Result<MarketStatus, FetchError>),
    /// The configuration could not be persisted.
    SaveFailed(String),
    /// Time has passed: paint again.
    Tick,
}

/// The fetches that are started for a symbol. Each ends in an event of its
/// own, so that what arrives first is shown first.
#[derive(Debug, PartialEq, Eq, Clone, Copy, Structural)]
pub enum FetchKind {
    /// The real-time quote; ends in `QuoteFetched`.
    Quote,
    /// The price history; ends in `HistoryFetched`.
    History,
    /// The extended metrics; ends in `DetailsFetched`.
    Details,
}

/// What the consumer loop is to do after an event has been applied.
#[derive(Debug, PartialEq, Eq)]
pub enum Effect {
    /// Nothing but to paint.
    Idle,
    /// Persist this configuration now, before the next event is taken.
    SaveConfig(Config),
    /// Start the three fetches (quote, history, metrics) for a symbol.
    SpawnFetches { symbol: String, api_key: String },
    /// Start a search for this text.
    SpawnSearch(String),
    /// Persist this configuration and end the program.
    Exit(Config),
}

/// An effect with its texts as sequences.
pub enum EffectView {
    Idle,
    SaveConfig(ConfigView),
    SpawnFetches { symbol: Seq<char>, api_key: Seq<char> },
    SpawnSearch(Seq<char>),
    Exit(ConfigView),
}

impl DeepView for Effect {
    type V = EffectView;

    open spec fn deep_view(&self) -> EffectView {
        match self {
            Effect::Idle => EffectView::Idle,
            Effect::SaveConfig(c) => EffectView::SaveConfig(c.deep_view()),
            Effect::SpawnFetches { symbol, api_key } => EffectView::SpawnFetches {
                symbol: symbol@,
                api_key: api_key@,
            },
            Effect::SpawnSearch(q) => EffectView::SpawnSearch(q@),
            Effect::Exit(c) => EffectView::Exit(c.deep_view()),
        }
    }
}

/// The fetches that `SpawnFetches` stands for: the quote, the history and
/// the metrics of the symbol, three in all and none of them joined with
/// another.
pub fn fetch_kinds() -> (kinds: Vec<FetchKind>)
    ensures
        kinds@ == seq![FetchKind::Quote, FetchKind::History, FetchKind::Details],
{
    let mut kinds: Vec<FetchKind> = Vec::new();
    kinds.push(FetchKind::Quote);
    kinds.push(FetchKind::History);
    kinds.push(FetchKind::Details);
    assert(kinds@ =~= seq![FetchKind::Quote, FetchKind::History, FetchKind::Details]);
    kinds
}

/// The length of a text in bytes of UTF-8.
pub open spec fn byte_len(s: Seq<char>) -> nat {
    encode_utf8(s).len()
}

/// Why the result of a history fetch cannot be drawn: the text of the
/// failure, or for a history without points that the history is empty.
/// `None` for a history with at least one point.
pub open spec fn history_failure(result: Result<Vec<HistoryPoint>, FetchError>) -> Option<
    Seq<char>,
> {
    match result {
        Ok(points) => if points@.len() > 0 {
            None
        } else {
            Some("History data is empty"@)
        },
        Err(e) => Some(e.detail@),
    }
}

/// The cursor of a freshly arrived list of `len` matches: on the first
/// match, unset where there is none.
pub open spec fn first_of(len: nat) -> Option<nat> {
    if len > 0 {
        Some(0nat)
    } else {
        None
    }
}

impl AppView {
    /// Whether the data shown belongs to `symbol`.
    pub open spec fn in_focus(self, symbol: Seq<char>) -> bool {
        self.focus == Some(symbol)
    }

    /// The state after a quote fetch for `symbol` has ended. A result for a
    /// symbol that is not in focus is discarded. A quote replaces the one
    /// shown and is reported in green; a failure leaves the one shown in
    /// place and is reported in red.
    pub open spec fn on_quote(
        self,
        symbol: Seq<char>,
        result: Result<FinnhubQuote, FetchError>,
    ) -> AppView {
        if !self.in_focus(symbol) {
            self
        } else {
            match result {
                Ok(quote) => AppView {
                    current_quote: Some(quote),
                    message: "Updated "@ + symbol,
                    message_color: Color::Green,
                    ..self
                },
                Err(e) => AppView {
                    message: "Error: "@ + e.detail@,
                    message_color: Color::Red,
                    ..self
                },
            }
        }
    }

    /// The state after a history fetch for `symbol` has ended. A result for
    /// a symbol that is not in focus is discarded. A history with at least
    /// one point replaces the one shown. A failure, and a history without
    /// points, leaves the chart marked as unavailable and is reported in the
    /// status line.
    pub open spec fn on_history(
        self,
        symbol: Seq<char>,
        result: Result<Vec<HistoryPoint>, FetchError>,
    ) -> AppView {
        if !self.in_focus(symbol) {
            self
        } else {
            match history_failure(result) {
                None => AppView { stock_history: HistoryView::Loaded(result->Ok_0@), ..self },
                Some(detail) => AppView {
                    stock_history: HistoryView::Unavailable,
                    message: "History fetch failed for "@ + symbol + ": "@ + detail,
                    message_color: Color::Red,
                    ..self
                },
            }
        }
    }

    /// The state after a metrics fetch for `symbol` has ended. A result for
    /// a symbol that is not in focus is discarded. Metrics replace those
    /// shown; a failure clears them and is reported.
    pub open spec fn on_details(
        self,
        symbol: Seq<char>,
        result: Result<StockDetails, FetchError>,
    ) -> AppView {
        if !self.in_focus(symbol) {
            self
        } else {
            match result {
                Ok(details) => AppView { details: Some(details), ..self },
                Err(e) => AppView {
                    details: None,
                    message: "Details fetch failed for "@ + symbol + ": "@ + e.detail@,
                    message_color: Color::Red,
                    ..self
                },
            }
        }
    }

    /// The state after a market poll has ended. A status replaces the one
    /// shown; a failure leaves the one shown in place and is reported.
    pub open spec fn on_market(self, result: Result<MarketStatus, FetchError>) -> AppView {
        match result {
            Ok(status) => AppView { market_status: Some(status), ..self },
            Err(e) => AppView {
                message: "Market status fetch error: "@ + e.detail@,
                message_color: Color::Red,
                ..self
            },
        }
    }

    /// The state after a search has ended: its matches replace those shown,
    /// whichever search they come from, with the cursor on the first.
    pub open spec fn on_search_results(self, results: Seq<SearchResultView>) -> AppView {
        AppView {
            message: "Fetched "@ + decimal_digits(results.len()) + " results"@,
            message_color: Color::Cyan,
            search_results: results,
            search_selected: first_of(results.len()),
            ..self
        }
    }

    /// The state after a search has failed: the failure is reported, and the
    /// matches shown stay as they were.
    pub open spec fn on_search_failed(self, detail: Seq<char>) -> AppView {
        AppView { message: "Error: "@ + detail, message_color: Color::Red, ..self }
    }

    /// The state after the configuration could not be persisted.
    pub open spec fn on_save_failed(self, detail: Seq<char>) -> AppView {
        AppView {
            message: "Failed to save config: "@ + detail,
            message_color: Color::Red,
            ..self
        }
    }

    /// The state after `text` has been pasted: it goes to the end of the
    /// input buffer.
    pub open spec fn on_paste(self, text: Seq<char>) -> AppView {
        AppView {
            message: "Pasted text"@,
            message_color: Color::Yellow,
            ..self.with_input(self.input + text)
        }
    }

    /// The input buffer without its last character.
    pub open spec fn input_shortened(self) -> Seq<char> {
        if self.input.len() > 0 {
            self.input.drop_last()
        } else {
            self.input
        }
    }

    /// A key pressed at the key prompt. Characters go to the buffer. Enter
    /// commits the buffer, trimmed, as the API key where it is not empty: the
    /// key is stored, the configuration is to be persisted at once, and the
    /// dashboard goes to normal mode. Escape ends the program.
    pub open spec fn on_key_entry(self, code: KeyCode) -> (AppView, EffectView) {
        match code {
            KeyCode::Char(c) => (self.with_input(self.input.push(c)), EffectView::Idle),
            KeyCode::Backspace => (self.with_input(self.input_shortened()), EffectView::Idle),
            KeyCode::Enter => {
                let key = trimmed(self.input);
                if key.len() > 0 {
                    let next = AppView {
                        api_key: Some(key),
                        input_mode: InputMode::Normal,
                        message: "API Key Saved! Press 'q' to quit."@,
                        message_color: Color::Green,
                        ..self.with_input(Seq::empty())
                    };
                    (next, EffectView::SaveConfig(next.to_config()))
                } else {
                    (self, EffectView::Idle)
                }
            },
            KeyCode::Esc => (AppView { should_quit: true, ..self }, EffectView::Idle),
            _ => (self, EffectView::Idle),
        }
    }

    /// Whether Enter in normal mode has a symbol to confirm and a key to
    /// fetch with.
    pub open spec fn can_confirm(self) -> bool {
        self.selected is Some && self.selected->Some_0 < self.stocks.len() && self.api_key is Some
    }

    /// A key pressed in normal mode. `q` ends the program. `a` opens the
    /// symbol prompt with an empty buffer. Up and Down move the cursor and
    /// fetch nothing. Enter confirms the selected symbol: it comes into
    /// focus and its three fetches are to be started. `d` and Delete remove
    /// the selected symbol.
    pub open spec fn on_key_normal(self, code: KeyCode) -> (AppView, EffectView) {
        match code {
            KeyCode::Char(c) => if c == 'q' {
                (AppView { should_quit: true, ..self }, EffectView::Idle)
            } else if c == 'a' {
                (
                    AppView {
                        input_mode: InputMode::Editing,
                        message: "Enter Symbol..."@,
                        message_color: Color::Yellow,
                        ..self.with_input(Seq::empty())
                    },
                    EffectView::Idle,
                )
            } else if c == 'd' {
                (self.delete(), EffectView::Idle)
            } else {
                (self, EffectView::Idle)
            },
            KeyCode::Down => (self.next(), EffectView::Idle),
            KeyCode::Up => (self.previous(), EffectView::Idle),
            KeyCode::Enter => if self.can_confirm() {
                let symbol = self.stocks[self.selected->Some_0 as int];
                (
                    AppView {
                        message: "Fetching "@ + symbol + "..."@,
                        message_color: Color::Cyan,
                        focus: Some(symbol),
                        ..self
                    },
                    EffectView::SpawnFetches { symbol, api_key: self.api_key->Some_0 },
                )
            } else {
                (self, EffectView::Idle)
            },
            KeyCode::Delete => (self.delete(), EffectView::Idle),
            _ => (self, EffectView::Idle),
        }
    }

    /// A key pressed at the symbol prompt. A character goes to the buffer,
    /// and a search for the buffer is to be started where it is longer than
    /// one byte. Enter submits the buffer, trimmed and in upper case, for the
    /// watchlist; for a symbol that was added the three fetches are to be
    /// started. Escape discards the buffer and returns to normal mode. Up
    /// and Down move the cursor of the matches.
    pub open spec fn on_key_editing(self, code: KeyCode) -> (AppView, EffectView) {
        match code {
            KeyCode::Enter => {
                let symbol = uppercase_of(trimmed(self.input));
                (
                    self.submit_symbol(symbol),
                    if self.submit_outcome(symbol) == AddOutcome::Added {
                        EffectView::SpawnFetches { symbol, api_key: self.api_key->Some_0 }
                    } else {
                        EffectView::Idle
                    },
                )
            },
            KeyCode::Esc => (
                AppView {
                    input_mode: InputMode::Normal,
                    message: "Ready"@,
                    message_color: Color::Gray,
                    ..self.with_input(Seq::empty())
                },
                EffectView::Idle,
            ),
            KeyCode::Char(c) => {
                let typed = self.input.push(c);
                (
                    self.with_input(typed),
                    if byte_len(typed) > 1 {
                        EffectView::SpawnSearch(typed)
                    } else {
                        EffectView::Idle
                    },
                )
            },
            KeyCode::Backspace => (self.with_input(self.input_shortened()), EffectView::Idle),
            KeyCode::Down => (self.next_search(), EffectView::Idle),
            KeyCode::Up => (self.previous_search(), EffectView::Idle),
            _ => (self, EffectView::Idle),
        }
    }

    /// A key that was pressed, routed by the active mode.
    pub open spec fn on_key(self, code: KeyCode) -> (AppView, EffectView) {
        match self.input_mode {
            InputMode::KeyEntry => self.on_key_entry(code),
            InputMode::Normal => self.on_key_normal(code),
            InputMode::Editing => self.on_key_editing(code),
        }
    }

    /// An event of the terminal. Only pastes and keys that went down count.
    pub open spec fn on_input(self, input: InputEvent) -> (AppView, EffectView) {
        match input {
            InputEvent::Paste(text) => (self.on_paste(text@), EffectView::Idle),
            InputEvent::Key(code, kind) => if kind == KeyKind::Press {
                self.on_key(code)
            } else {
                (self, EffectView::Idle)
            },
            InputEvent::Other => (self, EffectView::Idle),
        }
    }

    /// What one event does to the state, and the effect it asks for, before
    /// the exit rule is applied. A tick changes nothing.
    pub open spec fn react(self, event: AppEvent) -> (AppView, EffectView) {
        match event {
            AppEvent::Tick => (self, EffectView::Idle),
            AppEvent::MarketFetched(result) => (self.on_market(result), EffectView::Idle),
            AppEvent::QuoteFetched(symbol, result) => (
                self.on_quote(symbol@, result),
                EffectView::Idle,
            ),
            AppEvent::HistoryFetched(symbol, result) => (
                self.on_history(symbol@, result),
                EffectView::Idle,
            ),
            AppEvent::DetailsFetched(symbol, result) => (
                self.on_details(symbol@, result),
                EffectView::Idle,
            ),
            AppEvent::Input(input) => self.on_input(input),
            AppEvent::SearchResultsFetched(results) => (
                self.on_search_results(results.deep_view()),
                EffectView::Idle,
            ),
            AppEvent::SearchFailed(e) => (self.on_search_failed(e.detail@), EffectView::Idle),
            AppEvent::SaveFailed(detail) => (self.on_save_failed(detail@), EffectView::Idle),
        }
    }

    /// What one event does to the state, and what the consumer loop is to do
    /// next. Once the state says that the program should end, the effect is
    /// to persist the configuration and exit, whatever the event asked for.
    pub open spec fn handle(self, event: AppEvent) -> (AppView, EffectView) {
        let (next, effect) = self.react(event);
        if next.should_quit {
            (next, EffectView::Exit(next.to_config()))
        } else {
            (next, effect)
        }
    }
}

impl App {
    /// Whether the data shown belongs to `symbol`.
    pub fn in_focus(&self, symbol: &str) -> (yes: bool)
        ensures
            yes == self@.in_focus(symbol@),
    {
        match &self.focus {
            Some(f) => str_eq(f.as_str(), symbol),
            None => false,
        }
    }

    /// Empties the list of search matches.
    fn clear_search(&mut self)
        ensures
            final(self)@ == old(self)@.with_input(old(self)@.input),
    {
        self.search_results = Vec::new();
        self.search_selected = None;
        assert(self.search_results.deep_view() =~= Seq::<SearchResultView>::empty());
    }

    /// Applies the end of a quote fetch for `symbol`.
    pub fn apply_quote(&mut self, symbol: &str, result: Result<FinnhubQuote, FetchError>)
        requires
            old(self).wf(),
        ensures
            final(self)@ == old(self)@.on_quote(symbol@, result),
            final(self).wf(),
            !old(self)@.in_focus(symbol@) ==> final(self)@ == old(self)@,
    {
        if !self.in_focus(symbol) {
            return ;
        }
        match result {
            Ok(quote) => {
                self.current_quote = Some(quote);
                let mut message = String::from_str("Updated ");
                message.append(symbol);
                self.message = message;
                self.message_color = Color::Green;
            },
            Err(e) => {
                let mut message = String::from_str("Error: ");
                message.append(e.detail.as_str());
                self.message = message;
                self.message_color = Color::Red;
            },
        }
    }

    /// Applies the end of a history fetch for `symbol`.
    pub fn apply_history(&mut self, symbol: &str, result: Result<Vec<HistoryPoint>, FetchError>)
        requires
            old(self).wf(),
        ensures
            final(self)@ == old(self)@.on_history(symbol@, result),
            final(self).wf(),
            !old(self)@.in_focus(symbol@) ==> final(self)@ == old(self)@,
            final(self)@.stock_history matches HistoryView::Loaded(points) ==> points.len() > 0,
    {
        if !self.in_focus(symbol) {
            return ;
        }
        let mut message = String::from_str("History fetch failed for ");
        message.append(symbol);
        message.append(": ");
        match result {
            Ok(points) => {
                if points.len() > 0 {
                    self.stock_history = HistoryState::Loaded(points);
                    return ;
                }
                message.append("History data is empty");
            },
            Err(e) => {
                message.append(e.detail.as_str());
            },
        }
        self.stock_history = HistoryState::Unavailable;
        self.message = message;
        self.message_color = Color::Red;
    }

    /// Applies the end of a metrics fetch for `symbol`.
    pub fn apply_details(&mut self, symbol: &str, result: Result<StockDetails, FetchError>)
        requires
            old(self).wf(),
        ensures
            final(self)@ == old(self)@.on_details(symbol@, result),
            final(self).wf(),
            !old(self)@.in_focus(symbol@) ==> final(self)@ == old(self)@,
    {
        if !self.in_focus(symbol) {
            return ;
        }
        match result {
            Ok(details) => {
                self.details = Some(details);
            },
            Err(e) => {
                self.details = None;
                let mut message = String::from_str("Details fetch failed for ");
                message.append(symbol);
                message.append(": ");
                message.append(e.detail.as_str());
                self.message = message;
                self.message_color = Color::Red;
            },
        }
    }

    /// Applies the end of a market poll.
    pub fn apply_market(&mut self, result: Result<MarketStatus, FetchError>)
        requires
            old(self).wf(),
        ensures
            final(self)@ == old(self)@.on_market(result),
            final(self).wf(),
    {
        match result {
            Ok(status) => {
                self.market_status = Some(status);
            },
            Err(e) => {
                let mut message = String::from_str("Market status fetch error: ");
                message.append(e.detail.as_str());
                self.message = message;
                self.message_color = Color::Red;
            },
        }
    }

    /// Applies the end of a search.
    pub fn apply_search_results(&mut self, results: Vec<YahooSearchResult>)
        requires
            old(self).wf(),
        ensures
            final(self)@ == old(self)@.on_search_results(results.deep_view()),
            final(self).wf(),
    {
        let mut message = String::from_str("Fetched ");
        let count = decimal_string(results.len() as u64);
        message.append(count.as_str());
        message.append(" results");
        self.message = message;
        self.message_color = Color::Cyan;
        self.search_selected = if results.len() > 0 {
            Some(0usize)
        } else {
            None
        };
        self.search_results = results;
    }

    /// Reports that a search failed. The matches shown stay as they were.
    pub fn apply_search_failure(&mut self, detail: &str)
        requires
            old(self).wf(),
        ensures
            final(self)@ == old(self)@.on_search_failed(detail@),
            final(self).wf(),
            final(self)@.search_results == old(self)@.search_results,
            final(self)@.search_selected == old(self)@.search_selected,
    {
        let mut message = String::from_str("Error: ");
        message.append(detail);
        self.message = message;
        self.message_color = Color::Red;
    }

    /// Reports that the configuration could not be persisted.
    pub fn apply_save_failure(&mut self, detail: &str)
        requires
            old(self).wf(),
        ensures
            final(self)@ == old(self)@.on_save_failed(detail@),
            final(self).wf(),
    {
        let mut message = String::from_str("Failed to save config: ");
        message.append(detail);
        self.message = message;
        self.message_color = Color::Red;
    }

    /// Applies a paste.
    pub fn apply_paste(&mut self, text: &str)
        requires
            old(self).wf(),
        ensures
            final(self)@ == old(self)@.on_paste(text@),
            final(self).wf(),
    {
        self.input.append(text);
        self.clear_search();
        self.message = String::from_str("Pasted text");
        self.message_color = Color::Yellow;
    }

    /// Applies a key pressed at the key prompt.
    fn key_entry(&mut self, code: KeyCode) -> (effect: Effect)
        requires
            old(self).wf(),
        ensures
            (final(self)@, effect.deep_view()) == old(self)@.on_key_entry(code),
            final(self).wf(),
    {
        match code {
            KeyCode::Char(c) => {
                push_char(&mut self.input, c);
                self.clear_search();
                Effect::Idle
            },
            KeyCode::Backspace => {
                pop_char(&mut self.input);
                self.clear_search();
                Effect::Idle
            },
            KeyCode::Enter => {
                let key = String::from_str(trim_str(self.input.as_str()));
                if key.as_str().unicode_len() > 0 {
                    self.api_key = Some(key);
                    self.set_input(String::new());
                    self.input_mode = InputMode::Normal;
                    self.message = String::from_str("API Key Saved! Press 'q' to quit.");
                    self.message_color = Color::Green;
                    Effect::SaveConfig(self.to_config())
                } else {
                    Effect::Idle
                }
            },
            KeyCode::Esc => {
                self.should_quit = true;
                Effect::Idle
            },
            _ => Effect::Idle,
        }
    }

    /// Confirms the selected symbol.
    fn confirm_selection(&mut self) -> (effect: Effect)
        requires
            old(self).wf(),
        ensures
            (final(self)@, effect.deep_view()) == old(self)@.on_key_normal(KeyCode::Enter),
            final(self).wf(),
    {
        let index = match self.selected {
            Some(i) => i,
            None => {
                return Effect::Idle;
            },
        };
        if index >= self.stocks.len() {
            return Effect::Idle;
        }
        let api_key = match &self.api_key {
            Some(k) => k.clone(),
            None => {
                return Effect::Idle;
            },
        };
        let symbol = self.stocks[index].clone();
        let mut message = String::from_str("Fetching ");
        message.append(symbol.as_str());
        message.append("...");
        self.message = message;
        self.message_color = Color::Cyan;
        self.focus = Some(symbol.clone());
        Effect::SpawnFetches { symbol, api_key }
    }

    /// Applies a key pressed in normal mode.
    fn key_normal(&mut self, code: KeyCode) -> (effect: Effect)
        requires
            old(self).wf(),
            old(self)@.input_mode == InputMode::Normal,
        ensures
            (final(self)@, effect.deep_view()) == old(self)@.on_key_normal(code),
            final(self).wf(),
    {
        match code {
            KeyCode::Char(c) => {
                if c == 'q' {
                    self.should_quit = true;
                } else if c == 'a' {
                    self.set_input(String::new());
                    self.input_mode = InputMode::Editing;
                    self.message = String::from_str("Enter Symbol...");
                    self.message_color = Color::Yellow;
                } else if c == 'd' {
                    self.delete();
                }
                Effect::Idle
            },
            KeyCode::Down => {
                self.next();
                Effect::Idle
            },
            KeyCode::Up => {
                self.previous();
                Effect::Idle
            },
            KeyCode::Enter => self.confirm_selection(),
            KeyCode::Delete => {
                self.delete();
                Effect::Idle
            },
            _ => Effect::Idle,
        }
    }

    /// Applies a key pressed at the symbol prompt.
    fn key_editing(&mut self, code: KeyCode) -> (effect: Effect)
        requires
            old(self).wf(),
            old(self)@.input_mode == InputMode::Editing,
        ensures
            (final(self)@, effect.deep_view()) == old(self)@.on_key_editing(code),
            final(self).wf(),
    {
        match code {
            KeyCode::Enter => {
                let symbol = to_uppercase(trim_str(self.input.as_str()));
                let api_key = match &self.api_key {
                    Some(k) => k.clone(),
                    None => String::new(),
                };
                let outcome = self.submit_symbol(symbol.clone());
                if outcome == AddOutcome::Added {
                    Effect::SpawnFetches { symbol, api_key }
                } else {
                    Effect::Idle
                }
            },
            KeyCode::Esc => {
                self.set_input(String::new());
                self.input_mode = InputMode::Normal;
                self.message = String::from_str("Ready");
                self.message_color = Color::Gray;
                Effect::Idle
            },
            KeyCode::Char(c) => {
                push_char(&mut self.input, c);
                self.clear_search();
                if self.input.as_str().as_bytes().len() > 1 {
                    Effect::SpawnSearch(self.input.clone())
                } else {
                    Effect::Idle
                }
            },
            KeyCode::Backspace => {
                pop_char(&mut self.input);
                self.clear_search();
                Effect::Idle
            },
            KeyCode::Down => {
                self.next_search();
                Effect::Idle
            },
            KeyCode::Up => {
                self.previous_search();
                Effect::Idle
            },
            _ => Effect::Idle,
        }
    }

    /// Applies an event of the terminal.
    fn apply_input(&mut self, input: InputEvent) -> (effect: Effect)
        requires
            old(self).wf(),
        ensures
            (final(self)@, effect.deep_view()) == old(self)@.on_input(input),
            final(self).wf(),
    {
        match input {
            InputEvent::Paste(text) => {
                self.apply_paste(text.as_str());
                Effect::Idle
            },
            InputEvent::Key(code, kind) => {
                if kind == KeyKind::Press {
                    match self.input_mode {
                        InputMode::KeyEntry => self.key_entry(code),
                        InputMode::Normal => self.key_normal(code),
                        InputMode::Editing => self.key_editing(code),
                    }
                } else {
                    Effect::Idle
                }
            },
            InputEvent::Other => Effect::Idle,
        }
    }

    /// Applies one event before the exit rule.
    fn react(&mut self, event: AppEvent) -> (effect: Effect)
        requires
            old(self).wf(),
        ensures
            (final(self)@, effect.deep_view()) == old(self)@.react(event),
            final(self).wf(),
    {
        match event {
            AppEvent::Tick => Effect::Idle,
            AppEvent::MarketFetched(result) => {
                self.apply_market(result);
                Effect::Idle
            },
            AppEvent::QuoteFetched(symbol, result) => {
                self.apply_quote(symbol.as_str(), result);
                Effect::Idle
            },
            AppEvent::HistoryFetched(symbol, result) => {
                self.apply_history(symbol.as_str(), result);
                Effect::Idle
            },
            AppEvent::DetailsFetched(symbol, result) => {
                self.apply_details(symbol.as_str(), result);
                Effect::Idle
            },
            AppEvent::Input(input) => self.apply_input(input),
            AppEvent::SearchResultsFetched(results) => {
                self.apply_search_results(results);
                Effect::Idle
            },
            AppEvent::SearchFailed(e) => {
                self.apply_search_failure(e.detail.as_str());
                Effect::Idle
            },
            AppEvent::SaveFailed(detail) => {
                self.apply_save_failure(detail.as_str());
                Effect::Idle
            },
        }
    }

    /// Applies one event to the state and says what the consumer loop is to
    /// do next. Fetch results are applied only for the symbol in focus; a
    /// tick changes nothing; once the program should end, the effect is to
    /// persist the configuration and exit.
    pub fn handle_event(&mut self, event: AppEvent) -> (effect: Effect)
        requires
            old(self).wf(),
        ensures
            (final(self)@, effect.deep_view()) == old(self)@.handle(event),
            final(self).wf(),
    {
        let effect = self.react(event);
        if self.should_quit {
            Effect::Exit(self.to_config())
        } else {
            effect
        }
    }
}

/// A fetch result that arrives for a symbol which is no longer in focus
/// changes nothing: what is shown for the symbol in focus stays as it is,
/// and nothing is asked of the consumer loop.
pub proof fn lemma_stale_result_is_discarded(app: AppView, event: AppEvent)
    requires
        app.wf(),
        !app.should_quit,
        match event {
            AppEvent::QuoteFetched(symbol, _) => !app.in_focus(symbol@),
            AppEvent::HistoryFetched(symbol, _) => !app.in_focus(symbol@),
            AppEvent::DetailsFetched(symbol, _) => !app.in_focus(symbol@),
            _ => false,
        },
    ensures
        app.handle(event) == (app, EffectView::Idle),
{
}

/// A tick changes nothing in any mode.
pub proof fn lemma_tick_changes_nothing(app: AppView)
    ensures
        app.react(AppEvent::Tick) == (app, EffectView::Idle),
        !app.should_quit ==> app.handle(AppEvent::Tick) == (app, EffectView::Idle),
{
}

/// Moving the cursor fetches nothing: Up and Down in normal mode ask
/// nothing of the consumer loop and leave what is shown as it is.
pub proof fn lemma_moving_fetches_nothing(app: AppView, code: KeyCode)
    requires
        app.wf(),
        app.input_mode == InputMode::Normal,
        code == KeyCode::Up || code == KeyCode::Down,
    ensures
        app.on_key(code).1 == EffectView::Idle,
        app.on_key(code).0.focus == app.focus,
        app.on_key(code).0.current_quote == app.current_quote,
        app.on_key(code).0.stock_history == app.stock_history,
        app.on_key(code).0.details == app.details,
{
}

/// Every event leaves the state one that the dashboard can be in.
pub proof fn lemma_events_keep_wf(app: AppView, event: AppEvent)
    requires
        app.wf(),
    ensures
        app.handle(event).0.wf(),
{
    match event {
        AppEvent::Input(InputEvent::Key(code, kind)) => {
            if kind == KeyKind::Press {
                lemma_key_keeps_wf(app, code);
            }
        },
        _ => {},
    }
}

/// Every key leaves the state one that the dashboard can be in.
pub proof fn lemma_key_keeps_wf(app: AppView, code: KeyCode)
    requires
        app.wf(),
    ensures
        app.on_key(code).0.wf(),
{
    match app.input_mode {
        InputMode::Normal => {
            lemma_cursor_moves_stay_valid(app.selected, app.stocks.len());
            if app.selected is Some && app.selected->Some_0 < app.stocks.len() {
                lemma_remove_keeps_distinct(app.stocks, app.selected->Some_0 as int);
            }
        },
        InputMode::Editing => {
            lemma_cursor_moves_stay_valid(app.search_selected, app.search_results.len());
            lemma_submission_keeps_wf(app, uppercase_of(trimmed(app.input)));
        },
        InputMode::KeyEntry => {},
    }
}

} // verus!
