//! The state of the dashboard: the watchlist with its cursor, what was last
//! fetched for the symbol in focus, the search matches with their cursor,
//! the input buffer, the mode and the status line.
//!
//! One value of `App` is owned by the loop that consumes the events; nothing
//! else writes to it.

use vstd::prelude::*;
use vstd::string::*;
use vstd::arithmetic::div_mod::{
    lemma_add_mod_noop_right, lemma_fundamental_div_mod_converse_mod, lemma_mod_add_multiples_vanish,
    lemma_mod_bound, lemma_small_mod,
};
use crate::config::{resolved, Config, ConfigView};
use crate::market::{FinnhubQuote, HistoryPoint, MarketStatus, StockDetails};
use crate::search::{SearchResultView, YahooSearchResult};
use crate::text::{clone_strings, contains_text, str_eq};

verus! {

/// Which keys mean what, and which overlay is drawn. Exactly one mode is
/// active at a time.
#[derive(Debug, PartialEq, Eq, Clone, Copy, Structural)]
pub enum InputMode {
    /// Moving through the watchlist.
    Normal,
    /// Typing a symbol to add.
    Editing,
    /// Typing the API key, which a first run asks for.
    KeyEntry,
}

/// The colours that the dashboard paints with.
#[derive(Debug, PartialEq, Eq, Clone, Copy, Structural)]
pub enum Color {
    Gray,
    DarkGray,
    Yellow,
    Red,
    Green,
    Cyan,
    White,
    Blue,
}

/// The price history of the symbol in focus.
#[derive(Debug, PartialEq, Eq)]
pub enum HistoryState {
    /// No history has been asked for yet.
    NotRequested,
    /// A history was asked for and none could be had.
    Unavailable,
    /// The points of the last history fetched, oldest first; at least one.
    Loaded(Vec<HistoryPoint>),
}

/// A history state with its points as a sequence.
pub enum HistoryView {
    NotRequested,
    Unavailable,
    Loaded(Seq<HistoryPoint>),
}

impl View for HistoryState {
    type V = HistoryView;

    open spec fn view(&self) -> HistoryView {
        match self {
            HistoryState::NotRequested => HistoryView::NotRequested,
            HistoryState::Unavailable => HistoryView::Unavailable,
            HistoryState::Loaded(points) => HistoryView::Loaded(points@),
        }
    }
}

/// What became of a symbol that was submitted for the watchlist.
#[derive(Debug, PartialEq, Eq, Clone, Copy, Structural)]
pub enum AddOutcome {
    /// The symbol was empty, or no API key is known: nothing changed.
    Ignored,
    /// The symbol is on the watchlist already: the watchlist is as it was.
    Rejected,
    /// The symbol was appended and is selected.
    Added,
}

/// The state of the dashboard.
pub struct App {
    pub(crate) stocks: Vec<String>,
    pub(crate) should_quit: bool,
    pub(crate) selected: Option<usize>,
    pub(crate) api_key: Option<String>,
    pub(crate) current_quote: Option<FinnhubQuote>,
    pub(crate) stock_history: HistoryState,
    pub(crate) details: Option<StockDetails>,
    pub(crate) search_results: Vec<YahooSearchResult>,
    pub(crate) search_selected: Option<usize>,
    pub(crate) market_status: Option<MarketStatus>,
    pub(crate) input: String,
    pub(crate) input_mode: InputMode,
    pub(crate) message: String,
    pub(crate) message_color: Color,
    pub(crate) focus: Option<String>,
}

/// The state of the dashboard as plain mathematical values.
pub struct AppView {
    /// The watchlist, in display order.
    pub stocks: Seq<Seq<char>>,
    /// Whether the loop is to end after this event.
    pub should_quit: bool,
    /// The cursor into the watchlist.
    pub selected: Option<nat>,
    /// The API key, once one is known.
    pub api_key: Option<Seq<char>>,
    /// The last quote fetched for the symbol in focus.
    pub current_quote: Option<FinnhubQuote>,
    /// The price history of the symbol in focus.
    pub stock_history: HistoryView,
    /// The last metrics fetched for the symbol in focus.
    pub details: Option<StockDetails>,
    /// The matches of the last search.
    pub search_results: Seq<SearchResultView>,
    /// The cursor into the matches.
    pub search_selected: Option<nat>,
    /// The last market status fetched.
    pub market_status: Option<MarketStatus>,
    /// What has been typed in an editing mode.
    pub input: Seq<char>,
    /// The active mode.
    pub input_mode: InputMode,
    /// The status line.
    pub message: Seq<char>,
    /// The colour of the status line.
    pub message_color: Color,
    /// The symbol whose data the dashboard shows: the one that was last
    /// confirmed or added.
    pub focus: Option<Seq<char>>,
}

/// A cursor as a natural number.
pub open spec fn cursor_view(cursor: Option<usize>) -> Option<nat> {
    match cursor {
        Some(i) => Some(i as nat),
        None => None,
    }
}

/// A cursor into a list of `len` items is valid where it points at one of
/// them, and is unset exactly where there is none.
pub open spec fn cursor_valid(cursor: Option<nat>, len: nat) -> bool {
    match cursor {
        Some(i) => i < len,
        None => len == 0,
    }
}

/// The cursor one item further down, past the last item back at the first.
pub open spec fn cursor_forward(cursor: Option<nat>, len: nat) -> Option<nat> {
    if len == 0 {
        cursor
    } else {
        match cursor {
            Some(i) => Some(((i as int + 1) % (len as int)) as nat),
            None => Some(0),
        }
    }
}

/// The cursor one item further up, before the first item on at the last.
pub open spec fn cursor_backward(cursor: Option<nat>, len: nat) -> Option<nat> {
    if len == 0 {
        cursor
    } else {
        match cursor {
            Some(i) => Some(((i as int + len as int - 1) % (len as int)) as nat),
            None => Some(0),
        }
    }
}

/// The cursor after the item at `index` has been removed and `remaining`
/// items are left: unset where none is left, on the last item where the
/// removed one was the last, else where it was.
pub open spec fn cursor_after_removal(index: nat, remaining: nat) -> Option<nat> {
    if remaining == 0 {
        None
    } else if index >= remaining {
        Some((remaining - 1) as nat)
    } else {
        Some(index)
    }
}

/// The watchlist after `symbol` has been submitted: unchanged where it is
/// on the list already, else with the symbol at its end.
pub open spec fn inserted(list: Seq<Seq<char>>, symbol: Seq<char>) -> Seq<Seq<char>> {
    if list.contains(symbol) {
        list
    } else {
        list.push(symbol)
    }
}

/// The watchlist after each of `symbols` has been submitted in turn.
pub open spec fn inserted_all(list: Seq<Seq<char>>, symbols: Seq<Seq<char>>) -> Seq<Seq<char>>
    decreases symbols.len(),
{
    if symbols.len() == 0 {
        list
    } else {
        inserted(inserted_all(list, symbols.drop_last()), symbols.last())
    }
}

/// The history state that a start-up begins with.
pub open spec fn initial_history(history: Option<Seq<HistoryPoint>>) -> HistoryView {
    match history {
        None => HistoryView::NotRequested,
        Some(points) => if points.len() > 0 {
            HistoryView::Loaded(points)
        } else {
            HistoryView::Unavailable
        },
    }
}

impl AppView {
    /// What holds of every state that the dashboard can be in: no symbol is
    /// on the watchlist twice; each cursor points into its list, and is unset
    /// exactly where the list is empty; a loaded history has a point; and
    /// outside the key prompt an API key is known.
    pub open spec fn wf(self) -> bool {
        &&& self.stocks.no_duplicates()
        &&& cursor_valid(self.selected, self.stocks.len())
        &&& cursor_valid(self.search_selected, self.search_results.len())
        &&& (self.stock_history matches HistoryView::Loaded(points) ==> points.len() > 0)
        &&& (self.input_mode != InputMode::KeyEntry ==> self.api_key is Some)
    }

    /// The state that a start-up with `config` begins in. The watchlist is
    /// built by submitting the configured symbols in their order. Without an
    /// API key the dashboard starts at the key prompt, with the prompt's
    /// message in place of `message`.
    pub open spec fn initial(
        config: ConfigView,
        message: Seq<char>,
        message_color: Color,
        history: Option<Seq<HistoryPoint>>,
    ) -> AppView {
        let stocks = inserted_all(Seq::empty(), config.stocks);
        AppView {
            stocks,
            should_quit: false,
            selected: if stocks.len() > 0 {
                Some(0nat)
            } else {
                None
            },
            api_key: config.api_key,
            current_quote: None,
            stock_history: initial_history(history),
            details: None,
            search_results: Seq::empty(),
            search_selected: None,
            market_status: None,
            input: Seq::empty(),
            input_mode: if config.api_key is Some {
                InputMode::Normal
            } else {
                InputMode::KeyEntry
            },
            message: if config.api_key is Some {
                message
            } else {
                "Welcome! Please enter your Finnhub API Key."@
            },
            message_color: if config.api_key is Some {
                message_color
            } else {
                Color::Yellow
            },
            focus: None,
        }
    }

    /// The state after the watchlist cursor has moved down.
    pub open spec fn next(self) -> AppView {
        AppView { selected: cursor_forward(self.selected, self.stocks.len()), ..self }
    }

    /// The state after the watchlist cursor has moved up.
    pub open spec fn previous(self) -> AppView {
        AppView { selected: cursor_backward(self.selected, self.stocks.len()), ..self }
    }

    /// The state after the search cursor has moved down.
    pub open spec fn next_search(self) -> AppView {
        AppView {
            search_selected: cursor_forward(self.search_selected, self.search_results.len()),
            ..self
        }
    }

    /// The state after the search cursor has moved up.
    pub open spec fn previous_search(self) -> AppView {
        AppView {
            search_selected: cursor_backward(self.search_selected, self.search_results.len()),
            ..self
        }
    }

    /// The state after the selected symbol has been removed from the
    /// watchlist.
    pub open spec fn delete(self) -> AppView {
        if self.selected is Some && self.selected->Some_0 < self.stocks.len() {
            let index = self.selected->Some_0;
            let rest = self.stocks.remove(index as int);
            AppView { stocks: rest, selected: cursor_after_removal(index, rest.len()), ..self }
        } else {
            self
        }
    }

    /// The state with `input` in the input buffer. The search matches belong
    /// to the text that was searched for, so every change of the buffer
    /// resets them and their cursor.
    pub open spec fn with_input(self, input: Seq<char>) -> AppView {
        AppView { input, search_results: Seq::empty(), search_selected: None, ..self }
    }

    /// The state after `symbol` has been submitted for the watchlist. An
    /// empty symbol changes nothing, and neither does any symbol while no
    /// API key is known. A symbol that is on the list already is rejected
    /// with a message, and the list stays as it is. A new symbol is
    /// appended, selected and brought into focus. In both of the latter
    /// cases editing ends.
    pub open spec fn submit_symbol(self, symbol: Seq<char>) -> AppView {
        if symbol.len() == 0 || self.api_key is None {
            self
        } else if self.stocks.contains(symbol) {
            AppView {
                message: symbol + " exists!"@,
                message_color: Color::Yellow,
                input_mode: InputMode::Normal,
                ..self.with_input(Seq::empty())
            }
        } else {
            AppView {
                stocks: self.stocks.push(symbol),
                selected: Some(self.stocks.len()),
                message: "Adding "@ + symbol + "..."@,
                input_mode: InputMode::Normal,
                focus: Some(symbol),
                ..self.with_input(Seq::empty())
            }
        }
    }

    /// What a submission of `symbol` comes to in this state.
    pub open spec fn submit_outcome(self, symbol: Seq<char>) -> AddOutcome {
        if symbol.len() == 0 || self.api_key is None {
            AddOutcome::Ignored
        } else if self.stocks.contains(symbol) {
            AddOutcome::Rejected
        } else {
            AddOutcome::Added
        }
    }

    /// The configuration that this state persists as.
    pub open spec fn to_config(self) -> ConfigView {
        ConfigView { stocks: self.stocks, api_key: self.api_key }
    }
}

impl App {
    /// The state as plain mathematical values.
    pub open(crate) spec fn view(&self) -> AppView {
        AppView {
            stocks: self.stocks.deep_view(),
            should_quit: self.should_quit,
            selected: cursor_view(self.selected),
            api_key: self.api_key.deep_view(),
            current_quote: self.current_quote,
            stock_history: self.stock_history@,
            details: self.details,
            search_results: self.search_results.deep_view(),
            search_selected: cursor_view(self.search_selected),
            market_status: self.market_status,
            input: self.input@,
            input_mode: self.input_mode,
            message: self.message@,
            message_color: self.message_color,
            focus: self.focus.deep_view(),
        }
    }

    /// Whether the state is one that the dashboard can be in.
    pub open spec fn wf(&self) -> bool {
        self@.wf()
    }

    /// Starts the dashboard from a configuration. `message` is the first
    /// status line, `stock_history` a history to show from the start.
    pub fn new(
        config: Config,
        message: String,
        message_color: Color,
        stock_history: Option<Vec<HistoryPoint>>,
    ) -> (app: App)
        ensures
            app@ == AppView::initial(
                config.deep_view(),
                message@,
                message_color,
                match stock_history {
                    Some(points) => Some(points@),
                    None => None,
                },
            ),
            app.wf(),
    {
        let mut stocks: Vec<String> = Vec::new();
        let mut i: usize = 0;
        assert(config.stocks.deep_view().take(0) =~= Seq::<Seq<char>>::empty());
        while i < config.stocks.len()
            invariant
                i <= config.stocks.len(),
                stocks.deep_view() == inserted_all(
                    Seq::empty(),
                    config.stocks.deep_view().take(i as int),
                ),
                stocks.deep_view().no_duplicates(),
            decreases config.stocks.len() - i,
        {
            proof {
                let grown = config.stocks.deep_view().take(i + 1);
                assert(grown.drop_last() =~= config.stocks.deep_view().take(i as int));
                assert(grown.last() == config.stocks[i as int]@);
            }
            if !contains_text(&stocks, config.stocks[i].as_str()) {
                let ghost before = stocks.deep_view();
                stocks.push(config.stocks[i].clone());
                assert(stocks.deep_view() =~= before.push(config.stocks[i as int]@));
                proof {
                    lemma_push_keeps_distinct(before, config.stocks[i as int]@);
                }
            }
            i = i + 1;
        }
        assert(config.stocks.deep_view().take(config.stocks.len() as int)
            =~= config.stocks.deep_view());
        let selected = if stocks.len() > 0 {
            Some(0usize)
        } else {
            None
        };
        let history = match stock_history {
            None => HistoryState::NotRequested,
            Some(points) => if points.len() > 0 {
                HistoryState::Loaded(points)
            } else {
                HistoryState::Unavailable
            },
        };
        let has_key = config.api_key.is_some();
        let app = App {
            stocks,
            should_quit: false,
            selected,
            api_key: config.api_key,
            current_quote: None,
            stock_history: history,
            details: None,
            search_results: Vec::new(),
            search_selected: None,
            market_status: None,
            input: String::new(),
            input_mode: if has_key {
                InputMode::Normal
            } else {
                InputMode::KeyEntry
            },
            message: if has_key {
                message
            } else {
                String::from_str("Welcome! Please enter your Finnhub API Key.")
            },
            message_color: if has_key {
                message_color
            } else {
                Color::Yellow
            },
            focus: None,
        };
        assert(app.search_results.deep_view() =~= Seq::<SearchResultView>::empty());
        app
    }

    /// The watchlist, in display order.
    pub fn stocks(&self) -> (list: &Vec<String>)
        ensures
            list.deep_view() == self@.stocks,
    {
        &self.stocks
    }

    /// Whether the program should end.
    pub fn should_quit(&self) -> (quit: bool)
        ensures
            quit == self@.should_quit,
    {
        self.should_quit
    }

    /// The cursor into the watchlist.
    pub fn selected(&self) -> (cursor: Option<usize>)
        ensures
            cursor_view(cursor) == self@.selected,
    {
        self.selected
    }

    /// The API key, once one is known.
    pub fn api_key(&self) -> (key: &Option<String>)
        ensures
            key.deep_view() == self@.api_key,
    {
        &self.api_key
    }

    /// The last quote fetched for the symbol in focus.
    pub fn current_quote(&self) -> (quote: Option<FinnhubQuote>)
        ensures
            quote == self@.current_quote,
    {
        self.current_quote
    }

    /// The price history of the symbol in focus.
    pub fn stock_history(&self) -> (history: &HistoryState)
        ensures
            history@ == self@.stock_history,
    {
        &self.stock_history
    }

    /// The last metrics fetched for the symbol in focus.
    pub fn details(&self) -> (details: Option<StockDetails>)
        ensures
            details == self@.details,
    {
        self.details
    }

    /// The matches of the last search.
    pub fn search_results(&self) -> (results: &Vec<YahooSearchResult>)
        ensures
            results.deep_view() == self@.search_results,
    {
        &self.search_results
    }

    /// The cursor into the matches.
    pub fn search_selected(&self) -> (cursor: Option<usize>)
        ensures
            cursor_view(cursor) == self@.search_selected,
    {
        self.search_selected
    }

    /// The last market status fetched.
    pub fn market_status(&self) -> (status: Option<MarketStatus>)
        ensures
            status == self@.market_status,
    {
        self.market_status
    }

    /// What has been typed in an editing mode.
    pub fn input(&self) -> (text: &str)
        ensures
            text@ == self@.input,
    {
        self.input.as_str()
    }

    /// The active mode.
    pub fn input_mode(&self) -> (mode: InputMode)
        ensures
            mode == self@.input_mode,
    {
        self.input_mode
    }

    /// The status line.
    pub fn message(&self) -> (text: &str)
        ensures
            text@ == self@.message,
    {
        self.message.as_str()
    }

    /// The colour of the status line.
    pub fn message_color(&self) -> (color: Color)
        ensures
            color == self@.message_color,
    {
        self.message_color
    }

    /// The symbol whose data the dashboard shows.
    pub fn focus(&self) -> (symbol: &Option<String>)
        ensures
            symbol.deep_view() == self@.focus,
    {
        &self.focus
    }

    /// Whether no symbol is on the watchlist twice.
    fn watchlist_is_distinct(&self) -> (yes: bool)
        ensures
            yes == self@.stocks.no_duplicates(),
    {
        let mut i: usize = 0;
        while i < self.stocks.len()
            invariant
                i <= self.stocks.len(),
                forall|a: int, b: int|
                    0 <= a < i && 0 <= b < self.stocks.len() && a != b ==> self.stocks[a]@
                        != self.stocks[b]@,
            decreases self.stocks.len() - i,
        {
            let mut j: usize = 0;
            while j < self.stocks.len()
                invariant
                    i < self.stocks.len(),
                    j <= self.stocks.len(),
                    forall|b: int| 0 <= b < j && i != b ==> self.stocks[i as int]@ != self.stocks[b]@,
                decreases self.stocks.len() - j,
            {
                if i != j && str_eq(self.stocks[i].as_str(), self.stocks[j].as_str()) {
                    assert(self@.stocks[i as int] == self@.stocks[j as int]);
                    return false;
                }
                j = j + 1;
            }
            i = i + 1;
        }
        assert forall|a: int, b: int|
            0 <= a < self@.stocks.len() && 0 <= b < self@.stocks.len() && a != b implies self@.stocks[a]
            != self@.stocks[b] by {
            assert(self@.stocks[a] == self.stocks[a]@);
            assert(self@.stocks[b] == self.stocks[b]@);
        }
        true
    }

    /// Tests at run time whether the state is one that the dashboard can be
    /// in. Every state that `new` gives and that the methods of this type
    /// have changed is one.
    pub fn is_well_formed(&self) -> (yes: bool)
        ensures
            yes == self.wf(),
    {
        let cursor_ok = match self.selected {
            Some(i) => i < self.stocks.len(),
            None => self.stocks.len() == 0,
        };
        let search_ok = match self.search_selected {
            Some(i) => i < self.search_results.len(),
            None => self.search_results.len() == 0,
        };
        let history_ok = match &self.stock_history {
            HistoryState::Loaded(points) => points.len() > 0,
            _ => true,
        };
        let key_ok = match self.input_mode {
            InputMode::KeyEntry => true,
            _ => self.api_key.is_some(),
        };
        cursor_ok && search_ok && history_ok && key_ok && self.watchlist_is_distinct()
    }

    /// Moves the watchlist cursor down by one, from the last symbol back to
    /// the first. On an empty watchlist nothing changes.
    pub fn next(&mut self)
        requires
            old(self).wf(),
        ensures
            final(self)@ == old(self)@.next(),
            final(self).wf(),
    {
        let len = self.stocks.len();
        if len == 0 {
            return ;
        }
        let i = match self.selected {
            Some(i) => (i + 1) % len,
            None => 0,
        };
        self.selected = Some(i);
    }

    /// Moves the watchlist cursor up by one, from the first symbol on to the
    /// last. On an empty watchlist nothing changes.
    pub fn previous(&mut self)
        requires
            old(self).wf(),
        ensures
            final(self)@ == old(self)@.previous(),
            final(self).wf(),
    {
        let len = self.stocks.len();
        if len == 0 {
            return ;
        }
        let i = match self.selected {
            Some(i) => {
                proof {
                    lemma_step_back(i as int, len as int);
                }
                if i == 0 {
                    len - 1
                } else {
                    i - 1
                }
            },
            None => 0,
        };
        self.selected = Some(i);
    }

    /// The configuration to persist: the watchlist and the API key as they
    /// are now.
    pub fn to_config(&self) -> (config: Config)
        ensures
            config.deep_view() == self@.to_config(),
    {
        Config {
            stocks: clone_strings(&self.stocks),
            api_key: match &self.api_key {
                Some(k) => Some(k.clone()),
                None => None,
            },
        }
    }

    /// Removes the selected symbol from the watchlist. Where it was the only
    /// symbol the cursor is unset; where it was the last of several the
    /// cursor moves to the new last symbol; else the cursor stays on its
    /// place, which now holds the symbol that followed.
    pub fn delete(&mut self)
        requires
            old(self).wf(),
        ensures
            final(self)@ == old(self)@.delete(),
            final(self).wf(),
            old(self)@.stocks.len() == 1 ==> final(self)@.selected is None,
            old(self)@.stocks.len() > 1 ==> final(self)@.selected is Some
                && final(self)@.selected->Some_0 < final(self)@.stocks.len(),
            old(self)@.stocks.len() > 0 ==> final(self)@.stocks.len() == old(self)@.stocks.len()
                - 1,
    {
        if let Some(selected) = self.selected {
            if self.stocks.len() == 0 {
                return ;
            }
            let ghost before = self.stocks.deep_view();
            self.stocks.remove(selected);
            assert(self.stocks.deep_view() =~= before.remove(selected as int));
            proof {
                lemma_remove_keeps_distinct(before, selected as int);
            }
            if self.stocks.len() == 0 {
                self.selected = None;
            } else if selected >= self.stocks.len() {
                self.selected = Some(self.stocks.len() - 1);
            }
        }
    }

    /// Moves the search cursor down by one, wrapping at the end.
    pub fn next_search(&mut self)
        requires
            old(self).wf(),
        ensures
            final(self)@ == old(self)@.next_search(),
            final(self).wf(),
    {
        let len = self.search_results.len();
        if len == 0 {
            return ;
        }
        let i = match self.search_selected {
            Some(i) => (i + 1) % len,
            None => 0,
        };
        self.search_selected = Some(i);
    }

    /// Moves the search cursor up by one, wrapping at the start.
    pub fn previous_search(&mut self)
        requires
            old(self).wf(),
        ensures
            final(self)@ == old(self)@.previous_search(),
            final(self).wf(),
    {
        let len = self.search_results.len();
        if len == 0 {
            return ;
        }
        let i = match self.search_selected {
            Some(i) => {
                proof {
                    lemma_step_back(i as int, len as int);
                }
                if i == 0 {
                    len - 1
                } else {
                    i - 1
                }
            },
            None => 0,
        };
        self.search_selected = Some(i);
    }

    /// Puts `input` into the input buffer and resets the search matches.
    pub(crate) fn set_input(&mut self, input: String)
        ensures
            final(self)@ == old(self)@.with_input(input@),
    {
        self.input = input;
        self.search_results = Vec::new();
        self.search_selected = None;
        assert(self.search_results.deep_view() =~= Seq::<SearchResultView>::empty());
    }

    /// Submits `symbol` for the watchlist. A symbol that is on the list
    /// already is rejected: the list stays as it is and the status line says
    /// so. A new symbol is appended, selected and brought into focus.
    pub fn submit_symbol(&mut self, symbol: String) -> (outcome: AddOutcome)
        requires
            old(self).wf(),
        ensures
            final(self)@ == old(self)@.submit_symbol(symbol@),
            outcome == old(self)@.submit_outcome(symbol@),
            final(self).wf(),
            outcome != AddOutcome::Added ==> final(self)@.stocks == old(self)@.stocks,
    {
        if symbol.as_str().unicode_len() == 0 || self.api_key.is_none() {
            return AddOutcome::Ignored;
        }
        if contains_text(&self.stocks, symbol.as_str()) {
            let mut message = symbol;
            message.append(" exists!");
            self.message = message;
            self.message_color = Color::Yellow;
            self.set_input(String::new());
            self.input_mode = InputMode::Normal;
            AddOutcome::Rejected
        } else {
            let mut message = String::from_str("Adding ");
            message.append(symbol.as_str());
            message.append("...");
            self.message = message;
            let ghost before = self.stocks.deep_view();
            self.stocks.push(symbol.clone());
            assert(self.stocks.deep_view() =~= before.push(symbol@));
            proof {
                lemma_push_keeps_distinct(before, symbol@);
            }
            self.selected = Some(self.stocks.len() - 1);
            self.focus = Some(symbol);
            self.set_input(String::new());
            self.input_mode = InputMode::Normal;
            AddOutcome::Added
        }
    }
}

/// One move of the watchlist cursor.
pub enum Move {
    Up,
    Down,
}

/// How far a run of moves carries the cursor: the number of moves down less
/// the number of moves up.
pub open spec fn net_steps(moves: Seq<Move>) -> int
    decreases moves.len(),
{
    if moves.len() == 0 {
        0
    } else {
        net_steps(moves.drop_last()) + match moves.last() {
            Move::Down => 1int,
            Move::Up => -1int,
        }
    }
}

impl AppView {
    /// The state after one move of the watchlist cursor.
    pub open spec fn moved(self, m: Move) -> AppView {
        match m {
            Move::Down => self.next(),
            Move::Up => self.previous(),
        }
    }

    /// The state after a run of moves of the watchlist cursor.
    pub open spec fn after_moves(self, moves: Seq<Move>) -> AppView
        decreases moves.len(),
    {
        if moves.len() == 0 {
            self
        } else {
            self.after_moves(moves.drop_last()).moved(moves.last())
        }
    }

    /// The state after each of `symbols` has been submitted in turn.
    pub open spec fn after_submissions(self, symbols: Seq<Seq<char>>) -> AppView
        decreases symbols.len(),
    {
        if symbols.len() == 0 {
            self
        } else {
            self.after_submissions(symbols.drop_last()).submit_symbol(symbols.last())
        }
    }
}

/// Whatever is submitted, in whatever order, no symbol comes to stand on
/// the watchlist twice, and the state stays one that the dashboard can be
/// in.
pub proof fn lemma_submissions_keep_watchlist_distinct(app: AppView, symbols: Seq<Seq<char>>)
    requires
        app.wf(),
    ensures
        app.after_submissions(symbols).wf(),
        app.after_submissions(symbols).stocks.no_duplicates(),
    decreases symbols.len(),
{
    if symbols.len() > 0 {
        lemma_submissions_keep_watchlist_distinct(app, symbols.drop_last());
        let before = app.after_submissions(symbols.drop_last());
        lemma_submission_keeps_wf(before, symbols.last());
    }
}

/// One submission leaves the state one that the dashboard can be in.
pub proof fn lemma_submission_keeps_wf(app: AppView, symbol: Seq<char>)
    requires
        app.wf(),
    ensures
        app.submit_symbol(symbol).wf(),
{
    if symbol.len() > 0 && app.api_key is Some && !app.stocks.contains(symbol) {
        lemma_push_keeps_distinct(app.stocks, symbol);
    }
}

/// Submitting a symbol that is on the watchlist already leaves the
/// watchlist and its cursor as they were, and the status line names the
/// symbol as existing.
pub proof fn lemma_duplicate_is_rejected(app: AppView, symbol: Seq<char>)
    requires
        app.wf(),
        app.stocks.contains(symbol),
        symbol.len() > 0,
    ensures
        app.submit_symbol(symbol).stocks == app.stocks,
        app.submit_symbol(symbol).selected == app.selected,
        app.api_key is Some ==> app.submit_outcome(symbol) == AddOutcome::Rejected
            && app.submit_symbol(symbol).message == symbol + " exists!"@,
{
}

/// On a watchlist of `n` symbols, `n > 0`, a run of moves takes the cursor
/// from `i` to `(i + steps) mod n`, where `steps` counts a move down as one
/// and a move up as minus one. The cursor never leaves `[0, n)`, and the
/// watchlist is not touched.
pub proof fn lemma_navigation_wraps(app: AppView, moves: Seq<Move>)
    requires
        app.wf(),
        app.stocks.len() > 0,
    ensures
        app.after_moves(moves).stocks == app.stocks,
        app.after_moves(moves).selected == Some(
            ((app.selected->Some_0 + net_steps(moves)) % (app.stocks.len() as int)) as nat,
        ),
        app.after_moves(moves).selected->Some_0 < app.stocks.len(),
        app.after_moves(moves).wf(),
    decreases moves.len(),
{
    let n = app.stocks.len() as int;
    let i = app.selected->Some_0 as int;
    if moves.len() == 0 {
        lemma_small_mod(i as nat, n as nat);
    } else {
        lemma_navigation_wraps(app, moves.drop_last());
        let before = app.after_moves(moves.drop_last());
        let steps = net_steps(moves.drop_last());
        let c = before.selected->Some_0 as int;
        assert(c == (i + steps) % n);
        lemma_mod_bound(i + steps + 1, n);
        lemma_mod_bound(i + steps - 1, n);
        match moves.last() {
            Move::Down => {
                lemma_add_mod_noop_right(1, i + steps, n);
                assert((c + 1) % n == (i + steps + 1) % n);
            },
            Move::Up => {
                lemma_add_mod_noop_right(-1, i + steps, n);
                lemma_mod_add_multiples_vanish(c - 1, n);
                assert((c + n - 1) % n == (i + steps - 1) % n);
            },
        }
    }
}

/// A watchlist without duplicates is what submitting its symbols in order
/// to an empty watchlist gives.
pub proof fn lemma_distinct_list_is_rebuilt(list: Seq<Seq<char>>)
    requires
        list.no_duplicates(),
    ensures
        inserted_all(Seq::empty(), list) == list,
    decreases list.len(),
{
    if list.len() > 0 {
        let front = list.drop_last();
        lemma_distinct_list_is_rebuilt(front);
        if front.contains(list.last()) {
            let j = choose|j: int| 0 <= j < front.len() && front[j] == list.last();
            assert(list[j] == list[list.len() - 1]);
        }
        assert(front.push(list.last()) =~= list);
    } else {
        assert(list =~= Seq::<Seq<char>>::empty());
    }
}

/// Submitting symbols to a watchlist without duplicates gives one without.
pub proof fn lemma_inserted_all_is_distinct(list: Seq<Seq<char>>, symbols: Seq<Seq<char>>)
    requires
        list.no_duplicates(),
    ensures
        inserted_all(list, symbols).no_duplicates(),
    decreases symbols.len(),
{
    if symbols.len() > 0 {
        lemma_inserted_all_is_distinct(list, symbols.drop_last());
        let before = inserted_all(list, symbols.drop_last());
        if !before.contains(symbols.last()) {
            lemma_push_keeps_distinct(before, symbols.last());
        }
    }
}

/// Every start-up state is one that the dashboard can be in, whatever the
/// configuration holds.
pub proof fn lemma_initial_is_wf(
    config: ConfigView,
    message: Seq<char>,
    message_color: Color,
    history: Option<Seq<HistoryPoint>>,
)
    ensures
        AppView::initial(config, message, message_color, history).wf(),
{
    lemma_inserted_all_is_distinct(Seq::empty(), config.stocks);
}

/// Persisting and loading again gives back what was persisted: for a state
/// that holds an API key, the configuration it persists as is the one that
/// the next start-up resolves to, whatever the shared configuration holds,
/// and that start-up begins with the same watchlist in the same order and
/// with the same API key, in normal mode.
pub proof fn lemma_persisted_state_is_restored(
    app: AppView,
    shared: Option<(Seq<char>, Option<Seq<Seq<char>>>)>,
    message: Seq<char>,
    message_color: Color,
    history: Option<Seq<HistoryPoint>>,
)
    requires
        app.wf(),
        app.api_key is Some,
    ensures
        resolved(Some(app.to_config()), shared) == app.to_config(),
        AppView::initial(
            resolved(Some(app.to_config()), shared),
            message,
            message_color,
            history,
        ).to_config() == app.to_config(),
        AppView::initial(
            resolved(Some(app.to_config()), shared),
            message,
            message_color,
            history,
        ).input_mode == InputMode::Normal,
        AppView::initial(
            resolved(Some(app.to_config()), shared),
            message,
            message_color,
            history,
        ).wf(),
{
    lemma_distinct_list_is_rebuilt(app.stocks);
    lemma_initial_is_wf(app.to_config(), message, message_color, history);
}

/// One step back from `i` in a ring of `len` places.
proof fn lemma_step_back(i: int, len: int)
    requires
        0 <= i < len,
    ensures
        (i + len - 1) % len == if i == 0 {
            len - 1
        } else {
            i - 1
        },
{
    if i == 0 {
        lemma_small_mod((len - 1) as nat, len as nat);
    } else {
        lemma_fundamental_div_mod_converse_mod(i + len - 1, len, 1, i - 1);
    }
}

/// Appending an item that is not on a list without duplicates leaves one
/// without.
pub proof fn lemma_push_keeps_distinct(list: Seq<Seq<char>>, item: Seq<char>)
    requires
        list.no_duplicates(),
        !list.contains(item),
    ensures
        list.push(item).no_duplicates(),
{
    let grown = list.push(item);
    assert forall|i: int, j: int|
        0 <= i < grown.len() && 0 <= j < grown.len() && i != j implies grown[i] != grown[j] by {
        if i < list.len() && j < list.len() {
            assert(list[i] != list[j]);
        } else if i < list.len() {
            assert(list.contains(list[i]));
        } else {
            assert(list.contains(list[j]));
        }
    }
}

/// A cursor that is valid stays valid when it moves down or up.
pub proof fn lemma_cursor_moves_stay_valid(cursor: Option<nat>, len: nat)
    requires
        cursor_valid(cursor, len),
    ensures
        cursor_valid(cursor_forward(cursor, len), len),
        cursor_valid(cursor_backward(cursor, len), len),
{
    if len > 0 {
        let i = cursor->Some_0 as int;
        lemma_mod_bound(i + 1, len as int);
        lemma_mod_bound(i + len - 1, len as int);
    }
}

/// Removing an item from a list without duplicates leaves one without.
pub proof fn lemma_remove_keeps_distinct(list: Seq<Seq<char>>, index: int)
    requires
        list.no_duplicates(),
        0 <= index < list.len(),
    ensures
        list.remove(index).no_duplicates(),
{
    let rest = list.remove(index);
    assert forall|i: int, j: int| 0 <= i < rest.len() && 0 <= j < rest.len() && i != j implies rest[i]
        != rest[j] by {
        let oi = if i < index {
            i
        } else {
            i + 1
        };
        let oj = if j < index {
            j
        } else {
            j + 1
        };
        assert(rest[i] == list[oi]);
        assert(rest[j] == list[oj]);
    }
}

} // verus!
