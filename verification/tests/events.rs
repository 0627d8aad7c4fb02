use waybar_finance::app::{App, Color, HistoryState, InputMode};
use waybar_finance::config::Config;
use waybar_finance::decimal::Decimal;
use waybar_finance::error::{FetchError, FetchErrorKind};
use waybar_finance::event::{
    fetch_kinds, AppEvent, Effect, FetchKind, InputEvent, KeyCode, KeyKind,
};
use waybar_finance::market::{FinnhubQuote, HistoryPoint, MarketStatus, StockDetails};
use waybar_finance::search::YahooSearchResult;

fn ev_config(stocks: &[&str], key: Option<&str>) -> Config {
    Config {
        stocks: stocks.iter().map(|s| s.to_string()).collect(),
        api_key: key.map(|k| k.to_string()),
    }
}

fn ev_app(stocks: &[&str]) -> App {
    App::new(ev_config(stocks, Some("key")), String::from("Ready"), Color::Gray, None)
}

fn ev_names(app: &App) -> Vec<&str> {
    app.stocks().iter().map(|s| s.as_str()).collect()
}

fn press(code: KeyCode) -> AppEvent {
    AppEvent::Input(InputEvent::Key(code, KeyKind::Press))
}

fn type_text(app: &mut App, text: &str) -> Vec<Effect> {
    text.chars().map(|c| app.handle_event(press(KeyCode::Char(c)))).collect()
}

fn ev_quote(price: i64, percent: i64) -> FinnhubQuote {
    FinnhubQuote { price: Decimal::from_micros(price), percent: Decimal::from_micros(percent) }
}

fn ev_details(cap: u64) -> StockDetails {
    StockDetails {
        market_cap: cap,
        pe_ratio: None,
        dividend_yield: None,
        high_52w: Decimal::from_micros(0),
        low_52w: Decimal::from_micros(0),
        year_return: None,
    }
}

fn ev_failure(detail: &str) -> FetchError {
    FetchError { kind: FetchErrorKind::Network, detail: String::from(detail) }
}

fn ev_match(symbol: &str) -> YahooSearchResult {
    YahooSearchResult { symbol: String::from(symbol), name: None, quote_type: None }
}

#[test]
fn first_run_enters_a_key_adds_a_symbol_and_shows_its_quote() {
    let mut app = App::new(ev_config(&[], None), String::from("Ready"), Color::Gray, None);
    assert_eq!(app.input_mode(), InputMode::KeyEntry);

    let typed = type_text(&mut app, "abc123");
    assert!(typed.iter().all(|e| *e == Effect::Idle));
    assert_eq!(app.input(), "abc123");
    let saved = app.handle_event(press(KeyCode::Enter));
    assert_eq!(saved, Effect::SaveConfig(ev_config(&[], Some("abc123"))));
    assert_eq!(app.api_key(), &Some(String::from("abc123")));
    assert_eq!(app.input_mode(), InputMode::Normal);
    assert_eq!(app.input(), "");
    assert_eq!(app.message(), "API Key Saved! Press 'q' to quit.");
    assert_eq!(app.message_color(), Color::Green);

    assert_eq!(app.handle_event(press(KeyCode::Char('a'))), Effect::Idle);
    assert_eq!(app.input_mode(), InputMode::Editing);
    assert_eq!(app.message(), "Enter Symbol...");
    let searches = type_text(&mut app, "aapl");
    assert_eq!(
        searches,
        vec![
            Effect::Idle,
            Effect::SpawnSearch(String::from("aa")),
            Effect::SpawnSearch(String::from("aap")),
            Effect::SpawnSearch(String::from("aapl")),
        ]
    );
    let added = app.handle_event(press(KeyCode::Enter));
    assert_eq!(
        added,
        Effect::SpawnFetches { symbol: String::from("AAPL"), api_key: String::from("abc123") }
    );
    assert_eq!(ev_names(&app), vec!["AAPL"]);
    assert_eq!(app.selected(), Some(0));
    assert_eq!(app.input_mode(), InputMode::Normal);
    assert_eq!(app.input(), "");
    assert_eq!(app.message(), "Adding AAPL...");

    let quote = ev_quote(150_250_000, 1_200_000);
    let effect = app.handle_event(AppEvent::QuoteFetched(String::from("AAPL"), Ok(quote)));
    assert_eq!(effect, Effect::Idle);
    assert_eq!(app.current_quote(), Some(quote));
    assert_eq!(app.message(), "Updated AAPL");
    assert_eq!(app.message_color(), Color::Green);
    assert_eq!(app.stock_history(), &HistoryState::NotRequested);
    assert_eq!(app.details(), None);
}

#[test]
fn three_fetches_are_started_for_a_symbol() {
    assert_eq!(fetch_kinds(), vec![FetchKind::Quote, FetchKind::History, FetchKind::Details]);
}

#[test]
fn down_moves_the_cursor_and_wraps_at_the_end() {
    let mut app = ev_app(&["SPY", "QQQ"]);
    assert_eq!(app.selected(), Some(0));
    assert_eq!(app.handle_event(press(KeyCode::Down)), Effect::Idle);
    assert_eq!(app.selected(), Some(1));
    assert_eq!(app.handle_event(press(KeyCode::Down)), Effect::Idle);
    assert_eq!(app.selected(), Some(0));
}

#[test]
fn up_moves_the_cursor_and_wraps_at_the_start() {
    let mut app = ev_app(&["SPY", "QQQ", "IWM"]);
    assert_eq!(app.handle_event(press(KeyCode::Up)), Effect::Idle);
    assert_eq!(app.selected(), Some(2));
    assert_eq!(app.handle_event(press(KeyCode::Up)), Effect::Idle);
    assert_eq!(app.selected(), Some(1));
}

#[test]
fn a_stale_result_does_not_overwrite_the_symbol_in_focus() {
    let mut app = ev_app(&["TSLA", "MSFT"]);
    let first = app.handle_event(press(KeyCode::Enter));
    assert_eq!(
        first,
        Effect::SpawnFetches { symbol: String::from("TSLA"), api_key: String::from("key") }
    );
    assert_eq!(app.focus(), &Some(String::from("TSLA")));
    assert_eq!(app.message(), "Fetching TSLA...");
    assert_eq!(app.message_color(), Color::Cyan);

    app.handle_event(press(KeyCode::Down));
    let second = app.handle_event(press(KeyCode::Enter));
    assert_eq!(
        second,
        Effect::SpawnFetches { symbol: String::from("MSFT"), api_key: String::from("key") }
    );
    assert_eq!(app.focus(), &Some(String::from("MSFT")));

    let msft = ev_quote(410_000_000, 500_000);
    app.handle_event(AppEvent::QuoteFetched(String::from("MSFT"), Ok(msft)));
    app.handle_event(AppEvent::DetailsFetched(String::from("MSFT"), Ok(ev_details(3))));
    let point = HistoryPoint { timestamp: 10, close: Decimal::from_micros(1) };
    app.handle_event(AppEvent::HistoryFetched(String::from("MSFT"), Ok(vec![point])));
    assert_eq!(app.message(), "Updated MSFT");

    let tsla = ev_quote(250_000_000, -2_000_000);
    let stale = app.handle_event(AppEvent::QuoteFetched(String::from("TSLA"), Ok(tsla)));
    assert_eq!(stale, Effect::Idle);
    assert_eq!(app.current_quote(), Some(msft));
    assert_eq!(app.message(), "Updated MSFT");
    app.handle_event(AppEvent::DetailsFetched(String::from("TSLA"), Ok(ev_details(9))));
    assert_eq!(app.details(), Some(ev_details(3)));
    app.handle_event(AppEvent::DetailsFetched(String::from("TSLA"), Err(ev_failure("late"))));
    assert_eq!(app.details(), Some(ev_details(3)));
    app.handle_event(AppEvent::HistoryFetched(String::from("TSLA"), Err(ev_failure("late"))));
    assert_eq!(app.stock_history(), &HistoryState::Loaded(vec![point]));
    app.handle_event(AppEvent::QuoteFetched(String::from("TSLA"), Err(ev_failure("late"))));
    assert_eq!(app.message(), "Updated MSFT");
}

#[test]
fn results_that_arrive_before_anything_was_confirmed_are_discarded() {
    let mut app = ev_app(&["SPY"]);
    app.handle_event(AppEvent::QuoteFetched(String::from("SPY"), Ok(ev_quote(1, 1))));
    assert_eq!(app.current_quote(), None);
    assert_eq!(app.message(), "Ready");
}

#[test]
fn a_failed_quote_leaves_the_old_quote_and_reports_the_failure() {
    let mut app = ev_app(&["SPY"]);
    app.handle_event(press(KeyCode::Enter));
    let quote = ev_quote(500_000_000, 0);
    app.handle_event(AppEvent::QuoteFetched(String::from("SPY"), Ok(quote)));
    app.handle_event(AppEvent::QuoteFetched(String::from("SPY"), Err(ev_failure("HTTP 500"))));
    assert_eq!(app.current_quote(), Some(quote));
    assert_eq!(app.message(), "Error: HTTP 500");
    assert_eq!(app.message_color(), Color::Red);
}

#[test]
fn a_history_without_points_is_shown_as_unavailable() {
    let mut app = ev_app(&["SPY"]);
    app.handle_event(press(KeyCode::Enter));
    let effect = app.handle_event(AppEvent::HistoryFetched(String::from("SPY"), Ok(vec![])));
    assert_eq!(effect, Effect::Idle);
    assert_eq!(app.stock_history(), &HistoryState::Unavailable);
    assert_ne!(app.stock_history(), &HistoryState::NotRequested);
    assert_eq!(app.message(), "History fetch failed for SPY: History data is empty");
    assert_eq!(app.message_color(), Color::Red);
}

#[test]
fn a_failed_history_clears_the_chart() {
    let mut app = ev_app(&["SPY"]);
    app.handle_event(press(KeyCode::Enter));
    let point = HistoryPoint { timestamp: 10, close: Decimal::from_micros(1) };
    app.handle_event(AppEvent::HistoryFetched(String::from("SPY"), Ok(vec![point, point])));
    assert_eq!(app.stock_history(), &HistoryState::Loaded(vec![point, point]));
    assert_eq!(app.message(), "Fetching SPY...");
    let failure = ev_failure("History data is empty");
    let effect = app.handle_event(AppEvent::HistoryFetched(String::from("SPY"), Err(failure)));
    assert_eq!(effect, Effect::Idle);
    assert_eq!(app.stock_history(), &HistoryState::Unavailable);
    assert_eq!(app.message(), "History fetch failed for SPY: History data is empty");
    assert_eq!(app.message_color(), Color::Red);
    assert_eq!(app.handle_event(press(KeyCode::Down)), Effect::Idle);
    assert_eq!(app.input_mode(), InputMode::Normal);
}

#[test]
fn a_failed_history_is_reported_when_no_chart_was_shown() {
    let mut app = ev_app(&["SPY", "QQQ"]);
    app.handle_event(press(KeyCode::Enter));
    app.handle_event(AppEvent::HistoryFetched(String::from("SPY"), Err(ev_failure("HTTP 502"))));
    assert_eq!(app.stock_history(), &HistoryState::Unavailable);
    assert_eq!(app.message(), "History fetch failed for SPY: HTTP 502");
    assert_eq!(app.message_color(), Color::Red);
    app.handle_event(press(KeyCode::Down));
    assert_eq!(app.selected(), Some(1));
}

#[test]
fn a_history_with_points_leaves_the_status_line_alone() {
    let mut app = ev_app(&["SPY"]);
    app.handle_event(press(KeyCode::Enter));
    let point = HistoryPoint { timestamp: 10, close: Decimal::from_micros(1) };
    app.handle_event(AppEvent::HistoryFetched(String::from("SPY"), Ok(vec![point])));
    assert_eq!(app.message(), "Fetching SPY...");
    assert_eq!(app.message_color(), Color::Cyan);
}

#[test]
fn a_failed_search_is_reported_and_leaves_the_matches() {
    let mut app = ev_app(&["SPY"]);
    app.handle_event(press(KeyCode::Char('a')));
    type_text(&mut app, "ms");
    app.handle_event(AppEvent::SearchResultsFetched(vec![ev_match("MSFT"), ev_match("MSTR")]));
    app.handle_event(press(KeyCode::Down));
    let effect = app.handle_event(AppEvent::SearchFailed(ev_failure("Search failed: 500")));
    assert_eq!(effect, Effect::Idle);
    assert_eq!(app.message(), "Error: Search failed: 500");
    assert_eq!(app.message_color(), Color::Red);
    assert_eq!(app.search_results(), &vec![ev_match("MSFT"), ev_match("MSTR")]);
    assert_eq!(app.search_selected(), Some(1));
    assert_eq!(app.input(), "ms");
    assert_eq!(app.input_mode(), InputMode::Editing);
}

#[test]
fn failed_details_clear_the_metrics_and_name_the_symbol() {
    let mut app = ev_app(&["SPY"]);
    app.handle_event(press(KeyCode::Enter));
    app.handle_event(AppEvent::DetailsFetched(String::from("SPY"), Ok(ev_details(7))));
    assert_eq!(app.details(), Some(ev_details(7)));
    app.handle_event(AppEvent::DetailsFetched(String::from("SPY"), Err(ev_failure("No data found"))));
    assert_eq!(app.details(), None);
    assert_eq!(app.message(), "Details fetch failed for SPY: No data found");
    assert_eq!(app.message_color(), Color::Red);
}

#[test]
fn market_status_is_kept_when_a_later_poll_fails() {
    let mut app = ev_app(&["SPY"]);
    let status = MarketStatus {
        yield_10y: Decimal::from_micros(4_250_000),
        yield_5y: Decimal::from_micros(4_000_000),
        yield_3m: Decimal::from_micros(5_100_000),
    };
    assert_eq!(app.handle_event(AppEvent::MarketFetched(Ok(status))), Effect::Idle);
    assert_eq!(app.market_status(), Some(status));
    app.handle_event(AppEvent::MarketFetched(Err(ev_failure("Yields Error: 503"))));
    assert_eq!(app.market_status(), Some(status));
    assert_eq!(app.message(), "Market status fetch error: Yields Error: 503");
    assert_eq!(app.message_color(), Color::Red);
}

#[test]
fn a_tick_changes_nothing() {
    let mut app = ev_app(&["SPY", "QQQ"]);
    app.handle_event(press(KeyCode::Down));
    assert_eq!(app.handle_event(AppEvent::Tick), Effect::Idle);
    assert_eq!(app.selected(), Some(1));
    assert_eq!(app.message(), "Ready");
    assert_eq!(app.input_mode(), InputMode::Normal);
    assert!(!app.should_quit());
}

#[test]
fn keys_that_are_released_or_held_are_ignored() {
    let mut app = ev_app(&["SPY", "QQQ"]);
    let release = AppEvent::Input(InputEvent::Key(KeyCode::Down, KeyKind::Release));
    assert_eq!(app.handle_event(release), Effect::Idle);
    let repeat = AppEvent::Input(InputEvent::Key(KeyCode::Char('q'), KeyKind::Repeat));
    assert_eq!(app.handle_event(repeat), Effect::Idle);
    assert_eq!(app.handle_event(AppEvent::Input(InputEvent::Other)), Effect::Idle);
    assert_eq!(app.selected(), Some(0));
    assert!(!app.should_quit());
}

#[test]
fn q_asks_to_persist_and_exit() {
    let mut app = ev_app(&["SPY", "QQQ"]);
    let effect = app.handle_event(press(KeyCode::Char('q')));
    assert_eq!(effect, Effect::Exit(ev_config(&["SPY", "QQQ"], Some("key"))));
    assert!(app.should_quit());
}

#[test]
fn escape_at_the_key_prompt_asks_to_exit() {
    let mut app = App::new(ev_config(&["SPY"], None), String::new(), Color::Gray, None);
    let effect = app.handle_event(press(KeyCode::Esc));
    assert_eq!(effect, Effect::Exit(ev_config(&["SPY"], None)));
    assert!(app.should_quit());
}

#[test]
fn an_empty_key_is_not_committed() {
    let mut app = App::new(ev_config(&["SPY"], None), String::new(), Color::Gray, None);
    assert_eq!(app.handle_event(press(KeyCode::Enter)), Effect::Idle);
    type_text(&mut app, "  \t ");
    assert_eq!(app.handle_event(press(KeyCode::Enter)), Effect::Idle);
    assert_eq!(app.input_mode(), InputMode::KeyEntry);
    assert_eq!(app.api_key(), &None);
    assert_eq!(app.input(), "  \t ");
}

#[test]
fn the_key_is_trimmed_before_it_is_committed() {
    let mut app = App::new(ev_config(&["SPY"], None), String::new(), Color::Gray, None);
    type_text(&mut app, "  my key \u{3000}");
    let effect = app.handle_event(press(KeyCode::Enter));
    assert_eq!(effect, Effect::SaveConfig(ev_config(&["SPY"], Some("my key"))));
    assert_eq!(app.api_key(), &Some(String::from("my key")));
}

#[test]
fn backspace_removes_the_last_character() {
    let mut app = App::new(ev_config(&["SPY"], None), String::new(), Color::Gray, None);
    type_text(&mut app, "ab\u{e9}");
    assert_eq!(app.handle_event(press(KeyCode::Backspace)), Effect::Idle);
    assert_eq!(app.input(), "ab");
    app.handle_event(press(KeyCode::Backspace));
    app.handle_event(press(KeyCode::Backspace));
    assert_eq!(app.input(), "");
    app.handle_event(press(KeyCode::Backspace));
    assert_eq!(app.input(), "");
}

#[test]
fn a_failed_save_is_reported() {
    let mut app = ev_app(&["SPY"]);
    let effect = app.handle_event(AppEvent::SaveFailed(String::from("disk full")));
    assert_eq!(effect, Effect::Idle);
    assert_eq!(app.message(), "Failed to save config: disk full");
    assert_eq!(app.message_color(), Color::Red);
}

#[test]
fn enter_in_normal_mode_does_nothing_on_an_empty_watchlist() {
    let mut app = ev_app(&[]);
    assert_eq!(app.handle_event(press(KeyCode::Enter)), Effect::Idle);
    assert_eq!(app.focus(), &None);
    assert_eq!(app.message(), "Ready");
}

#[test]
fn d_and_delete_remove_the_selected_symbol() {
    let mut app = ev_app(&["A", "B", "C"]);
    assert_eq!(app.handle_event(press(KeyCode::Char('d'))), Effect::Idle);
    assert_eq!(ev_names(&app), vec!["B", "C"]);
    assert_eq!(app.handle_event(press(KeyCode::Delete)), Effect::Idle);
    assert_eq!(ev_names(&app), vec!["C"]);
    app.handle_event(press(KeyCode::Delete));
    assert!(app.stocks().is_empty());
    assert_eq!(app.selected(), None);
}

#[test]
fn opening_the_symbol_prompt_clears_the_buffer() {
    let mut app = ev_app(&["SPY"]);
    app.handle_event(AppEvent::Input(InputEvent::Paste(String::from("left over"))));
    assert_eq!(app.input(), "left over");
    assert_eq!(app.message(), "Pasted text");
    assert_eq!(app.message_color(), Color::Yellow);
    app.handle_event(press(KeyCode::Char('a')));
    assert_eq!(app.input_mode(), InputMode::Editing);
    assert_eq!(app.input(), "");
    assert_eq!(app.message_color(), Color::Yellow);
}

#[test]
fn escape_at_the_symbol_prompt_discards_the_buffer() {
    let mut app = ev_app(&["SPY"]);
    app.handle_event(press(KeyCode::Char('a')));
    type_text(&mut app, "ms");
    assert_eq!(app.handle_event(press(KeyCode::Esc)), Effect::Idle);
    assert_eq!(app.input_mode(), InputMode::Normal);
    assert_eq!(app.input(), "");
    assert_eq!(app.message(), "Ready");
    assert_eq!(app.message_color(), Color::Gray);
    assert_eq!(ev_names(&app), vec!["SPY"]);
}

#[test]
fn a_symbol_is_trimmed_and_put_in_upper_case() {
    let mut app = ev_app(&["SPY"]);
    app.handle_event(press(KeyCode::Char('a')));
    type_text(&mut app, "  brk-b ");
    let effect = app.handle_event(press(KeyCode::Enter));
    assert_eq!(
        effect,
        Effect::SpawnFetches { symbol: String::from("BRK-B"), api_key: String::from("key") }
    );
    assert_eq!(ev_names(&app), vec!["SPY", "BRK-B"]);
    assert_eq!(app.selected(), Some(1));
}

#[test]
fn adding_a_symbol_that_is_there_leaves_the_watchlist_and_says_so() {
    let mut app = ev_app(&["SPY", "QQQ"]);
    app.handle_event(press(KeyCode::Char('a')));
    type_text(&mut app, "qqq");
    let effect = app.handle_event(press(KeyCode::Enter));
    assert_eq!(effect, Effect::Idle);
    assert_eq!(ev_names(&app), vec!["SPY", "QQQ"]);
    assert_eq!(app.selected(), Some(0));
    assert_eq!(app.message(), "QQQ exists!");
    assert_eq!(app.message_color(), Color::Yellow);
    assert_eq!(app.input_mode(), InputMode::Normal);
    assert_eq!(app.input(), "");
}

#[test]
fn enter_on_an_empty_buffer_stays_at_the_symbol_prompt() {
    let mut app = ev_app(&["SPY"]);
    app.handle_event(press(KeyCode::Char('a')));
    type_text(&mut app, "   ");
    assert_eq!(app.handle_event(press(KeyCode::Enter)), Effect::Idle);
    assert_eq!(app.input_mode(), InputMode::Editing);
    assert_eq!(app.input(), "   ");
    assert_eq!(ev_names(&app), vec!["SPY"]);
}

#[test]
fn a_search_starts_once_the_buffer_is_longer_than_one_byte() {
    let mut app = ev_app(&["SPY"]);
    app.handle_event(press(KeyCode::Char('a')));
    assert_eq!(app.handle_event(press(KeyCode::Char('x'))), Effect::Idle);
    assert_eq!(
        app.handle_event(press(KeyCode::Char('y'))),
        Effect::SpawnSearch(String::from("xy"))
    );
    let mut wide = ev_app(&["SPY"]);
    wide.handle_event(press(KeyCode::Char('a')));
    assert_eq!(
        wide.handle_event(press(KeyCode::Char('\u{e9}'))),
        Effect::SpawnSearch(String::from("\u{e9}"))
    );
}

#[test]
fn search_results_replace_the_old_ones_and_the_cursor_starts_at_the_top() {
    let mut app = ev_app(&["SPY"]);
    app.handle_event(press(KeyCode::Char('a')));
    type_text(&mut app, "ms");
    let effect = app.handle_event(AppEvent::SearchResultsFetched(vec![
        ev_match("MSFT"),
        ev_match("MSTR"),
        ev_match("MS"),
    ]));
    assert_eq!(effect, Effect::Idle);
    assert_eq!(app.search_results().len(), 3);
    assert_eq!(app.search_selected(), Some(0));
    assert_eq!(app.message(), "Fetched 3 results");
    assert_eq!(app.message_color(), Color::Cyan);

    app.handle_event(press(KeyCode::Down));
    assert_eq!(app.search_selected(), Some(1));
    app.handle_event(press(KeyCode::Up));
    app.handle_event(press(KeyCode::Up));
    assert_eq!(app.search_selected(), Some(2));
    app.handle_event(press(KeyCode::Down));
    assert_eq!(app.search_selected(), Some(0));
    assert_eq!(app.selected(), Some(0));

    app.handle_event(AppEvent::SearchResultsFetched(vec![ev_match("MSFT")]));
    assert_eq!(app.search_results(), &vec![ev_match("MSFT")]);
    assert_eq!(app.search_selected(), Some(0));
    assert_eq!(app.message(), "Fetched 1 results");
}

#[test]
fn a_search_without_matches_unsets_the_search_cursor() {
    let mut app = ev_app(&["SPY"]);
    app.handle_event(AppEvent::SearchResultsFetched(vec![ev_match("A")]));
    app.handle_event(AppEvent::SearchResultsFetched(vec![]));
    assert!(app.search_results().is_empty());
    assert_eq!(app.search_selected(), None);
    assert_eq!(app.message(), "Fetched 0 results");
}

#[test]
fn a_change_of_the_buffer_resets_the_search_results() {
    let mut app = ev_app(&["SPY"]);
    app.handle_event(press(KeyCode::Char('a')));
    type_text(&mut app, "ms");
    app.handle_event(AppEvent::SearchResultsFetched(vec![ev_match("MSFT")]));
    assert_eq!(app.search_results().len(), 1);
    app.handle_event(press(KeyCode::Char('f')));
    assert!(app.search_results().is_empty());
    assert_eq!(app.search_selected(), None);

    app.handle_event(AppEvent::SearchResultsFetched(vec![ev_match("MSFT")]));
    app.handle_event(press(KeyCode::Backspace));
    assert!(app.search_results().is_empty());

    app.handle_event(AppEvent::SearchResultsFetched(vec![ev_match("MSFT")]));
    app.handle_event(AppEvent::Input(InputEvent::Paste(String::from("t"))));
    assert!(app.search_results().is_empty());
    assert_eq!(app.input(), "mst");
}

#[test]
fn moving_the_cursor_does_not_fetch() {
    let mut app = ev_app(&["SPY", "QQQ"]);
    app.handle_event(press(KeyCode::Enter));
    let quote = ev_quote(1_000_000, 0);
    app.handle_event(AppEvent::QuoteFetched(String::from("SPY"), Ok(quote)));
    assert_eq!(app.handle_event(press(KeyCode::Down)), Effect::Idle);
    assert_eq!(app.focus(), &Some(String::from("SPY")));
    assert_eq!(app.current_quote(), Some(quote));
}

#[test]
fn unknown_keys_do_nothing_in_any_mode() {
    let mut app = ev_app(&["SPY"]);
    assert_eq!(app.handle_event(press(KeyCode::Other)), Effect::Idle);
    assert_eq!(app.handle_event(press(KeyCode::Char('z'))), Effect::Idle);
    assert_eq!(app.handle_event(press(KeyCode::Backspace)), Effect::Idle);
    assert_eq!(app.input(), "");
    assert_eq!(app.input_mode(), InputMode::Normal);
    app.handle_event(press(KeyCode::Char('a')));
    assert_eq!(app.handle_event(press(KeyCode::Other)), Effect::Idle);
    assert_eq!(app.handle_event(press(KeyCode::Delete)), Effect::Idle);
    assert_eq!(app.input_mode(), InputMode::Editing);
    let mut prompt = App::new(ev_config(&["SPY"], None), String::new(), Color::Gray, None);
    assert_eq!(prompt.handle_event(press(KeyCode::Up)), Effect::Idle);
    assert_eq!(prompt.handle_event(press(KeyCode::Delete)), Effect::Idle);
    assert_eq!(prompt.input_mode(), InputMode::KeyEntry);
    assert_eq!(ev_names(&prompt), vec!["SPY"]);
}
