use waybar_finance::app::{AddOutcome, App, Color, HistoryState, InputMode};
use waybar_finance::config::Config;
use waybar_finance::decimal::Decimal;
use waybar_finance::market::HistoryPoint;

fn state_config(stocks: &[&str], key: Option<&str>) -> Config {
    Config {
        stocks: stocks.iter().map(|s| s.to_string()).collect(),
        api_key: key.map(|k| k.to_string()),
    }
}

fn state_app(stocks: &[&str]) -> App {
    App::new(state_config(stocks, Some("k")), String::from("Ready"), Color::Gray, None)
}

fn state_names(app: &App) -> Vec<&str> {
    app.stocks().iter().map(|s| s.as_str()).collect()
}

#[test]
fn new_with_a_key_starts_in_normal_mode_on_the_first_symbol() {
    let app = state_app(&["SPY", "QQQ"]);
    assert_eq!(state_names(&app), vec!["SPY", "QQQ"]);
    assert_eq!(app.selected(), Some(0));
    assert_eq!(app.input_mode(), InputMode::Normal);
    assert_eq!(app.message(), "Ready");
    assert_eq!(app.message_color(), Color::Gray);
    assert_eq!(app.api_key(), &Some(String::from("k")));
    assert!(!app.should_quit());
    assert_eq!(app.current_quote(), None);
    assert_eq!(app.details(), None);
    assert_eq!(app.market_status(), None);
    assert_eq!(app.stock_history(), &HistoryState::NotRequested);
    assert!(app.search_results().is_empty());
    assert_eq!(app.search_selected(), None);
    assert_eq!(app.input(), "");
    assert_eq!(app.focus(), &None);
}

#[test]
fn new_without_a_key_starts_at_the_key_prompt() {
    let app = App::new(state_config(&["SPY"], None), String::from("Ready"), Color::Gray, None);
    assert_eq!(app.input_mode(), InputMode::KeyEntry);
    assert_eq!(app.message(), "Welcome! Please enter your Finnhub API Key.");
    assert_eq!(app.message_color(), Color::Yellow);
    assert_eq!(app.api_key(), &None);
}

#[test]
fn new_with_an_empty_watchlist_has_no_selection() {
    let app = state_app(&[]);
    assert!(app.stocks().is_empty());
    assert_eq!(app.selected(), None);
}

#[test]
fn new_keeps_the_first_of_each_symbol_that_the_configuration_repeats() {
    let app = state_app(&["SPY", "QQQ", "SPY", "AAPL", "QQQ"]);
    assert_eq!(state_names(&app), vec!["SPY", "QQQ", "AAPL"]);
    assert_eq!(app.selected(), Some(0));
}

#[test]
fn new_takes_a_history_with_points_and_refuses_one_without() {
    let point = HistoryPoint { timestamp: 1, close: Decimal::from_micros(2_000_000) };
    let loaded = App::new(state_config(&["SPY"], Some("k")), String::new(), Color::Gray, Some(vec![point]));
    assert_eq!(loaded.stock_history(), &HistoryState::Loaded(vec![point]));
    let empty = App::new(state_config(&["SPY"], Some("k")), String::new(), Color::Gray, Some(vec![]));
    assert_eq!(empty.stock_history(), &HistoryState::Unavailable);
}

#[test]
fn next_wraps_from_the_last_symbol_to_the_first() {
    let mut app = state_app(&["A", "B", "C"]);
    app.next();
    assert_eq!(app.selected(), Some(1));
    app.next();
    assert_eq!(app.selected(), Some(2));
    app.next();
    assert_eq!(app.selected(), Some(0));
}

#[test]
fn previous_wraps_from_the_first_symbol_to_the_last() {
    let mut app = state_app(&["A", "B", "C"]);
    app.previous();
    assert_eq!(app.selected(), Some(2));
    app.previous();
    assert_eq!(app.selected(), Some(1));
    app.previous();
    assert_eq!(app.selected(), Some(0));
}

#[test]
fn the_cursor_after_any_run_of_moves_is_the_start_plus_the_steps_modulo_the_length() {
    let mut app = state_app(&["A", "B", "C", "D", "E"]);
    let moves = [1i64, 1, 1, -1, 1, 1, 1, 1, -1, -1, -1, -1, -1, -1, -1, 1, 1, 1, 1, 1, 1, 1];
    let mut steps: i64 = 0;
    for m in moves {
        if m > 0 {
            app.next();
        } else {
            app.previous();
        }
        steps += m;
        let expected = steps.rem_euclid(5) as usize;
        assert_eq!(app.selected(), Some(expected));
    }
    assert_eq!(state_names(&app), vec!["A", "B", "C", "D", "E"]);
}

#[test]
fn moving_on_an_empty_watchlist_changes_nothing() {
    let mut app = state_app(&[]);
    app.next();
    assert_eq!(app.selected(), None);
    app.previous();
    assert_eq!(app.selected(), None);
}

#[test]
fn moving_on_a_single_symbol_stays_on_it() {
    let mut app = state_app(&["A"]);
    app.next();
    assert_eq!(app.selected(), Some(0));
    app.previous();
    assert_eq!(app.selected(), Some(0));
}

#[test]
fn delete_of_the_only_symbol_unsets_the_cursor() {
    let mut app = state_app(&["A"]);
    app.delete();
    assert!(app.stocks().is_empty());
    assert_eq!(app.selected(), None);
    app.delete();
    assert!(app.stocks().is_empty());
    assert_eq!(app.selected(), None);
}

#[test]
fn delete_of_the_last_of_several_moves_the_cursor_to_the_new_last() {
    let mut app = state_app(&["A", "B", "C"]);
    app.previous();
    assert_eq!(app.selected(), Some(2));
    app.delete();
    assert_eq!(state_names(&app), vec!["A", "B"]);
    assert_eq!(app.selected(), Some(1));
}

#[test]
fn delete_of_a_symbol_before_the_last_keeps_the_cursor_in_place() {
    let mut app = state_app(&["A", "B", "C"]);
    app.next();
    app.delete();
    assert_eq!(state_names(&app), vec!["A", "C"]);
    assert_eq!(app.selected(), Some(1));
    let mut first = state_app(&["A", "B", "C"]);
    first.delete();
    assert_eq!(state_names(&first), vec!["B", "C"]);
    assert_eq!(first.selected(), Some(0));
}

#[test]
fn submit_symbol_appends_selects_and_focuses_a_new_symbol() {
    let mut app = state_app(&["SPY", "QQQ"]);
    let outcome = app.submit_symbol(String::from("AAPL"));
    assert_eq!(outcome, AddOutcome::Added);
    assert_eq!(state_names(&app), vec!["SPY", "QQQ", "AAPL"]);
    assert_eq!(app.selected(), Some(2));
    assert_eq!(app.focus(), &Some(String::from("AAPL")));
    assert_eq!(app.message(), "Adding AAPL...");
    assert_eq!(app.input_mode(), InputMode::Normal);
    assert_eq!(app.input(), "");
}

#[test]
fn submit_symbol_rejects_a_symbol_that_is_on_the_watchlist() {
    let mut app = state_app(&["SPY", "QQQ"]);
    app.next();
    let outcome = app.submit_symbol(String::from("SPY"));
    assert_eq!(outcome, AddOutcome::Rejected);
    assert_eq!(state_names(&app), vec!["SPY", "QQQ"]);
    assert_eq!(app.selected(), Some(1));
    assert_eq!(app.message(), "SPY exists!");
    assert_eq!(app.message_color(), Color::Yellow);
    assert_eq!(app.focus(), &None);
}

#[test]
fn submit_symbol_ignores_an_empty_symbol() {
    let mut app = state_app(&["SPY"]);
    let outcome = app.submit_symbol(String::new());
    assert_eq!(outcome, AddOutcome::Ignored);
    assert_eq!(state_names(&app), vec!["SPY"]);
    assert_eq!(app.message(), "Ready");
}

#[test]
fn submit_symbol_ignores_everything_while_no_key_is_known() {
    let mut app = App::new(state_config(&["SPY"], None), String::new(), Color::Gray, None);
    assert_eq!(app.submit_symbol(String::from("AAPL")), AddOutcome::Ignored);
    assert_eq!(app.submit_symbol(String::from("SPY")), AddOutcome::Ignored);
    assert_eq!(state_names(&app), vec!["SPY"]);
    assert_eq!(app.input_mode(), InputMode::KeyEntry);
}

#[test]
fn no_run_of_submissions_puts_a_symbol_on_the_watchlist_twice() {
    let mut app = state_app(&["SPY"]);
    for symbol in ["AAPL", "SPY", "MSFT", "AAPL", "AAPL", "TSLA", "MSFT", "SPY"] {
        app.submit_symbol(String::from(symbol));
    }
    assert_eq!(state_names(&app), vec!["SPY", "AAPL", "MSFT", "TSLA"]);
    assert_eq!(app.selected(), Some(3));
}

#[test]
fn to_config_holds_the_watchlist_and_the_key() {
    let mut app = state_app(&["SPY", "QQQ"]);
    app.submit_symbol(String::from("AAPL"));
    let config = app.to_config();
    assert_eq!(config, state_config(&["SPY", "QQQ", "AAPL"], Some("k")));
}

#[test]
fn every_state_that_the_methods_give_is_well_formed() {
    let mut app = state_app(&["SPY", "QQQ", "SPY"]);
    assert!(app.is_well_formed());
    app.next();
    app.submit_symbol(String::from("AAPL"));
    assert!(app.is_well_formed());
    app.delete();
    app.delete();
    app.delete();
    assert!(app.is_well_formed());
    app.delete();
    assert!(app.is_well_formed());
    let prompt = App::new(state_config(&[], None), String::new(), Color::Gray, Some(vec![]));
    assert!(prompt.is_well_formed());
}

#[test]
fn search_cursor_does_not_move_without_matches() {
    let mut app = state_app(&["SPY"]);
    app.next_search();
    assert_eq!(app.search_selected(), None);
    app.previous_search();
    assert_eq!(app.search_selected(), None);
}
