use waybar_finance::app::{App, Color, InputMode};
use waybar_finance::config::{resolve_config, Config, FinanceConfig};

fn cfg(stocks: &[&str], key: Option<&str>) -> Config {
    Config {
        stocks: stocks.iter().map(|s| s.to_string()).collect(),
        api_key: key.map(|k| k.to_string()),
    }
}

fn shared_cfg(key: &str, stocks: Option<&[&str]>) -> FinanceConfig {
    FinanceConfig {
        api_key: String::from(key),
        stocks: stocks.map(|l| l.iter().map(|s| s.to_string()).collect()),
    }
}

#[test]
fn the_default_configuration_has_five_symbols_and_no_key() {
    assert_eq!(Config::default(), cfg(&["SCHO", "SPY", "BITB", "SGOL", "QQQ"], None));
}

#[test]
fn a_local_configuration_with_a_key_wins() {
    let local = cfg(&["AAPL"], Some("local"));
    let got = resolve_config(Some(cfg(&["AAPL"], Some("local"))), Some(shared_cfg("s", None)));
    assert_eq!(got, local);
    assert_eq!(resolve_config(Some(cfg(&[], Some("k"))), None), cfg(&[], Some("k")));
}

#[test]
fn a_local_configuration_without_a_key_yields_to_the_shared_one() {
    let got = resolve_config(Some(cfg(&["AAPL"], None)), Some(shared_cfg("s", Some(&["TSLA"]))));
    assert_eq!(got, cfg(&["TSLA"], Some("s")));
}

#[test]
fn the_shared_configuration_without_a_watchlist_gets_three_symbols() {
    let got = resolve_config(None, Some(shared_cfg("s", None)));
    assert_eq!(got, cfg(&["SPY", "QQQ", "BTC-USD"], Some("s")));
}

#[test]
fn without_any_source_the_default_is_used() {
    assert_eq!(resolve_config(None, None), Config::default());
    assert_eq!(resolve_config(Some(cfg(&["AAPL"], None)), None), Config::default());
}

#[test]
fn a_duplicate_of_a_configuration_is_equal_to_it() {
    let c = cfg(&["A", "B"], Some("k"));
    assert_eq!(c.duplicate(), c);
    assert_eq!(cfg(&[], None).duplicate(), cfg(&[], None));
}

#[test]
fn what_is_persisted_is_what_the_next_start_sees() {
    let mut app = App::new(cfg(&["SPY", "QQQ"], Some("k")), String::new(), Color::Gray, None);
    app.submit_symbol(String::from("AAPL"));
    app.next();
    app.delete();
    let persisted = app.to_config();
    let loaded = resolve_config(Some(persisted.duplicate()), Some(shared_cfg("other", None)));
    assert_eq!(loaded, persisted);
    let again = App::new(loaded, String::from("Ready"), Color::Gray, None);
    assert_eq!(again.stocks(), app.stocks());
    assert_eq!(again.api_key(), app.api_key());
    assert_eq!(again.input_mode(), InputMode::Normal);
    assert_eq!(again.to_config(), persisted);
}

#[test]
fn a_state_without_a_key_is_not_restored_from_the_local_file() {
    let app = App::new(cfg(&["AAPL"], None), String::new(), Color::Gray, None);
    let loaded = resolve_config(Some(app.to_config()), None);
    assert_eq!(loaded, Config::default());
}
