//! What is kept between runs: the watchlist and the API key, and the order
//! in which the sources of a configuration are consulted.

use vstd::prelude::*;
use vstd::string::*;
use crate::text::clone_strings;

verus! {

/// The persisted configuration: the watchlist in display order, and the API
/// key where one has been entered.
#[derive(Debug, PartialEq, Eq)]
pub struct Config {
    pub stocks: Vec<String>,
    pub api_key: Option<String>,
}

/// What a configuration holds, as texts.
pub struct ConfigView {
    pub stocks: Seq<Seq<char>>,
    pub api_key: Option<Seq<char>>,
}

impl DeepView for Config {
    type V = ConfigView;

    open spec fn deep_view(&self) -> ConfigView {
        ConfigView { stocks: self.stocks.deep_view(), api_key: self.api_key.deep_view() }
    }
}

/// The section of the shared configuration that concerns the dashboard: an
/// API key, and a watchlist where the installer wrote one.
#[derive(Debug, PartialEq, Eq)]
pub struct FinanceConfig {
    pub api_key: String,
    pub stocks: Option<Vec<String>>,
}

/// The watchlist of a configuration that nobody has written yet.
pub open spec fn default_stocks() -> Seq<Seq<char>> {
    seq!["SCHO"@, "SPY"@, "BITB"@, "SGOL"@, "QQQ"@]
}

/// The watchlist that stands in where the shared configuration names none.
pub open spec fn shared_default_stocks() -> Seq<Seq<char>> {
    seq!["SPY"@, "QQQ"@, "BTC-USD"@]
}

/// The configuration of a first run: the default watchlist and no API key.
pub open spec fn default_config() -> ConfigView {
    ConfigView { stocks: default_stocks(), api_key: None }
}

/// The configuration that a start-up works with. The local configuration
/// counts where it holds an API key. Where it is missing or holds none, the
/// shared configuration supplies key and watchlist. Where that is missing
/// too, the first-run configuration is used.
pub open spec fn resolved(
    local: Option<ConfigView>,
    shared: Option<(Seq<char>, Option<Seq<Seq<char>>>)>,
) -> ConfigView {
    if local is Some && local->Some_0.api_key is Some {
        local->Some_0
    } else {
        match shared {
            Some((key, stocks)) => ConfigView {
                stocks: match stocks {
                    Some(list) => list,
                    None => shared_default_stocks(),
                },
                api_key: Some(key),
            },
            None => default_config(),
        }
    }
}

impl Default for Config {
    /// The configuration of a first run.
    fn default() -> (config: Config)
        ensures
            config.deep_view() == default_config(),
    {
        let mut stocks: Vec<String> = Vec::new();
        stocks.push(String::from_str("SCHO"));
        stocks.push(String::from_str("SPY"));
        stocks.push(String::from_str("BITB"));
        stocks.push(String::from_str("SGOL"));
        stocks.push(String::from_str("QQQ"));
        assert(stocks.deep_view() =~= default_stocks());
        Config { stocks, api_key: None }
    }
}

impl Config {
    /// A copy of this configuration.
    pub fn duplicate(&self) -> (copy: Config)
        ensures
            copy.deep_view() == self.deep_view(),
    {
        Config {
            stocks: clone_strings(&self.stocks),
            api_key: match &self.api_key {
                Some(k) => Some(k.clone()),
                None => None,
            },
        }
    }
}

/// Chooses the configuration of a start-up from what the two sources held:
/// `local` is the local file where it was there and could be read as a
/// configuration, `shared` the dashboard's section of the shared file
/// likewise.
pub fn resolve_config(local: Option<Config>, shared: Option<FinanceConfig>) -> (config: Config)
    ensures
        config.deep_view() == resolved(
            local.deep_view(),
            match shared {
                Some(f) => Some((f.api_key@, f.stocks.deep_view())),
                None => None,
            },
        ),
{
    if let Some(c) = local {
        if c.api_key.is_some() {
            return c;
        }
    }
    match shared {
        Some(finance) => {
            let stocks = match finance.stocks {
                Some(list) => list,
                None => {
                    let mut list: Vec<String> = Vec::new();
                    list.push(String::from_str("SPY"));
                    list.push(String::from_str("QQQ"));
                    list.push(String::from_str("BTC-USD"));
                    assert(list.deep_view() =~= shared_default_stocks());
                    list
                },
            };
            Config { stocks, api_key: Some(finance.api_key) }
        },
        None => Config::default(),
    }
}

} // verus!
