//! The hook's settings, as read from `takure.toml`.
use vstd::prelude::*;

verus! {

/// All settings of the hook.
#[derive(Debug, Clone)]
pub struct Configuration {
    pub general: GeneralConfiguration,
    pub cards: CardsConfiguration,
    pub tachi: TachiConfiguration,
}

/// Switches and network timeout.
#[derive(Debug, Clone, Copy, PartialEq, Eq, Structural)]
pub struct GeneralConfiguration {
    pub enable: bool,
    pub timeout: u64,
    pub auto_update: bool,
}

/// Cards whose plays may be submitted; an empty list admits every card.
#[derive(Debug, Clone)]
pub struct CardsConfiguration {
    pub whitelist: Vec<String>,
}

/// Where and as whom scores are submitted.
#[derive(Debug, Clone)]
pub struct TachiConfiguration {
    pub base_url: String,
    pub api_key: String,
}

/// Value that `enable` and `auto_update` take when the file leaves them out.
pub fn default_true() -> (res: bool)
    ensures
        res,
{
    true
}

/// Timeout in milliseconds that applies when the file leaves it out.
pub fn default_timeout() -> (res: u64)
    ensures
        res == 3000,
{
    3000
}

impl Default for GeneralConfiguration {
    /// Every switch off and no timeout: the values of a derived `Default`
    /// (the file's own defaults are `default_true` and `default_timeout`).
    fn default() -> (res: Self)
        ensures
            res == (GeneralConfiguration { enable: false, timeout: 0, auto_update: false }),
    {
        GeneralConfiguration { enable: false, timeout: 0, auto_update: false }
    }
}

impl Default for CardsConfiguration {
    fn default() -> (res: Self)
        ensures
            res.whitelist@.len() == 0,
    {
        CardsConfiguration { whitelist: Vec::new() }
    }
}

impl Default for TachiConfiguration {
    fn default() -> (res: Self)
        ensures
            res.base_url@ == Seq::<char>::empty(),
            res.api_key@ == Seq::<char>::empty(),
    {
        TachiConfiguration { base_url: String::new(), api_key: String::new() }
    }
}

impl Default for Configuration {
    fn default() -> (res: Self)
        ensures
            res.general == (GeneralConfiguration { enable: false, timeout: 0, auto_update: false }),
            res.cards.whitelist@.len() == 0,
            res.tachi.base_url@ == Seq::<char>::empty(),
            res.tachi.api_key@ == Seq::<char>::empty(),
    {
        Configuration {
            general: GeneralConfiguration::default(),
            cards: CardsConfiguration::default(),
            tachi: TachiConfiguration::default(),
        }
    }
}

} // verus!
