//! The configuration record: its defaults, how a stored record that lacks
//! fields is completed, and what is written back.
//!
//! The sampling temperature is held as the bit pattern of an IEEE 754
//! single-precision number, so that a record compares and round-trips
//! exactly.

use crate::text::{opt_str, opt_string};
use vstd::prelude::*;

verus! {

/// The endpoint that is used where none is configured.
pub const DEFAULT_ENDPOINT: &'static str = "https://api.deepseek.com/v1";

/// The model that is used where none is configured.
pub const DEFAULT_MODEL: &'static str = "deepseek-chat";

/// The request timeout in seconds that is used where none is configured.
pub const DEFAULT_TIMEOUT: u64 = 30;

/// The bit pattern of the default temperature, 1.3.
pub const DEFAULT_TEMPERATURE: u32 = 0x3FA6_6666;

/// The token limit that is used where none is configured.
pub const DEFAULT_MAX_TOKENS: i32 = 2000;

/// The directory, below the user's configuration directory, that holds the
/// configuration file.
pub const CONFIG_DIR_NAME: &'static str = "tzh";

/// The name of the configuration file.
pub const CONFIG_FILE_NAME: &'static str = "config.toml";

/// A complete configuration.
#[derive(Debug, PartialEq, Eq)]
pub struct Config {
    /// Base URL of the service, without a trailing slash.
    pub endpoint: String,
    /// API key; none, or an empty one, sends no credentials.
    pub api_key: Option<String>,
    /// Identifier of the model to ask.
    pub model: String,
    /// Timeout of one request, in seconds.
    pub timeout: u64,
    /// Sampling temperature, as the bits of a single-precision number.
    pub temperature: u32,
    /// Upper limit on generated tokens; none for no limit.
    pub max_tokens: Option<i32>,
}

/// A configuration as it is stored: every field may be missing.
#[derive(Debug, PartialEq, Eq)]
pub struct PartialConfig {
    pub endpoint: Option<String>,
    pub api_key: Option<String>,
    pub model: Option<String>,
    pub timeout: Option<u64>,
    pub temperature: Option<u32>,
    pub max_tokens: Option<i32>,
}

/// The fields that one `config` command may set: each one that is present
/// replaces the field of its name, each one that is absent leaves it alone.
#[derive(Debug, PartialEq, Eq)]
pub struct ConfigUpdate {
    pub endpoint: Option<String>,
    pub model: Option<String>,
    pub api_key: Option<String>,
    pub temperature: Option<u32>,
    pub max_tokens: Option<i32>,
}

/// The mathematical model of a [`Config`].
pub struct ConfigView {
    pub endpoint: Seq<char>,
    pub api_key: Option<Seq<char>>,
    pub model: Seq<char>,
    pub timeout: u64,
    pub temperature: u32,
    pub max_tokens: Option<i32>,
}

/// The mathematical model of a [`PartialConfig`].
pub struct PartialConfigView {
    pub endpoint: Option<Seq<char>>,
    pub api_key: Option<Seq<char>>,
    pub model: Option<Seq<char>>,
    pub timeout: Option<u64>,
    pub temperature: Option<u32>,
    pub max_tokens: Option<i32>,
}

/// The mathematical model of a [`ConfigUpdate`].
pub struct ConfigUpdateView {
    pub endpoint: Option<Seq<char>>,
    pub model: Option<Seq<char>>,
    pub api_key: Option<Seq<char>>,
    pub temperature: Option<u32>,
    pub max_tokens: Option<i32>,
}

impl View for Config {
    type V = ConfigView;

    open spec fn view(&self) -> ConfigView {
        ConfigView {
            endpoint: self.endpoint@,
            api_key: opt_string(self.api_key),
            model: self.model@,
            timeout: self.timeout,
            temperature: self.temperature,
            max_tokens: self.max_tokens,
        }
    }
}

impl View for PartialConfig {
    type V = PartialConfigView;

    open spec fn view(&self) -> PartialConfigView {
        PartialConfigView {
            endpoint: opt_string(self.endpoint),
            api_key: opt_string(self.api_key),
            model: opt_string(self.model),
            timeout: self.timeout,
            temperature: self.temperature,
            max_tokens: self.max_tokens,
        }
    }
}

impl View for ConfigUpdate {
    type V = ConfigUpdateView;

    open spec fn view(&self) -> ConfigUpdateView {
        ConfigUpdateView {
            endpoint: opt_string(self.endpoint),
            model: opt_string(self.model),
            api_key: opt_string(self.api_key),
            temperature: self.temperature,
            max_tokens: self.max_tokens,
        }
    }
}

/// The configuration that is used where nothing is stored.
pub open spec fn default_config() -> ConfigView {
    ConfigView {
        endpoint: DEFAULT_ENDPOINT@,
        api_key: None,
        model: DEFAULT_MODEL@,
        timeout: DEFAULT_TIMEOUT,
        temperature: DEFAULT_TEMPERATURE,
        max_tokens: Some(DEFAULT_MAX_TOKENS),
    }
}

/// A stored record completed field by field: each missing field takes its
/// default. A missing API key stays missing.
pub open spec fn merged(stored: PartialConfigView) -> ConfigView {
    ConfigView {
        endpoint: match stored.endpoint {
            Some(e) => e,
            None => default_config().endpoint,
        },
        api_key: stored.api_key,
        model: match stored.model {
            Some(m) => m,
            None => default_config().model,
        },
        timeout: match stored.timeout {
            Some(t) => t,
            None => default_config().timeout,
        },
        temperature: match stored.temperature {
            Some(t) => t,
            None => default_config().temperature,
        },
        max_tokens: match stored.max_tokens {
            Some(m) => Some(m),
            None => default_config().max_tokens,
        },
    }
}

/// The configuration that loading yields: the completed record where one is
/// stored, the defaults where none is.
pub open spec fn loaded(stored: Option<PartialConfigView>) -> ConfigView {
    match stored {
        Some(p) => merged(p),
        None => default_config(),
    }
}

/// The record that is written for a configuration. It holds every field that
/// the configuration has a value for.
pub open spec fn stored_form(config: ConfigView) -> PartialConfigView {
    PartialConfigView {
        endpoint: Some(config.endpoint),
        api_key: config.api_key,
        model: Some(config.model),
        timeout: Some(config.timeout),
        temperature: Some(config.temperature),
        max_tokens: config.max_tokens,
    }
}

/// A stored record from which loading takes every field but the API key,
/// which has no default.
pub open spec fn is_complete(stored: PartialConfigView) -> bool {
    &&& stored.endpoint is Some
    &&& stored.model is Some
    &&& stored.timeout is Some
    &&& stored.temperature is Some
    &&& stored.max_tokens is Some
}

/// A configuration after an update: each field that the update holds is
/// replaced, every other field is kept.
pub open spec fn updated(config: ConfigView, update: ConfigUpdateView) -> ConfigView {
    ConfigView {
        endpoint: match update.endpoint {
            Some(e) => e,
            None => config.endpoint,
        },
        api_key: match update.api_key {
            Some(k) => Some(k),
            None => config.api_key,
        },
        model: match update.model {
            Some(m) => m,
            None => config.model,
        },
        timeout: config.timeout,
        temperature: match update.temperature {
            Some(t) => t,
            None => config.temperature,
        },
        max_tokens: match update.max_tokens {
            Some(m) => Some(m),
            None => config.max_tokens,
        },
    }
}

/// A copy of an optional string.
fn copy_opt(text: &Option<String>) -> (copy: Option<String>)
    ensures
        opt_string(copy) == opt_string(*text),
{
    match text {
        Some(t) => Some(t.clone()),
        None => None,
    }
}

impl Default for Config {
    fn default() -> (config: Config)
        ensures
            config@ == default_config(),
    {
        Config {
            endpoint: String::from_str(DEFAULT_ENDPOINT),
            api_key: None,
            model: String::from_str(DEFAULT_MODEL),
            timeout: DEFAULT_TIMEOUT,
            temperature: DEFAULT_TEMPERATURE,
            max_tokens: Some(DEFAULT_MAX_TOKENS),
        }
    }
}

impl Clone for Config {
    fn clone(&self) -> (copy: Config)
        ensures
            copy@ == self@,
    {
        Config {
            endpoint: self.endpoint.clone(),
            api_key: copy_opt(&self.api_key),
            model: self.model.clone(),
            timeout: self.timeout,
            temperature: self.temperature,
            max_tokens: self.max_tokens,
        }
    }
}

impl Config {
    /// The configuration for what was found stored: `None` where no record
    /// exists. Missing fields are filled from the defaults; the caller writes
    /// the result back, so that the next load finds a complete record.
    pub fn load(stored: Option<PartialConfig>) -> (config: Config)
        ensures
            config@ == loaded(
                match stored {
                    Some(p) => Some(p@),
                    None => None,
                },
            ),
    {
        let defaults = Config::default();
        match stored {
            Some(partial) => Config {
                endpoint: match partial.endpoint {
                    Some(e) => e,
                    None => defaults.endpoint,
                },
                api_key: partial.api_key,
                model: match partial.model {
                    Some(m) => m,
                    None => defaults.model,
                },
                timeout: match partial.timeout {
                    Some(t) => t,
                    None => defaults.timeout,
                },
                temperature: match partial.temperature {
                    Some(t) => t,
                    None => defaults.temperature,
                },
                max_tokens: match partial.max_tokens {
                    Some(m) => Some(m),
                    None => defaults.max_tokens,
                },
            },
            None => defaults,
        }
    }

    /// The record to write for this configuration.
    pub fn save(&self) -> (stored: PartialConfig)
        ensures
            stored@ == stored_form(self@),
    {
        PartialConfig {
            endpoint: Some(self.endpoint.clone()),
            api_key: copy_opt(&self.api_key),
            model: Some(self.model.clone()),
            timeout: Some(self.timeout),
            temperature: Some(self.temperature),
            max_tokens: self.max_tokens,
        }
    }

    pub fn endpoint(&self) -> (endpoint: &str)
        ensures
            endpoint@ == self@.endpoint,
    {
        self.endpoint.as_str()
    }

    pub fn api_key(&self) -> (api_key: Option<&str>)
        ensures
            opt_str(api_key) == self@.api_key,
    {
        match &self.api_key {
            Some(key) => Some(key.as_str()),
            None => None,
        }
    }

    pub fn model(&self) -> (model: &str)
        ensures
            model@ == self@.model,
    {
        self.model.as_str()
    }

    pub fn timeout(&self) -> (timeout: u64)
        ensures
            timeout == self@.timeout,
    {
        self.timeout
    }

    /// The temperature, as the bits of a single-precision number.
    pub fn temperature(&self) -> (temperature: u32)
        ensures
            temperature == self@.temperature,
    {
        self.temperature
    }

    pub fn max_tokens(&self) -> (max_tokens: Option<i32>)
        ensures
            max_tokens == self@.max_tokens,
    {
        self.max_tokens
    }

    /// Whether requests carry credentials: an API key is configured and is
    /// not empty.
    pub fn has_api_key(&self) -> (has: bool)
        ensures
            has == has_key(self@),
    {
        match &self.api_key {
            Some(key) => !key.as_str().is_empty(),
            None => false,
        }
    }

    pub fn set_endpoint(&mut self, endpoint: &str)
        ensures
            final(self)@ == (ConfigView { endpoint: endpoint@, ..old(self)@ }),
    {
        self.endpoint = String::from_str(endpoint);
    }

    pub fn set_api_key(&mut self, api_key: &str)
        ensures
            final(self)@ == (ConfigView { api_key: Some(api_key@), ..old(self)@ }),
    {
        self.api_key = Some(String::from_str(api_key));
    }

    pub fn set_model(&mut self, model: &str)
        ensures
            final(self)@ == (ConfigView { model: model@, ..old(self)@ }),
    {
        self.model = String::from_str(model);
    }

    /// Sets the temperature, given as the bits of a single-precision number.
    pub fn set_temperature(&mut self, temperature: u32)
        ensures
            final(self)@ == (ConfigView { temperature: temperature, ..old(self)@ }),
    {
        self.temperature = temperature;
    }

    pub fn set_max_tokens(&mut self, max_tokens: Option<i32>)
        ensures
            final(self)@ == (ConfigView { max_tokens: max_tokens, ..old(self)@ }),
    {
        self.max_tokens = max_tokens;
    }

    /// Applies the fields that a `config` command sets. A field that the
    /// command leaves out keeps its value; the timeout cannot be set this way.
    pub fn apply(&mut self, update: &ConfigUpdate)
        ensures
            final(self)@ == updated(old(self)@, update@),
    {
        if let Some(endpoint) = &update.endpoint {
            self.set_endpoint(endpoint.as_str());
        }
        if let Some(model) = &update.model {
            self.set_model(model.as_str());
        }
        if let Some(api_key) = &update.api_key {
            self.set_api_key(api_key.as_str());
        }
        if let Some(temperature) = update.temperature {
            self.set_temperature(temperature);
        }
        if let Some(max_tokens) = update.max_tokens {
            self.set_max_tokens(Some(max_tokens));
        }
    }
}

/// Whether a configuration holds an API key that is not empty.
pub open spec fn has_key(config: ConfigView) -> bool {
    config.api_key matches Some(key) && key.len() > 0
}

/// What is written after a load holds every field, and loading it again
/// gives the same configuration.
pub proof fn law_load_is_stable(stored: Option<PartialConfigView>)
    ensures
        is_complete(stored_form(loaded(stored))),
        loaded(Some(stored_form(loaded(stored)))) == loaded(stored),
{
}

/// Saving the defaults and loading them again yields the defaults.
pub proof fn law_defaults_round_trip()
    ensures
        loaded(Some(stored_form(default_config()))) == default_config(),
        loaded(None) == default_config(),
{
}

/// Saving a configuration and loading it again keeps every field, except
/// that a configuration without a token limit comes back with the default
/// limit: a stored record cannot say that there is none.
pub proof fn law_save_then_load(config: ConfigView)
    ensures
        loaded(Some(stored_form(config))) == (ConfigView {
            max_tokens: if config.max_tokens is Some {
                config.max_tokens
            } else {
                Some(DEFAULT_MAX_TOKENS)
            },
            ..config
        }),
        config.max_tokens is Some ==> loaded(Some(stored_form(config))) == config,
{
}

/// A model that was set is the model that a later load reports.
pub proof fn law_set_model_is_kept(config: ConfigView, model: Seq<char>)
    ensures
        loaded(Some(stored_form(ConfigView { model: model, ..config }))).model == model,
        updated(
            config,
            ConfigUpdateView {
                endpoint: None,
                model: Some(model),
                api_key: None,
                temperature: None,
                max_tokens: None,
            },
        ) == (ConfigView { model: model, ..config }),
{
}

/// An update without a token limit leaves the stored limit as it is.
pub proof fn law_update_keeps_what_it_omits(config: ConfigView, update: ConfigUpdateView)
    ensures
        update.max_tokens is None ==> updated(config, update).max_tokens == config.max_tokens,
        update.temperature is None ==> updated(config, update).temperature == config.temperature,
        update.endpoint is None ==> updated(config, update).endpoint == config.endpoint,
        update.model is None ==> updated(config, update).model == config.model,
        update.api_key is None ==> updated(config, update).api_key == config.api_key,
        updated(config, update).timeout == config.timeout,
{
}

} // verus!
