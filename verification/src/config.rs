//! Configuration types for creating agents.

use vstd::prelude::*;
use vstd::string::*;

verus! {

/// The abstract content of a string option.
pub open spec fn opt_view(o: Option<String>) -> Option<Seq<char>> {
    match o {
        Some(s) => Some(s@),
        None => None,
    }
}

/// Whether an optional string is present and holds at least one character.
pub open spec fn present_and_nonempty(o: Option<Seq<char>>) -> bool {
    match o {
        Some(s) => s.len() > 0,
        None => false,
    }
}

/// What a configuration holds, as plain values.
pub struct ConfigView {
    pub provider: Seq<char>,
    pub model: Seq<char>,
    pub api_key: Option<Seq<char>>,
    pub server_config: Option<Seq<char>>,
}

/// The configuration in which every field is empty or absent.
pub open spec fn empty_config() -> ConfigView {
    ConfigView {
        provider: Seq::empty(),
        model: Seq::empty(),
        api_key: None,
        server_config: None,
    }
}

/// A configuration with its provider set.
pub open spec fn set_provider(v: ConfigView, provider: Seq<char>) -> ConfigView {
    ConfigView { provider, ..v }
}

/// A configuration with its model set.
pub open spec fn set_model(v: ConfigView, model: Seq<char>) -> ConfigView {
    ConfigView { model, ..v }
}

/// A configuration with its API key set.
pub open spec fn set_api_key(v: ConfigView, api_key: Seq<char>) -> ConfigView {
    ConfigView { api_key: Some(api_key), ..v }
}

/// A configuration with its server configuration set.
pub open spec fn set_server_config(v: ConfigView, server_config: Seq<char>) -> ConfigView {
    ConfigView { server_config: Some(server_config), ..v }
}

/// A configuration reports what the builder was last given for each field:
/// setting one field leaves the others as they were, setting it again
/// replaces it, and settings of different fields may come in any order.
pub proof fn law_builder_settings(v: ConfigView, p: Seq<char>, q: Seq<char>, m: Seq<char>, k: Seq<char>, j: Seq<char>)
    ensures
        set_provider(v, p).provider == p,
        set_model(v, m).model == m,
        set_api_key(v, k).api_key == Some(k),
        set_server_config(v, j).server_config == Some(j),
        set_provider(set_provider(v, q), p) == set_provider(v, p),
        set_api_key(set_api_key(v, q), k) == set_api_key(v, k),
        set_model(set_provider(v, p), m) == set_provider(set_model(v, m), p),
        set_api_key(set_server_config(v, j), k) == set_server_config(set_api_key(v, k), j),
        set_api_key(v, k).server_config == v.server_config,
        set_server_config(v, j).api_key == v.api_key,
{
}

/// Each builder setting changes its own field and no other: setting the
/// provider or the model keeps the API key and the server configuration,
/// setting the API key keeps the server configuration, provider and model,
/// and so on; so the settings may come in any order.
pub proof fn law_setter_changes_only_its_field(v: ConfigView, x: Seq<char>)
    ensures
        set_provider(v, x).provider == x,
        set_provider(v, x).model == v.model,
        set_provider(v, x).api_key == v.api_key,
        set_provider(v, x).server_config == v.server_config,
        set_model(v, x).model == x,
        set_model(v, x).provider == v.provider,
        set_model(v, x).api_key == v.api_key,
        set_model(v, x).server_config == v.server_config,
        set_api_key(v, x).api_key == Some(x),
        set_api_key(v, x).provider == v.provider,
        set_api_key(v, x).model == v.model,
        set_api_key(v, x).server_config == v.server_config,
        set_server_config(v, x).server_config == Some(x),
        set_server_config(v, x).provider == v.provider,
        set_server_config(v, x).model == v.model,
        set_server_config(v, x).api_key == v.api_key,
{
}

/// Whatever order a fresh builder is given a provider, a model and an API
/// key in, the configuration reports all three and has an API key exactly
/// when the key is not empty.
pub proof fn law_settings_in_any_order(p: Seq<char>, m: Seq<char>, k: Seq<char>)
    ensures
        ({
            let c = set_model(set_provider(set_api_key(empty_config(), k), p), m);
            &&& c.provider == p
            &&& c.model == m
            &&& c.api_key == Some(k)
            &&& c.server_config is None
            &&& present_and_nonempty(c.api_key) == (k.len() > 0)
        }),
        ({
            let c = set_api_key(set_provider(set_model(empty_config(), m), p), k);
            &&& c.provider == p
            &&& c.model == m
            &&& c.api_key == Some(k)
            &&& c.server_config is None
        }),
{
}

/// A configuration built from a fresh builder with a provider, a model and
/// an API key reports them, has an API key exactly when the key is not
/// empty, and has no server configuration; likewise with a server
/// configuration in place of the key.
pub proof fn law_fresh_builder_reports_settings(p: Seq<char>, m: Seq<char>, k: Seq<char>)
    ensures
        ({
            let c = set_api_key(set_model(set_provider(empty_config(), p), m), k);
            &&& c.provider == p
            &&& c.model == m
            &&& c.api_key == Some(k)
            &&& present_and_nonempty(c.api_key) == (k.len() > 0)
            &&& !present_and_nonempty(c.server_config)
        }),
        ({
            let c = set_server_config(set_model(set_provider(empty_config(), p), m), k);
            &&& c.provider == p
            &&& c.model == m
            &&& c.server_config == Some(k)
            &&& present_and_nonempty(c.server_config) == (k.len() > 0)
            &&& !present_and_nonempty(c.api_key)
        }),
        !present_and_nonempty(empty_config().api_key) && !present_and_nonempty(
            empty_config().server_config,
        ),
{
}

/// Configuration for creating a GopherAgent.
#[derive(Debug, Clone)]
pub struct Config {
    provider: String,
    model: String,
    api_key: Option<String>,
    server_config: Option<String>,
}

impl View for Config {
    type V = ConfigView;

    closed spec fn view(&self) -> ConfigView {
        ConfigView {
            provider: self.provider@,
            model: self.model@,
            api_key: opt_view(self.api_key),
            server_config: opt_view(self.server_config),
        }
    }
}

fn opt_as_str(o: &Option<String>) -> (r: Option<&str>)
    ensures
        r is Some <==> o is Some,
        r is Some ==> r->0@ == o->0@,
{
    match o {
        Some(s) => Some(s.as_str()),
        None => None,
    }
}

impl Default for Config {
    fn default() -> (c: Self)
        ensures
            c@ == empty_config(),
    {
        Config { provider: String::new(), model: String::new(), api_key: None, server_config: None }
    }
}

impl Config {
    /// Get the provider name.
    pub fn provider(&self) -> (r: &str)
        ensures
            r@ == self@.provider,
    {
        self.provider.as_str()
    }

    /// Get the model name.
    pub fn model(&self) -> (r: &str)
        ensures
            r@ == self@.model,
    {
        self.model.as_str()
    }

    /// Get the API key (if set).
    pub fn api_key(&self) -> (r: Option<&str>)
        ensures
            r is Some <==> self@.api_key is Some,
            r is Some ==> r->0@ == self@.api_key->0,
    {
        opt_as_str(&self.api_key)
    }

    /// Get the server config JSON (if set).
    pub fn server_config(&self) -> (r: Option<&str>)
        ensures
            r is Some <==> self@.server_config is Some,
            r is Some ==> r->0@ == self@.server_config->0,
    {
        opt_as_str(&self.server_config)
    }

    /// Check if an API key is configured: it is set and not empty.
    pub fn has_api_key(&self) -> (r: bool)
        ensures
            r == present_and_nonempty(self@.api_key),
    {
        match &self.api_key {
            Some(k) => !k.as_str().is_empty(),
            None => false,
        }
    }

    /// Check if a server config is configured: it is set and not empty.
    pub fn has_server_config(&self) -> (r: bool)
        ensures
            r == present_and_nonempty(self@.server_config),
    {
        match &self.server_config {
            Some(c) => !c.as_str().is_empty(),
            None => false,
        }
    }
}

/// Builder for creating Config instances.
#[derive(Debug)]
pub struct ConfigBuilder {
    config: Config,
}

impl View for ConfigBuilder {
    type V = ConfigView;

    closed spec fn view(&self) -> ConfigView {
        self.config@
    }
}

impl Default for ConfigBuilder {
    fn default() -> (b: Self)
        ensures
            b@ == empty_config(),
    {
        ConfigBuilder { config: Config::default() }
    }
}

impl ConfigBuilder {
    /// Create a new ConfigBuilder, holding the empty configuration.
    pub fn new() -> (b: Self)
        ensures
            b@ == empty_config(),
    {
        Self::default()
    }

    /// Set the provider name.
    pub fn with_provider(self, provider: &str) -> (b: Self)
        ensures
            b@ == set_provider(self@, provider@),
    {
        let mut s = self;
        s.config.provider = String::from_str(provider);
        s
    }

    /// Set the model name.
    pub fn with_model(self, model: &str) -> (b: Self)
        ensures
            b@ == set_model(self@, model@),
    {
        let mut s = self;
        s.config.model = String::from_str(model);
        s
    }

    /// Set the API key.
    pub fn with_api_key(self, api_key: &str) -> (b: Self)
        ensures
            b@ == set_api_key(self@, api_key@),
    {
        let mut s = self;
        s.config.api_key = Some(String::from_str(api_key));
        s
    }

    /// Set the server config JSON.
    pub fn with_server_config(self, server_config: &str) -> (b: Self)
        ensures
            b@ == set_server_config(self@, server_config@),
    {
        let mut s = self;
        s.config.server_config = Some(String::from_str(server_config));
        s
    }

    /// Build the Config.
    pub fn build(self) -> (c: Config)
        ensures
            c@ == self@,
    {
        self.config
    }
}

} // verus!
