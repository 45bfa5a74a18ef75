//! Where the service finds its upstreams and its own listening address. The
//! process environment is read by the caller, once, at start-up; this module
//! knows the variables' names and what holds when one is not set.

use vstd::prelude::*;

verus! {

/// Name of the variable that holds the base URL of the species service.
pub const POKEAPI_URI: &'static str = "POKEAPI_URI";

/// Name of the variable that holds the URL of the translation service.
pub const SHAKESPEARE_TRANSLATOR_URI: &'static str = "SHAKESPEARE_TRANSLATOR_URI";

/// Name of the variable that holds the `host:port` to listen on.
pub const BIND_ADDRESS: &'static str = "BIND_ADDRESS";

/// Base URL of the species service when none is configured. It ends without
/// a slash: the path of a request is appended with its own.
pub const DEFAULT_POKEAPI_URI: &'static str = "https://pokeapi.co/api/v2";

/// URL of the translation service when none is configured.
pub const DEFAULT_SHAKESPEARE_TRANSLATOR_URI: &'static str =
    "https://api.funtranslations.com/translate/shakespeare.json";

/// Listening address when none is configured: the loopback interface and a
/// port that the system picks.
pub const DEFAULT_BIND_ADDRESS: &'static str = "127.0.0.1:0";

/// The configured value if there is one, else the default.
pub open spec fn value_or(configured: Option<String>, default: Seq<char>) -> Seq<char> {
    match configured {
        Some(value) => value@,
        None => default,
    }
}

/// The configured value if there is one, else the default.
pub fn resolve(configured: Option<String>, default: &str) -> (value: String)
    ensures
        value@ == value_or(configured, default@),
{
    match configured {
        Some(value) => value,
        None => default.to_owned(),
    }
}

/// The settings of one process, each a configured value or its default.
#[derive(Debug)]
pub struct Config {
    pub pokeapi_uri: String,
    pub translator_uri: String,
    pub bind_address: String,
}

impl Config {
    /// The settings for what the environment holds under the three names.
    /// A value is taken as it is; nothing is parsed or checked.
    pub fn resolve(
        pokeapi_uri: Option<String>,
        translator_uri: Option<String>,
        bind_address: Option<String>,
    ) -> (config: Config)
        ensures
            config.pokeapi_uri@ == value_or(pokeapi_uri, DEFAULT_POKEAPI_URI@),
            config.translator_uri@ == value_or(
                translator_uri,
                DEFAULT_SHAKESPEARE_TRANSLATOR_URI@,
            ),
            config.bind_address@ == value_or(bind_address, DEFAULT_BIND_ADDRESS@),
    {
        Config {
            pokeapi_uri: resolve(pokeapi_uri, DEFAULT_POKEAPI_URI),
            translator_uri: resolve(translator_uri, DEFAULT_SHAKESPEARE_TRANSLATOR_URI),
            bind_address: resolve(bind_address, DEFAULT_BIND_ADDRESS),
        }
    }
}

} // verus!
