//! The service's configuration, as the configuration file lays it out.

use vstd::prelude::*;

verus! {

/// Everything the service is configured with.
#[derive(Clone, Debug, PartialEq, Eq)]
pub struct Config {
    pub server: Server,
    /// The weather providers to ask, in the order in which they are asked.
    pub providers: Vec<Provider>,
    pub geocoder: Geocoder,
}

/// Where the HTTP server listens.
#[derive(Clone, Debug, PartialEq, Eq)]
pub struct Server {
    /// Host and port, written `host:port`.
    pub address: String,
}

/// One weather provider and its credentials.
#[derive(Clone, Debug, PartialEq, Eq)]
pub enum Provider {
    Yandex { api_key: String },
    OpenWeatherMap { api_key: String },
}

/// The geocoding service's credentials.
#[derive(Clone, Debug, PartialEq, Eq)]
pub struct Geocoder {
    pub api_key: String,
}

} // verus!
