//! Weather providers: which request each one is sent, and how its answer is
//! read.

use vstd::prelude::*;
use crate::config;
use crate::error::ServiceError;

pub mod open_weather_map;
pub mod yandex;

use open_weather_map::OpenWeatherMap;
use yandex::Yandex;

verus! {

/// The only status with which an upstream answer is read.
pub const EXPECTED_STATUS: u16 = 200;

/// One header line of a request.
#[derive(Clone, Debug, PartialEq, Eq)]
pub struct Header {
    pub name: String,
    pub value: String,
}

/// A GET request to an upstream service.
#[derive(Clone, Debug, PartialEq, Eq)]
pub struct Request {
    pub url: String,
    /// The one header that the service asks for, if it asks for one.
    pub header: Option<Header>,
}

impl Request {
    /// The header as a pair of name and value.
    pub open spec fn header_text(&self) -> Option<(Seq<char>, Seq<char>)> {
        match self.header {
            Some(header) => Some((header.name@, header.value@)),
            None => None,
        }
    }
}

/// What every weather provider offers: a name for diagnostics, and the
/// request that asks it for a forecast.
pub trait Provider {
    /// The provider's name.
    spec fn name_text(&self) -> Seq<char>;

    /// The URL that asks for `days` days of forecast at the coordinates.
    spec fn url_text(&self, lat: Seq<char>, lon: Seq<char>, days: usize) -> Seq<char>;

    /// The header that goes with every request to this provider.
    spec fn header_text(&self) -> Option<(Seq<char>, Seq<char>)>;

    fn name(&self) -> (name: String)
        ensures
            name@ == self.name_text(),
    ;

    /// The request for `days` days of forecast at latitude `lat` and longitude
    /// `lon`, both written as decimal numbers.
    fn request(&self, lat: &str, lon: &str, days: usize) -> (request: Request)
        ensures
            request.url@ == self.url_text(lat@, lon@, days),
            request.header_text() == self.header_text(),
    ;
}

/// Accepts an upstream answer by its status: only 200 is read, any other
/// status is a failure that carries the status.
pub fn check_status(status: u16) -> (checked: Result<(), ServiceError>)
    ensures
        status == 200 ==> checked == Ok::<(), ServiceError>(()),
        status != 200 ==> checked == Err::<(), ServiceError>(ServiceError::UnexpectedStatus(status)),
{
    if status == EXPECTED_STATUS {
        Ok(())
    } else {
        Err(ServiceError::UnexpectedStatus(status))
    }
}

/// A provider that the configuration names, ready to be asked.
pub enum Configured {
    Yandex(Yandex),
    OpenWeatherMap(OpenWeatherMap),
}

impl Provider for Configured {
    open spec fn name_text(&self) -> Seq<char> {
        match self {
            Configured::Yandex(provider) => provider.name_text(),
            Configured::OpenWeatherMap(provider) => provider.name_text(),
        }
    }

    open spec fn url_text(&self, lat: Seq<char>, lon: Seq<char>, days: usize) -> Seq<char> {
        match self {
            Configured::Yandex(provider) => provider.url_text(lat, lon, days),
            Configured::OpenWeatherMap(provider) => provider.url_text(lat, lon, days),
        }
    }

    open spec fn header_text(&self) -> Option<(Seq<char>, Seq<char>)> {
        match self {
            Configured::Yandex(provider) => provider.header_text(),
            Configured::OpenWeatherMap(provider) => provider.header_text(),
        }
    }

    fn name(&self) -> (name: String) {
        match self {
            Configured::Yandex(provider) => provider.name(),
            Configured::OpenWeatherMap(provider) => provider.name(),
        }
    }

    fn request(&self, lat: &str, lon: &str, days: usize) -> (request: Request) {
        match self {
            Configured::Yandex(provider) => provider.request(lat, lon, days),
            Configured::OpenWeatherMap(provider) => provider.request(lat, lon, days),
        }
    }
}

/// The provider that one configuration entry names, with the entry's key.
pub open spec fn built(provider_config: &config::Provider, provider: &Configured) -> bool {
    match provider_config {
        config::Provider::Yandex { api_key } => provider matches Configured::Yandex(yandex)
            && yandex.key() == api_key@,
        config::Provider::OpenWeatherMap { api_key } => provider matches Configured::OpenWeatherMap(
            open_weather_map,
        ) && open_weather_map.key() == api_key@,
    }
}

/// Makes the provider that a configuration entry names.
pub fn build_provider(provider_config: &config::Provider) -> (provider: Configured)
    ensures
        built(provider_config, &provider),
{
    match provider_config {
        config::Provider::Yandex { api_key } => Configured::Yandex(Yandex::new(api_key.as_str())),
        config::Provider::OpenWeatherMap { api_key } => Configured::OpenWeatherMap(
            OpenWeatherMap::new(api_key.as_str()),
        ),
    }
}

/// Makes every configured provider, in the configuration's order.
pub fn build_providers(provider_configs: &Vec<config::Provider>) -> (providers: Vec<Configured>)
    ensures
        providers@.len() == provider_configs@.len(),
        forall|i: int|
            0 <= i < providers@.len() ==> built(&provider_configs@[i], &#[trigger] providers@[i]),
{
    let mut providers: Vec<Configured> = Vec::new();
    let mut i: usize = 0;
    while i < provider_configs.len()
        invariant
            i <= provider_configs@.len(),
            providers@.len() == i,
            forall|k: int| 0 <= k < i ==> built(&provider_configs@[k], &#[trigger] providers@[k]),
        decreases provider_configs@.len() - i,
    {
        providers.push(build_provider(&provider_configs[i]));
        i += 1;
    }
    providers
}

} // verus!
