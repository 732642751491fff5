//! The OpenWeatherMap forecast service.

use vstd::prelude::*;
use vstd::string::*;
use crate::error::ServiceError;
use crate::provider::{Provider, Request};
use crate::reporter::Report;
use crate::text::{decimal, decimal_digits};

verus! {

/// The answer of the forecast service, as far as it is read:
/// `{"list": [{"main": {"temp": -3.5}}]}`. `T` is the number type that
/// carries a temperature.
#[derive(Clone, Debug, PartialEq)]
pub struct ForecastResponse<T> {
    pub list: Vec<Forecast<T>>,
}

#[derive(Clone, Debug, PartialEq)]
pub struct Forecast<T> {
    pub main: Main<T>,
}

#[derive(Clone, Debug, PartialEq)]
pub struct Main<T> {
    /// The temperature in degrees Celsius, as the request asks for metric
    /// units.
    pub temp: T,
}

/// A client's view of the OpenWeatherMap forecast service: the key, and with it every
/// request that the service is sent.
pub struct OpenWeatherMap {
    api_key: String,
}

impl OpenWeatherMap {
    /// The key that requests are signed with.
    pub closed spec fn key(&self) -> Seq<char> {
        self.api_key@
    }

    /// A provider that signs its requests with `api_key`.
    pub fn new(api_key: &str) -> (provider: Self)
        ensures
            provider.key() == api_key@,
    {
        Self { api_key: String::from_str(api_key) }
    }

    /// Builds one report per forecast entry that the service supplied, in the
    /// service's order, with the entry's temperature as it is. A failed
    /// exchange stays the failure that it was.
    pub fn get_reports<T: Copy>(&self, forecast: Result<ForecastResponse<T>, ServiceError>) -> (reports:
        Result<Vec<Report<T>>, ServiceError>)
        ensures
            match forecast {
                Err(error) => reports == Err::<Vec<Report<T>>, ServiceError>(error),
                Ok(response) => reports matches Ok(list) && list@.len() == response.list@.len()
                    && forall|i: int|
                    0 <= i < list@.len() ==> (#[trigger] list@[i]).temperature
                        == response.list@[i].main.temp,
            },
    {
        match forecast {
            Err(error) => Err(error),
            Ok(response) => {
                let mut list: Vec<Report<T>> = Vec::new();
                let mut i: usize = 0;
                while i < response.list.len()
                    invariant
                        i <= response.list@.len(),
                        list@.len() == i,
                        forall|k: int|
                            0 <= k < i ==> (#[trigger] list@[k]).temperature
                                == response.list@[k].main.temp,
                    decreases response.list@.len() - i,
                {
                    list.push(Report::new(response.list[i].main.temp));
                    i += 1;
                }
                Ok(list)
            },
        }
    }
}

impl Provider for OpenWeatherMap {
    open spec fn name_text(&self) -> Seq<char> {
        "OpenWeatherMap"@
    }

    open spec fn url_text(&self, lat: Seq<char>, lon: Seq<char>, days: usize) -> Seq<char> {
        "https://api.openweathermap.org/data/2.5/forecast?lat="@ + lat + "&lon="@ + lon + "&cnt="@
            + decimal_digits(days as nat) + "&units=metric&appid="@ + self.key()
    }

    open spec fn header_text(&self) -> Option<(Seq<char>, Seq<char>)> {
        None
    }

    fn name(&self) -> (name: String) {
        String::from_str("OpenWeatherMap")
    }

    /// The key travels in the URL; no header is needed.
    fn request(&self, lat: &str, lon: &str, days: usize) -> (request: Request) {
        let mut url = String::from_str("https://api.openweathermap.org/data/2.5/forecast?lat=");
        url.append(lat);
        url.append("&lon=");
        url.append(lon);
        url.append("&cnt=");
        url.append(decimal(days as u64).as_str());
        url.append("&units=metric&appid=");
        url.append(self.api_key.as_str());
        Request { url, header: None }
    }
}

} // verus!
