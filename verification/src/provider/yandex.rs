//! The Yandex weather forecast service.

use vstd::prelude::*;
use vstd::string::*;
use crate::error::ServiceError;
use crate::provider::{Header, Provider, Request};
use crate::reporter::Report;
use crate::text::{decimal, decimal_digits};

verus! {

/// The answer of the forecast service, as far as it is read:
/// `{"forecasts": [{"parts": {"day": {"temp_avg": -10}}}]}`.
#[derive(Clone, Debug, PartialEq, Eq)]
pub struct ForecastResponse {
    pub forecasts: Vec<Forecast>,
}

#[derive(Clone, Debug, PartialEq, Eq)]
pub struct Forecast {
    pub parts: Parts,
}

#[derive(Clone, Debug, PartialEq, Eq)]
pub struct Parts {
    pub day: Day,
}

#[derive(Clone, Debug, PartialEq, Eq)]
pub struct Day {
    /// The day's average temperature, in whole degrees Celsius.
    pub temp_avg: isize,
}

/// A client's view of the Yandex weather forecast service: the key, and with it every
/// request that the service is sent.
pub struct Yandex {
    api_key: String,
}

impl Yandex {
    /// The key that requests are signed with.
    pub closed spec fn key(&self) -> Seq<char> {
        self.api_key@
    }

    /// A provider that signs its requests with `api_key`.
    pub fn new(api_key: &str) -> (provider: Self)
        ensures
            provider.key() == api_key@,
    {
        Self { api_key: String::from_str(api_key) }
    }

    /// Builds one report per forecast day that the service supplied, in the
    /// service's order, from the day's average temperature as `widen` turns
    /// it into a `T`. A failed exchange stays the failure that it was.
    pub fn get_reports<T, W: Fn(isize) -> T>(
        &self,
        forecast: Result<ForecastResponse, ServiceError>,
        widen: W,
    ) -> (reports: Result<Vec<Report<T>>, ServiceError>)
        requires
            forall|degrees: isize| widen.requires((degrees,)),
        ensures
            match forecast {
                Err(error) => reports == Err::<Vec<Report<T>>, ServiceError>(error),
                Ok(response) => reports matches Ok(list) && list@.len()
                    == response.forecasts@.len() && forall|i: int|
                    0 <= i < list@.len() ==> widen.ensures(
                        (response.forecasts@[i].parts.day.temp_avg,),
                        (#[trigger] list@[i]).temperature,
                    ),
            },
    {
        match forecast {
            Err(error) => Err(error),
            Ok(response) => {
                let mut list: Vec<Report<T>> = Vec::new();
                let mut i: usize = 0;
                while i < response.forecasts.len()
                    invariant
                        i <= response.forecasts@.len(),
                        list@.len() == i,
                        forall|degrees: isize| widen.requires((degrees,)),
                        forall|k: int|
                            0 <= k < i ==> widen.ensures(
                                (response.forecasts@[k].parts.day.temp_avg,),
                                (#[trigger] list@[k]).temperature,
                            ),
                    decreases response.forecasts@.len() - i,
                {
                    let temperature = widen(response.forecasts[i].parts.day.temp_avg);
                    list.push(Report::new(temperature));
                    i += 1;
                }
                Ok(list)
            },
        }
    }
}

impl Provider for Yandex {
    open spec fn name_text(&self) -> Seq<char> {
        "Yandex"@
    }

    open spec fn url_text(&self, lat: Seq<char>, lon: Seq<char>, days: usize) -> Seq<char> {
        "https://api.weather.yandex.ru/v1/forecast?lat="@ + lat + "&lon="@ + lon + "&limit="@
            + decimal_digits(days as nat)
    }

    open spec fn header_text(&self) -> Option<(Seq<char>, Seq<char>)> {
        Some(("X-Yandex-API-Key"@, self.key()))
    }

    fn name(&self) -> (name: String) {
        String::from_str("Yandex")
    }

    /// The key travels in a header, not in the URL.
    fn request(&self, lat: &str, lon: &str, days: usize) -> (request: Request) {
        let mut url = String::from_str("https://api.weather.yandex.ru/v1/forecast?lat=");
        url.append(lat);
        url.append("&lon=");
        url.append(lon);
        url.append("&limit=");
        url.append(decimal(days as u64).as_str());
        let header = Header {
            name: String::from_str("X-Yandex-API-Key"),
            value: self.api_key.clone(),
        };
        Request { url, header: Some(header) }
    }
}

} // verus!
