use std::collections::HashMap;

use chrono::{Duration, Local};

use weather_report::error::ServiceError;
use weather_report::geocoder::{
    FeatureMember, GeoObject, GeoObjectCollection, GeocodeResponse, GeocodeResponseWrapper,
    Geocoder, Point,
};
use weather_report::provider::open_weather_map::{self, OpenWeatherMap};
use weather_report::provider::yandex::{self, Yandex};
use weather_report::provider::{check_status, Provider};
use weather_report::reporter::ProviderOutcome;
use weather_report::server::{answer, receive, Body, ForecastQueryParams, Response};

const MOSCOW: &str = "Москва";

/// Reads the query string as the service does: a flat list of pairs, of which
/// `location` is wanted.
fn read_query(query: &str) -> Result<ForecastQueryParams, String> {
    let pairs: HashMap<String, String> = serde_qs::from_str(query).map_err(|e| e.to_string())?;
    match pairs.get("location") {
        Some(location) => Ok(ForecastQueryParams { location: location.clone() }),
        None => Err(String::from("missing field `location`")),
    }
}

/// A geocoding service that knows Moscow and nothing else.
fn geocoding_service(location: &str) -> Result<GeocodeResponse, ServiceError> {
    let mut feature_member = Vec::new();
    if location == MOSCOW {
        feature_member.push(FeatureMember {
            geo_object: GeoObject { point: Point { pos: String::from("37.5 55.75") } },
        });
    }
    Ok(GeocodeResponse {
        response: GeocodeResponseWrapper {
            geo_object_collection: GeoObjectCollection { feature_member },
        },
    })
}

/// A Yandex that forecasts one degree more for each day, or is out of order.
fn yandex_service(status: u16, days: usize) -> Result<yandex::ForecastResponse, ServiceError> {
    check_status(status)?;
    let forecasts = (0..days)
        .map(|d| yandex::Forecast { parts: yandex::Parts { day: yandex::Day { temp_avg: d as isize } } })
        .collect();
    Ok(yandex::ForecastResponse { forecasts })
}

/// An OpenWeatherMap that forecasts half a degree more for each day.
fn open_weather_map_service(days: usize) -> Result<open_weather_map::ForecastResponse<f32>, ServiceError> {
    let list = (0..days)
        .map(|d| open_weather_map::Forecast { main: open_weather_map::Main { temp: d as f32 * 0.5 } })
        .collect();
    Ok(open_weather_map::ForecastResponse { list })
}

/// Serves a GET request the way the service does, against the upstream
/// services above. `yandex_status` is the status with which Yandex answers.
fn get_with(url: &str, yandex_status: u16) -> Response<f32> {
    let (path, query) = match url.find('?') {
        Some(at) => (&url[..at], Some(&url[at + 1..])),
        None => (url, None),
    };
    let plan = match receive("GET", path, query.map(read_query)) {
        Ok(plan) => plan,
        Err(response) => return response,
    };

    let geocoder = Geocoder::new("geocoder-key");
    let request = geocoder.request(&plan.location);
    assert!(request.url.starts_with("https://geocode-maps.yandex.ru/1.x/?geocode="));
    let found = geocoding_service(&plan.location);
    let fetched = geocoder.geocode(found, |token: &str| token.parse::<f32>().ok()).map(|(lat, lon)| {
        let yandex = Yandex::new("yandex-key");
        let open_weather_map = OpenWeatherMap::new("owm-key");
        let (lat, lon) = (lat.to_string(), lon.to_string());
        assert!(yandex.request(&lat, &lon, plan.days).url.contains("lat=55.75&lon=37.5"));
        let outcomes: Vec<ProviderOutcome<f32>> = vec![
            yandex.get_reports(yandex_service(yandex_status, plan.days), |degrees| degrees as f32),
            open_weather_map.get_reports(open_weather_map_service(plan.days)),
        ];
        outcomes
    });

    answer(&plan, fetched, 0.0, |a, b| a + b, |total, days| total / days as f32)
}

fn get(url: &str) -> Response<f32> {
    get_with(url, 200)
}

fn error_of(response: &Response<f32>) -> &str {
    match &response.body {
        Body::Error(error) => error,
        body => panic!("expected an error, got {:?}", body),
    }
}

/// It should return a list of reports for the next 5 days.
#[test]
fn week_forecast() {
    let url = "/forecasts?location=%D0%9C%D0%BE%D1%81%D0%BA%D0%B2%D0%B0";
    let response = get(url);
    assert_eq!(response.status, 200);
    match response.body {
        Body::Reports(reports) => assert_eq!(reports.len(), 5),
        body => panic!("expected reports, got {:?}", body),
    }
}

/// It should return a single averaged report for the given day.
#[test]
fn date_forecast() {
    let date = Local::now() + Duration::days(2);

    let url = format!(
        "/forecasts/{}?location=%D0%9C%D0%BE%D1%81%D0%BA%D0%B2%D0%B0",
        date.format("%Y-%m-%d").to_string()
    );

    let response = get(&url);
    assert_eq!(response.status, 200);
    assert!(matches!(response.body, Body::Report(_)));
}

/// It should return an error on invalid date format.
#[test]
fn bad_date() {
    let url = "/forecasts/123-45?location=%D0%9C%D0%BE%D1%81%D0%BA%D0%B2%D0%B0";
    let response = get(url);
    assert_eq!(response.status, 422);
    assert_eq!(error_of(&response), "Invalid date format");
}

/// It should return an error on missing location parameter.
#[test]
fn missing_location() {
    let response = get("/forecasts");
    assert_eq!(response.status, 422);
    assert_eq!(error_of(&response), "Missing required params");
}

/// It should return an error when unable to geocode the location.
#[test]
fn bad_location() {
    let url = "/forecasts?location=qweqweqweqweqwqwqeqeqweqweqweqeqw";
    let response = get(url);
    assert_eq!(response.status, 422);
    assert_eq!(error_of(&response), "Failed to geocode location");
}

/// It should turn away a date before today.
#[test]
fn past_date() {
    let date = Local::now() - Duration::days(1);
    let url = format!(
        "/forecasts/{}?location=%D0%9C%D0%BE%D1%81%D0%BA%D0%B2%D0%B0",
        date.format("%Y-%m-%d").to_string()
    );
    let response = get(&url);
    assert_eq!(response.status, 422);
    assert_eq!(error_of(&response), "Date is in the past");
}

/// It should turn away a date more than five days ahead.
#[test]
fn far_future_date() {
    let date = Local::now() + Duration::days(6);
    let url = format!(
        "/forecasts/{}?location=%D0%9C%D0%BE%D1%81%D0%BA%D0%B2%D0%B0",
        date.format("%Y-%m-%d").to_string()
    );
    let response = get(&url);
    assert_eq!(response.status, 422);
    assert_eq!(error_of(&response), "Date is more than 5 days in the future");
}

/// The furthest date that is still served is five days ahead.
#[test]
fn fifth_day_is_served() {
    let date = Local::now() + Duration::days(5);
    let url = format!(
        "/forecasts/{}?location=%D0%9C%D0%BE%D1%81%D0%BA%D0%B2%D0%B0",
        date.format("%Y-%m-%d").to_string()
    );
    let response = get(&url);
    assert_eq!(response.status, 200);
    // Day 4 is the last of five: Yandex says 4, OpenWeatherMap says 2, and
    // the sum is divided by the five days.
    assert_eq!(response.body, Body::Report(weather_report::reporter::Report::new((4.0 + 2.0) / 5.0)));
}

/// Today's own date is received as a plan for no days.
#[test]
fn today_is_no_days_ahead() {
    let date = Local::now().format("%Y-%m-%d").to_string();
    let query = Some(Ok(ForecastQueryParams { location: String::from(MOSCOW) }));
    let plan = receive::<f32>("GET", &format!("/forecasts/{}", date), query).unwrap();
    assert_eq!(plan.days, 0);
    assert_eq!(plan.location, MOSCOW);
}

/// It should return a single report for today's own date, for which no day
/// lies ahead.
#[test]
fn today_forecast() {
    let url = format!(
        "/forecasts/{}?location=%D0%9C%D0%BE%D1%81%D0%BA%D0%B2%D0%B0",
        Local::now().format("%Y-%m-%d").to_string()
    );
    let response = get(&url);
    assert_eq!(response.status, 200);
    assert_eq!(response.body, Body::Report(weather_report::reporter::Report::new(0.0)));
}

/// Today's own date still needs a place that can be geocoded.
#[test]
fn today_forecast_of_a_bad_location() {
    let url = format!(
        "/forecasts/{}?location=qweqweqweqweqwqwqeqeqweqweqweqeqw",
        Local::now().format("%Y-%m-%d").to_string()
    );
    let response = get(&url);
    assert_eq!(response.status, 422);
    assert_eq!(error_of(&response), "Failed to geocode location");
}

/// The query is looked at before the date.
#[test]
fn missing_location_comes_before_bad_date() {
    let response = get("/forecasts/123-45");
    assert_eq!(response.status, 422);
    assert_eq!(error_of(&response), "Missing required params");
}

/// A query string that cannot be read is reported with its reason.
#[test]
fn unreadable_query() {
    let response = get("/forecasts?place=Moscow");
    assert_eq!(response.status, 422);
    assert_eq!(error_of(&response), "missing field `location`");
}

/// A provider that fails does not fail the request: the forecast is built
/// from the other provider alone.
#[test]
fn provider_isolation() {
    let url = "/forecasts?location=%D0%9C%D0%BE%D1%81%D0%BA%D0%B2%D0%B0";
    let response = get_with(url, 500);
    assert_eq!(response.status, 200);
    let expected = (0..5).map(|d| weather_report::reporter::Report::new(d as f32 * 0.5 / 5.0)).collect();
    assert_eq!(response.body, Body::Reports(expected));
}

/// With every provider in order, each day is the sum of both divided by the
/// number of days.
#[test]
fn week_forecast_values() {
    let url = "/forecasts?location=%D0%9C%D0%BE%D1%81%D0%BA%D0%B2%D0%B0";
    let response = get(url);
    let expected =
        (0..5).map(|d| weather_report::reporter::Report::new((d as f32 + d as f32 * 0.5) / 5.0)).collect();
    assert_eq!(response.body, Body::Reports(expected));
}

/// The name of each provider is what the diagnostics show.
#[test]
fn provider_names() {
    assert_eq!(Yandex::new("k").name(), "Yandex");
    assert_eq!(OpenWeatherMap::new("k").name(), "OpenWeatherMap");
}
