use weather_report::server::{receive, route, Body, Response, Route};

fn get(path: &str) -> Response<f32> {
    match receive("GET", path, None) {
        Ok(plan) => panic!("expected a response, got {:?}", plan),
        Err(response) => response,
    }
}

/// It should return not found error on wrong URL.
#[test]
fn bad_endpoint() {
    let response = get("/wrong");
    assert_eq!(response.status, 404);
    assert_eq!(response.body, Body::Error(String::from("Not found")));
}

#[test]
fn routes() {
    assert_eq!(route("GET", "/forecasts"), Route::ForecastsIndex);
    assert_eq!(
        route("GET", "/forecasts/2019-03-05"),
        Route::ForecastsShow { date: String::from("2019-03-05") }
    );
    assert_eq!(route("GET", "/forecasts/123-45"), Route::ForecastsShow { date: String::from("123-45") });
}

#[test]
fn no_routes() {
    assert_eq!(route("GET", "/"), Route::NoRoute);
    assert_eq!(route("GET", ""), Route::NoRoute);
    assert_eq!(route("GET", "/forecast"), Route::NoRoute);
    assert_eq!(route("GET", "/forecasts/"), Route::NoRoute);
    assert_eq!(route("GET", "/forecasts/2019-03-05/"), Route::NoRoute);
    assert_eq!(route("GET", "/forecasts/2019/03"), Route::NoRoute);
    assert_eq!(route("GET", "/forecastsx"), Route::NoRoute);
    assert_eq!(route("GET", "forecasts"), Route::NoRoute);
}

#[test]
fn other_methods_have_no_route() {
    assert_eq!(route("POST", "/forecasts"), Route::NoRoute);
    assert_eq!(route("get", "/forecasts"), Route::NoRoute);
    assert_eq!(route("DELETE", "/forecasts/2019-03-05"), Route::NoRoute);
    let response: Response<f32> = receive("POST", "/forecasts", None).unwrap_err();
    assert_eq!(response.status, 404);
    assert_eq!(response.body, Body::Error(String::from("Not found")));
}
