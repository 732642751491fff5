//! The HTTP face of the service: which request is answered how.
//!
//! A request is first received: it is either answered at once, or it becomes
//! a plan that says which forecast to fetch. Once the forecast is there, the
//! plan's endpoint says which response it makes.

use vstd::prelude::*;
use vstd::string::*;
use crate::config;
use crate::date::{days_ahead, days_since, named_day, parse_date, today, Date};
use crate::error::ServiceError;
use crate::reporter::reducer::{adds, averages_to, divides};
use crate::reporter::{collected, is_forecast, report, ProviderOutcome, Report};
use crate::text::{chars_of, occurs_from, same_text, starts_with, string_of};

verus! {

/// The number of days that the index endpoint reports on.
pub const FORECASTS_INDEX_DAYS: usize = 5;

pub const STATUS_OK: u16 = 200;

pub const STATUS_NOT_FOUND: u16 = 404;

pub const STATUS_UNPROCESSABLE_ENTITY: u16 = 422;

/// The content type of every response.
pub const CONTENT_TYPE: &'static str = "application/json";

/// The query parameters of both forecast endpoints.
#[derive(Clone, Debug, PartialEq, Eq)]
pub struct ForecastQueryParams {
    pub location: String,
}

/// Where a request leads.
#[derive(Clone, Debug, PartialEq, Eq)]
pub enum Route {
    /// `GET /forecasts`
    ForecastsIndex,
    /// `GET /forecasts/:date`, with the text that stands for `:date`.
    ForecastsShow { date: String },
    /// Anything else.
    NoRoute,
}

/// A route, with its text as a sequence of characters.
pub enum Routed {
    ForecastsIndex,
    ForecastsShow { date: Seq<char> },
    NoRoute,
}

impl View for Route {
    type V = Routed;

    open spec fn view(&self) -> Routed {
        match self {
            Route::ForecastsIndex => Routed::ForecastsIndex,
            Route::ForecastsShow { date } => Routed::ForecastsShow { date: date@ },
            Route::NoRoute => Routed::NoRoute,
        }
    }
}

/// The one segment that follows `/forecasts/` in a path, if the path is made
/// that way: the segment is not empty and holds no slash.
pub open spec fn date_segment(path: Seq<char>) -> Option<Seq<char>> {
    let prefix = "/forecasts/"@;
    if prefix.len() < path.len() && path.take(prefix.len() as int) == prefix && !path.skip(
        prefix.len() as int,
    ).contains('/') {
        Some(path.skip(prefix.len() as int))
    } else {
        None
    }
}

/// Where a request with this method and path leads.
pub open spec fn routed(method: Seq<char>, path: Seq<char>) -> Routed {
    if method != "GET"@ {
        Routed::NoRoute
    } else if path == "/forecasts"@ {
        Routed::ForecastsIndex
    } else {
        match date_segment(path) {
            Some(date) => Routed::ForecastsShow { date },
            None => Routed::NoRoute,
        }
    }
}

/// Finds the route of a request. `path` is the path of the URL, without the
/// query string.
pub fn route(method: &str, path: &str) -> (route: Route)
    ensures
        route@ == routed(method@, path@),
{
    if !same_text(method, "GET") {
        return Route::NoRoute;
    }
    if same_text(path, "/forecasts") {
        return Route::ForecastsIndex;
    }
    let chars = chars_of(path);
    let prefix = chars_of("/forecasts/");
    if prefix.len() < chars.len() && starts_with(&chars, &prefix) && !occurs_from(
        &chars,
        prefix.len(),
        '/',
    ) {
        let date = string_of(&chars, prefix.len(), chars.len());
        Route::ForecastsShow { date }
    } else {
        Route::NoRoute
    }
}

/// Which of the two forecast endpoints a plan belongs to.
#[derive(Clone, Copy, Debug, PartialEq, Eq, Structural)]
pub enum Endpoint {
    ForecastsIndex,
    ForecastsShow,
}

/// A request that passed validation: the forecast to fetch, and the endpoint
/// that will present it.
#[derive(Clone, Debug, PartialEq, Eq)]
pub struct Plan {
    pub endpoint: Endpoint,
    /// The place to forecast for, as the query names it.
    pub location: String,
    /// The number of days to forecast, counted from today.
    pub days: usize,
}

/// The body of a response. As JSON, `Reports` is written
/// `{"reports": [{"temperature": ..}, ..]}`, `Report` is written
/// `{"report": {"temperature": ..}}` and `Error` is written `{"error": ".."}`.
#[derive(Clone, Debug, PartialEq)]
pub enum Body<T> {
    Reports(Vec<Report<T>>),
    Report(Report<T>),
    Error(String),
}

/// A response of the service: an HTTP status and a JSON body.
#[derive(Clone, Debug, PartialEq)]
pub struct Response<T> {
    pub status: u16,
    pub body: Body<T>,
}

impl<T> Response<T> {
    /// The response carries this status and this text as its error.
    pub open spec fn is_error(&self, status: u16, text: Seq<char>) -> bool {
        &&& self.status == status
        &&& self.body matches Body::Error(message) && message@ == text
    }

    /// The response reports `error` to the client.
    pub open spec fn reports_error(&self, error: ServiceError) -> bool {
        self.is_error(422, error.message_text())
    }
}

/// What the query string of a request came to: the parameters read from it,
/// or the reason why they could not be read. `None` stands for a request
/// without a query string.
pub open spec fn query_params<Q>(query: Option<Result<Q, String>>) -> Result<Q, ServiceError> {
    match query {
        None => Err(ServiceError::MissingParams),
        Some(Err(reason)) => Err(ServiceError::InvalidParams(reason)),
        Some(Ok(params)) => Ok(params),
    }
}

/// Accepts the parameters read from a query string, and names the failure
/// where there was no query string or it could not be read.
pub fn parse_query_params<Q>(query: Option<Result<Q, String>>) -> (params: Result<Q, ServiceError>)
    ensures
        params == query_params(query),
{
    match query {
        None => Err(ServiceError::MissingParams),
        Some(Err(reason)) => Err(ServiceError::InvalidParams(reason)),
        Some(Ok(params)) => Ok(params),
    }
}

/// The plan of the index endpoint: always five days.
pub open spec fn index_planned(query: Option<Result<ForecastQueryParams, String>>) -> Result<
    Plan,
    ServiceError,
> {
    match query_params(query) {
        Err(error) => Err(error),
        Ok(params) => Ok(
            Plan {
                endpoint: Endpoint::ForecastsIndex,
                location: params.location,
                days: 5,
            },
        ),
    }
}

/// The plan of the show endpoint on a given day: the query is looked at
/// first, then the date's format, then how far ahead of today it lies.
pub open spec fn show_planned(
    query: Option<Result<ForecastQueryParams, String>>,
    date: Seq<char>,
    today: Date,
) -> Result<Plan, ServiceError> {
    match query_params(query) {
        Err(error) => Err(error),
        Ok(params) => match named_day(date) {
            None => Err(ServiceError::InvalidDateFormat),
            Some(date) => match days_ahead(date, today) {
                Err(error) => Err(error),
                Ok(days) => Ok(
                    Plan { endpoint: Endpoint::ForecastsShow, location: params.location, days },
                ),
            },
        },
    }
}

/// `GET /forecasts`: asks for the forecast of the next five days at the
/// location that the query names.
pub fn forecasts_index_handler(query: Option<Result<ForecastQueryParams, String>>) -> (planned:
    Result<Plan, ServiceError>)
    ensures
        planned == index_planned(query),
{
    match parse_query_params(query) {
        Err(error) => Err(error),
        Ok(params) => Ok(
            Plan {
                endpoint: Endpoint::ForecastsIndex,
                location: params.location,
                days: FORECASTS_INDEX_DAYS,
            },
        ),
    }
}

/// `GET /forecasts/:date`: asks for the forecast up to the day that `date_str`
/// names, at the location that the query names, when today is `today`.
pub fn forecasts_show_handler(
    query: Option<Result<ForecastQueryParams, String>>,
    date_str: &str,
    today: Date,
) -> (planned: Result<Plan, ServiceError>)
    ensures
        planned == show_planned(query, date_str@, today),
{
    match parse_query_params(query) {
        Err(error) => Err(error),
        Ok(params) => match parse_date(date_str) {
            Err(error) => Err(error),
            Ok(date) => match days_since(date, today) {
                Err(error) => Err(error),
                Ok(days) => Ok(
                    Plan { endpoint: Endpoint::ForecastsShow, location: params.location, days },
                ),
            },
        },
    }
}

/// Builds a response from its parts.
pub fn json_response<T>(status: u16, body: Body<T>) -> (response: Response<T>)
    ensures
        response.status == status,
        response.body == body,
{
    Response { status, body }
}

/// The response to a request that failed: status 422 and the failure's text.
pub fn error_response<T>(error: ServiceError) -> (response: Response<T>)
    ensures
        response.reports_error(error),
{
    json_response(STATUS_UNPROCESSABLE_ENTITY, Body::Error(error.message()))
}

/// The response to a request that leads nowhere: status 404.
pub fn not_found<T>() -> (response: Response<T>)
    ensures
        response.is_error(404, "Not found"@),
{
    json_response(STATUS_NOT_FOUND, Body::Error(String::from_str("Not found")))
}

/// What receiving a request on a given day comes to.
pub open spec fn received<T>(
    method: Seq<char>,
    path: Seq<char>,
    query: Option<Result<ForecastQueryParams, String>>,
    today: Date,
    outcome: Result<Plan, Response<T>>,
) -> bool {
    let planned = match routed(method, path) {
        Routed::NoRoute => None,
        Routed::ForecastsIndex => Some(index_planned(query)),
        Routed::ForecastsShow { date } => Some(show_planned(query, date, today)),
    };
    match planned {
        None => outcome matches Err(response) && response.is_error(404, "Not found"@),
        Some(Err(error)) => outcome matches Err(response) && response.reports_error(error),
        Some(Ok(plan)) => outcome == Ok::<Plan, Response<T>>(plan),
    }
}

/// Receives a request on the day `today`: finds its route, validates its
/// parameters, and gives either the plan of what to fetch or the response
/// that turns the request away. `query` is what the query string came to, see
/// [`query_params`].
pub fn receive_on<T>(
    method: &str,
    path: &str,
    query: Option<Result<ForecastQueryParams, String>>,
    today: Date,
) -> (outcome: Result<Plan, Response<T>>)
    ensures
        received(method@, path@, query, today, outcome),
{
    let planned = match route(method, path) {
        Route::NoRoute => return Err(not_found()),
        Route::ForecastsIndex => forecasts_index_handler(query),
        Route::ForecastsShow { date } => forecasts_show_handler(query, date.as_str(), today),
    };
    match planned {
        Ok(plan) => Ok(plan),
        Err(error) => Err(error_response(error)),
    }
}

/// Receives a request today. Which day today is, the machine says; all else
/// is as in [`receive_on`].
pub fn receive<T>(
    method: &str,
    path: &str,
    query: Option<Result<ForecastQueryParams, String>>,
) -> (outcome: Result<Plan, Response<T>>)
    ensures
        exists|today: Date| received(method@, path@, query, today, outcome),
{
    receive_on(method, path, query, today())
}

/// The report that the show endpoint presents: the last of the forecast, or
/// a report of `zero` where the forecast has no days, as it has for today's
/// own date.
pub open spec fn shown<T>(reports: Seq<Report<T>>, zero: T) -> Report<T> {
    if reports.len() > 0 {
        reports.last()
    } else {
        Report { temperature: zero }
    }
}

/// The response that presents a forecast, or the failure to make one: the
/// index endpoint shows every report, the show endpoint the last one. A
/// forecast of no days has no last report; the show endpoint then shows a
/// report of `zero`.
pub fn respond<T: Copy>(
    endpoint: Endpoint,
    forecast: Result<Vec<Report<T>>, ServiceError>,
    zero: T,
) -> (response: Response<T>)
    ensures
        match forecast {
            Err(error) => response.reports_error(error),
            Ok(reports) => response.status == 200 && match endpoint {
                Endpoint::ForecastsIndex => response.body == Body::Reports(reports),
                Endpoint::ForecastsShow => response.body == Body::Report(shown(reports@, zero)),
            },
        },
{
    match forecast {
        Err(error) => error_response(error),
        Ok(reports) => match endpoint {
            Endpoint::ForecastsIndex => json_response(STATUS_OK, Body::Reports(reports)),
            Endpoint::ForecastsShow => {
                let report = if reports.len() > 0 {
                    reports[reports.len() - 1]
                } else {
                    Report::new(zero)
                };
                json_response(STATUS_OK, Body::Report(report))
            },
        },
    }
}

/// The response to a validated request, from what the upstream services came
/// to: `fetched` is the geocoding failure, or the outcome of every provider
/// in the order in which they were asked.
///
/// A geocoding failure is reported to the client. Otherwise the request
/// succeeds, whatever the providers came to: the index endpoint shows the
/// averaged forecast of every day, the show endpoint that of the last day.
/// A plan for no days, as today's own date makes it, is shown a report of
/// `zero`.
pub fn answer<T: Copy, A: Fn(T, T) -> T, D: Fn(T, usize) -> T>(
    plan: &Plan,
    fetched: Result<Vec<ProviderOutcome<T>>, ServiceError>,
    zero: T,
    plus: A,
    divide: D,
) -> (response: Response<T>)
    requires
        forall|a: T, b: T| plus.requires((a, b)),
        forall|total: T, days: usize| divide.requires((total, days)),
    ensures
        match fetched {
            Err(error) => response.reports_error(error),
            Ok(outcomes) => response.status == 200 && match plan.endpoint {
                Endpoint::ForecastsIndex => response.body matches Body::Reports(means)
                    && is_forecast(means@, outcomes@, plan.days, zero, adds(plus), divides(divide)),
                Endpoint::ForecastsShow => response.body matches Body::Report(mean) && (if plan.days
                    > 0 {
                    averages_to(
                        adds(plus),
                        divides(divide),
                        zero,
                        collected(outcomes@, plan.days as nat)[plan.days - 1],
                        plan.days,
                        mean.temperature,
                    )
                } else {
                    mean.temperature == zero
                }),
            },
        },
{
    let forecast = report(fetched, plan.days, zero, plus, divide);
    respond(plan.endpoint, forecast, zero)
}

/// A request that leads nowhere is answered with status 404 and the error
/// `Not found`, whatever its query and whatever the day.
pub proof fn lemma_no_route_is_not_found<T>(
    method: Seq<char>,
    path: Seq<char>,
    query: Option<Result<ForecastQueryParams, String>>,
    today: Date,
    outcome: Result<Plan, Response<T>>,
)
    requires
        received(method, path, query, today, outcome),
        routed(method, path) is NoRoute,
    ensures
        outcome matches Err(response) && response.is_error(404, "Not found"@),
{
}

/// A request to either forecast endpoint that has no query string is answered
/// with status 422 and the error `Missing required params`, whatever its date.
pub proof fn lemma_missing_query_is_rejected<T>(
    method: Seq<char>,
    path: Seq<char>,
    today: Date,
    outcome: Result<Plan, Response<T>>,
)
    requires
        received(method, path, None, today, outcome),
        !(routed(method, path) is NoRoute),
    ensures
        outcome matches Err(response) && response.is_error(422, "Missing required params"@),
{
}

/// A request for a text that names no date, because it is not written
/// `YYYY-MM-DD` or because the calendar has no such day, is answered with
/// status 422 and the error `Invalid date format`, whatever location it names
/// and whatever the day.
pub proof fn lemma_malformed_date_is_rejected<T>(
    method: Seq<char>,
    path: Seq<char>,
    params: ForecastQueryParams,
    today: Date,
    outcome: Result<Plan, Response<T>>,
)
    requires
        received(method, path, Some(Ok(params)), today, outcome),
        routed(method, path) matches Routed::ForecastsShow { date } && named_day(date) is None,
    ensures
        outcome matches Err(response) && response.is_error(422, "Invalid date format"@),
{
}

/// A request for a date before today is answered with status 422 and the
/// error `Date is in the past`.
pub proof fn lemma_past_date_is_rejected<T>(
    method: Seq<char>,
    path: Seq<char>,
    params: ForecastQueryParams,
    today: Date,
    outcome: Result<Plan, Response<T>>,
)
    requires
        received(method, path, Some(Ok(params)), today, outcome),
        routed(method, path) matches Routed::ForecastsShow { date } && (named_day(date) matches Some(
            day,
        ) && day.day < today.day),
    ensures
        outcome matches Err(response) && response.is_error(422, "Date is in the past"@),
{
}

/// A request for a date more than five days after today is answered with
/// status 422 and the error `Date is more than 5 days in the future`.
pub proof fn lemma_far_date_is_rejected<T>(
    method: Seq<char>,
    path: Seq<char>,
    params: ForecastQueryParams,
    today: Date,
    outcome: Result<Plan, Response<T>>,
)
    requires
        received(method, path, Some(Ok(params)), today, outcome),
        routed(method, path) matches Routed::ForecastsShow { date } && (named_day(date) matches Some(
            day,
        ) && day.day > today.day + 5),
    ensures
        outcome matches Err(response) && response.is_error(
            422,
            "Date is more than 5 days in the future"@,
        ),
{
}

/// A request for a date from today to five days after it, with a location,
/// becomes a plan for as many days as the date lies ahead.
pub proof fn lemma_near_date_is_planned<T>(
    method: Seq<char>,
    path: Seq<char>,
    params: ForecastQueryParams,
    today: Date,
    outcome: Result<Plan, Response<T>>,
)
    requires
        received(method, path, Some(Ok(params)), today, outcome),
        routed(method, path) matches Routed::ForecastsShow { date } && (named_day(date) matches Some(
            day,
        ) && today.day <= day.day <= today.day + 5),
    ensures
        outcome matches Ok(plan) && plan.endpoint == Endpoint::ForecastsShow && plan.location
            == params.location && plan.days == named_day(routed(method, path)->date)->Some_0.day
            - today.day,
{
}

/// A request for today's own date, with a location, becomes a plan for no
/// days: [`answer`] then shows one report, of `zero`.
pub proof fn lemma_today_is_planned_for_no_days<T>(
    method: Seq<char>,
    path: Seq<char>,
    params: ForecastQueryParams,
    today: Date,
    outcome: Result<Plan, Response<T>>,
)
    requires
        received(method, path, Some(Ok(params)), today, outcome),
        routed(method, path) matches Routed::ForecastsShow { date } && named_day(date) == Some(today),
    ensures
        outcome matches Ok(plan) && plan.endpoint == Endpoint::ForecastsShow && plan.location
            == params.location && plan.days == 0,
{
}

/// A text that is not ten characters long names no date: `123-45` is one.
pub proof fn lemma_short_text_names_no_date(text: Seq<char>)
    requires
        text.len() != 10,
    ensures
        named_day(text) is None,
        named_day("123-45"@) is None,
{
    reveal_strlit("123-45");
}

/// A request to the index endpoint with a location becomes a plan for five
/// days, whatever the day.
pub proof fn lemma_index_plans_five_days<T>(
    method: Seq<char>,
    path: Seq<char>,
    params: ForecastQueryParams,
    today: Date,
    outcome: Result<Plan, Response<T>>,
)
    requires
        received(method, path, Some(Ok(params)), today, outcome),
        routed(method, path) is ForecastsIndex,
    ensures
        outcome matches Ok(plan) && plan.endpoint == Endpoint::ForecastsIndex && plan.location
            == params.location && plan.days == 5,
{
}

/// The forecast that answers a request to the index endpoint has exactly five
/// reports, whatever the providers came to.
pub proof fn lemma_week_forecast_has_five_reports<T>(
    method: Seq<char>,
    path: Seq<char>,
    query: Option<Result<ForecastQueryParams, String>>,
    today: Date,
    plan: Plan,
    outcomes: Seq<ProviderOutcome<T>>,
    means: Seq<Report<T>>,
    zero: T,
    plus: spec_fn(T, T, T) -> bool,
    divide: spec_fn(T, usize, T) -> bool,
)
    requires
        received(method, path, query, today, Ok::<Plan, Response<T>>(plan)),
        routed(method, path) is ForecastsIndex,
        is_forecast(means, outcomes, plan.days, zero, plus, divide),
    ensures
        means.len() == 5,
{
}

/// The address to listen on: the one given, or else the configured one.
/// The configuration is asked for only where no address is given.
pub fn listen_address<F: FnOnce() -> config::Server>(
    config: Option<config::Server>,
    configured: F,
) -> (address: String)
    requires
        config is None ==> configured.requires(()),
    ensures
        match config {
            Some(server) => address@ == server.address@,
            None => exists|server: config::Server| #[trigger]
                configured.ensures((), server) && address@ == server.address@,
        },
{
    match config {
        Some(server) => server.address,
        None => {
            let server = configured();
            assert(configured.ensures((), server));
            server.address
        },
    }
}

} // verus!
