//! Reports, and how the providers' answers become one forecast.

use vstd::prelude::*;
use vstd::string::*;
use crate::error::ServiceError;

pub mod reducer;

use reducer::{adds, averages_to, divides, pushed, Reducer};

verus! {

/// One day's temperature, in degrees Celsius: as a provider gave it, or
/// averaged over providers. `T` is the number type that carries it.
#[derive(Clone, Copy, Debug, PartialEq)]
pub struct Report<T> {
    pub temperature: T,
}

impl<T> Report<T> {
    /// A report of this temperature.
    pub fn new(temperature: T) -> (report: Self)
        ensures
            report.temperature == temperature,
    {
        Self { temperature }
    }
}

/// What one provider's exchange came to: its reports, or why it has none.
pub type ProviderOutcome<T> = Result<Vec<Report<T>>, ServiceError>;

/// The buckets of `days` days after the providers' outcomes went in, in the
/// order in which the providers were asked: a provider that answered has its
/// reports spread over the days, a provider that failed leaves no trace.
pub open spec fn collected<T>(outcomes: Seq<ProviderOutcome<T>>, days: nat) -> Seq<Seq<Report<T>>>
    decreases outcomes.len(),
{
    if outcomes.len() == 0 {
        Seq::new(days, |d: int| Seq::<Report<T>>::empty())
    } else {
        let earlier = collected(outcomes.drop_last(), days);
        match outcomes.last() {
            Ok(reports) => pushed(earlier, reports@),
            Err(_) => earlier,
        }
    }
}

/// `means` is a forecast that averaging the providers' outcomes over `days`
/// days can give: one report per day, each the sum of what the providers that
/// answered supplied for that day, divided by the number of days.
pub open spec fn is_forecast<T>(
    means: Seq<Report<T>>,
    outcomes: Seq<ProviderOutcome<T>>,
    days: usize,
    zero: T,
    plus: spec_fn(T, T, T) -> bool,
    divide: spec_fn(T, usize, T) -> bool,
) -> bool {
    &&& means.len() == days
    &&& forall|d: int|
        0 <= d < days ==> averages_to(
            plus,
            divide,
            zero,
            collected(outcomes, days as nat)[d],
            days,
            (#[trigger] means[d]).temperature,
        )
}

/// The number of providers that supplied a report for day `d`.
pub open spec fn supplied<T>(outcomes: Seq<ProviderOutcome<T>>, d: int) -> nat
    decreases outcomes.len(),
{
    if outcomes.len() == 0 {
        0
    } else {
        let earlier = supplied(outcomes.drop_last(), d);
        match outcomes.last() {
            Ok(reports) => if d < reports@.len() {
                earlier + 1
            } else {
                earlier
            },
            Err(_) => earlier,
        }
    }
}

/// Whether a provider answered.
pub open spec fn answered<T>() -> spec_fn(ProviderOutcome<T>) -> bool {
    |outcome: ProviderOutcome<T>| outcome is Ok
}

/// The line that reports a provider's failure to the operator.
pub open spec fn failure_notice_text(name: Seq<char>, error: &ServiceError) -> Seq<char> {
    "Error fetching from provider "@ + name + ": "@ + error.message_text()
}

/// Writes the line that reports a provider's failure to the operator.
pub fn failure_notice(name: &str, error: &ServiceError) -> (line: String)
    ensures
        line@ == failure_notice_text(name@, error),
{
    let mut line = String::from_str("Error fetching from provider ");
    line.append(name);
    line.append(": ");
    line.append(error.message().as_str());
    line
}

/// The averaged forecast for `days` days, from what the upstream services
/// came to: `fetched` is the geocoding failure, or the outcome of every
/// provider in the order in which they were asked.
///
/// Only a geocoding failure fails the forecast. A provider that failed is
/// passed over, and the forecast has `days` reports whatever the providers
/// supplied.
pub fn report<T: Copy, A: Fn(T, T) -> T, D: Fn(T, usize) -> T>(
    fetched: Result<Vec<ProviderOutcome<T>>, ServiceError>,
    days: usize,
    zero: T,
    plus: A,
    divide: D,
) -> (forecast: Result<Vec<Report<T>>, ServiceError>)
    requires
        forall|a: T, b: T| plus.requires((a, b)),
        forall|total: T, days: usize| divide.requires((total, days)),
    ensures
        match fetched {
            Err(error) => forecast == Err::<Vec<Report<T>>, ServiceError>(error),
            Ok(outcomes) => forecast matches Ok(means) && is_forecast(
                means@,
                outcomes@,
                days,
                zero,
                adds(plus),
                divides(divide),
            ),
        },
{
    match fetched {
        Err(error) => Err(error),
        Ok(outcomes) => {
            let mut reducer: Reducer<T> = Reducer::new(days);
            let mut i: usize = 0;
            while i < outcomes.len()
                invariant
                    i <= outcomes@.len(),
                    reducer@ == collected(outcomes@.take(i as int), days as nat),
                decreases outcomes@.len() - i,
            {
                proof {
                    assert(outcomes@.take(i + 1).drop_last() == outcomes@.take(i as int));
                }
                match &outcomes[i] {
                    Ok(reports) => reducer.push_provider_reports(reports),
                    Err(_) => {},
                }
                i += 1;
            }
            proof {
                assert(outcomes@.take(i as int) == outcomes@);
                lemma_collected_has_every_day(outcomes@, days as nat);
            }
            Ok(reducer.reduce_reports(zero, plus, divide))
        },
    }
}

/// A provider that fails changes nothing: the buckets are those of the
/// providers that answered, taken alone in the same order.
pub proof fn lemma_failed_providers_leave_no_trace<T>(outcomes: Seq<ProviderOutcome<T>>, days: nat)
    ensures
        collected(outcomes, days) == collected(outcomes.filter(answered::<T>()), days),
    decreases outcomes.len(),
{
    reveal(Seq::filter);
    if outcomes.len() > 0 {
        lemma_failed_providers_leave_no_trace(outcomes.drop_last(), days);
        let kept = outcomes.drop_last().filter(answered::<T>());
        if outcomes.last() is Ok {
            assert(kept.push(outcomes.last()).drop_last() == kept);
        }
    }
}

/// Every bucket count is the number of days asked for, whatever the
/// providers supplied.
pub proof fn lemma_collected_has_every_day<T>(outcomes: Seq<ProviderOutcome<T>>, days: nat)
    ensures
        collected(outcomes, days).len() == days,
    decreases outcomes.len(),
{
    if outcomes.len() > 0 {
        lemma_collected_has_every_day(outcomes.drop_last(), days);
    }
}

/// The bucket of a day holds one report from each provider that supplied
/// one for that day, and nothing else: a provider that reported on fewer days
/// is missing from the later buckets only.
pub proof fn lemma_bucket_holds_what_was_supplied<T>(
    outcomes: Seq<ProviderOutcome<T>>,
    days: nat,
    d: int,
)
    requires
        0 <= d < days,
    ensures
        collected(outcomes, days)[d].len() == supplied(outcomes, d),
    decreases outcomes.len(),
{
    if outcomes.len() > 0 {
        lemma_bucket_holds_what_was_supplied(outcomes.drop_last(), days, d);
        lemma_collected_has_every_day(outcomes.drop_last(), days);
    }
}

/// With no provider that answered, every bucket is empty.
pub proof fn lemma_no_answer_leaves_buckets_empty<T>(outcomes: Seq<ProviderOutcome<T>>, days: nat)
    requires
        forall|i: int| 0 <= i < outcomes.len() ==> outcomes[i] is Err,
    ensures
        collected(outcomes, days) == Seq::new(days, |d: int| Seq::<Report<T>>::empty()),
    decreases outcomes.len(),
{
    if outcomes.len() > 0 {
        lemma_no_answer_leaves_buckets_empty(outcomes.drop_last(), days);
    }
}

} // verus!
