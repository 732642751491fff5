//! Averaging the providers' reports day by day.

use vstd::prelude::*;
use super::Report;

verus! {

/// What an addition can give: `adds(plus)(a, b, sum)` says that `plus` can
/// return `sum` for `a` and `b`.
pub open spec fn adds<T, A: Fn(T, T) -> T>(plus: A) -> spec_fn(T, T, T) -> bool {
    |a: T, b: T, sum: T| plus.ensures((a, b), sum)
}

/// What a division can give: `divides(divide)(total, days, mean)` says that
/// `divide` can return `mean` for `total` and `days`.
pub open spec fn divides<T, D: Fn(T, usize) -> T>(divide: D) -> spec_fn(T, usize, T) -> bool {
    |total: T, days: usize, mean: T| divide.ensures((total, days), mean)
}

/// `total` is a value that adding up `bucket` from `zero`, first report to
/// last, can give.
pub open spec fn sums_to<T>(
    plus: spec_fn(T, T, T) -> bool,
    zero: T,
    bucket: Seq<Report<T>>,
    total: T,
) -> bool
    decreases bucket.len(),
{
    if bucket.len() == 0 {
        total == zero
    } else {
        exists|before: T|
            sums_to(plus, zero, bucket.drop_last(), before) && #[trigger] plus(
                before,
                bucket.last().temperature,
                total,
            )
    }
}

/// `mean` is a value that dividing a sum of `bucket` by `days` can give.
pub open spec fn averages_to<T>(
    plus: spec_fn(T, T, T) -> bool,
    divide: spec_fn(T, usize, T) -> bool,
    zero: T,
    bucket: Seq<Report<T>>,
    days: usize,
    mean: T,
) -> bool {
    exists|total: T| sums_to(plus, zero, bucket, total) && #[trigger] divide(total, days, mean)
}

/// The buckets after one provider's reports went in: the provider's report
/// for day `d` is appended to bucket `d`, for every day that both have.
pub open spec fn pushed<T>(buckets: Seq<Seq<Report<T>>>, reports: Seq<Report<T>>) -> Seq<
    Seq<Report<T>>,
> {
    Seq::new(
        buckets.len(),
        |d: int|
            if d < reports.len() {
                buckets[d].push(reports[d])
            } else {
                buckets[d]
            },
    )
}

/// A day without reports averages to `zero` divided by the number of days.
pub proof fn lemma_empty_bucket_averages_zero<T>(
    plus: spec_fn(T, T, T) -> bool,
    divide: spec_fn(T, usize, T) -> bool,
    zero: T,
    days: usize,
    mean: T,
)
    ensures
        averages_to(plus, divide, zero, Seq::<Report<T>>::empty(), days, mean) <==> divide(
            zero,
            days,
            mean,
        ),
{
}

/// A day with the reports of two providers averages to their sum, taken from
/// `zero` in the order in which they were pushed, divided by the number of
/// days: the divisor is not the number of providers.
pub proof fn lemma_two_reports_average<T>(
    plus: spec_fn(T, T, T) -> bool,
    divide: spec_fn(T, usize, T) -> bool,
    zero: T,
    first: Report<T>,
    second: Report<T>,
    days: usize,
    mean: T,
)
    ensures
        averages_to(plus, divide, zero, seq![first, second], days, mean) <==> exists|
            one: T,
            both: T,
        |
            plus(zero, first.temperature, one) && #[trigger] plus(one, second.temperature, both)
                && #[trigger] divide(both, days, mean),
{
    let bucket = seq![first, second];
    let head = seq![first];
    let empty = Seq::<Report<T>>::empty();
    assert(bucket.drop_last() =~= head);
    reveal_with_fuel(sums_to, 3);
    if averages_to(plus, divide, zero, bucket, days, mean) {
        let both = choose|total: T| sums_to(plus, zero, bucket, total) && #[trigger] divide(total, days, mean);
        let one = choose|before: T|
            sums_to(plus, zero, head, before) && #[trigger] plus(before, second.temperature, both);
        let none = choose|before: T|
            sums_to(plus, zero, empty, before) && #[trigger] plus(before, first.temperature, one);
        assert(plus(zero, first.temperature, one) && plus(one, second.temperature, both) && divide(
            both,
            days,
            mean,
        ));
    }
    if exists|one: T, both: T|
        plus(zero, first.temperature, one) && #[trigger] plus(one, second.temperature, both)
            && #[trigger] divide(both, days, mean) {
        let (one, both) = choose|one: T, both: T|
            plus(zero, first.temperature, one) && #[trigger] plus(one, second.temperature, both)
                && #[trigger] divide(both, days, mean);
        assert(plus(zero, head.last().temperature, one));
        assert(plus(one, bucket.last().temperature, both));
    }
}

/// Pushing spreads a provider's reports by day: the report for day `d` goes
/// to the end of bucket `d`, a day that the provider did not report on keeps
/// its bucket, and no bucket is added or lost.
pub proof fn lemma_pushed_spreads_by_day<T>(
    buckets: Seq<Seq<Report<T>>>,
    reports: Seq<Report<T>>,
    d: int,
)
    requires
        0 <= d < buckets.len(),
    ensures
        pushed(buckets, reports).len() == buckets.len(),
        d < reports.len() ==> pushed(buckets, reports)[d] == buckets[d].push(reports[d]),
        d >= reports.len() ==> pushed(buckets, reports)[d] == buckets[d],
{
}

/// Collects reports by day, one bucket per requested day, and averages each
/// bucket.
pub struct Reducer<T> {
    reports: Vec<Vec<Report<T>>>,
}

impl<T: Copy> Reducer<T> {
    /// The buckets, by day: each holds the reports pushed for that day, in the
    /// order in which they came.
    pub closed spec fn view(&self) -> Seq<Seq<Report<T>>> {
        Seq::new(self.reports@.len(), |d: int| self.reports@[d]@)
    }

    /// The number of days that the reducer was made for.
    pub open spec fn days(&self) -> nat {
        self@.len()
    }

    /// A reducer with `days` empty buckets.
    pub fn new(days: usize) -> (reducer: Self)
        ensures
            reducer@ == Seq::new(days as nat, |d: int| Seq::<Report<T>>::empty()),
    {
        let mut reports: Vec<Vec<Report<T>>> = Vec::new();
        let mut d: usize = 0;
        while d < days
            invariant
                d <= days,
                reports@.len() == d,
                forall|i: int| 0 <= i < d ==> (#[trigger] reports@[i])@ == Seq::<Report<T>>::empty(),
            decreases days - d,
        {
            reports.push(Vec::new());
            d += 1;
        }
        let reducer = Self { reports };
        reducer
    }

    /// Spreads one provider's reports over the buckets: report `d` goes to
    /// bucket `d`. Reports beyond the last bucket are dropped, and buckets
    /// beyond the last report stay as they are.
    pub fn push_provider_reports(&mut self, provider_reports: &Vec<Report<T>>)
        ensures
            final(self)@ == pushed(old(self)@, provider_reports@),
    {
        let ghost before = self@;
        let mut d: usize = 0;
        while d < self.reports.len() && d < provider_reports.len()
            invariant
                self.reports@.len() == before.len(),
                d <= self.reports@.len(),
                d <= provider_reports@.len(),
                forall|i: int|
                    0 <= i < d ==> (#[trigger] self.reports@[i])@ == before[i].push(
                        provider_reports@[i],
                    ),
                forall|i: int| d <= i < before.len() ==> (#[trigger] self.reports@[i])@ == before[i],
            decreases self.reports@.len() - d,
        {
            let report = provider_reports[d];
            self.reports[d].push(report);
            d += 1;
        }
    }

    /// Averages every bucket: the reports of a day are added up from `zero`
    /// with `plus`, in the order in which they came, and the sum is divided by
    /// the number of days with `divide`. The divisor is the number of days
    /// whatever the bucket holds, and an empty bucket gives `zero` divided.
    pub fn reduce_reports<A: Fn(T, T) -> T, D: Fn(T, usize) -> T>(
        &self,
        zero: T,
        plus: A,
        divide: D,
    ) -> (means: Vec<Report<T>>)
        requires
            forall|a: T, b: T| plus.requires((a, b)),
            forall|total: T, days: usize| divide.requires((total, days)),
        ensures
            means@.len() == self.days(),
            forall|d: int|
                0 <= d < self.days() ==> averages_to(
                    adds(plus),
                    divides(divide),
                    zero,
                    self@[d],
                    self.days() as usize,
                    (#[trigger] means@[d]).temperature,
                ),
    {
        let days = self.reports.len();
        let mut means: Vec<Report<T>> = Vec::new();
        let mut d: usize = 0;
        while d < days
            invariant
                days == self.reports@.len(),
                days == self.days(),
                d <= days,
                means@.len() == d,
                forall|a: T, b: T| plus.requires((a, b)),
                forall|total: T, days: usize| divide.requires((total, days)),
                forall|i: int|
                    0 <= i < d ==> averages_to(
                        adds(plus),
                        divides(divide),
                        zero,
                        self@[i],
                        days,
                        (#[trigger] means@[i]).temperature,
                    ),
            decreases days - d,
        {
            let bucket = &self.reports[d];
            let mut total = zero;
            let mut k: usize = 0;
            while k < bucket.len()
                invariant
                    k <= bucket@.len(),
                    forall|a: T, b: T| plus.requires((a, b)),
                    sums_to(adds(plus), zero, bucket@.take(k as int), total),
                decreases bucket@.len() - k,
            {
                let ghost before = total;
                total = plus(total, bucket[k].temperature);
                proof {
                    let longer = bucket@.take(k + 1);
                    assert(longer.drop_last() == bucket@.take(k as int));
                    assert(adds(plus)(before, longer.last().temperature, total));
                }
                k += 1;
            }
            assert(bucket@.take(k as int) == bucket@);
            let mean = divide(total, days);
            assert(divides(divide)(total, days, mean));
            means.push(Report::new(mean));
            d += 1;
        }
        means
    }
}

} // verus!
