use vstd::prelude::*;

use crate::report::ForecastHttpOptions;
use crate::weather::{model_max_runs, ComputeOptions, Model, Station};
use crate::zoned::{lemma_zoned_order, zoned_eq, zoned_lt, DateTimeZoned};
use vstd::pervasive::cloned;

verus! {

/// Concurrent report downloads allowed while following live runs.
pub const LIVE_PERMITS: usize = 12;

/// Concurrent report downloads allowed while reading the historical archive.
pub const BACKTEST_PERMITS: usize = 1;

/// The forecasts of one model run: one report per lead time from 0 to `max_lead_time` hours.
pub struct ForecastCycle {
    pub ts: DateTimeZoned,
    pub max_lead_time: usize,
    pub station: Station,
    pub model: Model,
    pub compute_options: ComputeOptions,
    pub historical: bool,
}

impl ForecastCycle {
    /// The cycle of the run at `ts`.
    pub fn new(
        station: Station,
        model: Model,
        compute_options: ComputeOptions,
        ts: DateTimeZoned,
        max_lead_time: usize,
        historical: bool,
    ) -> (r: ForecastCycle)
        ensures
            r.station == station,
            r.model == model,
            r.compute_options == compute_options,
            r.ts == ts,
            r.max_lead_time == max_lead_time,
            r.historical == historical,
    {
        ForecastCycle { ts, max_lead_time, station, model, compute_options, historical }
    }

    /// How many reports may be downloaded at once: 12 live, 1 from the archive.
    pub fn permits(&self) -> (r: usize)
        ensures
            r == if self.historical {
                BACKTEST_PERMITS
            } else {
                LIVE_PERMITS
            },
    {
        if self.historical {
            BACKTEST_PERMITS
        } else {
            LIVE_PERMITS
        }
    }

    /// Whether each report is polled for until it is published; archived runs are fetched at
    /// once.
    pub fn waits_for_reports(&self) -> (r: bool)
        ensures
            r == !self.historical,
    {
        !self.historical
    }

    /// The lead times of the cycle, `0..=max_lead_time`, in order.
    pub fn lead_times(&self) -> (r: Vec<usize>)
        requires
            self.max_lead_time < usize::MAX,
        ensures
            r@.len() == self.max_lead_time + 1,
            forall|i: int| 0 <= i < r@.len() ==> #[trigger] r@[i] == i,
    {
        let mut out: Vec<usize> = Vec::new();
        let mut lead: usize = 0;
        while lead <= self.max_lead_time
            invariant
                self.max_lead_time < usize::MAX,
                lead <= self.max_lead_time + 1,
                out@.len() == lead,
                forall|i: int| 0 <= i < out@.len() ==> #[trigger] out@[i] == i,
            decreases self.max_lead_time + 1 - lead,
        {
            out.push(lead);
            lead = lead + 1;
        }
        out
    }

    /// The report options of one lead time of this cycle.
    pub fn report_options(&self, lead_time: usize) -> (r: ForecastHttpOptions)
        ensures
            r.model == self.model,
            r.ts == self.ts,
            r.lead_time == lead_time,
            r.historical == self.historical,
    {
        ForecastHttpOptions::new(self.model, self.ts.duplicate(), lead_time, self.historical)
    }
}

/// Whether the keys of `s` strictly increase.
pub open spec fn keys_sorted<V>(s: Seq<(DateTimeZoned, V)>) -> bool {
    forall|i: int, j: int| 0 <= i < j < s.len() ==> zoned_lt(#[trigger] s[i].0, #[trigger] s[j].0)
}

/// Whether some entry of `s` has key `k`.
pub open spec fn has_key<V>(s: Seq<(DateTimeZoned, V)>, k: DateTimeZoned) -> bool {
    exists|i: int| 0 <= i < s.len() && zoned_eq(#[trigger] s[i].0, k)
}

/// A snapshot of one run's forecasts: the forecasts received so far, keyed by the instant they
/// are for and in key order, how many there are, and how many the run has.
pub struct WeatherForecast<V> {
    pub forecast: Vec<(DateTimeZoned, V)>,
    pub complete: bool,
    pub num_lead_times: usize,
    pub total_lead_times: usize,
}

impl<V> WeatherForecast<V> {
    /// The count is the number of forecasts, and the snapshot is complete exactly when that
    /// count is the run's total.
    pub open spec fn wf(&self) -> bool {
        &&& self.num_lead_times == self.forecast@.len()
        &&& self.complete == (self.num_lead_times == self.total_lead_times)
    }

    /// The snapshot of `forecast` for a run with lead times `0..=max_lead_time`.
    pub fn new(forecast: Vec<(DateTimeZoned, V)>, max_lead_time: usize) -> (r: WeatherForecast<V>)
        requires
            max_lead_time < usize::MAX,
        ensures
            r.wf(),
            r.forecast == forecast,
            r.total_lead_times == max_lead_time + 1,
    {
        let num_lead_times = forecast.len();
        let total_lead_times = max_lead_time + 1;
        let complete = num_lead_times == total_lead_times;
        WeatherForecast { forecast, complete, num_lead_times, total_lead_times }
    }
}

/// Whether `k` is an instant of the run at `run`: in the run's zone, a whole number of hours,
/// from 0 to `max_lead`, after it.
pub open spec fn in_run(k: DateTimeZoned, run: DateTimeZoned, max_lead: int) -> bool {
    &&& k.zone@ == run.zone@
    &&& 0 <= k.timestamp - run.timestamp <= 3600 * max_lead
    &&& (k.timestamp - run.timestamp) % 3600 == 0
}

/// Whether some entry of `s` is for the instant `hours` hours after `run`.
pub open spec fn has_lead<V>(s: Seq<(DateTimeZoned, V)>, run: DateTimeZoned, hours: int) -> bool {
    exists|i: int| 0 <= i < s.len() && (#[trigger] s[i].0).timestamp == run.timestamp + 3600 * hours
}

proof fn lemma_leads_lower(h: Seq<int>, i: int)
    requires
        0 <= i < h.len(),
        forall|a: int, b: int| 0 <= a < b < h.len() ==> #[trigger] h[a] < #[trigger] h[b],
        forall|a: int| 0 <= a < h.len() ==> 0 <= #[trigger] h[a],
    ensures
        h[i] >= i,
    decreases i,
{
    if i > 0 {
        lemma_leads_lower(h, i - 1);
        assert(h[i - 1] < h[i]);
    }
}

proof fn lemma_leads_upper(h: Seq<int>, last: int, i: int)
    requires
        0 <= i < h.len(),
        h.len() == last + 1,
        forall|a: int, b: int| 0 <= a < b < h.len() ==> #[trigger] h[a] < #[trigger] h[b],
        forall|a: int| 0 <= a < h.len() ==> #[trigger] h[a] <= last,
    ensures
        h[i] <= i,
    decreases h.len() - i,
{
    if i < h.len() - 1 {
        lemma_leads_upper(h, last, i + 1);
        assert(h[i] < h[i + 1]);
    }
}

/// `last + 1` strictly increasing values between 0 and `last` are exactly `0, 1, ..., last`.
proof fn lemma_exact_leads(h: Seq<int>, last: int)
    requires
        h.len() == last + 1,
        forall|a: int, b: int| 0 <= a < b < h.len() ==> #[trigger] h[a] < #[trigger] h[b],
        forall|a: int| 0 <= a < h.len() ==> 0 <= #[trigger] h[a] <= last,
    ensures
        forall|i: int| 0 <= i < h.len() ==> #[trigger] h[i] == i,
{
    assert forall|i: int| 0 <= i < h.len() implies #[trigger] h[i] == i by {
        lemma_leads_lower(h, i);
        lemma_leads_upper(h, last, i);
    }
}

/// Inserts `(at, value)` into a key-sorted vector, replacing the entry with the same key.
fn insert_sorted<V>(state: &mut Vec<(DateTimeZoned, V)>, at: DateTimeZoned, value: V)
    requires
        keys_sorted(old(state)@),
    ensures
        keys_sorted(final(state)@),
        exists|i: int| 0 <= i < final(state)@.len() && final(state)@[i] == (at, value),
        final(state)@.len() == old(state)@.len() + if has_key(old(state)@, at) {
            0int
        } else {
            1int
        },
        forall|i: int|
            0 <= i < old(state)@.len() && !zoned_eq(#[trigger] old(state)@[i].0, at)
                ==> final(state)@.contains(old(state)@[i]),
        forall|i: int|
            0 <= i < final(state)@.len() ==> #[trigger] final(state)@[i] == (at, value) || old(
                state,
            )@.contains(final(state)@[i]),
{
    let ghost old_state = state@;
    let n = state.len();
    let mut p: usize = 0;
    while p < n
        invariant
            n == state@.len(),
            state@ == old_state,
            p <= n,
            forall|i: int| 0 <= i < p ==> zoned_lt(#[trigger] old_state[i].0, at),
        ensures
            p <= n,
            state@ == old_state,
            forall|i: int| 0 <= i < p ==> zoned_lt(#[trigger] old_state[i].0, at),
            p < n ==> !zoned_lt(old_state[p as int].0, at),
        decreases n - p,
    {
        if !state[p].0.precedes(&at) {
            break;
        }
        p = p + 1;
    }
    let replace = p < n && state[p].0.same_as(&at);
    let ghost entry = (at, value);
    proof {
        assert(keys_sorted(old_state));
        assert forall|i: int| 0 <= i < n && i != p implies !zoned_eq(#[trigger] old_state[i].0, at) by {
            lemma_zoned_order(old_state[i].0, at, at);
            if i > p {
                assert(zoned_lt(old_state[p as int].0, old_state[i].0));
            }
            if i > p {
                lemma_zoned_order(old_state[p as int].0, at, old_state[i].0);
                lemma_zoned_order(at, old_state[p as int].0, old_state[i].0);
                lemma_zoned_order(old_state[i].0, at, old_state[p as int].0);
            }
        }
        if p < n && !replace {
            lemma_zoned_order(old_state[p as int].0, at, at);
        }
    }
    if replace {
        state.remove(p);
        state.insert(p, (at, value));
        assert(state@ == old_state.update(p as int, entry));
    } else {
        state.insert(p, (at, value));
    }
    proof {
        let s = state@;
        assert(s[p as int] == entry);
        assert forall|i: int, j: int| 0 <= i < j < s.len() implies zoned_lt(#[trigger] s[i].0, #[trigger] s[j].0) by {
            if replace {
                if i == p {
                    lemma_zoned_order(at, old_state[p as int].0, old_state[j].0);
                    assert(zoned_lt(old_state[p as int].0, old_state[j].0));
                    assert(zoned_eq(old_state[p as int].0, at));
                } else if j == p {
                    assert(zoned_lt(old_state[i].0, at));
                }
            } else {
                if i == p {
                    lemma_zoned_order(at, old_state[p as int].0, old_state[j - 1].0);
                    if j - 1 > p {
                        assert(zoned_lt(old_state[p as int].0, old_state[j - 1].0));
                    }
                } else if j == p {
                    assert(zoned_lt(old_state[i].0, at));
                } else if i > p {
                    assert(s[i] == old_state[i - 1] && s[j] == old_state[j - 1]);
                } else if j > p {
                    assert(s[j] == old_state[j - 1]);
                }
            }
        }
        if replace {
            assert(has_key(old_state, at));
            assert forall|i: int|
                0 <= i < old_state.len() && !zoned_eq(#[trigger] old_state[i].0, at) implies s.contains(old_state[i]) by {
                assert(s[i] == old_state[i]);
            }
        } else {
            assert(!has_key(old_state, at)) by {
                if has_key(old_state, at) {
                    let k = choose|k: int| 0 <= k < old_state.len() && zoned_eq(#[trigger] old_state[k].0, at);
                    if k == p {
                        assert(zoned_eq(old_state[p as int].0, at));
                    }
                }
            }
            assert forall|i: int|
                0 <= i < old_state.len() && !zoned_eq(#[trigger] old_state[i].0, at) implies s.contains(old_state[i]) by {
                if i < p {
                    assert(s[i] == old_state[i]);
                } else {
                    assert(s[i + 1] == old_state[i]);
                }
            }
        }
    }
    proof {
        let s = state@;
        assert forall|i: int| 0 <= i < s.len() implies #[trigger] s[i] == entry
            || old_state.contains(s[i]) by {
            if replace {
                if i != p {
                    assert(s[i] == old_state[i]);
                }
            } else if i < p {
                assert(s[i] == old_state[i]);
            } else if i > p {
                assert(s[i] == old_state[i - 1]);
            }
        }
        assert(state@[p as int] == entry);
    }
}

/// Follows a station's forecasts run after run, accumulating each run's forecasts into a
/// snapshot that grows with every report and is cleared when the run ends.
///
/// The caller drives it: it starts the first run, runs each cycle, hands each result over as it
/// arrives, and ends the cycle when every lead time has reported, which moves to the next hour.
pub struct ForecastFetcher<V> {
    state: Vec<(DateTimeZoned, V)>,
    run: Option<DateTimeZoned>,
    station: Station,
    model: Model,
    max_lead_time: usize,
    compute_options: ComputeOptions,
    results: usize,
    completes: Ghost<nat>,
}

impl<V> ForecastFetcher<V> {
    /// The forecasts of the current run so far, in key order.
    pub closed spec fn state_view(&self) -> Seq<(DateTimeZoned, V)> {
        self.state@
    }

    /// The timestamp of the current run, once one has started.
    pub closed spec fn run_view(&self) -> Option<DateTimeZoned> {
        self.run
    }

    /// How many results, forecasts or errors, the current run has delivered.
    pub closed spec fn results_view(&self) -> nat {
        self.results as nat
    }

    /// How many complete snapshots the current run has emitted.
    pub closed spec fn completes_view(&self) -> nat {
        self.completes@
    }

    /// The longest lead time of each run.
    pub closed spec fn max_lead_view(&self) -> usize {
        self.max_lead_time
    }

    /// The fetcher's invariant.
    pub closed spec fn wf(&self) -> bool {
        &&& keys_sorted(self.state@)
        &&& self.max_lead_time <= model_max_runs(self.model)
        &&& self.state@.len() <= self.results <= self.max_lead_time + 1
        &&& self.completes@ <= 1
        &&& self.completes@ == 1 ==> self.results == self.max_lead_time + 1 && self.state@.len()
            == self.max_lead_time + 1
        &&& self.run is None ==> self.state@.len() == 0
        &&& self.run matches Some(run) ==> forall|i: int|
            0 <= i < self.state@.len() ==> in_run(#[trigger] self.state@[i].0, run, self.max_lead_time as int)
    }

    /// A fetcher for `station` and `model` whose runs have lead times `0..=max_lead_time`;
    /// the compute options default to the cached grid cell.
    pub fn new(
        station: Station,
        model: Model,
        max_lead_time: usize,
        compute_options: Option<ComputeOptions>,
    ) -> (r: ForecastFetcher<V>)
        requires
            max_lead_time <= model_max_runs(model),
        ensures
            r.wf(),
            r.station() == station,
            r.model() == model,
            r.max_lead_view() == max_lead_time,
            r.compute_options() == match compute_options {
                Some(c) => c,
                None => ComputeOptions::Precomputed,
            },
            r.run_view() is None,
            r.state_view().len() == 0,
            r.results_view() == 0,
            r.completes_view() == 0,
    {
        let compute_options = match compute_options {
            Some(c) => c,
            None => ComputeOptions::Precomputed,
        };
        ForecastFetcher {
            state: Vec::new(),
            run: None,
            station,
            model,
            max_lead_time,
            compute_options,
            results: 0,
            completes: Ghost(0),
        }
    }

    /// The station followed.
    pub closed spec fn station(&self) -> Station {
        self.station
    }

    /// The model followed.
    pub closed spec fn model(&self) -> Model {
        self.model
    }

    /// How the station's grid cell is found.
    pub closed spec fn compute_options(&self) -> ComputeOptions {
        self.compute_options
    }

    /// Starts following the run at `ts`, with an empty snapshot.
    pub fn start_run(&mut self, ts: DateTimeZoned)
        requires
            old(self).wf(),
        ensures
            final(self).wf(),
            final(self).run_view() == Some(ts),
            final(self).state_view().len() == 0,
            final(self).results_view() == 0,
            final(self).completes_view() == 0,
            final(self).max_lead_view() == old(self).max_lead_view(),
            final(self).station() == old(self).station(),
            final(self).model() == old(self).model(),
            final(self).compute_options() == old(self).compute_options(),
    {
        self.state.clear();
        self.run = Some(ts);
        self.results = 0;
        self.completes = Ghost(0);
    }

    /// How many results, forecasts or errors, the current run has delivered.
    pub fn results(&self) -> (r: usize)
        ensures
            r == self.results_view(),
    {
        self.results
    }

    /// The longest lead time of each run.
    pub fn max_lead_time(&self) -> (r: usize)
        ensures
            r == self.max_lead_view(),
    {
        self.max_lead_time
    }

    /// The timestamp of the current run, once one has started.
    pub fn current_run(&self) -> (r: Option<DateTimeZoned>)
        ensures
            r == self.run_view(),
    {
        match &self.run {
            Some(run) => Some(run.duplicate()),
            None => None,
        }
    }

    /// The cycle of the current live run.
    pub fn cycle(&self) -> (r: ForecastCycle)
        requires
            self.run_view() is Some,
        ensures
            r.ts == self.run_view()->0,
            r.station == self.station(),
            r.model == self.model(),
            r.compute_options == self.compute_options(),
            r.max_lead_time == self.max_lead_view(),
            !r.historical,
    {
        let ts = match &self.run {
            Some(run) => run.duplicate(),
            None => DateTimeZoned::utc(0),
        };
        ForecastCycle::new(
            self.station,
            self.model,
            self.compute_options,
            ts,
            self.max_lead_time,
            false,
        )
    }

    /// A full snapshot of a run holds exactly the instants `run + 0h, run + 1h, ..., run + Lh`,
    /// in that order.
    pub proof fn lemma_full_run_keys(&self)
        requires
            self.wf(),
            self.run_view() is Some,
            self.state_view().len() == self.max_lead_view() + 1,
        ensures
            forall|i: int|
                0 <= i < self.state_view().len() ==> (#[trigger] self.state_view()[i]).0.zone@
                    == self.run_view()->0.zone@ && self.state_view()[i].0.timestamp
                    == self.run_view()->0.timestamp + 3600 * i,
    {
        let run = self.run->0;
        let n = self.state@.len();
        let last = self.max_lead_time as int;
        crate::zoned::lemma_chars_lt_irreflexive(run.zone@);
        let h = Seq::new(n, |i: int| (self.state@[i].0.timestamp - run.timestamp) / 3600);
        assert forall|i: int| 0 <= i < n implies #[trigger] (h[i] * 3600) == self.state@[i].0.timestamp
            - run.timestamp && 0 <= h[i] <= last by {
            assert(in_run(self.state@[i].0, run, last));
            vstd::arithmetic::div_mod::lemma_fundamental_div_mod(
                self.state@[i].0.timestamp - run.timestamp,
                3600,
            );
        }
        assert forall|a: int, b: int| 0 <= a < b < h.len() implies #[trigger] h[a] < #[trigger] h[b] by {
            assert(zoned_lt(self.state@[a].0, self.state@[b].0));
            assert(in_run(self.state@[a].0, run, last) && in_run(self.state@[b].0, run, last));
            assert(h[a] * 3600 == self.state@[a].0.timestamp - run.timestamp);
            assert(h[b] * 3600 == self.state@[b].0.timestamp - run.timestamp);
        }
        lemma_exact_leads(h, last);
        assert forall|i: int| 0 <= i < n implies (#[trigger] self.state@[i]).0.zone@ == run.zone@
            && self.state@[i].0.timestamp == run.timestamp + 3600 * i by {
            assert(in_run(self.state@[i].0, run, last));
            assert(h[i] == i);
            assert(h[i] * 3600 == self.state@[i].0.timestamp - run.timestamp);
        }
    }

    /// At most one complete snapshot is emitted per run, and it holds a forecast for each of the
    /// run's lead times.
    pub proof fn lemma_single_complete(&self)
        requires
            self.wf(),
        ensures
            self.completes_view() <= 1,
            self.completes_view() == 1 ==> self.state_view().len() == self.max_lead_view() + 1,
    {
    }

    /// Records a lead time that failed: it counts towards the run's results and leaves the
    /// snapshot as it was.
    pub fn record_error(&mut self)
        requires
            old(self).wf(),
            old(self).results_view() < old(self).max_lead_view() + 1,
        ensures
            final(self).wf(),
            final(self).state_view() == old(self).state_view(),
            final(self).run_view() == old(self).run_view(),
            final(self).results_view() == old(self).results_view() + 1,
            final(self).completes_view() == old(self).completes_view(),
            final(self).max_lead_view() == old(self).max_lead_view(),
    {
        self.results = self.results + 1;
    }

    /// Ends the current run: the snapshot is cleared and the next run, an hour later, begins.
    /// Fails with `InstantInvalid`, and stops following runs, when that hour does not fit.
    pub fn end_cycle(&mut self) -> (r: Result<(), crate::error::BotError>)
        requires
            old(self).wf(),
            old(self).run_view() is Some,
        ensures
            final(self).wf(),
            final(self).state_view().len() == 0,
            final(self).results_view() == 0,
            final(self).completes_view() == 0,
            final(self).max_lead_view() == old(self).max_lead_view(),
            r is Ok <==> old(self).run_view()->0.timestamp + 3600 <= i64::MAX,
            r is Ok ==> (final(self).run_view() matches Some(next) && next.timestamp == old(
                self,
            ).run_view()->0.timestamp + 3600 && next.zone@ == old(self).run_view()->0.zone@),
            r matches Err(e) ==> e == crate::error::BotError::InstantInvalid
                && final(self).run_view() is None,
    {
        self.state.clear();
        self.results = 0;
        self.completes = Ghost(0);
        let next = match &self.run {
            Some(run) => run.plus_hours(1),
            None => None,
        };
        match next {
            Some(ts) => {
                self.run = Some(ts);
                Ok(())
            },
            None => {
                self.run = None;
                Err(crate::error::BotError::InstantInvalid)
            },
        }
    }
}

impl<V: Clone> ForecastFetcher<V> {
    /// The current snapshot: a copy of the run's forecasts with their count and completeness.
    pub fn snapshot(&self) -> (r: WeatherForecast<V>)
        requires
            self.wf(),
        ensures
            r.wf(),
            r.total_lead_times == self.max_lead_view() + 1,
            r.forecast@.len() == self.state_view().len(),
            forall|i: int| 0 <= i < r.forecast@.len() ==> #[trigger] r.forecast@[i].0 == self.state_view()[i].0,
            forall|i: int|
                0 <= i < r.forecast@.len() ==> cloned(self.state_view()[i].1, #[trigger] r.forecast@[i].1),
    {
        let mut out: Vec<(DateTimeZoned, V)> = Vec::new();
        let mut i: usize = 0;
        while i < self.state.len()
            invariant
                i <= self.state@.len(),
                out@.len() == i,
                forall|k: int| 0 <= k < i ==> #[trigger] out@[k].0 == self.state@[k].0,
                forall|k: int| 0 <= k < i ==> cloned(self.state@[k].1, #[trigger] out@[k].1),
            decreases self.state@.len() - i,
        {
            let key = self.state[i].0.duplicate();
            let value = self.state[i].1.clone();
            out.push((key, value));
            i = i + 1;
        }
        WeatherForecast::new(out, self.max_lead_time)
    }

    /// Records the forecast of lead time `lead_time` of the current run: it joins the snapshot
    /// under the instant `lead_time` hours after the run, in key order, replacing any forecast for
    /// that instant, and the updated snapshot is returned. A complete snapshot is returned at
    /// most once per run, and its keys are the run's instants `0, 1, ..., L` hours on. Fails with
    /// `InstantInvalid`, counting as a failed lead time, when that instant does not fit.
    pub fn record(&mut self, lead_time: usize, value: V) -> (r: Result<WeatherForecast<V>, crate::error::BotError>)
        requires
            old(self).wf(),
            old(self).run_view() is Some,
            old(self).results_view() < old(self).max_lead_view() + 1,
            lead_time <= old(self).max_lead_view(),
        ensures
            final(self).wf(),
            final(self).run_view() == old(self).run_view(),
            final(self).results_view() == old(self).results_view() + 1,
            final(self).max_lead_view() == old(self).max_lead_view(),
            r is Ok <==> old(self).run_view()->0.timestamp + 3600 * lead_time <= i64::MAX,
            r matches Err(e) ==> e == crate::error::BotError::InstantInvalid && final(self).state_view()
                == old(self).state_view() && final(self).completes_view() == old(self).completes_view(),
            r matches Ok(w) ==> {
                let run = old(self).run_view()->0;
                let t = run.timestamp + 3600 * lead_time;
                &&& w.wf()
                &&& w.total_lead_times == old(self).max_lead_view() + 1
                &&& w.forecast@.len() == final(self).state_view().len()
                &&& forall|i: int| 0 <= i < w.forecast@.len() ==> #[trigger] w.forecast@[i].0 == final(self).state_view()[i].0
                &&& forall|i: int| 0 <= i < w.forecast@.len() ==> cloned(final(self).state_view()[i].1, #[trigger] w.forecast@[i].1)
                &&& exists|i: int|
                    0 <= i < final(self).state_view().len() && (#[trigger] final(self).state_view()[i]).1 == value
                        && final(self).state_view()[i].0.timestamp == t
                        && final(self).state_view()[i].0.zone@ == run.zone@
                &&& final(self).state_view().len() == old(self).state_view().len() + if has_lead(
                    old(self).state_view(),
                    run,
                    lead_time as int,
                ) {
                    0int
                } else {
                    1int
                }
                &&& forall|i: int|
                    0 <= i < old(self).state_view().len() && (#[trigger] old(self).state_view()[i]).0.timestamp != t
                        ==> final(self).state_view().contains(old(self).state_view()[i])
                &&& w.complete ==> old(self).completes_view() == 0 && final(self).completes_view() == 1
                    && forall|i: int|
                    0 <= i < w.forecast@.len() ==> (#[trigger] w.forecast@[i]).0.zone@ == run.zone@
                        && w.forecast@[i].0.timestamp == run.timestamp + 3600 * i
                &&& !w.complete ==> final(self).completes_view() == old(self).completes_view()
            },
    {
        let run = match &self.run {
            Some(run) => run.duplicate(),
            None => DateTimeZoned::utc(0),
        };
        let at = match run.plus_hours(lead_time as i64) {
            Some(at) => at,
            None => {
                self.results = self.results + 1;
                return Err(crate::error::BotError::InstantInvalid);
            },
        };
        let ghost old_state = self.state@;
        let ghost t = run.timestamp + 3600 * lead_time;
        proof {
            vstd::arithmetic::div_mod::lemma_mod_multiples_basic(lead_time as int, 3600);
            assert(in_run(at, run, self.max_lead_time as int));
            assert forall|i: int| 0 <= i < old_state.len() implies zoned_eq(#[trigger] old_state[i].0, at)
                == (old_state[i].0.timestamp == t) by {
                assert(in_run(old_state[i].0, run, self.max_lead_time as int));
            }
            if has_key(old_state, at) {
                let k = choose|k: int| 0 <= k < old_state.len() && zoned_eq(#[trigger] old_state[k].0, at);
                assert(old_state[k].0.timestamp == t);
            }
            if has_lead(old_state, run, lead_time as int) {
                let k = choose|k: int| 0 <= k < old_state.len() && (#[trigger] old_state[k].0).timestamp == t;
                assert(zoned_eq(old_state[k].0, at));
            }
        }
        let ghost entry = (at, value);
        insert_sorted(&mut self.state, at, value);
        proof {
            assert forall|i: int| 0 <= i < self.state@.len() implies in_run(#[trigger] self.state@[i].0, run, self.max_lead_time as int) by {
                if self.state@[i] != entry {
                    let k = choose|k: int| 0 <= k < old_state.len() && old_state[k] == self.state@[i];
                    assert(in_run(old_state[k].0, run, self.max_lead_time as int));
                }
            }
            let k = choose|k: int| 0 <= k < self.state@.len() && self.state@[k] == entry;
            assert(self.state_view()[k].1 == value);
        }
        self.results = self.results + 1;
        let r = self.snapshot();
        if r.complete {
            self.completes = Ghost(1);
            proof {
                self.lemma_full_run_keys();
            }
        }
        Ok(r)
    }
}

} // verus!
