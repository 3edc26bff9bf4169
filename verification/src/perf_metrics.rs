//! Rolling run-time metrics.

use crate::name_map::NameMap;
use vstd::multiset::Multiset;
use vstd::prelude::*;

verus! {

/// How many samples a window is to hold.
pub const DEFAULT_WINDOW_CAP: usize = 240;

/// The largest sample; a duration of one minute in microseconds.
pub const HISTOGRAM_MAX_VALUE: u64 = 60_000_000;

/// How many decimal digits of a sample are kept.
pub const HISTOGRAM_SIG_FIGS: u8 = 3;

/// How many times its capacity a window collects before it starts again.
pub const HISTOGRAM_DECAY_MULTIPLIER: usize = 4;

/// A histogram of samples.
#[verifier::external_body]
pub struct SampleHistogram {
    pub inner: hdrhistogram::Histogram<u64>,
}

/// The width of the range of samples that are counted together with `value`.
pub open spec fn resolution(value: nat) -> nat
    decreases value,
{
    if value < 2048 {
        1
    } else {
        2 * resolution(value / 2)
    }
}

/// The smallest sample that is counted together with `value`.
pub open spec fn rounded(value: u64) -> u64 {
    (value - value as nat % resolution(value as nat)) as u64
}

/// The samples in a histogram, each rounded down to the smallest sample that is
/// counted together with it.
pub uninterp spec fn histogram_samples(histogram: SampleHistogram) -> Multiset<u64>;

/// The largest sample that a histogram takes.
pub uninterp spec fn histogram_high(histogram: SampleHistogram) -> u64;

/// `hdrhistogram::Histogram::new_with_bounds`, for samples from one up that are
/// kept to three digits: an empty histogram.
#[verifier::external_body]
fn histogram_new(low: u64, high: u64, digits: u8) -> (histogram: SampleHistogram)
    requires
        low == 1,
        2 <= high <= 1_000_000_000,
        digits == 3,
    ensures
        histogram_samples(histogram) == (Multiset::<u64>::empty()),
        histogram_high(histogram) == high,
{
    SampleHistogram { inner: hdrhistogram::Histogram::new_with_bounds(low, high, digits).unwrap() }
}

/// `hdrhistogram::Histogram::reset`: nothing is recorded any more.
#[verifier::external_body]
fn histogram_reset(histogram: &mut SampleHistogram)
    ensures
        histogram_samples(*final(histogram)) == (Multiset::<u64>::empty()),
        histogram_high(*final(histogram)) == histogram_high(*old(histogram)),
{
    histogram.inner.reset()
}

/// `hdrhistogram::Histogram::record`: takes in one sample.  It succeeds for every
/// sample that is not above the largest one.
#[verifier::external_body]
fn histogram_record(histogram: &mut SampleHistogram, value: u64) -> (recorded: bool)
    requires
        value <= histogram_high(*old(histogram)),
        histogram_samples(*old(histogram)).len() < u64::MAX,
    ensures
        recorded,
        histogram_samples(*final(histogram)) == histogram_samples(*old(histogram)).insert(
            rounded(value),
        ),
        histogram_high(*final(histogram)) == histogram_high(*old(histogram)),
{
    histogram.inner.record(value).is_ok()
}

/// What a window holds.
pub struct WindowState {
    /// The samples, rounded, that came in since the window last started.
    pub samples: Multiset<u64>,
    /// How many samples the window is to hold.
    pub capacity: nat,
}

impl WindowState {
    /// How many samples make the window start again.
    pub open spec fn decay_at(self) -> nat {
        if self.capacity * HISTOGRAM_DECAY_MULTIPLIER > usize::MAX {
            usize::MAX as nat
        } else {
            self.capacity * HISTOGRAM_DECAY_MULTIPLIER as nat
        }
    }

    pub open spec fn wf(self) -> bool {
        &&& self.capacity > 0
        &&& self.samples.len() <= self.decay_at()
    }

    pub open spec fn fresh(capacity: nat) -> Self {
        WindowState { samples: Multiset::empty(), capacity }
    }

    /// The window after one more sample.
    pub open spec fn pushed(self, stored_value: u64) -> Self {
        let kept = if self.samples.len() >= self.decay_at() {
            Multiset::empty()
        } else {
            self.samples
        };
        WindowState { samples: kept.insert(rounded(clamped(stored_value))), ..self }
    }
}

/// `value`, moved into the range of a histogram.
pub open spec fn clamped(value: u64) -> u64 {
    if value < 1 {
        1
    } else if value > HISTOGRAM_MAX_VALUE {
        HISTOGRAM_MAX_VALUE
    } else {
        value
    }
}

/// The sample for a duration.
pub open spec fn duration_sample(micros: u128) -> u64 {
    if micros < 1 {
        1
    } else if micros > HISTOGRAM_MAX_VALUE {
        HISTOGRAM_MAX_VALUE
    } else {
        micros as u64
    }
}

/// The sample for a value: one more than the value, so that zero can be counted.
pub open spec fn value_sample(value: u64) -> u64 {
    if value == u64::MAX {
        value
    } else {
        (value + 1) as u64
    }
}

/// The value that a sample stands for.
pub fn value_from_sample(sample: u64) -> (value: u64)
    ensures
        value == (if sample == 0 {
            0
        } else {
            sample - 1
        }),
{
    sample.saturating_sub(1)
}

/// The latest samples of one metric.
pub struct MetricWindow {
    histogram: SampleHistogram,
    recorded_samples: usize,
    max_samples: usize,
}

impl View for MetricWindow {
    type V = WindowState;

    closed spec fn view(&self) -> WindowState {
        WindowState {
            samples: histogram_samples(self.histogram),
            capacity: self.max_samples as nat,
        }
    }
}

impl MetricWindow {
    pub closed spec fn wf(&self) -> bool {
        &&& self@.wf()
        &&& self.recorded_samples == self@.samples.len()
        &&& histogram_high(self.histogram) == HISTOGRAM_MAX_VALUE
    }

    /// An empty window for the given number of samples, and for one at least.
    pub fn with_capacity(max_samples: usize) -> (window: Self)
        ensures
            window.wf(),
            window@ == WindowState::fresh(
                (if max_samples == 0 {
                    1
                } else {
                    max_samples as nat
                }),
            ),
    {
        MetricWindow {
            histogram: histogram_new(1, HISTOGRAM_MAX_VALUE, HISTOGRAM_SIG_FIGS),
            recorded_samples: 0,
            max_samples: if max_samples == 0 {
                1
            } else {
                max_samples
            },
        }
    }

    fn push_stored_value(&mut self, stored_value: u64)
        requires
            old(self).wf(),
        ensures
            final(self).wf(),
            final(self)@ == old(self)@.pushed(stored_value),
    {
        let value: u64 = if stored_value < 1 {
            1
        } else if stored_value > HISTOGRAM_MAX_VALUE {
            HISTOGRAM_MAX_VALUE
        } else {
            stored_value
        };
        let decay_at: usize = if self.max_samples > usize::MAX / HISTOGRAM_DECAY_MULTIPLIER {
            usize::MAX
        } else {
            self.max_samples * HISTOGRAM_DECAY_MULTIPLIER
        };
        assert(decay_at == self@.decay_at());
        if self.recorded_samples >= decay_at {
            histogram_reset(&mut self.histogram);
            self.recorded_samples = 0;
        }
        if histogram_record(&mut self.histogram, value) {
            self.recorded_samples = self.recorded_samples + 1;
        }
    }

    /// Takes in a duration, given in microseconds.
    pub fn push_duration(&mut self, micros: u128)
        requires
            old(self).wf(),
        ensures
            final(self).wf(),
            final(self)@ == old(self)@.pushed(duration_sample(micros)),
    {
        let sample: u64 = if micros < 1 {
            1
        } else if micros > HISTOGRAM_MAX_VALUE as u128 {
            HISTOGRAM_MAX_VALUE
        } else {
            micros as u64
        };
        self.push_stored_value(sample);
    }

    /// Takes in a value.
    pub fn push_value(&mut self, value: u64)
        requires
            old(self).wf(),
        ensures
            final(self).wf(),
            final(self)@ == old(self)@.pushed(value_sample(value)),
    {
        self.push_stored_value(value.saturating_add(1));
    }

    /// The histogram of the samples, if there are any.
    pub fn recorded(&self) -> (histogram: Option<&SampleHistogram>)
        requires
            self.wf(),
        ensures
            histogram is Some <==> self@.samples.len() > 0,
            histogram matches Some(h) ==> histogram_samples(*h) == self@.samples,
    {
        if self.recorded_samples == 0 {
            None
        } else {
            Some(&self.histogram)
        }
    }
}

impl Default for MetricWindow {
    fn default() -> (window: Self)
        ensures
            window.wf(),
            window@ == WindowState::fresh(DEFAULT_WINDOW_CAP as nat),
    {
        Self::with_capacity(DEFAULT_WINDOW_CAP)
    }
}

/// What the metrics hold.
pub struct PerfState {
    pub durations: Map<Seq<char>, WindowState>,
    pub values: Map<Seq<char>, WindowState>,
    pub counters: Map<Seq<char>, u64>,
}

/// The window of a metric; one that was never recorded has an empty one.
pub open spec fn window_of(windows: Map<Seq<char>, WindowState>, metric: Seq<char>) -> WindowState {
    if windows.contains_key(metric) {
        windows[metric]
    } else {
        WindowState::fresh(DEFAULT_WINDOW_CAP as nat)
    }
}

/// The count of a counter; one that was never counted has zero.
pub open spec fn counter_of(counters: Map<Seq<char>, u64>, metric: Seq<char>) -> u64 {
    if counters.contains_key(metric) {
        counters[metric]
    } else {
        0
    }
}

spec fn window_states(windows: Map<Seq<char>, MetricWindow>) -> Map<Seq<char>, WindowState> {
    Map::new(|name: Seq<char>| windows.contains_key(name), |name: Seq<char>| windows[name]@)
}

spec fn windows_wf(windows: Map<Seq<char>, MetricWindow>) -> bool {
    forall|name: Seq<char>| #[trigger] windows.contains_key(name) ==> windows[name].wf()
}

/// Durations, values and counters by name.
pub struct PerfMetrics {
    duration_windows: NameMap<MetricWindow>,
    value_windows: NameMap<MetricWindow>,
    counters: NameMap<u64>,
}

impl View for PerfMetrics {
    type V = PerfState;

    closed spec fn view(&self) -> PerfState {
        PerfState {
            durations: window_states(self.duration_windows@),
            values: window_states(self.value_windows@),
            counters: self.counters@,
        }
    }
}

impl PerfMetrics {
    pub closed spec fn wf(&self) -> bool {
        &&& self.duration_windows.wf()
        &&& self.value_windows.wf()
        &&& self.counters.wf()
        &&& windows_wf(self.duration_windows@)
        &&& windows_wf(self.value_windows@)
    }

    /// Records how long something took, in microseconds.
    pub fn record_duration(&mut self, metric: &'static str, micros: u128)
        requires
            old(self).wf(),
        ensures
            final(self).wf(),
            final(self)@ == (PerfState {
                durations: old(self)@.durations.insert(
                    metric@,
                    window_of(old(self)@.durations, metric@).pushed(duration_sample(micros)),
                ),
                ..old(self)@
            }),
    {
        let ghost before = *self;
        let window = self.duration_windows.entry(
            metric,
            MetricWindow::with_capacity(DEFAULT_WINDOW_CAP),
        );
        window.push_duration(micros);
        assert(self@.durations =~= before@.durations.insert(
            metric@,
            window_of(before@.durations, metric@).pushed(duration_sample(micros)),
        ));
    }

    /// Records a value.
    pub fn record_value(&mut self, metric: &'static str, value: u64)
        requires
            old(self).wf(),
        ensures
            final(self).wf(),
            final(self)@ == (PerfState {
                values: old(self)@.values.insert(
                    metric@,
                    window_of(old(self)@.values, metric@).pushed(value_sample(value)),
                ),
                ..old(self)@
            }),
    {
        let ghost before = *self;
        let window = self.value_windows.entry(
            metric,
            MetricWindow::with_capacity(DEFAULT_WINDOW_CAP),
        );
        window.push_value(value);
        assert(self@.values =~= before@.values.insert(
            metric@,
            window_of(before@.values, metric@).pushed(value_sample(value)),
        ));
    }

    /// Adds to a counter, which stops when it is full.
    pub fn increment_counter(&mut self, metric: &'static str, delta: u64)
        requires
            old(self).wf(),
        ensures
            final(self).wf(),
            final(self)@ == (PerfState {
                counters: old(self)@.counters.insert(
                    metric@,
                    (if counter_of(old(self)@.counters, metric@) + delta > u64::MAX {
                        u64::MAX
                    } else {
                        (counter_of(old(self)@.counters, metric@) + delta) as u64
                    }),
                ),
                ..old(self)@
            }),
    {
        let counter = self.counters.entry(metric, 0);
        *counter = counter.saturating_add(delta);
    }

    /// The count of a counter.
    pub fn counter(&self, metric: &str) -> (count: u64)
        requires
            self.wf(),
        ensures
            count == counter_of(self@.counters, metric@),
    {
        match self.counters.get(metric) {
            Some(count) => *count,
            None => 0,
        }
    }

    /// The histogram of a recorded duration.
    pub fn duration_histogram(&self, metric: &str) -> (histogram: Option<&SampleHistogram>)
        requires
            self.wf(),
        ensures
            histogram is Some <==> window_of(self@.durations, metric@).samples.len() > 0,
            histogram matches Some(h) ==> histogram_samples(*h) == window_of(
                self@.durations,
                metric@,
            ).samples,
    {
        match self.duration_windows.get(metric) {
            Some(window) => window.recorded(),
            None => None,
        }
    }

    /// The histogram of a recorded value.
    pub fn value_histogram(&self, metric: &str) -> (histogram: Option<&SampleHistogram>)
        requires
            self.wf(),
        ensures
            histogram is Some <==> window_of(self@.values, metric@).samples.len() > 0,
            histogram matches Some(h) ==> histogram_samples(*h) == window_of(
                self@.values,
                metric@,
            ).samples,
    {
        match self.value_windows.get(metric) {
            Some(window) => window.recorded(),
            None => None,
        }
    }
}

impl Default for PerfMetrics {
    fn default() -> (metrics: Self)
        ensures
            metrics.wf(),
            metrics@.durations == Map::<Seq<char>, WindowState>::empty(),
            metrics@.values == Map::<Seq<char>, WindowState>::empty(),
            metrics@.counters == Map::<Seq<char>, u64>::empty(),
    {
        let metrics = PerfMetrics {
            duration_windows: NameMap::new(),
            value_windows: NameMap::new(),
            counters: NameMap::new(),
        };
        assert(metrics@.durations =~= Map::<Seq<char>, WindowState>::empty());
        assert(metrics@.values =~= Map::<Seq<char>, WindowState>::empty());
        metrics
    }
}

/// A window never holds more samples than make it start again.
pub proof fn law_window_is_bounded(window: WindowState, stored_value: u64)
    requires
        window.wf(),
    ensures
        window.pushed(stored_value).wf(),
        window.pushed(stored_value).samples.len() > 0,
{
}

/// A sample is counted together with others only from 2048 on, and never so that it is
/// off by more than one in a thousand.
pub proof fn law_samples_keep_three_digits(value: u64)
    requires
        value <= HISTOGRAM_MAX_VALUE,
    ensures
        rounded(value) <= value,
        value < 2048 ==> rounded(value) == value,
        1000 * (value - rounded(value)) <= value,
{
    lemma_resolution(value as nat);
    let width = resolution(value as nat);
    assert(0 <= value as nat % width < width) by (nonlinear_arith)
        requires
            width > 0,
    ;
    assert(value as nat % width <= value) by (nonlinear_arith)
        requires
            width > 0,
            value >= 0,
    ;
}

proof fn lemma_resolution(value: nat)
    ensures
        resolution(value) >= 1,
        value < 2048 ==> resolution(value) == 1,
        value >= 2048 ==> 1024 * resolution(value) <= value,
    decreases value,
{
    if value >= 2048 {
        lemma_resolution(value / 2);
    }
}

/// A window takes in every sample that it is given, moved into its range, and forgets
/// nothing until it holds four times what it is to hold.
pub proof fn law_windows_take_samples_in(window: &mut MetricWindow, micros: u128)
    requires
        call_ensures(MetricWindow::push_duration, (window, micros), ()),
        old(window)@.wf(),
    ensures
        final(window)@.capacity == old(window)@.capacity,
        1 <= micros <= 60_000_000 ==> final(window)@.samples.contains(rounded(micros as u64)),
        micros == 0 ==> final(window)@.samples.contains(1),
        micros > 60_000_000 ==> final(window)@.samples.contains(rounded(60_000_000)),
        4 * old(window)@.capacity <= usize::MAX && old(window)@.samples.len() < 4 * old(
            window)@.capacity ==> final(window)@.samples.len() == old(window)@.samples.len() + 1,
        4 * old(window)@.capacity <= usize::MAX && old(window)@.samples.len() >= 4 * old(
            window)@.capacity ==> final(window)@.samples.len() == 1,
{
    lemma_resolution(1);
}

/// A value is kept as a sample that leads back to it, as far as samples reach.
pub proof fn law_values_are_read_back(value: u64, read: u64)
    requires
        call_ensures(value_from_sample, (value_sample(value),), read),
        value < u64::MAX,
    ensures
        value_sample(value) == value + 1,
        read == value,
{
}

/// A window is for one sample at least, and starts empty.
pub proof fn law_new_windows_are_empty(max_samples: usize, window: MetricWindow)
    requires
        call_ensures(MetricWindow::with_capacity, (max_samples,), window),
    ensures
        window@.samples.len() == 0,
        max_samples > 0 ==> window@.capacity == max_samples,
        max_samples == 0 ==> window@.capacity == 1,
{
}

/// What is recorded under a name is found under it and changes nothing under any other.
pub proof fn law_metrics_are_kept_by_name(
    metrics: &mut PerfMetrics,
    metric: &'static str,
    micros: u128,
    other: Seq<char>,
)
    requires
        call_ensures(PerfMetrics::record_duration, (metrics, metric, micros), ()),
    ensures
        final(metrics)@.durations.contains_key(metric@),
        final(metrics)@.values == old(metrics)@.values,
        final(metrics)@.counters == old(metrics)@.counters,
        other != metric@ ==> final(metrics)@.durations.contains_key(other) == old(
            metrics)@.durations.contains_key(other),
        other != metric@ && old(metrics)@.durations.contains_key(other) ==> final(
            metrics)@.durations[other] == old(metrics)@.durations[other],
{
}

/// A counter grows by what is added to it and is read back as it is; it stops when it is
/// full.
pub proof fn law_counters_add_up(
    metrics: &mut PerfMetrics,
    metric: &'static str,
    delta: u64,
    before: &PerfMetrics,
    count_before: u64,
    after: &PerfMetrics,
    count_after: u64,
)
    requires
        *before == *old(metrics),
        call_ensures(PerfMetrics::counter, (before, metric), count_before),
        call_ensures(PerfMetrics::increment_counter, (metrics, metric, delta), ()),
        *after == *final(metrics),
        call_ensures(PerfMetrics::counter, (after, metric), count_after),
    ensures
        count_before + delta <= u64::MAX ==> count_after == count_before + delta,
        count_before + delta > u64::MAX ==> count_after == u64::MAX,
        final(metrics)@.durations == old(metrics)@.durations,
        final(metrics)@.values == old(metrics)@.values,
{
}

/// A value is recorded under its name as one more than it is, so that zero counts too.
pub proof fn law_values_are_recorded(metrics: &mut PerfMetrics, metric: &'static str, value: u64)
    requires
        call_ensures(PerfMetrics::record_value, (metrics, metric, value), ()),
    ensures
        final(metrics)@.values.contains_key(metric@),
        value < 2047 ==> final(metrics)@.values[metric@].samples.contains((value + 1) as u64),
        final(metrics)@.durations == old(metrics)@.durations,
        final(metrics)@.counters == old(metrics)@.counters,
{
    lemma_resolution((value + 1) as nat);
}

/// A sample of zero, which stands for no value, is read as zero; a counter that nothing
/// was added to is at zero.
pub proof fn law_nothing_counts_as_zero(
    read: u64,
    metrics: &PerfMetrics,
    metric: &str,
    count: u64,
)
    requires
        call_ensures(value_from_sample, (0u64,), read),
        call_ensures(PerfMetrics::counter, (metrics, metric), count),
        !metrics@.counters.contains_key(metric@),
    ensures
        read == 0,
        count == 0,
{
}

/// A metric that was recorded has a histogram of its samples, and one that was not has
/// none.
pub proof fn law_recorded_metrics_have_histograms(
    metrics: &PerfMetrics,
    metric: &str,
    histogram: Option<&SampleHistogram>,
)
    requires
        call_ensures(PerfMetrics::duration_histogram, (metrics, metric), histogram),
    ensures
        !metrics@.durations.contains_key(metric@) ==> histogram is None,
        metrics@.durations.contains_key(metric@) ==> (histogram is Some
            <==> metrics@.durations[metric@].samples.len() > 0),
        histogram matches Some(h) ==> metrics@.durations.contains_key(metric@) && histogram_samples(*h)
            == metrics@.durations[metric@].samples,
{
}

/// A metric that is recorded for the first time gets a window for 240 samples with that
/// sample alone in it.
pub proof fn law_first_samples_open_a_window(
    metrics: &mut PerfMetrics,
    metric: &'static str,
    micros: u128,
)
    requires
        call_ensures(PerfMetrics::record_duration, (metrics, metric, micros), ()),
        !old(metrics)@.durations.contains_key(metric@),
    ensures
        final(metrics)@.durations[metric@].capacity == 240,
        final(metrics)@.durations[metric@].samples.len() == 1,
{
}

/// A window has a histogram exactly when it holds a sample, and that histogram holds its
/// samples.
pub proof fn law_windows_with_samples_have_histograms(
    window: &MetricWindow,
    histogram: Option<&SampleHistogram>,
)
    requires
        call_ensures(MetricWindow::recorded, (window,), histogram),
    ensures
        window@.samples.len() == 0 ==> histogram is None,
        window@.samples.len() > 0 ==> (histogram matches Some(h) && histogram_samples(*h)
            == window@.samples),
{
}

/// A recorded value has a histogram of its samples, and one that was not recorded has
/// none.
pub proof fn law_recorded_values_have_histograms(
    metrics: &PerfMetrics,
    metric: &str,
    histogram: Option<&SampleHistogram>,
)
    requires
        call_ensures(PerfMetrics::value_histogram, (metrics, metric), histogram),
    ensures
        !metrics@.values.contains_key(metric@) ==> histogram is None,
        histogram matches Some(h) ==> metrics@.values.contains_key(metric@) && histogram_samples(*h)
            == metrics@.values[metric@].samples,
{
}

} // verus!
