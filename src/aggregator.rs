//! Named counters, gauges and histograms.
//!
//! Gauge values and histogram samples are fixed-point numbers with three
//! decimal places, held as `i64` thousandths.
use vstd::prelude::*;
use crate::registry::Registry;
use crate::stats::{histogram_stats, stats_spec, HistogramStats};
use vstd::seq_lib::group_to_multiset_ensures;

verus! {

/// The abstract state of a `MetricsCollector`.
pub struct MetricsView {
    pub counters: Map<Seq<char>, u64>,
    pub gauges: Map<Seq<char>, i64>,
    pub histograms: Map<Seq<char>, Seq<i64>>,
}

/// `a + b`, held at `u64::MAX` when the sum does not fit.
pub open spec fn saturating_sum(a: u64, b: u64) -> u64 {
    if a + b > u64::MAX {
        u64::MAX
    } else {
        (a + b) as u64
    }
}

/// The value a counter reads: its accumulator, or zero if never incremented.
pub open spec fn counter_value(counters: Map<Seq<char>, u64>, name: Seq<char>) -> u64 {
    if counters.contains_key(name) {
        counters[name]
    } else {
        0
    }
}

/// The samples recorded under a name, empty if none.
pub open spec fn samples_of(histograms: Map<Seq<char>, Seq<i64>>, name: Seq<char>) -> Seq<i64> {
    if histograms.contains_key(name) {
        histograms[name]
    } else {
        Seq::empty()
    }
}

/// Store of named counters, gauges and histograms.
pub struct MetricsCollector {
    counters: Registry<u64>,
    histograms: Registry<Vec<i64>>,
    gauges: Registry<i64>,
}

impl MetricsCollector {
    pub closed spec fn wf(&self) -> bool {
        &&& self.counters.wf()
        &&& self.histograms.wf()
        &&& self.gauges.wf()
    }

    pub closed spec fn view(&self) -> MetricsView {
        MetricsView {
            counters: self.counters.view(),
            gauges: self.gauges.view(),
            histograms: self.histograms.view().map_values(|v: Vec<i64>| v@),
        }
    }

    /// An empty collector.
    pub fn new() -> (r: Self)
        ensures
            r.wf(),
            r.view().counters == Map::<Seq<char>, u64>::empty(),
            r.view().gauges == Map::<Seq<char>, i64>::empty(),
            r.view().histograms == Map::<Seq<char>, Seq<i64>>::empty(),
    {
        let r = MetricsCollector {
            counters: Registry::new(),
            histograms: Registry::new(),
            gauges: Registry::new(),
        };
        assert(r.view().histograms =~= Map::<Seq<char>, Seq<i64>>::empty());
        r
    }

    /// Adds one to the named counter.
    pub fn increment(&mut self, name: &str)
        requires
            old(self).wf(),
        ensures
            final(self).wf(),
            final(self).view().counters == old(self).view().counters.insert(
                name@,
                saturating_sum(counter_value(old(self).view().counters, name@), 1),
            ),
            final(self).view().gauges == old(self).view().gauges,
            final(self).view().histograms == old(self).view().histograms,
    {
        self.increment_by(name, 1);
    }

    /// Adds `value` to the named counter, which starts at zero; the sum is
    /// held at `u64::MAX` rather than wrapping.
    pub fn increment_by(&mut self, name: &str, value: u64)
        requires
            old(self).wf(),
        ensures
            final(self).wf(),
            final(self).view().counters == old(self).view().counters.insert(
                name@,
                saturating_sum(counter_value(old(self).view().counters, name@), value),
            ),
            final(self).view().gauges == old(self).view().gauges,
            final(self).view().histograms == old(self).view().histograms,
    {
        let current = self.get_counter(name);
        self.counters.set(name, current.saturating_add(value));
    }

    /// Appends `value` to the named histogram.
    pub fn record_histogram(&mut self, name: &str, value: i64)
        requires
            old(self).wf(),
        ensures
            final(self).wf(),
            final(self).view().histograms == old(self).view().histograms.insert(
                name@,
                samples_of(old(self).view().histograms, name@).push(value),
            ),
            final(self).view().counters == old(self).view().counters,
            final(self).view().gauges == old(self).view().gauges,
    {
        let ghost before = self.view().histograms;
        self.histograms.append(name, value);
        assert(self.view().histograms =~= before.insert(
            name@,
            samples_of(before, name@).push(value),
        ));
    }

    /// Overwrites the named gauge.
    pub fn set_gauge(&mut self, name: &str, value: i64)
        requires
            old(self).wf(),
        ensures
            final(self).wf(),
            final(self).view().gauges == old(self).view().gauges.insert(name@, value),
            final(self).view().counters == old(self).view().counters,
            final(self).view().histograms == old(self).view().histograms,
    {
        self.gauges.set(name, value);
    }

    /// The named counter's value; zero for a name never incremented.
    pub fn get_counter(&self, name: &str) -> (r: u64)
        requires
            self.wf(),
        ensures
            r == counter_value(self.view().counters, name@),
    {
        match self.counters.get(name) {
            Some(v) => *v,
            None => 0,
        }
    }

    /// The named gauge's last value, if it was ever set.
    pub fn get_gauge(&self, name: &str) -> (r: Option<i64>)
        requires
            self.wf(),
        ensures
            r is Some == self.view().gauges.contains_key(name@),
            r is Some ==> r.unwrap() == self.view().gauges[name@],
    {
        match self.gauges.get(name) {
            Some(v) => Some(*v),
            None => None,
        }
    }

    /// Statistics of the named histogram, computed afresh over its samples;
    /// `None` when the name is unknown or has no samples.
    pub fn get_histogram_stats(&self, name: &str) -> (r: Option<HistogramStats>)
        requires
            self.wf(),
        ensures
            r is None <==> samples_of(self.view().histograms, name@).len() == 0,
            r is Some ==> stats_spec(samples_of(self.view().histograms, name@), r.unwrap()),
    {
        match self.histograms.get(name) {
            Some(v) => histogram_stats(v),
            None => None,
        }
    }

    /// Number of distinct counter names.
    pub fn counter_count(&self) -> (r: usize)
        requires
            self.wf(),
        ensures
            r == self.view().counters.len(),
    {
        self.counters.len()
    }

    /// Number of distinct gauge names.
    pub fn gauge_count(&self) -> (r: usize)
        requires
            self.wf(),
        ensures
            r == self.view().gauges.len(),
    {
        self.gauges.len()
    }

    /// Number of distinct histogram names.
    pub fn histogram_count(&self) -> (r: usize)
        requires
            self.wf(),
        ensures
            r == self.view().histograms.len(),
    {
        assert(self.view().histograms.dom() =~= self.histograms.view().dom());
        self.histograms.len()
    }
}

/// The counters after `increment_by(name, a)` for each `a` of `amounts`, in order.
pub open spec fn apply_increments(
    counters: Map<Seq<char>, u64>,
    name: Seq<char>,
    amounts: Seq<u64>,
) -> Map<Seq<char>, u64>
    decreases amounts.len(),
{
    if amounts.len() == 0 {
        counters
    } else {
        let before = apply_increments(counters, name, amounts.drop_last());
        before.insert(name, saturating_sum(counter_value(before, name), amounts.last()))
    }
}

pub open spec fn total_of(amounts: Seq<u64>) -> int
    decreases amounts.len(),
{
    if amounts.len() == 0 {
        0
    } else {
        total_of(amounts.drop_last()) + amounts.last()
    }
}

/// A counter that receives a sequence of increments reads as its starting
/// value plus their sum, as long as that sum fits in 64 bits.
pub proof fn lemma_counter_accumulates(
    counters: Map<Seq<char>, u64>,
    name: Seq<char>,
    amounts: Seq<u64>,
)
    requires
        counter_value(counters, name) + total_of(amounts) <= u64::MAX,
    ensures
        counter_value(apply_increments(counters, name, amounts), name) == counter_value(
            counters,
            name,
        ) + total_of(amounts),
    decreases amounts.len(),
{
    if amounts.len() > 0 {
        lemma_counter_accumulates(counters, name, amounts.drop_last());
    }
}

proof fn lemma_total_remove(b: Seq<u64>, j: int)
    requires
        0 <= j < b.len(),
    ensures
        total_of(b) == total_of(b.remove(j)) + b[j],
    decreases b.len(),
{
    if j == b.len() - 1 {
        assert(b.remove(j) =~= b.drop_last());
    } else {
        lemma_total_remove(b.drop_last(), j);
        assert(b.remove(j).drop_last() =~= b.drop_last().remove(j));
        assert(b.remove(j).last() == b.last());
    }
}

proof fn lemma_total_same_amounts(a: Seq<u64>, b: Seq<u64>)
    requires
        a.to_multiset() == b.to_multiset(),
    ensures
        total_of(a) == total_of(b),
    decreases a.len(),
{
    broadcast use group_to_multiset_ensures;
    broadcast use vstd::multiset::group_multiset_axioms;

    if a.len() == 0 {
        assert(b.to_multiset().len() == 0);
        assert(b =~= Seq::<u64>::empty());
    } else {
        let x = a.last();
        assert(a =~= a.drop_last().push(x));
        assert(a.to_multiset().contains(x));
        assert(b.to_multiset().contains(x));
        assert(b.contains(x));
        let j = b.index_of(x);
        assert(b.to_multiset() == b.remove(j).to_multiset().insert(x)) by {
            assert(b.remove(j).insert(j, x) =~= b);
        }
        assert(a.to_multiset() == a.drop_last().to_multiset().insert(x));
        assert(a.drop_last().to_multiset() =~= b.remove(j).to_multiset());
        lemma_total_same_amounts(a.drop_last(), b.remove(j));
        lemma_total_remove(b, j);
    }
}

/// Increments applied in any order leave a counter at the same value: two
/// sequences of the same amounts, in any order, read alike as long as their
/// sum fits in 64 bits.
pub proof fn lemma_counter_order_free(
    counters: Map<Seq<char>, u64>,
    name: Seq<char>,
    a: Seq<u64>,
    b: Seq<u64>,
)
    requires
        a.to_multiset() == b.to_multiset(),
        counter_value(counters, name) + total_of(a) <= u64::MAX,
    ensures
        counter_value(apply_increments(counters, name, a), name) == counter_value(
            apply_increments(counters, name, b),
            name,
        ),
        counter_value(apply_increments(counters, name, a), name) == counter_value(counters, name)
            + total_of(a),
{
    lemma_total_same_amounts(a, b);
    lemma_counter_accumulates(counters, name, a);
    lemma_counter_accumulates(counters, name, b);
}

/// The gauges after `set_gauge(name, v)` for each `v` of `values`, in order.
pub open spec fn apply_gauge_writes(
    gauges: Map<Seq<char>, i64>,
    name: Seq<char>,
    values: Seq<i64>,
) -> Map<Seq<char>, i64>
    decreases values.len(),
{
    if values.len() == 0 {
        gauges
    } else {
        apply_gauge_writes(gauges, name, values.drop_last()).insert(name, values.last())
    }
}

/// After one or more writes to a gauge only the last value is observable,
/// and a gauge that was never written has no value.
pub proof fn lemma_gauge_last_write(
    gauges: Map<Seq<char>, i64>,
    name: Seq<char>,
    values: Seq<i64>,
    other: Seq<char>,
)
    requires
        other != name,
        !gauges.contains_key(other),
    ensures
        values.len() > 0 ==> apply_gauge_writes(gauges, name, values).contains_key(name)
            && apply_gauge_writes(gauges, name, values)[name] == values.last(),
        !apply_gauge_writes(gauges, name, values).contains_key(other),
    decreases values.len(),
{
    if values.len() > 0 {
        lemma_gauge_last_write(gauges, name, values.drop_last(), other);
    }
}

/// The histograms after `record_histogram(name, x)` for each `x` of `xs`, in order.
pub open spec fn apply_samples(
    histograms: Map<Seq<char>, Seq<i64>>,
    name: Seq<char>,
    xs: Seq<i64>,
) -> Map<Seq<char>, Seq<i64>>
    decreases xs.len(),
{
    if xs.len() == 0 {
        histograms
    } else {
        let before = apply_samples(histograms, name, xs.drop_last());
        before.insert(name, samples_of(before, name).push(xs.last()))
    }
}

/// Samples recorded under a new name are kept in order, so the statistics of
/// that histogram count every sample and average their sum (rounded down).
pub proof fn lemma_histogram_summary(
    histograms: Map<Seq<char>, Seq<i64>>,
    name: Seq<char>,
    xs: Seq<i64>,
    stats: HistogramStats,
)
    requires
        !histograms.contains_key(name),
        xs.len() > 0,
        stats_spec(samples_of(apply_samples(histograms, name, xs), name), stats),
    ensures
        samples_of(apply_samples(histograms, name, xs), name) == xs,
        stats.count == xs.len(),
        stats.sum == crate::stats::sum_of(xs),
        stats.mean == crate::stats::sum_of(xs) / (xs.len() as int),
{
    lemma_samples_kept(histograms, name, xs);
}

proof fn lemma_samples_kept(histograms: Map<Seq<char>, Seq<i64>>, name: Seq<char>, xs: Seq<i64>)
    requires
        !histograms.contains_key(name),
    ensures
        samples_of(apply_samples(histograms, name, xs), name) == xs,
    decreases xs.len(),
{
    if xs.len() > 0 {
        lemma_samples_kept(histograms, name, xs.drop_last());
        assert(xs.drop_last().push(xs.last()) =~= xs);
    } else {
        assert(samples_of(histograms, name) =~= xs);
    }
}

} // verus!
