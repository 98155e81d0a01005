//! Summary statistics over a histogram's samples.
//!
//! Samples are fixed-point numbers with three decimal places, held as `i64`
//! thousandths (a latency of 42.5 ms is the sample 42_500).
use vstd::prelude::*;
use vstd::relations::sorted_by;
use vstd::seq_lib::group_to_multiset_ensures;
use vstd::arithmetic::div_mod::{lemma_fundamental_div_mod, lemma_fundamental_div_mod_converse};

verus! {

/// Count, sum, mean and the nearest-rank 50th and 99th percentiles of a
/// non-empty sample sequence.
#[derive(Debug, Clone, Copy, PartialEq, Eq)]
pub struct HistogramStats {
    pub count: usize,
    pub sum: i128,
    pub mean: i128,
    pub p50: i64,
    pub p99: i64,
}

/// The samples as mathematical integers.
pub open spec fn ints(s: Seq<i64>) -> Seq<int> {
    s.map_values(|x: i64| x as int)
}

/// The samples in ascending order.
pub open spec fn ascending(s: Seq<i64>) -> Seq<int> {
    ints(s).sort()
}

pub open spec fn sum_of(s: Seq<i64>) -> int
    decreases s.len(),
{
    if s.len() == 0 {
        0
    } else {
        sum_of(s.drop_last()) + s.last()
    }
}

/// Index of the 99th percentile among `n` sorted samples: `floor(n * 0.99)`.
pub open spec fn p99_index(n: nat) -> int {
    (n * 99) as int / 100
}

/// The statistics that `s` summarises to; the mean is rounded down.
pub open spec fn stats_spec(s: Seq<i64>, r: HistogramStats) -> bool {
    &&& r.count == s.len()
    &&& r.sum == sum_of(s)
    &&& r.mean == sum_of(s) / (s.len() as int)
    &&& r.p50 == ascending(s)[s.len() as int / 2]
    &&& r.p99 == ascending(s)[p99_index(s.len())]
}

spec fn le_int() -> spec_fn(int, int) -> bool {
    |x: int, y: int| x <= y
}

/// Sum of the samples, exact in 128 bits.
fn sum_samples(s: &Vec<i64>) -> (r: i128)
    ensures
        r == sum_of(s@),
        r > i128::MIN,
{
    let mut acc: i128 = 0;
    let mut i: usize = 0;
    while i < s.len()
        invariant
            0 <= i <= s@.len(),
            acc == sum_of(s@.take(i as int)),
            -(i as int) * 0x8000_0000_0000_0000 <= acc <= (i as int) * 0x8000_0000_0000_0000,
        decreases s@.len() - i,
    {
        assert(s@.take(i as int + 1).drop_last() =~= s@.take(i as int));
        acc = acc + s[i] as i128;
        i = i + 1;
    }
    assert(s@.take(i as int) =~= s@);
    assert(i <= usize::MAX);
    acc
}

/// `sum / count` rounded down.
fn floor_div(sum: i128, count: usize) -> (r: i128)
    requires
        count > 0,
        sum > i128::MIN,
    ensures
        r == (sum as int) / (count as int),
{
    let c = count as u128;
    if sum >= 0 {
        let q = (sum as u128) / c;
        let rem = (sum as u128) % c;
        proof {
            lemma_fundamental_div_mod(sum as int, c as int);
            lemma_fundamental_div_mod_converse(sum as int, c as int, q as int, rem as int);
        }
        q as i128
    } else {
        let a: u128 = (0i128 - sum) as u128;
        let q = a / c;
        let rem = a % c;
        proof {
            lemma_fundamental_div_mod(a as int, c as int);
        }
        assert(a as int == c * q + rem);
        assert(q <= a) by (nonlinear_arith)
            requires
                a == c * q + rem,
                c > 0,
                rem >= 0,
                q >= 0,
        {
        }
        assert(sum == (-(q as int)) * (c as int) + 0 - rem) by (nonlinear_arith)
            requires
                a == c * q + rem,
                sum == -(a as int),
        {
        }
        assert(sum == (-(q as int) - 1) * (c as int) + (c - rem)) by (nonlinear_arith)
            requires
                a == c * q + rem,
                sum == -(a as int),
        {
        }
        if rem == 0 {
            proof {
                lemma_fundamental_div_mod_converse(sum as int, c as int, -(q as int), 0);
            }
            0i128 - q as i128
        } else {
            proof {
                lemma_fundamental_div_mod_converse(
                    sum as int,
                    c as int,
                    -(q as int) - 1,
                    c - rem,
                );
            }
            0i128 - q as i128 - 1
        }
    }
}

/// The samples in ascending order.
fn sort_samples(s: &Vec<i64>) -> (r: Vec<i64>)
    ensures
        ints(r@) == ascending(s@),
        r@.len() == s@.len(),
{
    broadcast use group_to_multiset_ensures;

    let mut out: Vec<i64> = Vec::new();
    let mut i: usize = 0;
    while i < s.len()
        invariant
            0 <= i <= s@.len(),
            out@.len() == i,
            sorted_by(ints(out@), le_int()),
            ints(out@).to_multiset() == ints(s@.take(i as int)).to_multiset(),
        decreases s@.len() - i,
    {
        let x = s[i];
        let mut p: usize = 0;
        while p < out.len() && out[p] <= x
            invariant
                0 <= p <= out@.len(),
                out@.len() == i,
                forall|j: int| 0 <= j < p ==> out@[j] <= x,
            decreases out@.len() - p,
        {
            p = p + 1;
        }
        let ghost before = out@;
        out.insert(p, x);
        proof {
            assert(ints(out@) =~= ints(before).insert(p as int, x as int));
            assert(ints(s@.take(i as int + 1)) =~= ints(s@.take(i as int)).push(x as int));
            vstd::seq_lib::to_multiset_insert(ints(before), p as int, x as int);
            vstd::seq_lib::to_multiset_build(ints(s@.take(i as int)), x as int);
            assert forall|a: int, b: int| 0 <= a < b < out@.len() implies #[trigger] le_int()(
                ints(out@)[a],
                ints(out@)[b],
            ) by {
                if b < p {
                    assert(le_int()(ints(before)[a], ints(before)[b]));
                } else if b == p {
                } else if a < p {
                    assert(out@[a] <= x);
                    if p < before.len() {
                        assert(before[p as int] > x);
                        if b - 1 > p {
                            assert(le_int()(ints(before)[p as int], ints(before)[b - 1]));
                        }
                    }
                } else if a == p {
                    assert(before[p as int] > x);
                    if b - 1 > p {
                        assert(le_int()(ints(before)[p as int], ints(before)[b - 1]));
                    }
                } else {
                    assert(le_int()(ints(before)[a - 1], ints(before)[b - 1]));
                }
            }
        }
        i = i + 1;
    }
    proof {
        assert(s@.take(i as int) =~= s@);
        ints(s@).lemma_sort_ensures();
        vstd::seq_lib::lemma_sorted_unique(ints(out@), ascending(s@), le_int());
    }
    out
}

/// Statistics of a histogram's samples, or `None` when there are none.
pub fn histogram_stats(samples: &Vec<i64>) -> (r: Option<HistogramStats>)
    ensures
        r is None <==> samples@.len() == 0,
        r is Some ==> stats_spec(samples@, r.unwrap()),
{
    let count = samples.len();
    if count == 0 {
        return None;
    }
    let sum = sum_samples(samples);
    let mean = floor_div(sum, count);
    let sorted = sort_samples(samples);
    let mid = count / 2;
    let high = ((count as u128) * 99 / 100) as usize;
    assert(high < count) by (nonlinear_arith)
        requires
            high == (count * 99) / 100,
            count > 0,
    {
    }
    assert(ints(sorted@)[mid as int] == sorted@[mid as int] as int);
    assert(ints(sorted@)[high as int] == sorted@[high as int] as int);
    Some(HistogramStats { count, sum, mean, p50: sorted[mid], p99: sorted[high] })
}

} // verus!
