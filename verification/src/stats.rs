//! Mean and extremes of one field over a run of samples.

use vstd::prelude::*;
use vstd::arithmetic::div_mod::{
    lemma_div_is_ordered, lemma_div_multiples_vanish, lemma_fundamental_div_mod, lemma_mod_bound,
};
use crate::data::{Field, WeatherData};
use crate::history::pointees;

verus! {

/// The readings of `field`, one per sample, in the samples' order.
pub open spec fn values_of(s: Seq<WeatherData>, field: Field) -> Seq<int> {
    s.map_values(|d: WeatherData| d.reading(field) as int)
}

/// The sum of all values.
pub open spec fn total(values: Seq<int>) -> int
    decreases values.len(),
{
    if values.len() == 0 {
        0
    } else {
        total(values.drop_last()) + values.last()
    }
}

/// Whether `m` occurs among the values and none is smaller.
pub open spec fn is_least(values: Seq<int>, m: int) -> bool {
    &&& exists|i: int| 0 <= i < values.len() && values[i] == m
    &&& forall|i: int| 0 <= i < values.len() ==> m <= values[i]
}

/// Whether `m` occurs among the values and none is greater.
pub open spec fn is_greatest(values: Seq<int>, m: int) -> bool {
    &&& exists|i: int| 0 <= i < values.len() && values[i] == m
    &&& forall|i: int| 0 <= i < values.len() ==> values[i] <= m
}

/// Whether `r` is the answer to "the mean of `field` over `s`": nothing for
/// no samples, else the arithmetic mean rounded down to a whole thousandth.
pub open spec fn is_mean_of(r: Option<i64>, s: Seq<WeatherData>, field: Field) -> bool {
    match r {
        None => s.len() == 0,
        Some(m) => s.len() > 0 && m == total(values_of(s, field)) / (s.len() as int),
    }
}

/// Whether `r` is the answer to "the least and greatest `field` over `s`":
/// nothing for no samples, else the pair of them.
pub open spec fn is_min_max_of(r: Option<(i64, i64)>, s: Seq<WeatherData>, field: Field) -> bool {
    match r {
        None => s.len() == 0,
        Some((lo, hi)) => {
            &&& s.len() > 0
            &&& is_least(values_of(s, field), lo as int)
            &&& is_greatest(values_of(s, field), hi as int)
        },
    }
}

/// A sum of `n` values of `i64` lies between `n` times either end of `i64`.
pub proof fn lemma_total_bounds(s: Seq<WeatherData>, field: Field)
    ensures
        s.len() * i64::MIN <= total(values_of(s, field)) <= s.len() * i64::MAX,
    decreases s.len(),
{
    let v = values_of(s, field);
    if s.len() > 0 {
        lemma_total_bounds(s.drop_last(), field);
        assert(v.drop_last() =~= values_of(s.drop_last(), field));
    }
}

/// The mean of `field` over the samples, or `None` where there are none.
pub fn average(samples: &[&WeatherData], field: Field) -> (r: Option<i64>)
    ensures
        is_mean_of(r, pointees(samples@), field),
{
    let n = samples.len();
    if n == 0 {
        return None;
    }
    let ghost s = pointees(samples@);
    let mut sum: i128 = 0;
    let mut i: usize = 0;
    proof {
        assert(s.take(0) =~= Seq::<WeatherData>::empty());
    }
    while i < n
        invariant
            i <= n,
            n == samples.len(),
            s == pointees(samples@),
            sum == total(values_of(s.take(i as int), field)),
        decreases n - i,
    {
        proof {
            let next = s.take(i as int + 1);
            lemma_total_bounds(s.take(i as int), field);
            lemma_total_bounds(next, field);
            assert(next.drop_last() =~= s.take(i as int));
            assert(values_of(next, field).drop_last() =~= values_of(s.take(i as int), field));
            assert(values_of(next, field).last() == samples@[i as int].reading(field));
        }
        sum = sum + samples[i].value(field) as i128;
        i += 1;
    }
    proof {
        assert(s.take(n as int) =~= s);
        lemma_total_bounds(s, field);
        let len = n as int;
        lemma_div_multiples_vanish(i64::MIN as int, len);
        lemma_div_multiples_vanish(i64::MAX as int, len);
        lemma_div_is_ordered(len * i64::MIN, sum as int, len);
        lemma_div_is_ordered(sum as int, len * i64::MAX, len);
    }
    match sum.checked_div_euclid(n as i128) {
        Some(mean) => Some(mean as i64),
        None => None,
    }
}

/// The least and the greatest `field` over the samples, or `None` where
/// there are none.
pub fn min_max(samples: &[&WeatherData], field: Field) -> (r: Option<(i64, i64)>)
    ensures
        is_min_max_of(r, pointees(samples@), field),
{
    let n = samples.len();
    if n == 0 {
        return None;
    }
    let ghost v = values_of(pointees(samples@), field);
    let mut lo = samples[0].value(field);
    let mut hi = lo;
    let mut i: usize = 1;
    proof {
        assert(v.take(1)[0] == lo);
    }
    while i < n
        invariant
            1 <= i <= n,
            n == samples.len(),
            v == values_of(pointees(samples@), field),
            is_least(v.take(i as int), lo as int),
            is_greatest(v.take(i as int), hi as int),
        decreases n - i,
    {
        let x = samples[i].value(field);
        proof {
            let before = v.take(i as int);
            let after = v.take(i as int + 1);
            let at_lo = choose|k: int| 0 <= k < before.len() && before[k] == lo;
            let at_hi = choose|k: int| 0 <= k < before.len() && before[k] == hi;
            assert(after[at_lo] == lo && after[at_hi] == hi && after[i as int] == x);
            assert forall|k: int| 0 <= k < after.len() implies (if x < lo { x } else { lo })
                <= after[k] && after[k] <= (if x > hi { x } else { hi }) by {
                if k < i {
                    assert(after[k] == before[k]);
                }
            }
        }
        if x < lo {
            lo = x;
        }
        if x > hi {
            hi = x;
        }
        i += 1;
    }
    proof {
        assert(v.take(n as int) =~= v);
    }
    Some((lo, hi))
}

/// The mean is the arithmetic mean of the values rounded down: the sum
/// lies from `len` times the mean up to, but not at, `len` times the next
/// thousandth.
pub proof fn lemma_mean_rounds_down(s: Seq<WeatherData>, field: Field, mean: i64)
    requires
        is_mean_of(Some(mean), s, field),
    ensures
        s.len() * mean <= total(values_of(s, field)) < s.len() * (mean + 1),
{
    let sum = total(values_of(s, field));
    let len = s.len() as int;
    lemma_fundamental_div_mod(sum, len);
    lemma_mod_bound(sum, len);
    assert(len * (mean + 1) == len * mean + len) by (nonlinear_arith);
}

/// The mean lies between the least and the greatest value.
pub proof fn lemma_mean_within_extremes(
    s: Seq<WeatherData>,
    field: Field,
    mean: i64,
    lo: i64,
    hi: i64,
)
    requires
        is_mean_of(Some(mean), s, field),
        is_min_max_of(Some((lo, hi)), s, field),
    ensures
        lo <= mean <= hi,
{
    let len = s.len() as int;
    lemma_total_within(values_of(s, field), lo as int, hi as int);
    lemma_div_multiples_vanish(lo as int, len);
    lemma_div_multiples_vanish(hi as int, len);
    lemma_div_is_ordered(len * lo, total(values_of(s, field)), len);
    lemma_div_is_ordered(total(values_of(s, field)), len * hi, len);
}

/// A sum of values that all lie within `[lo, hi]` lies within the same
/// bounds taken once per value.
pub proof fn lemma_total_within(values: Seq<int>, lo: int, hi: int)
    requires
        forall|i: int| 0 <= i < values.len() ==> lo <= #[trigger] values[i] && values[i] <= hi,
    ensures
        values.len() * lo <= total(values) <= values.len() * hi,
    decreases values.len(),
{
    if values.len() > 0 {
        let len = values.len() as int;
        lemma_total_within(values.drop_last(), lo, hi);
        assert((len - 1) * lo + lo == len * lo) by (nonlinear_arith);
        assert((len - 1) * hi + hi == len * hi) by (nonlinear_arith);
    }
}

/// Of one run of samples there is one mean: two answers that both meet
/// `is_mean_of` are equal.
pub proof fn lemma_mean_is_determined(
    s: Seq<WeatherData>,
    field: Field,
    first: Option<i64>,
    second: Option<i64>,
)
    requires
        is_mean_of(first, s, field),
        is_mean_of(second, s, field),
    ensures
        first == second,
{
}

/// Of one run of samples there is one pair of extremes: two answers that
/// both meet `is_min_max_of` are equal.
pub proof fn lemma_min_max_is_determined(
    s: Seq<WeatherData>,
    field: Field,
    first: Option<(i64, i64)>,
    second: Option<(i64, i64)>,
)
    requires
        is_min_max_of(first, s, field),
        is_min_max_of(second, s, field),
    ensures
        first == second,
{
}

/// What `is_min_max_of` says of a non-empty run, spelled out over the
/// samples: no reading lies outside `[lo, hi]`, and some sample has the
/// reading `lo` and some sample the reading `hi`.
pub proof fn lemma_min_max_bounds_every_sample(
    s: Seq<WeatherData>,
    field: Field,
    lo: i64,
    hi: i64,
)
    requires
        is_min_max_of(Some((lo, hi)), s, field),
    ensures
        forall|i: int|
            0 <= i < s.len() ==> lo <= (#[trigger] s[i]).reading(field) && s[i].reading(field)
                <= hi,
        exists|i: int| 0 <= i < s.len() && (#[trigger] s[i]).reading(field) == lo,
        exists|i: int| 0 <= i < s.len() && (#[trigger] s[i]).reading(field) == hi,
{
    let v = values_of(s, field);
    assert forall|i: int| 0 <= i < s.len() implies lo <= (#[trigger] s[i]).reading(field)
        && s[i].reading(field) <= hi by {
        assert(v[i] == s[i].reading(field));
    }
    let at_lo = choose|i: int| 0 <= i < v.len() && v[i] == lo;
    let at_hi = choose|i: int| 0 <= i < v.len() && v[i] == hi;
    assert(s[at_lo].reading(field) == lo);
    assert(s[at_hi].reading(field) == hi);
}

} // verus!
