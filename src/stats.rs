use vstd::prelude::*;

use crate::error::PipelineError;
use crate::sample::PixelBuffer;

verus! {

/// The values of a vector of intensities, as integers.
pub open spec fn as_ints(v: Seq<i64>) -> Seq<int> {
    Seq::new(v.len(), |i: int| v[i] as int)
}

/// Sum of a sequence of integers.
pub open spec fn total(s: Seq<int>) -> int
    decreases s.len(),
{
    if s.len() == 0 {
        0
    } else {
        total(s.drop_last()) + s.last()
    }
}

/// Sum of the squares of a sequence of integers.
pub open spec fn total_squares(s: Seq<int>) -> int
    decreases s.len(),
{
    if s.len() == 0 {
        0
    } else {
        total_squares(s.drop_last()) + s.last() * s.last()
    }
}

proof fn lemma_total_squares_grows(s: Seq<int>, k: int)
    requires
        0 <= k <= s.len(),
    ensures
        total_squares(s.take(k)) <= total_squares(s),
    decreases s.len() - k,
{
    if k < s.len() {
        lemma_total_squares_grows(s, k + 1);
        assert(s.take(k + 1).drop_last() =~= s.take(k));
        let x = s[k];
        assert(x * x >= 0) by (nonlinear_arith);
    } else {
        assert(s.take(k) =~= s);
    }
}

/// Sum of squares of the values, `None` exactly when it exceeds 128 bits.
pub fn sum_of_squares(values: &Vec<i64>) -> (r: Option<u128>)
    ensures
        total_squares(as_ints(values@)) <= u128::MAX ==> r == Some(
            total_squares(as_ints(values@)) as u128,
        ),
        total_squares(as_ints(values@)) > u128::MAX ==> r is None,
{
    let ghost vals = as_ints(values@);
    let n = values.len();
    let mut acc: u128 = 0;
    let mut i: usize = 0;
    while i < n
        invariant
            n == values@.len(),
            vals == as_ints(values@),
            i <= n,
            acc == total_squares(vals.take(i as int)),
        decreases n - i,
    {
        let v = values[i];
        let m: u128 = if v < 0 {
            (-(v as i128)) as u128
        } else {
            v as u128
        };
        assert(m * m <= 0x4000_0000_0000_0000_0000_0000_0000_0000) by (nonlinear_arith)
            requires
                m <= 0x8000_0000_0000_0000,
        ;
        let sq = m * m;
        assert(sq == vals[i as int] * vals[i as int]) by (nonlinear_arith)
            requires
                sq == m * m,
                m == vals[i as int] || m == -vals[i as int],
        ;
        assert(vals.take(i + 1).drop_last() =~= vals.take(i as int));
        match acc.checked_add(sq) {
            Some(a) => {
                acc = a;
            },
            None => {
                proof {
                    lemma_total_squares_grows(vals, i + 1);
                }
                return None;
            },
        }
        i = i + 1;
    }
    assert(vals.take(n as int) =~= vals);
    Some(acc)
}

/// `m` is the least element of `s`.
pub open spec fn is_least(m: int, s: Seq<int>) -> bool {
    (exists|i: int| 0 <= i < s.len() && s[i] == m) && forall|i: int| 0 <= i < s.len() ==> m <= s[i]
}

/// `m` is the greatest element of `s`.
pub open spec fn is_greatest(m: int, s: Seq<int>) -> bool {
    (exists|i: int| 0 <= i < s.len() && s[i] == m) && forall|i: int| 0 <= i < s.len() ==> s[i] <= m
}

/// `s` holds the values of `v` in ascending order.
pub open spec fn is_sorted_copy(s: Seq<i64>, v: Seq<i64>) -> bool {
    &&& s.to_multiset() == v.to_multiset()
    &&& forall|i: int, j: int| 0 <= i <= j < s.len() ==> s[i] <= s[j]
}

/// The two central elements of the sorted values; the median is their
/// average, and they coincide when the count is odd.
#[derive(Debug, Clone, Copy, PartialEq, Eq, Structural)]
pub struct Median {
    pub low: i64,
    pub high: i64,
}

/// `m` holds the central elements of the values `v`, of which there is at least one.
pub open spec fn is_median(m: Median, v: Seq<i64>) -> bool {
    exists|s: Seq<i64>|
        is_sorted_copy(s, v) && m.low == s[(v.len() - 1) / 2] && m.high == s[v.len() as int / 2]
}

/// `m` holds the central elements of the intensities `s`.
pub open spec fn is_median_of(m: Median, s: Seq<int>) -> bool {
    exists|v: Seq<i64>| as_ints(v) == s && #[trigger] is_median(m, v)
}

/// Summary statistics over intensities. The mean is `sum / total_pixels`;
/// all values are in intensity units.
pub struct PixelStatistics {
    pub min: i64,
    pub max: i64,
    pub sum: i128,
    /// Sum of the squared intensities, when it fits in 128 bits; with `sum`
    /// it gives the population variance `sum_squares / n - (sum / n)^2`.
    pub sum_squares: Option<u128>,
    pub median: Option<Median>,
    pub total_pixels: usize,
    pub shape: Vec<usize>,
}

/// Histogram of intensities: the count of each bin and the observed range
/// that fixed the bin width.
pub struct PixelHistogram {
    pub bins: Vec<u64>,
    pub min: i64,
    pub max: i64,
}

/// Bin of value `v` among `count` bins of equal width over `[lo, hi]`; every
/// value goes to the first bin when the range is empty, and the top edge
/// goes to the last bin.
pub open spec fn bin_index(v: int, lo: int, hi: int, count: int) -> int {
    if hi == lo {
        0
    } else {
        let k = (v - lo) * count / (hi - lo);
        if k > count - 1 {
            count - 1
        } else {
            k
        }
    }
}

/// Number of values of `s` that fall into bin `k`.
pub open spec fn bin_count_of(s: Seq<int>, lo: int, hi: int, count: int, k: int) -> int
    decreases s.len(),
{
    if s.len() == 0 {
        0
    } else {
        bin_count_of(s.drop_last(), lo, hi, count, k) + if bin_index(s.last(), lo, hi, count) == k {
            1int
        } else {
            0int
        }
    }
}

/// When the observed range is empty every value falls into the first bin:
/// it counts them all and the other bins count none.
pub proof fn lemma_degenerate_range_first_bin(s: Seq<int>, v: int, count: int, k: int)
    requires
        0 <= k < count,
    ensures
        bin_count_of(s, v, v, count, k) == (if k == 0 {
            s.len() as int
        } else {
            0
        }),
    decreases s.len(),
{
    if s.len() > 0 {
        lemma_degenerate_range_first_bin(s.drop_last(), v, count, k);
    }
}

/// Sum of a sequence of counts.
pub open spec fn count_total(s: Seq<u64>) -> int
    decreases s.len(),
{
    if s.len() == 0 {
        0
    } else {
        count_total(s.drop_last()) + s.last()
    }
}

proof fn lemma_count_total_zeros(s: Seq<u64>)
    requires
        forall|i: int| 0 <= i < s.len() ==> s[i] == 0,
    ensures
        count_total(s) == 0,
    decreases s.len(),
{
    if s.len() > 0 {
        lemma_count_total_zeros(s.drop_last());
    }
}

proof fn lemma_count_total_bump(s: Seq<u64>, j: int, v: u64)
    requires
        0 <= j < s.len(),
        v == s[j] + 1,
    ensures
        count_total(s.update(j, v)) == count_total(s) + 1,
    decreases s.len(),
{
    let t = s.update(j, v);
    if j == s.len() - 1 {
        assert(t.drop_last() =~= s.drop_last());
    } else {
        lemma_count_total_bump(s.drop_last(), j, v);
        assert(t.drop_last() =~= s.drop_last().update(j, v));
    }
}

/// The least and greatest values lie around the sum: `n * min <= sum <= n * max`,
/// so the mean lies between the minimum and the maximum.
pub proof fn lemma_total_between(s: Seq<int>, lo: int, hi: int)
    requires
        forall|i: int| 0 <= i < s.len() ==> lo <= #[trigger] s[i] <= hi,
    ensures
        s.len() * lo <= total(s) <= s.len() * hi,
    decreases s.len(),
{
    if s.len() > 0 {
        lemma_total_between(s.drop_last(), lo, hi);
        assert(s.len() * lo == (s.len() - 1) * lo + lo) by (nonlinear_arith);
        assert(s.len() * hi == (s.len() - 1) * hi + hi) by (nonlinear_arith);
    }
}

/// Relies on `slice::sort_unstable`: afterwards the vector holds the same
/// values in ascending order.
#[verifier::external_body]
fn sort_ascending(v: &mut Vec<i64>)
    ensures
        is_sorted_copy(final(v)@, old(v)@),
{
    v.sort_unstable();
}

/// Statistics of a sequence of intensities with the given shape.
pub fn statistics_of_values(values: &Vec<i64>, shape: Vec<usize>) -> (r: PixelStatistics)
    ensures
        r.total_pixels == values@.len(),
        r.shape@ == shape@,
        total_squares(as_ints(values@)) <= u128::MAX ==> r.sum_squares == Some(
            total_squares(as_ints(values@)) as u128,
        ),
        total_squares(as_ints(values@)) > u128::MAX ==> r.sum_squares is None,
        values@.len() == 0 ==> r.min == 0 && r.max == 0 && r.sum == 0 && r.median is None,
        values@.len() > 0 ==> {
            &&& is_least(r.min as int, as_ints(values@))
            &&& is_greatest(r.max as int, as_ints(values@))
            &&& r.sum == total(as_ints(values@))
            &&& r.median is Some
            &&& is_median(r.median->0, values@)
            &&& r.min * values@.len() <= r.sum <= r.max * values@.len()
        },
{
    let n = values.len();
    if n == 0 {
        return PixelStatistics {
            min: 0,
            max: 0,
            sum: 0,
            sum_squares: Some(0),
            median: None,
            total_pixels: 0,
            shape,
        };
    }
    let ghost vals = as_ints(values@);
    let mut min = values[0];
    let mut max = values[0];
    let mut sum: i128 = 0;
    let ghost mut min_at: int = 0;
    let ghost mut max_at: int = 0;
    let mut i: usize = 0;
    while i < n
        invariant
            n == values@.len(),
            n > 0,
            vals == as_ints(values@),
            i <= n,
            0 <= min_at < n && vals[min_at] == min,
            0 <= max_at < n && vals[max_at] == max,
            forall|k: int| 0 <= k < i ==> min <= #[trigger] vals[k] <= max,
            sum == total(vals.take(i as int)),
            -0x8000_0000_0000_0000 * i <= sum <= 0x8000_0000_0000_0000 * i,
        decreases n - i,
    {
        let v = values[i];
        assert(vals.take(i + 1).drop_last() =~= vals.take(i as int));
        assert(vals[i as int] == v);
        if v < min {
            min = v;
            proof {
                min_at = i as int;
            }
        }
        if v > max {
            max = v;
            proof {
                max_at = i as int;
            }
        }
        sum = sum + v as i128;
        i = i + 1;
    }
    assert(vals.take(n as int) =~= vals);
    proof {
        lemma_total_between(vals, min as int, max as int);
        assert(vals.len() * (min as int) == (min as int) * vals.len()) by (nonlinear_arith);
        assert(vals.len() * (max as int) == (max as int) * vals.len()) by (nonlinear_arith);
    }
    let mut sorted = values.clone();
    sort_ascending(&mut sorted);
    proof {
        assert(sorted@.len() == values@.len()) by {
            sorted@.to_multiset_ensures();
            values@.to_multiset_ensures();
        }
    }
    let median = Median { low: sorted[(n - 1) / 2], high: sorted[n / 2] };
    let sum_squares = sum_of_squares(values);
    PixelStatistics { min, max, sum, sum_squares, median: Some(median), total_pixels: n, shape }
}

/// Histogram of a sequence of intensities into `bin_count` bins.
/// A zero bin count is rejected before any value is read.
pub fn histogram_of_values(values: &Vec<i64>, bin_count: usize) -> (r: Result<
    PixelHistogram,
    PipelineError,
>)
    ensures
        bin_count == 0 ==> r == Err::<PixelHistogram, PipelineError>(
            PipelineError::InvalidArgument,
        ),
        bin_count > 0 ==> r is Ok,
        r is Ok ==> {
            let h = r->Ok_0;
            &&& h.bins@.len() == bin_count
            &&& values@.len() == 0 ==> h.min == 0 && h.max == 0
            &&& values@.len() > 0 ==> is_least(h.min as int, as_ints(values@)) && is_greatest(
                h.max as int,
                as_ints(values@),
            )
            &&& forall|k: int|
                0 <= k < bin_count ==> #[trigger] h.bins@[k] == bin_count_of(
                    as_ints(values@),
                    h.min as int,
                    h.max as int,
                    bin_count as int,
                    k,
                )
            &&& count_total(h.bins@) == values@.len()
        },
{
    if bin_count == 0 {
        return Err(PipelineError::InvalidArgument);
    }
    let n = values.len();
    let ghost vals = as_ints(values@);
    let mut min: i64 = 0;
    let mut max: i64 = 0;
    if n > 0 {
        min = values[0];
        max = values[0];
    }
    let ghost mut min_at: int = 0;
    let ghost mut max_at: int = 0;
    let mut i: usize = 0;
    while i < n
        invariant
            n == values@.len(),
            vals == as_ints(values@),
            i <= n,
            n > 0 ==> 0 <= min_at < n && vals[min_at] == min,
            n > 0 ==> 0 <= max_at < n && vals[max_at] == max,
            n == 0 ==> min == 0 && max == 0,
            forall|k: int| 0 <= k < i ==> min <= #[trigger] vals[k] <= max,
        decreases n - i,
    {
        let v = values[i];
        assert(vals[i as int] == v);
        if v < min {
            min = v;
            proof {
                min_at = i as int;
            }
        }
        if v > max {
            max = v;
            proof {
                max_at = i as int;
            }
        }
        i = i + 1;
    }
    let mut bins: Vec<u64> = vec![0u64; bin_count];
    proof {
        lemma_count_total_zeros(bins@);
        assert forall|k: int| 0 <= k < bin_count implies bins@[k] == bin_count_of(
            vals.take(0),
            min as int,
            max as int,
            bin_count as int,
            k,
        ) by {}
    }
    let range = (max as i128 - min as i128) as u128;
    let mut j: usize = 0;
    while j < n
        invariant
            n == values@.len(),
            vals == as_ints(values@),
            j <= n,
            bin_count > 0,
            bins@.len() == bin_count,
            forall|k: int| 0 <= k < n ==> min <= #[trigger] vals[k] <= max,
            range == max - min,
            count_total(bins@) == j,
            forall|k: int|
                0 <= k < bin_count ==> #[trigger] bins@[k] == bin_count_of(
                    vals.take(j as int),
                    min as int,
                    max as int,
                    bin_count as int,
                    k,
                ),
        decreases n - j,
    {
        let v = values[j];
        assert(vals[j as int] == v);
        let idx = bin_of(v, min, max, range, bin_count);
        proof {
            assert(vals.take(j + 1).drop_last() =~= vals.take(j as int));
            assert(vals.take(j + 1).last() == vals[j as int]);
            assert(bins@[idx as int] <= j) by {
                lemma_count_le_len(vals.take(j as int), min as int, max as int, bin_count as int, idx as int);
            }
            lemma_count_total_bump(bins@, idx as int, (bins@[idx as int] + 1) as u64);
        }
        bins.set(idx, bins[idx] + 1);
        j = j + 1;
    }
    assert(vals.take(n as int) =~= vals);
    Ok(PixelHistogram { bins, min, max })
}

proof fn lemma_count_le_len(s: Seq<int>, lo: int, hi: int, count: int, k: int)
    ensures
        0 <= bin_count_of(s, lo, hi, count, k) <= s.len(),
    decreases s.len(),
{
    if s.len() > 0 {
        lemma_count_le_len(s.drop_last(), lo, hi, count, k);
    }
}

/// Bin of one value, computed without overflow.
fn bin_of(v: i64, min: i64, max: i64, range: u128, bin_count: usize) -> (r: usize)
    requires
        min <= v <= max,
        range == max - min,
        bin_count > 0,
    ensures
        r as int == bin_index(v as int, min as int, max as int, bin_count as int),
        r < bin_count,
{
    if range == 0 {
        return 0;
    }
    let off = (v as i128 - min as i128) as u128;
    let bc = bin_count as u128;
    assert(off * bc <= 0xffff_ffff_ffff_ffff_ffff_ffff_ffff_ffff) by (nonlinear_arith)
        requires
            off <= 0xffff_ffff_ffff_ffff,
            bc <= 0xffff_ffff_ffff_ffff,
    ;
    let k = off * bc / range;
    if k > bc - 1 {
        bin_count - 1
    } else {
        k as usize
    }
}

/// Statistics over all frames of a buffer after the modality step, with the
/// shape frame, row, column, sample.
pub fn pixel_statistics_from_decoded(buffer: &PixelBuffer) -> (r: PixelStatistics)
    requires
        buffer.wf(),
    ensures
        r.total_pixels == buffer.samples@.len(),
        total_squares(buffer.intensities()) <= u128::MAX ==> r.sum_squares == Some(
            total_squares(buffer.intensities()) as u128,
        ),
        total_squares(buffer.intensities()) > u128::MAX ==> r.sum_squares is None,
        r.shape@ == seq![
            buffer.frame_count as usize,
            buffer.rows as usize,
            buffer.columns as usize,
            buffer.samples_per_pixel as usize,
        ],
        buffer.samples@.len() == 0 ==> r.min == 0 && r.max == 0 && r.sum == 0 && r.median is None,
        buffer.samples@.len() > 0 ==> {
            &&& is_least(r.min as int, buffer.intensities())
            &&& is_greatest(r.max as int, buffer.intensities())
            &&& r.sum == total(buffer.intensities())
            &&& r.median is Some
            &&& is_median_of(r.median->0, buffer.intensities())
            &&& r.min * buffer.samples@.len() <= r.sum <= r.max * buffer.samples@.len()
        },
{
    let values = buffer.modality_intensities();
    assert(as_ints(values@) =~= buffer.intensities());
    let shape = vec![
        buffer.frame_count as usize,
        buffer.rows as usize,
        buffer.columns as usize,
        buffer.samples_per_pixel as usize,
    ];
    let r = statistics_of_values(&values, shape);
    proof {
        if values@.len() > 0 {
            assert(as_ints(values@) == buffer.intensities() && is_median(r.median->0, values@));
        }
    }
    r
}

/// Histogram over all frames of a buffer after the modality step. A zero
/// bin count is rejected before any sample is read.
pub fn histogram_from_decoded(buffer: &PixelBuffer, bin_count: usize) -> (r: Result<
    PixelHistogram,
    PipelineError,
>)
    requires
        buffer.wf(),
    ensures
        bin_count == 0 ==> r == Err::<PixelHistogram, PipelineError>(
            PipelineError::InvalidArgument,
        ),
        bin_count > 0 ==> r is Ok,
        r is Ok ==> {
            let h = r->Ok_0;
            &&& h.bins@.len() == bin_count
            &&& buffer.samples@.len() == 0 ==> h.min == 0 && h.max == 0
            &&& buffer.samples@.len() > 0 ==> is_least(h.min as int, buffer.intensities())
                && is_greatest(h.max as int, buffer.intensities())
            &&& forall|k: int|
                0 <= k < bin_count ==> #[trigger] h.bins@[k] == bin_count_of(
                    buffer.intensities(),
                    h.min as int,
                    h.max as int,
                    bin_count as int,
                    k,
                )
            &&& count_total(h.bins@) == buffer.samples@.len()
        },
{
    if bin_count == 0 {
        return Err(PipelineError::InvalidArgument);
    }
    let values = buffer.modality_intensities();
    assert(as_ints(values@) =~= buffer.intensities());
    histogram_of_values(&values, bin_count)
}

} // verus!
