//! Frequency table over the iteration-count domain, backed by
//! `hdrhistogram::Histogram`.
//!
//! The histogram is created with 3 significant decimal digits, which gives
//! it 2048 sub-buckets of unit width: every value below 2048 occupies a
//! bucket of its own, so counts for the iteration-count domain (the caps in
//! use never exceed 1024) are exact. The contracts below model the
//! histogram as the sequence of those 2048 per-value counts.

use vstd::prelude::*;

verus! {

/// Number of exactly-tracked values: with 3 significant decimal digits the
/// histogram keeps unit resolution below 2048.
pub const DOMAIN: u32 = 2048;

/// Opaque holder for the outside histogram; Verus sees it only through
/// `counts_of` and the trusted functions below.
#[verifier::external_body]
pub struct HistTable {
    inner: hdrhistogram::Histogram<u32>,
}

/// The per-value counts of `h` for the values `0 .. 2048`, each of which is
/// a single-unit bucket of a histogram built with 3 significant digits.
pub uninterp spec fn counts_of(h: HistTable) -> Seq<u64>;

/// Relies on `hdrhistogram::Histogram::new`: a fresh histogram holds no
/// counts. `new(3)` only validates its argument (3 <= 5), so it cannot fail.
#[verifier::external_body]
fn hist_new() -> (h: HistTable)
    ensures
        counts_of(h) == Seq::new(DOMAIN as nat, |i: int| 0u64),
{
    HistTable { inner: hdrhistogram::Histogram::<u32>::new(3).unwrap() }
}

/// Relies on `hdrhistogram::Histogram::reset`: it zeroes every count.
#[verifier::external_body]
fn hist_reset(h: &mut HistTable)
    ensures
        counts_of(*final(h)) == Seq::new(DOMAIN as nat, |i: int| 0u64),
{
    h.inner.reset();
}

/// Relies on `hdrhistogram::Histogram::record`: it adds one to the count of
/// the value's bucket, which for a value below 2048 holds that value alone.
/// Counts add with saturation, so the bound on the old count keeps the new
/// count exact. The histogram auto-resizes, so `record` cannot fail here.
#[verifier::external_body]
fn hist_record(h: &mut HistTable, v: u32)
    requires
        v < DOMAIN,
        counts_of(*old(h)).len() == DOMAIN as int,
        counts_of(*old(h))[v as int] < u32::MAX as u64,
    ensures
        counts_of(*final(h)) == counts_of(*old(h)).update(
            v as int,
            (counts_of(*old(h))[v as int] + 1) as u64,
        ),
{
    h.inner.record(v as u64).unwrap();
}

/// Relies on `hdrhistogram::Histogram::count_at`: it returns the count of
/// the value's bucket, which for a value below 2048 holds that value alone.
#[verifier::external_body]
fn hist_count_at(h: &HistTable, v: u32) -> (r: u32)
    requires
        v < DOMAIN,
        counts_of(*h).len() == DOMAIN as int,
    ensures
        r as u64 == counts_of(*h)[v as int],
{
    h.inner.count_at(v as u64)
}

/// Total number of samples described by the counts `s`.
pub open spec fn sum(s: Seq<u64>) -> int
    decreases s.len(),
{
    if s.len() == 0 {
        0
    } else {
        sum(s.drop_last()) + s.last()
    }
}

/// Number of samples with value at most `v` (with `cum(s, -1) == 0`).
pub open spec fn cum(s: Seq<u64>, v: int) -> int {
    sum(s.take(v + 1))
}

/// Whether value `v` occurs in the data described by `s`.
pub open spec fn recorded(s: Seq<u64>, v: int) -> bool {
    0 <= v < s.len() && s[v] > 0
}

/// `m` is the largest recorded value, or 0 when nothing is recorded.
pub open spec fn is_max_value(s: Seq<u64>, m: int) -> bool {
    if sum(s) == 0 {
        m == 0
    } else {
        recorded(s, m) && (forall|w: int| m < w < s.len() ==> s[w] == 0)
    }
}

pub proof fn lemma_sum_take_succ(s: Seq<u64>, k: int)
    requires
        0 <= k < s.len(),
    ensures
        sum(s.take(k + 1)) == sum(s.take(k)) + s[k],
{
    assert(s.take(k + 1).drop_last() =~= s.take(k));
    assert(s.take(k + 1).last() == s[k]);
}

pub proof fn lemma_sum_nonneg(s: Seq<u64>)
    ensures
        sum(s) >= 0,
    decreases s.len(),
{
    if s.len() > 0 {
        lemma_sum_nonneg(s.drop_last());
    }
}

pub proof fn lemma_cum_mono(s: Seq<u64>, a: int, b: int)
    requires
        -1 <= a <= b < s.len(),
    ensures
        cum(s, a) <= cum(s, b),
    decreases b - a,
{
    if a < b {
        lemma_cum_mono(s, a, b - 1);
        lemma_sum_take_succ(s, b);
    }
}

pub proof fn lemma_cum_le_sum(s: Seq<u64>, v: int)
    requires
        -1 <= v < s.len(),
    ensures
        cum(s, v) <= sum(s),
        cum(s, s.len() - 1) == sum(s),
    decreases s.len() - v,
{
    assert(s.take(s.len() as int) =~= s);
    if v < s.len() - 1 {
        lemma_cum_mono(s, v, s.len() - 1);
    }
}

pub proof fn lemma_sum_update(s: Seq<u64>, i: int, x: u64)
    requires
        0 <= i < s.len(),
    ensures
        sum(s.update(i, x)) == sum(s) - s[i] + x,
    decreases s.len(),
{
    if i == s.len() - 1 {
        assert(s.update(i, x).drop_last() =~= s.drop_last());
    } else {
        assert(s.update(i, x).drop_last() =~= s.drop_last().update(i, x));
        lemma_sum_update(s.drop_last(), i, x);
    }
}

pub proof fn lemma_element_le_sum(s: Seq<u64>, i: int)
    requires
        0 <= i < s.len(),
    ensures
        s[i] <= sum(s),
    decreases s.len(),
{
    if i == s.len() - 1 {
        lemma_sum_nonneg(s.drop_last());
    } else {
        lemma_element_le_sum(s.drop_last(), i);
    }
}

pub proof fn lemma_sum_all_zero(s: Seq<u64>)
    requires
        forall|i: int| 0 <= i < s.len() ==> s[i] == 0,
    ensures
        sum(s) == 0,
    decreases s.len(),
{
    if s.len() > 0 {
        lemma_sum_all_zero(s.drop_last());
    }
}

/// The sample count that the quantile `i/8` asks for: the result of the
/// octile query is the smallest recorded value whose cumulative count
/// reaches this target.
pub open spec fn octile_target(s: Seq<u64>, i: int) -> int {
    if i * sum(s) == 0 {
        1
    } else {
        (i * sum(s) + 7) / 8
    }
}

/// `r` is the value at quantile `i/8`: the smallest recorded value whose
/// cumulative count reaches the target, or the sentinel 0 when nothing is
/// recorded.
pub open spec fn is_octile_value(s: Seq<u64>, i: int, r: int) -> bool {
    if sum(s) == 0 {
        r == 0
    } else {
        &&& 0 <= r < s.len()
        &&& cum(s, r) >= octile_target(s, i)
        &&& cum(s, r - 1) < octile_target(s, i)
    }
}

/// What a well-formed histogram guarantees about its counts.
pub proof fn lemma_wf_props(h: &Hist)
    requires
        h.wf(),
    ensures
        h@.len() == DOMAIN as int,
        0 <= sum(h@) <= u32::MAX as int,
{
    lemma_sum_nonneg(h@);
}

/// Frequency table over iteration counts, exact for the domain `0 .. 2048`.
pub struct Hist {
    inner: HistTable,
    total: u64,
}

impl Hist {
    /// The per-value counts.
    pub closed spec fn view(&self) -> Seq<u64> {
        counts_of(self.inner)
    }

    pub closed spec fn wf(&self) -> bool {
        &&& self@.len() == DOMAIN as int
        &&& self.total as int == sum(self@)
        &&& sum(self@) <= u32::MAX as int
    }

    pub fn new() -> (h: Hist)
        ensures
            h.wf(),
            h@ == Seq::new(DOMAIN as nat, |i: int| 0u64),
            sum(h@) == 0,
    {
        let inner = hist_new();
        proof {
            lemma_sum_all_zero(counts_of(inner));
        }
        Hist { inner, total: 0 }
    }

    /// Drop all recorded samples.
    pub fn reset(&mut self)
        ensures
            final(self).wf(),
            final(self)@ == Seq::new(DOMAIN as nat, |i: int| 0u64),
            sum(final(self)@) == 0,
    {
        hist_reset(&mut self.inner);
        self.total = 0;
        proof {
            lemma_sum_all_zero(self@);
        }
    }

    /// Record one sample with value `v`.
    pub fn record(&mut self, v: u32)
        requires
            old(self).wf(),
            v < DOMAIN,
            sum(old(self)@) < u32::MAX as int,
        ensures
            final(self).wf(),
            final(self)@ == old(self)@.update(v as int, (old(self)@[v as int] + 1) as u64),
            sum(final(self)@) == sum(old(self)@) + 1,
    {
        proof {
            lemma_element_le_sum(self@, v as int);
        }
        hist_record(&mut self.inner, v);
        self.total = self.total + 1;
        proof {
            lemma_sum_update(old(self)@, v as int, (old(self)@[v as int] + 1) as u64);
        }
    }

    /// Total number of recorded samples.
    pub fn total(&self) -> (r: u64)
        requires
            self.wf(),
        ensures
            r as int == sum(self@),
    {
        self.total
    }

    /// Count of samples recorded at exactly `v`.
    pub fn count_at(&self, v: u32) -> (r: u32)
        requires
            self.wf(),
            v < DOMAIN,
        ensures
            r as u64 == self@[v as int],
    {
        hist_count_at(&self.inner, v)
    }

    /// Largest recorded value, or 0 when the histogram is empty.
    pub fn max_value(&self) -> (r: u32)
        requires
            self.wf(),
        ensures
            is_max_value(self@, r as int),
            r < DOMAIN,
    {
        let mut v: u32 = DOMAIN;
        while v > 0
            invariant
                self.wf(),
                0 <= v <= DOMAIN,
                forall|w: int| v <= w < DOMAIN ==> self@[w] == 0,
            decreases v,
        {
            v = v - 1;
            if self.count_at(v) > 0 {
                proof {
                    lemma_element_le_sum(self@, v as int);
                }
                return v;
            }
        }
        proof {
            lemma_sum_all_zero(self@);
        }
        0
    }

    /// The value at quantile `i/8`: the smallest recorded value `r` such
    /// that the fraction of samples at most `r` is at least `i/8`; the
    /// sentinel 0 when the histogram is empty.
    pub fn value_at_octile(&self, i: u8) -> (r: u32)
        requires
            self.wf(),
            i <= 8,
        ensures
            is_octile_value(self@, i as int, r as int),
            r < DOMAIN,
    {
        let total = self.total;
        if total == 0 {
            return 0;
        }
        proof {
            assert(1 <= i as int * sum(self@) <= 8 * 0xFFFF_FFFF || i == 0) by (nonlinear_arith)
                requires
                    0 <= i as int <= 8,
                    1 <= sum(self@) <= 0xFFFF_FFFF,
            ;
        }
        let k: u64 = if i == 0 {
            1
        } else {
            ((i as u64) * total + 7) / 8
        };
        proof {
            if i == 0 {
                assert(0 * sum(self@) == 0) by (nonlinear_arith);
                assert(octile_target(self@, 0) == 1);
            } else {
                assert(i as int * sum(self@) != 0);
                assert(k as int == (i as int * sum(self@) + 7) / 8);
            }
            assert(k as int == octile_target(self@, i as int));
            assert(k >= 1);
            // the target never exceeds the total, so the scan below stays
            // inside the domain
            assert(i as int * sum(self@) <= 8 * sum(self@)) by (nonlinear_arith)
                requires
                    0 <= i as int <= 8,
                    sum(self@) >= 0,
            ;
            assert((i as int * sum(self@) + 7) / 8 <= sum(self@));
            lemma_cum_le_sum(self@, -1);
        }
        let mut v: u32 = 0;
        let mut c: u64 = self.count_at(0) as u64;
        proof {
            assert(self@.take(1).drop_last() =~= self@.take(0));
            assert(c as int == cum(self@, 0));
        }
        while c < k
            invariant
                self.wf(),
                0 <= v < DOMAIN,
                1 <= k as int == octile_target(self@, i as int) <= sum(self@),
                c as int == cum(self@, v as int),
                cum(self@, v as int - 1) < k as int,
            decreases DOMAIN - v,
        {
            proof {
                lemma_cum_le_sum(self@, v as int);
                if v as int == DOMAIN - 1 {
                    assert(cum(self@, DOMAIN - 1) == sum(self@));
                    assert(false);
                }
                lemma_sum_take_succ(self@, v as int + 1);
                lemma_element_le_sum(self@, v as int + 1);
            }
            v = v + 1;
            let cv = self.count_at(v) as u64;
            proof {
                lemma_cum_mono(self@, -1, v as int - 1);
                lemma_cum_le_sum(self@, v as int - 1);
            }
            c = c + cv;
        }
        v
    }

    /// Smallest recorded value strictly greater than `v`, if any.
    pub fn next_above(&self, v: u32) -> (r: Option<u32>)
        requires
            self.wf(),
            v < DOMAIN,
        ensures
            match r {
                Some(w) => recorded(self@, w as int) && v < w < DOMAIN && (forall|u: int|
                    v < u < w ==> self@[u] == 0),
                None => forall|u: int| v < u < DOMAIN ==> self@[u] == 0,
            },
    {
        let mut w: u32 = v + 1;
        while w < DOMAIN
            invariant
                self.wf(),
                v < w <= DOMAIN,
                forall|u: int| v < u < w ==> self@[u] == 0,
            decreases DOMAIN - w,
        {
            if self.count_at(w) > 0 {
                return Some(w);
            }
            w = w + 1;
        }
        None
    }
}

} // verus!
