//! Quantile boundary extraction: from a histogram of escaped-sample
//! iteration counts to nine ascending color-bin thresholds.
//!
//! The nine raw values are the 0/8 .. 8/8 quantiles of the distribution.
//! A nudge pass then removes degenerate (non-increasing) boundaries: a
//! duplicate is replaced with the smallest recorded value strictly above
//! it, clamped to the largest recorded value. An empty distribution yields
//! the sentinel 0 for every threshold.

use vstd::prelude::*;

use crate::hist::{
    cum, is_max_value, is_octile_value, octile_target, recorded, sum, Hist, DOMAIN,
    lemma_cum_mono, lemma_sum_take_succ,
};

verus! {

/// One per-pixel sample from the render pass: the iteration count and the
/// escape flag. The flag value 1 marks a point that never escaped; only
/// the other points carry coloring statistics.
#[derive(Clone, Copy, Debug)]
pub struct IterationSample {
    pub iterations: u32,
    pub flag: u32,
}

impl IterationSample {
    /// Whether the sample escaped, and therefore feeds the histogram.
    pub open spec fn spec_escaped(self) -> bool {
        self.flag != 1
    }

    pub fn escaped(&self) -> (r: bool)
        ensures
            r == self.spec_escaped(),
    {
        self.flag != 1
    }
}

/// Number of samples in `ss` that escaped with iteration count exactly `v`.
pub open spec fn tally(ss: Seq<IterationSample>, v: int) -> int
    decreases ss.len(),
{
    if ss.len() == 0 {
        0
    } else {
        tally(ss.drop_last(), v) + if ss.last().spec_escaped() && ss.last().iterations == v {
            1int
        } else {
            0int
        }
    }
}

proof fn lemma_tally_take_succ(ss: Seq<IterationSample>, j: int, v: int)
    requires
        0 <= j < ss.len(),
    ensures
        tally(ss.take(j + 1), v) == tally(ss.take(j), v) + if ss[j].spec_escaped()
            && ss[j].iterations == v {
            1int
        } else {
            0int
        },
{
    assert(ss.take(j + 1).drop_last() =~= ss.take(j));
    assert(ss.take(j + 1).last() == ss[j]);
}

/// `b` holds the nine raw octile values of `s`.
pub open spec fn is_octile_seq(s: Seq<u64>, b: Seq<u32>) -> bool {
    &&& b.len() == 9
    &&& forall|i: int| 0 <= i < 9 ==> is_octile_value(s, i, #[trigger] b[i] as int)
}

/// `w` is the smallest recorded value of `s` strictly above `v`, or, when
/// no recorded value lies above `v`, the largest recorded value (the
/// clamp of the nudge step).
pub open spec fn is_next_distinct(s: Seq<u64>, v: int, w: int) -> bool {
    ||| (recorded(s, w) && v < w && (forall|u: int| v < u < w ==> s[u] == 0))
    ||| ((forall|u: int| v < u < s.len() ==> s[u] == 0) && is_max_value(s, w))
}

/// One step of the degeneracy nudge: the boundary after `prev` is lifted
/// to at least `prev`, and a duplicate is replaced by the next distinct
/// recorded value (clamped to the maximum).
pub open spec fn nudge_rel(s: Seq<u64>, prev: int, orig: int, new: int) -> bool {
    if prev < orig {
        new == orig
    } else {
        is_next_distinct(s, prev, new)
    }
}

/// `t` is the result of the nudge pass over the raw octiles `b`.
pub open spec fn is_nudged(s: Seq<u64>, b: Seq<u32>, t: Seq<u32>) -> bool {
    &&& t.len() == 9
    &&& t[0] == b[0]
    &&& t[8] == b[8]
    &&& forall|i: int| 0 <= i < 7 ==> nudge_rel(s, t[i] as int, b[i + 1] as int, #[trigger] t[i
        + 1] as int)
}

/// `t` is a valid threshold set for the distribution `s`.
pub open spec fn is_threshold_seq(s: Seq<u64>, t: Seq<u32>) -> bool {
    exists|b: Seq<u32>| is_octile_seq(s, b) && is_nudged(s, b, t)
}

/// An octile value is recorded (when anything is), hence at most the max.
proof fn lemma_octile_le_max(s: Seq<u64>, i: int, r: int, m: int)
    requires
        0 <= i,
        is_octile_value(s, i, r),
        is_max_value(s, m),
    ensures
        r <= m,
        sum(s) > 0 ==> recorded(s, r),
{
    crate::hist::lemma_sum_nonneg(s);
    if sum(s) > 0 {
        assert(i * sum(s) >= 0) by (nonlinear_arith)
            requires
                i >= 0,
                sum(s) >= 0,
        ;
        assert(octile_target(s, i) >= 1);
        crate::hist::lemma_sum_nonneg(s.take(r));
        assert(cum(s, r - 1) >= 0);
        lemma_sum_take_succ(s, r);
        assert(cum(s, r) == cum(s, r - 1) + s[r]);
        assert(s[r] > 0);
        if r > m {
            assert(s[r] == 0);
        }
    }
}

/// A recorded value is at most the max.
proof fn lemma_recorded_le_max(s: Seq<u64>, v: int, m: int)
    requires
        recorded(s, v),
        is_max_value(s, m),
    ensures
        v <= m,
{
    crate::hist::lemma_element_le_sum(s, v);
    if sum(s) == 0 {
        assert(false);
    }
    if v > m {
        assert(s[v] == 0);
    }
}

/// The 8/8 quantile is the largest recorded value.
pub proof fn lemma_octile8_is_max(s: Seq<u64>, r: int)
    requires
        sum(s) > 0,
        is_octile_value(s, 8, r),
    ensures
        is_max_value(s, r),
{
    assert(8 * sum(s) != 0);
    assert((8 * sum(s) + 7) / 8 == sum(s)) by (nonlinear_arith)
        requires
            sum(s) >= 1,
    ;
    assert(octile_target(s, 8) == sum(s));
    crate::hist::lemma_sum_nonneg(s.take(r));
    lemma_sum_take_succ(s, r);
    assert(recorded(s, r));
    assert forall|w: int| r < w < s.len() implies s[w] == 0 by {
        if s[w] > 0 {
            lemma_cum_mono(s, r, w - 1);
            lemma_sum_take_succ(s, w);
            crate::hist::lemma_cum_le_sum(s, w);
        }
    }
}

/// The nine raw octile values of the histogram, in quantile order.
pub fn octiles(h: &Hist) -> (b: Vec<u32>)
    requires
        h.wf(),
    ensures
        is_octile_seq(h@, b@),
        forall|i: int| 0 <= i < 9 ==> #[trigger] b@[i] < DOMAIN,
{
    let mut b: Vec<u32> = Vec::new();
    let mut i: u8 = 0;
    while i < 9
        invariant
            h.wf(),
            i <= 9,
            b@.len() == i as int,
            forall|j: int| 0 <= j < i as int ==> is_octile_value(h@, j, #[trigger] b@[j] as int),
            forall|j: int| 0 <= j < i as int ==> #[trigger] b@[j] < DOMAIN,
        decreases 9 - i,
    {
        let v = h.value_at_octile(i);
        b.push(v);
        i = i + 1;
    }
    b
}

/// The degeneracy nudge over the nine raw octiles (scanning positions 0
/// through 6, adjusting the following boundary each time). The result is
/// non-decreasing, and an empty histogram leaves every threshold at the
/// sentinel 0.
pub fn nudge(h: &Hist, t: &mut Vec<u32>)
    requires
        h.wf(),
        is_octile_seq(h@, old(t)@),
    ensures
        is_nudged(h@, old(t)@, final(t)@),
        forall|i: int| 0 <= i < 8 ==> #[trigger] final(t)@[i] <= final(t)@[i + 1],
        forall|i: int| 0 <= i < 9 ==> #[trigger] final(t)@[i] < DOMAIN,
        sum(h@) == 0 ==> forall|i: int| 0 <= i < 9 ==> #[trigger] final(t)@[i] == 0,
{
    let m = h.max_value();
    proof {
        assert forall|j: int| 0 <= j < 9 implies #[trigger] old(t)@[j] as int <= m as int by {
            lemma_octile_le_max(h@, j, old(t)@[j] as int, m as int);
        }
        if sum(h@) == 0 {
            assert(m == 0);
        }
    }
    let mut i: usize = 0;
    while i < 7
        invariant
            h.wf(),
            i <= 7,
            t@.len() == 9,
            is_octile_seq(h@, old(t)@),
            is_max_value(h@, m as int),
            m < DOMAIN,
            t@[0] == old(t)@[0],
            t@[8] == old(t)@[8],
            forall|j: int| (i as int) < j && j < 9 ==> #[trigger] t@[j] == old(t)@[j],
            forall|j: int| 0 <= j <= i as int ==> #[trigger] t@[j] as int <= m as int,
            forall|j: int| 0 <= j < i as int ==> nudge_rel(h@, t@[j] as int, old(t)@[j + 1] as int,
                #[trigger] t@[j + 1] as int),
            forall|j: int| 0 <= j < i as int ==> #[trigger] t@[j] <= t@[j + 1],
            sum(h@) == 0 ==> forall|j: int| 0 <= j <= i as int ==> #[trigger] t@[j] == 0,
        decreases 7 - i,
    {
        let a = t[i];
        let bv = t[i + 1];
        proof {
            crate::hist::lemma_wf_props(h);
            lemma_octile_le_max(h@, i as int + 1, bv as int, m as int);
        }
        if a >= bv {
            // the lifted boundary would equal its predecessor: replace it
            // with the next distinct recorded value, clamped to the max
            let nv = match h.next_above(a) {
                Some(w) => {
                    proof {
                        lemma_recorded_le_max(h@, w as int, m as int);
                    }
                    w
                },
                None => m,
            };
            t.set(i + 1, nv);
            proof {
                if sum(h@) == 0 {
                    assert(t@[i as int + 1] == 0);
                }
            }
        } else {
            // already strictly increasing: the max-lift keeps the raw octile
            t.set(i + 1, bv);
        }
        i = i + 1;
    }
    proof {
        // the untouched last boundary is the 8/8 quantile, which is the
        // largest recorded value, so the sequence stays sorted at the end
        crate::hist::lemma_wf_props(h);
        assert(is_octile_value(h@, 8, t@[8] as int));
        if sum(h@) > 0 {
            lemma_octile8_is_max(h@, t@[8] as int);
            assert(t@[8] as int == m as int);
        }
        assert(t@[7] <= t@[8]);
        assert forall|j: int| 0 <= j < 8 implies #[trigger] t@[j] <= t@[j + 1] by {
            if j < 7 {
                assert(t@[j] <= t@[j + 1]);
            }
        }
    }
}

/// The full extraction: nine ascending thresholds for the histogram's
/// distribution. An empty histogram yields all sentinel 0 thresholds, and
/// a non-empty one puts the largest recorded value last.
pub fn thresholds(h: &Hist) -> (t: Vec<u32>)
    requires
        h.wf(),
    ensures
        t@.len() == 9,
        is_threshold_seq(h@, t@),
        forall|i: int| 0 <= i < 8 ==> #[trigger] t@[i] <= t@[i + 1],
        forall|i: int| 0 <= i < 9 ==> #[trigger] t@[i] < DOMAIN,
        sum(h@) == 0 ==> forall|i: int| 0 <= i < 9 ==> #[trigger] t@[i] == 0,
        sum(h@) > 0 ==> is_max_value(h@, t@[8] as int),
{
    let mut t = octiles(h);
    let ghost base = t@;
    nudge(h, &mut t);
    proof {
        assert(is_octile_seq(h@, base) && is_nudged(h@, base, t@));
        if sum(h@) > 0 {
            lemma_octile8_is_max(h@, t@[8] as int);
        }
    }
    t
}

/// Rebuild the histogram from one frame's samples: reset, then record the
/// iteration count of every escaped sample. Non-escaped samples never
/// reach the histogram.
pub fn populate(h: &mut Hist, samples: &Vec<IterationSample>)
    requires
        old(h).wf(),
        samples@.len() <= u32::MAX as int,
        forall|j: int| 0 <= j < samples@.len() && (#[trigger] samples@[j]).spec_escaped()
            ==> samples@[j].iterations < DOMAIN,
    ensures
        final(h).wf(),
        forall|v: int| 0 <= v < DOMAIN as int ==> #[trigger] final(h)@[v] as int == tally(
            samples@,
            v,
        ),
        sum(final(h)@) <= samples@.len(),
{
    h.reset();
    proof {
        crate::hist::lemma_wf_props(h);
        assert forall|v: int| 0 <= v < DOMAIN as int implies #[trigger] h@[v] as int == tally(
            samples@.take(0),
            v,
        ) by {
            assert(samples@.take(0).len() == 0);
        }
    }
    let mut j: usize = 0;
    while j < samples.len()
        invariant
            h.wf(),
            j <= samples@.len(),
            samples@.len() <= u32::MAX as int,
            forall|jj: int| 0 <= jj < samples@.len() && (#[trigger] samples@[jj]).spec_escaped()
                ==> samples@[jj].iterations < DOMAIN,
            forall|v: int| 0 <= v < DOMAIN as int ==> #[trigger] h@[v] as int == tally(
                samples@.take(j as int),
                v,
            ),
            sum(h@) <= j as int,
        decreases samples@.len() - j,
    {
        let s = samples[j];
        proof {
            crate::hist::lemma_wf_props(h);
            if s.spec_escaped() {
                crate::hist::lemma_element_le_sum(h@, s.iterations as int);
            }
        }
        if s.escaped() {
            h.record(s.iterations);
        }
        proof {
            crate::hist::lemma_wf_props(h);
            assert forall|v: int| 0 <= v < DOMAIN as int implies #[trigger] h@[v] as int == tally(
                samples@.take(j as int + 1),
                v,
            ) by {
                lemma_tally_take_succ(samples@, j as int, v);
            }
        }
        j = j + 1;
    }
    proof {
        assert(samples@.take(samples@.len() as int) =~= samples@);
    }
}

/// One frame of the feedback loop's analysis: rebuild the histogram from
/// the samples and extract the nine thresholds.
pub fn equalize(h: &mut Hist, samples: &Vec<IterationSample>) -> (t: Vec<u32>)
    requires
        old(h).wf(),
        samples@.len() <= u32::MAX as int,
        forall|j: int| 0 <= j < samples@.len() && (#[trigger] samples@[j]).spec_escaped()
            ==> samples@[j].iterations < DOMAIN,
    ensures
        final(h).wf(),
        forall|v: int| 0 <= v < DOMAIN as int ==> #[trigger] final(h)@[v] as int == tally(
            samples@,
            v,
        ),
        t@.len() == 9,
        is_threshold_seq(final(h)@, t@),
        forall|i: int| 0 <= i < 8 ==> #[trigger] t@[i] <= t@[i + 1],
        forall|i: int| 0 <= i < 9 ==> #[trigger] t@[i] < DOMAIN,
        sum(final(h)@) == 0 ==> forall|i: int| 0 <= i < 9 ==> #[trigger] t@[i] == 0,
        sum(final(h)@) > 0 ==> is_max_value(final(h)@, t@[8] as int),
{
    populate(h, samples);
    thresholds(h)
}

} // verus!
