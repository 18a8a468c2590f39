//! Frame timing of an animation run. Times are in nanoseconds.
use vstd::multiset::*;
use vstd::prelude::*;
use vstd::relations::*;
use vstd::seq_lib::*;

verus! {

/// Summary of a run.
#[derive(Debug, Clone, Copy, PartialEq, Eq, Structural)]
pub struct FrameMetrics {
    /// Number of frames.
    pub frame_count: usize,
    /// Sum of the intervals; the average is this over one less than the number of frames.
    pub total_interval_ns: u128,
    /// 95th percentile of the intervals.
    pub p95_interval_ns: u64,
    /// Longest interval.
    pub worst_interval_ns: u64,
    /// Number of intervals longer than the threshold.
    pub jank_count: usize,
}

impl Default for FrameMetrics {
    /// All zeros.
    fn default() -> (res: Self)
        ensures
            res == (FrameMetrics {
                frame_count: 0,
                total_interval_ns: 0,
                p95_interval_ns: 0,
                worst_interval_ns: 0,
                jank_count: 0,
            }),
    {
        FrameMetrics {
            frame_count: 0,
            total_interval_ns: 0,
            p95_interval_ns: 0,
            worst_interval_ns: 0,
            jank_count: 0,
        }
    }
}

/// Time between two moments, none if the second is not later.
pub open spec fn interval(earlier: u64, later: u64) -> u64 {
    if later >= earlier { (later - earlier) as u64 } else { 0 }
}

/// Times between consecutive frames.
pub open spec fn intervals(timestamps: Seq<u64>) -> Seq<u64> {
    Seq::new(
        if timestamps.len() == 0 { 0 } else { (timestamps.len() - 1) as nat },
        |i: int| interval(timestamps[i], timestamps[i + 1]),
    )
}

/// Sum of a list of times.
pub open spec fn total(times: Seq<u64>) -> nat
    decreases times.len(),
{
    if times.len() == 0 {
        0
    } else {
        total(times.drop_last()) + times.last() as nat
    }
}

/// Number of times that exceed a threshold.
pub open spec fn count_above(times: Seq<u64>, threshold: u64) -> nat
    decreases times.len(),
{
    if times.len() == 0 {
        0
    } else {
        count_above(times.drop_last(), threshold) + if times.last() > threshold { 1nat } else { 0nat }
    }
}

/// Order of times.
pub open spec fn no_longer() -> spec_fn(u64, u64) -> bool {
    |a: u64, b: u64| a <= b
}

/// The times in ascending order.
pub open spec fn ascending(times: Seq<u64>) -> Seq<u64> {
    times.sort_by(no_longer())
}

/// Whether `worst` is the greatest of some times.
pub open spec fn is_greatest(times: Seq<u64>, worst: u64) -> bool {
    &&& times.contains(worst)
    &&& forall|i: int| 0 <= i < times.len() ==> #[trigger] times[i] <= worst
}

/// Inserting into a sequence adds one element to its multiset.
proof fn lemma_insert_multiset(s: Seq<u64>, i: int, x: u64)
    requires
        0 <= i <= s.len(),
    ensures
        s.insert(i, x).to_multiset() == s.to_multiset().insert(x),
{
    broadcast use group_to_multiset_ensures;

    let t = s.insert(i, x);
    assert(t.remove(i) =~= s);
    to_multiset_remove(t, i);
    assert(t[i] == x);
    assert(t.contains(x));
    t.to_multiset_ensures();
    assert(t.to_multiset().count(x) > 0);
    assert(t.to_multiset().remove(x).insert(x) =~= t.to_multiset());
}

/// Sorts times in ascending order.
fn sorted(times: &Vec<u64>) -> (res: Vec<u64>)
    ensures
        res@ == ascending(times@),
        res@.len() == times@.len(),
{
    let mut out: Vec<u64> = Vec::new();
    let mut i: usize = 0;
    assert(out@ =~= times@.take(0));
    while i < times.len()
        invariant
            i <= times@.len(),
            out@.len() == i,
            out@.to_multiset() == times@.take(i as int).to_multiset(),
            sorted_by(out@, no_longer()),
        decreases times@.len() - i,
    {
        let x: u64 = times[i];
        let mut k: usize = out.len();
        while k > 0 && out[k - 1] > x
            invariant
                k <= out@.len(),
                forall|j: int| k <= j < out@.len() ==> #[trigger] out@[j] > x,
            decreases k,
        {
            k = k - 1;
        }
        let ghost before = out@;
        proof {
            assert forall|j: int| 0 <= j < k implies #[trigger] before[j] <= x by {
                if j < k - 1 {
                    assert(no_longer()(before[j], before[k - 1]));
                }
            }
        }
        out.insert(k, x);
        proof {
            lemma_insert_multiset(before, k as int, x);
            assert(times@.take(i + 1) =~= times@.take(i as int).push(x));
            to_multiset_build(times@.take(i as int), x);
            assert forall|a: int, b: int| 0 <= a < b < out@.len() implies #[trigger] no_longer()(
                out@[a],
                out@[b],
            ) by {
                let pa = if a < k { a } else { a - 1 };
                let pb = if b < k { b } else { b - 1 };
                if a != k && b != k {
                    assert(no_longer()(before[pa], before[pb]));
                }
            }
        }
        i = i + 1;
    }
    proof {
        assert(times@.take(i as int) =~= times@);
        times@.lemma_sort_by_ensures(no_longer());
        lemma_sorted_unique(out@, ascending(times@), no_longer());
    }
    out
}

/// Collects the times at which frames were shown.
#[derive(Debug, Clone)]
pub struct MetricsRecorder {
    /// A longer interval counts as a stutter.
    pub jank_threshold_ns: u64,
    /// When each frame was shown, in order.
    pub timestamps: Vec<u64>,
}

impl MetricsRecorder {
    /// Whether `m` is the summary of these frames: empty for fewer than two frames, and
    /// otherwise over the intervals between consecutive frames.
    pub open spec fn summary(&self, m: FrameMetrics) -> bool {
        let times = intervals(self.timestamps@);
        if self.timestamps@.len() < 2 {
            m == (FrameMetrics {
                frame_count: 0,
                total_interval_ns: 0,
                p95_interval_ns: 0,
                worst_interval_ns: 0,
                jank_count: 0,
            })
        } else {
            &&& m.frame_count == self.timestamps@.len()
            &&& m.total_interval_ns == total(times)
            &&& m.p95_interval_ns == ascending(times)[times.len() as int * 95 / 100]
            &&& is_greatest(times, m.worst_interval_ns)
            &&& m.jank_count == count_above(times, self.jank_threshold_ns)
        }
    }

    /// A recorder without frames.
    pub fn new(jank_threshold_ns: u64) -> (res: Self)
        ensures
            res.jank_threshold_ns == jank_threshold_ns,
            res.timestamps@.len() == 0,
    {
        MetricsRecorder { jank_threshold_ns, timestamps: Vec::new() }
    }

    /// Records a frame.
    pub fn record_frame(&mut self, now_ns: u64)
        ensures
            final(self).timestamps@ == old(self).timestamps@.push(now_ns),
            final(self).jank_threshold_ns == old(self).jank_threshold_ns,
    {
        self.timestamps.push(now_ns);
    }

    /// Summarises the frames that were recorded.
    pub fn compute(&self) -> (res: FrameMetrics)
        ensures
            self.summary(res),
    {
        let n: usize = self.timestamps.len();
        if n < 2 {
            return FrameMetrics::default();
        }
        let ghost times = intervals(self.timestamps@);
        let mut gaps: Vec<u64> = Vec::new();
        let mut sum: u128 = 0;
        let mut worst: u64 = 0;
        let mut jank_count: usize = 0;
        let mut i: usize = 0;
        while i < n - 1
            invariant
                i <= n - 1,
                n == self.timestamps@.len(),
                n >= 2,
                times == intervals(self.timestamps@),
                times.len() == n - 1,
                gaps@ == times.take(i as int),
                sum == total(times.take(i as int)),
                sum <= i * u64::MAX,
                jank_count == count_above(times.take(i as int), self.jank_threshold_ns),
                jank_count <= i,
                i > 0 ==> times.take(i as int).contains(worst),
                forall|j: int| 0 <= j < i ==> #[trigger] times[j] <= worst,
            decreases n - 1 - i,
        {
            let earlier: u64 = self.timestamps[i];
            let later: u64 = self.timestamps[i + 1];
            let gap: u64 = if later >= earlier { later - earlier } else { 0 };
            proof {
                assert(times.take(i + 1).drop_last() =~= times.take(i as int));
                assert(times.take(i + 1).last() == gap);
                assert(times.take(i + 1) =~= times.take(i as int).push(gap));
                assert(i * u64::MAX <= usize::MAX * u64::MAX && (i + 1) * u64::MAX == i * u64::MAX
                    + u64::MAX) by (nonlinear_arith)
                    requires
                        i <= usize::MAX,
                ;
            }
            gaps.push(gap);
            sum = sum + gap as u128;
            proof {
                if i > 0 {
                    let j = choose|j: int| 0 <= j < i && times.take(i as int)[j] == worst;
                    assert(times.take(i + 1)[j] == worst);
                }
                assert(times.take(i + 1)[i as int] == gap);
            }
            if i == 0 || gap > worst {
                worst = gap;
            }
            if gap > self.jank_threshold_ns {
                jank_count = jank_count + 1;
            }
            i = i + 1;
        }
        proof {
            assert(times.take(i as int) =~= times);
        }
        let ordered: Vec<u64> = sorted(&gaps);
        let count: u128 = (n - 1) as u128;
        let p95_index: usize = (count * 95 / 100) as usize;
        FrameMetrics {
            frame_count: n,
            total_interval_ns: sum,
            p95_interval_ns: ordered[p95_index],
            worst_interval_ns: worst,
            jank_count,
        }
    }
}

/// The percentile lies among the intervals and is no longer than the longest of them.
pub proof fn percentile_is_an_interval(r: MetricsRecorder, m: FrameMetrics)
    requires
        r.summary(m),
        r.timestamps@.len() >= 2,
    ensures
        intervals(r.timestamps@).contains(m.p95_interval_ns),
        m.p95_interval_ns <= m.worst_interval_ns,
{
    broadcast use group_to_multiset_ensures;

    let times = intervals(r.timestamps@);
    times.lemma_sort_by_ensures(no_longer());
    let k = times.len() as int * 95 / 100;
    times.to_multiset_ensures();
    ascending(times).to_multiset_ensures();
    assert(ascending(times).len() == times.len());
    assert(ascending(times).contains(ascending(times)[k]));
    let j = choose|j: int| 0 <= j < times.len() && times[j] == m.p95_interval_ns;
    assert(times[j] <= m.worst_interval_ns);
}

/// The average interval is no longer than the longest, and the longest is part of the sum.
pub proof fn average_is_at_most_the_longest(times: Seq<u64>, worst: u64)
    requires
        is_greatest(times, worst),
    ensures
        worst <= total(times) <= worst * times.len(),
    decreases times.len(),
{
    lemma_total_at_most(times, worst);
    let j = choose|j: int| 0 <= j < times.len() && times[j] == worst;
    lemma_total_at_least(times, j);
}

proof fn lemma_total_at_most(times: Seq<u64>, bound: u64)
    requires
        forall|i: int| 0 <= i < times.len() ==> #[trigger] times[i] <= bound,
    ensures
        total(times) <= bound * times.len(),
    decreases times.len(),
{
    if times.len() > 0 {
        let rest = times.drop_last();
        assert forall|i: int| 0 <= i < rest.len() implies #[trigger] rest[i] <= bound by {
            assert(times[i] <= bound);
        }
        lemma_total_at_most(rest, bound);
        assert(times[times.len() - 1] <= bound);
        assert(bound * (times.len() - 1) + bound == bound * times.len()) by (nonlinear_arith);
    } else {
        assert(bound * times.len() == 0) by (nonlinear_arith)
            requires
                times.len() == 0,
        ;
    }
}

proof fn lemma_total_at_least(times: Seq<u64>, j: int)
    requires
        0 <= j < times.len(),
    ensures
        times[j] <= total(times),
    decreases times.len(),
{
    if j < times.len() - 1 {
        lemma_total_at_least(times.drop_last(), j);
    }
}

/// No more intervals are too long than there are intervals.
pub proof fn stutters_are_at_most_the_intervals(times: Seq<u64>, threshold: u64)
    ensures
        count_above(times, threshold) <= times.len(),
        (forall|i: int| 0 <= i < times.len() ==> #[trigger] times[i] <= threshold) ==> count_above(
            times,
            threshold,
        ) == 0,
    decreases times.len(),
{
    if times.len() > 0 {
        stutters_are_at_most_the_intervals(times.drop_last(), threshold);
        if forall|i: int| 0 <= i < times.len() ==> #[trigger] times[i] <= threshold {
            assert forall|i: int| 0 <= i < times.drop_last().len() implies #[trigger]
            times.drop_last()[i] <= threshold by {
                assert(times[i] <= threshold);
            }
            assert(times[times.len() - 1] <= threshold);
        }
    }
}

/// There is one interval fewer than frames. Each is the time from one frame to the next, or none
/// where the clock went back.
pub proof fn intervals_lie_between_frames(timestamps: Seq<u64>, i: int)
    requires
        0 <= i < timestamps.len() - 1,
    ensures
        intervals(timestamps).len() == timestamps.len() - 1,
        timestamps[i] <= timestamps[i + 1] ==> timestamps[i] + intervals(timestamps)[i]
            == timestamps[i + 1],
        timestamps[i] > timestamps[i + 1] ==> intervals(timestamps)[i] == 0,
{
}

/// Where the clock does not go back, the intervals add up to the time from the first frame to the
/// last.
pub proof fn intervals_add_up_to_the_whole_run(timestamps: Seq<u64>)
    requires
        timestamps.len() > 0,
        forall|i: int, j: int|
            0 <= i <= j < timestamps.len() ==> #[trigger] timestamps[i] <= #[trigger] timestamps[j],
    ensures
        total(intervals(timestamps)) == timestamps.last() - timestamps[0],
    decreases timestamps.len(),
{
    let times = intervals(timestamps);
    if timestamps.len() > 1 {
        let rest = timestamps.drop_last();
        assert(intervals(rest) =~= times.drop_last());
        intervals_add_up_to_the_whole_run(rest);
        assert(timestamps[timestamps.len() - 2] <= timestamps[timestamps.len() - 1]);
        assert(times.last() == timestamps.last() - rest.last());
    }
}

/// A time counts as a stutter exactly when it is longer than the threshold, and each counts once.
pub proof fn each_long_interval_counts_once(times: Seq<u64>, time: u64, threshold: u64)
    ensures
        count_above(Seq::<u64>::empty(), threshold) == 0,
        count_above(times.push(time), threshold) == count_above(times, threshold) + if time
            > threshold {
            1nat
        } else {
            0nat
        },
        total(times.push(time)) == total(times) + time,
        total(Seq::<u64>::empty()) == 0,
{
    assert(times.push(time).drop_last() =~= times);
}

/// What the summary of a run says. Fewer than two frames have no summary. Otherwise it tells the
/// number of frames, the sum of the intervals, the longest of them, how many are longer than the
/// threshold, and the one that stands at ninety-five hundredths once they are put in order,
/// whichever way that is done.
pub proof fn summaries_tell_what_happened(r: MetricsRecorder, m: FrameMetrics, ordered: Seq<u64>)
    requires
        r.summary(m),
        ordered.to_multiset() == intervals(r.timestamps@).to_multiset(),
        forall|i: int, j: int|
            0 <= i <= j < ordered.len() ==> #[trigger] ordered[i] <= #[trigger] ordered[j],
    ensures
        r.timestamps@.len() < 2 ==> m.frame_count == 0 && m.total_interval_ns == 0
            && m.p95_interval_ns == 0 && m.worst_interval_ns == 0 && m.jank_count == 0,
        r.timestamps@.len() >= 2 ==> {
            let times = intervals(r.timestamps@);
            &&& m.frame_count == r.timestamps@.len()
            &&& m.total_interval_ns == total(times)
            &&& m.jank_count == count_above(times, r.jank_threshold_ns)
            &&& times.contains(m.worst_interval_ns)
            &&& forall|i: int| 0 <= i < times.len() ==> #[trigger] times[i] <= m.worst_interval_ns
            &&& ordered.len() == times.len()
            &&& m.p95_interval_ns == ordered[95 * times.len() as int / 100]
        },
{
    broadcast use group_to_multiset_ensures;

    let times = intervals(r.timestamps@);
    times.lemma_sort_by_ensures(no_longer());
    assert(sorted_by(ordered, no_longer())) by {
        assert forall|i: int, j: int| 0 <= i < j < ordered.len() implies #[trigger] no_longer()(
            ordered[i],
            ordered[j],
        ) by {}
    }
    lemma_sorted_unique(ordered, ascending(times), no_longer());
    ordered.to_multiset_ensures();
    times.to_multiset_ensures();
}

} // verus!
