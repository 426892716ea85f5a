//! The bookkeeping of a drift run: which iterations are sampled, where the
//! constraint first broke and where the signal first collapsed.
//!
//! The numeric work of a run (the exact and the truncated value, their
//! error) happens outside this module; each iteration hands its verdicts to
//! a [`DriftTracker`] as an [`Observation`], and the tracker decides.
use vstd::prelude::*;

use crate::precision::{spec_bytes, Precision};

verus! {

/// The sampling interval used when none is chosen.
pub const DEFAULT_SAMPLE_INTERVAL: u64 = 100;

/// What one iteration's numbers showed.
#[derive(Debug, Clone, Copy, PartialEq, Eq, Structural)]
pub struct Observation {
    /// The absolute error exceeded the tolerance.
    pub violated: bool,
    /// The computed value was NaN or infinite.
    pub non_finite: bool,
    /// The computed value was zero.
    pub zero: bool,
}

/// Iteration `i` broke the constraint.
pub open spec fn violated_at(o: Observation, i: int) -> bool {
    o.violated
}

/// Iteration `i` destroyed the signal: the computed value became NaN or
/// infinite, or collapsed to zero after the start.
pub open spec fn collapsed_at(o: Observation, i: int) -> bool {
    o.non_finite || (o.zero && i > 0)
}

/// The first position of `h` at which `hit` holds, if any.
pub open spec fn first_where(h: Seq<Observation>, hit: spec_fn(Observation, int) -> bool) -> Option<int>
    decreases h.len(),
{
    if h.len() == 0 {
        None
    } else {
        match first_where(h.drop_last(), hit) {
            Some(i) => Some(i),
            None => if hit(h.last(), h.len() - 1) {
                Some(h.len() - 1)
            } else {
                None
            },
        }
    }
}

/// The first violation in a history of observations.
pub open spec fn first_violation_in(h: Seq<Observation>) -> Option<int> {
    first_where(h, |o: Observation, i: int| violated_at(o, i))
}

/// The first collapse of the signal in a history of observations.
pub open spec fn first_collapse_in(h: Seq<Observation>) -> Option<int> {
    first_where(h, |o: Observation, i: int| collapsed_at(o, i))
}

/// `first_where` finds exactly the first position at which `hit` holds:
/// the position holds it and no earlier one does; when there is none, no
/// position holds it.
pub proof fn lemma_first_where(h: Seq<Observation>, hit: spec_fn(Observation, int) -> bool)
    ensures
        match first_where(h, hit) {
            Some(i) => {
                &&& 0 <= i < h.len()
                &&& hit(h[i], i)
                &&& forall|j: int| 0 <= j < i ==> !hit(#[trigger] h[j], j)
            },
            None => forall|j: int| 0 <= j < h.len() ==> !hit(#[trigger] h[j], j),
        },
    decreases h.len(),
{
    if h.len() > 0 {
        let p = h.drop_last();
        lemma_first_where(p, hit);
        assert forall|j: int| 0 <= j < p.len() implies p[j] == h[j] by {}
    }
}

/// Once an event has been found, later iterations never move it: the first
/// position found in a history stays the first after any observation is
/// appended.
pub proof fn lemma_first_where_stable(
    h: Seq<Observation>,
    o: Observation,
    hit: spec_fn(Observation, int) -> bool,
)
    requires
        first_where(h, hit) is Some,
    ensures
        first_where(h.push(o), hit) == first_where(h, hit),
{
    assert(h.push(o).drop_last() =~= h);
}

/// The first violation of a history is the first observation whose error
/// exceeded the tolerance: it broke the constraint and none before it did;
/// when there is none, no observation broke it.
pub proof fn lemma_first_violation_law(h: Seq<Observation>)
    ensures
        match first_violation_in(h) {
            Some(k) => {
                &&& 0 <= k < h.len()
                &&& h[k].violated
                &&& forall|j: int| 0 <= j < k ==> !(#[trigger] h[j]).violated
            },
            None => forall|j: int| 0 <= j < h.len() ==> !(#[trigger] h[j]).violated,
        },
{
    let hit = |o: Observation, i: int| violated_at(o, i);
    lemma_first_where(h, hit);
    match first_violation_in(h) {
        Some(k) => {
            assert(hit(h[k], k));
            assert forall|j: int| 0 <= j < k implies !(#[trigger] h[j]).violated by {
                assert(!hit(h[j], j));
            }
        },
        None => {
            assert forall|j: int| 0 <= j < h.len() implies !(#[trigger] h[j]).violated by {
                assert(!hit(h[j], j));
            }
        },
    }
}

/// The signal dies at the first observation whose computed value was NaN or
/// infinite, or was zero after the initial iteration; no earlier
/// observation was either. When there is none, every computed value was
/// finite and none after the start was zero. In particular a non-finite
/// value at iteration `j` means the signal died at `j` or before.
pub proof fn lemma_signal_death_law(h: Seq<Observation>)
    ensures
        match first_collapse_in(h) {
            Some(k) => {
                &&& 0 <= k < h.len()
                &&& (h[k].non_finite || (h[k].zero && k > 0))
                &&& forall|j: int|
                    0 <= j < k ==> !(#[trigger] h[j]).non_finite && !(h[j].zero && j > 0)
            },
            None => forall|j: int|
                0 <= j < h.len() ==> !(#[trigger] h[j]).non_finite && !(h[j].zero && j > 0),
        },
        forall|j: int|
            0 <= j < h.len() && (#[trigger] h[j]).non_finite ==> (first_collapse_in(h) matches Some(
                k,
            ) && k <= j),
        forall|j: int|
            0 < j < h.len() && (#[trigger] h[j]).zero ==> (first_collapse_in(h) matches Some(k)
                && k <= j),
{
    let hit = |o: Observation, i: int| collapsed_at(o, i);
    lemma_first_where(h, hit);
    match first_collapse_in(h) {
        Some(k) => {
            assert(hit(h[k], k));
            assert forall|j: int| 0 <= j < k implies !(#[trigger] h[j]).non_finite && !(h[j].zero
                && j > 0) by {
                assert(!hit(h[j], j));
            }
        },
        None => {
            assert forall|j: int| 0 <= j < h.len() implies !(#[trigger] h[j]).non_finite && !(
            h[j].zero && j > 0) by {
                assert(!hit(h[j], j));
            }
        },
    }
}

/// The first event of a prefix of a history: the first event of the whole
/// history when it lies within the prefix, none otherwise. A shorter run's
/// first violation and first collapse are the longer run's, cut off at its
/// length.
pub proof fn lemma_first_where_prefix(
    h: Seq<Observation>,
    n: int,
    hit: spec_fn(Observation, int) -> bool,
)
    requires
        0 <= n <= h.len(),
    ensures
        first_where(h.take(n), hit) == match first_where(h, hit) {
            Some(k) => if k < n {
                Some(k)
            } else {
                None
            },
            None => None,
        },
{
    let p = h.take(n);
    lemma_first_where(h, hit);
    lemma_first_where(p, hit);
    assert forall|j: int| 0 <= j < n implies p[j] == h[j] by {}
    match first_where(h, hit) {
        Some(k) => {
            if k < n {
                assert(hit(p[k], k));
                match first_where(p, hit) {
                    Some(k2) => {
                        assert(hit(h[k2], k2));
                        if k2 < k {
                        } else if k2 > k {
                            assert(!hit(p[k], k));
                        }
                    },
                    None => {},
                }
            } else {
                match first_where(p, hit) {
                    Some(k2) => {
                        assert(hit(h[k2], k2));
                    },
                    None => {},
                }
            }
        },
        None => {
            match first_where(p, hit) {
                Some(k2) => {
                    assert(hit(h[k2], k2));
                },
                None => {},
            }
        },
    }
}

/// A run survived (no first violation) exactly when no observation of it
/// broke the constraint.
pub proof fn lemma_survived_iff_never_violated(h: Seq<Observation>)
    ensures
        (first_violation_in(h) is None) <==> (forall|j: int| 0 <= j < h.len() ==> !(#[trigger] h[j]).violated),
{
    let hit = |o: Observation, i: int| violated_at(o, i);
    lemma_first_where(h, hit);
    if first_violation_in(h) is None {
        assert forall|j: int| 0 <= j < h.len() implies !(#[trigger] h[j]).violated by {
            assert(!hit(h[j], j));
        }
    } else {
        let i = first_violation_in(h)->0;
        assert(hit(h[i], i));
    }
}

/// The initial and the final iteration of a run are always sampled,
/// whatever the interval.
pub proof fn lemma_ends_sampled(interval: int, total: int)
    requires
        interval >= 1,
    ensures
        spec_is_sample_point(0, interval, total),
        spec_is_sample_point(total, interval, total),
{
}

/// The sampled iterations of a run are exactly the multiples of the
/// interval, the initial iteration and the final one.
pub proof fn lemma_sampling_law(i: int, interval: int, total: int)
    requires
        interval >= 1,
        0 <= i <= total,
    ensures
        i % interval == 0 ==> spec_is_sample_point(i, interval, total),
        i == 0 ==> spec_is_sample_point(i, interval, total),
        i == total ==> spec_is_sample_point(i, interval, total),
        forall|q: int|
            0 <= q && q * interval <= total ==> #[trigger] spec_is_sample_point(
                q * interval,
                interval,
                total,
            ),
        i % interval != 0 && i != 0 && i != total ==> !spec_is_sample_point(i, interval, total),
{
    assert forall|q: int| 0 <= q && q * interval <= total implies #[trigger] spec_is_sample_point(
        q * interval,
        interval,
        total,
    ) by {
        vstd::arithmetic::div_mod::lemma_mod_multiples_basic(q, interval);
    }
}

/// An iteration index held in a machine integer, as a mathematical one.
pub open spec fn as_index(o: Option<u64>) -> Option<int> {
    match o {
        Some(v) => Some(v as int),
        None => None,
    }
}

/// Whether iteration `i` of a run of `total` iterations is sampled: every
/// `interval`-th iteration, and always the first and the last.
pub open spec fn spec_is_sample_point(i: int, interval: int, total: int) -> bool {
    i % interval == 0 || i == total || i == 0
}

/// The sampling interval actually used for a requested one: at least one.
pub open spec fn spec_sampling_interval(n: u64) -> u64 {
    if n >= 1 {
        n
    } else {
        1
    }
}

/// A requested interval of at least one is used as it is; zero becomes one.
pub proof fn lemma_sampling_interval_law(n: u64)
    ensures
        n >= 1 ==> spec_sampling_interval(n) == n,
        n == 0 ==> spec_sampling_interval(n) == 1,
{
}

/// The sampling interval actually used for a requested one: at least one,
/// so that every run samples.
pub fn sampling_interval(n: u64) -> (r: u64)
    ensures
        r == spec_sampling_interval(n),
        r >= 1,
{
    if n >= 1 {
        n
    } else {
        1
    }
}

/// Whether iteration `i` of a run of `total` iterations is sampled.
pub fn is_sample_point(i: u64, interval: u64, total: u64) -> (r: bool)
    requires
        interval >= 1,
    ensures
        r == spec_is_sample_point(i as int, interval as int, total as int),
{
    i % interval == 0 || i == total || i == 0
}

/// The first violation and the signal death depend on the observations
/// alone: two trackers that saw the same history agree on both, whatever
/// their sampling intervals (which only decide what is sampled).
pub proof fn lemma_events_ignore_interval(t1: DriftTracker, t2: DriftTracker)
    requires
        t1.wf(),
        t2.wf(),
        t1.history() == t2.history(),
    ensures
        t1.spec_first_violation() == t2.spec_first_violation(),
        t1.spec_signal_destroyed_at() == t2.spec_signal_destroyed_at(),
{
    t1.lemma_decisions();
    t2.lemma_decisions();
    lemma_as_index_injective(t1.spec_first_violation(), t2.spec_first_violation());
    lemma_as_index_injective(t1.spec_signal_destroyed_at(), t2.spec_signal_destroyed_at());
}

/// What a tracker holds: the first observation that broke the constraint,
/// and the first whose computed value was non-finite, or zero after the
/// start; a non-finite value at iteration `j` means the signal died at `j`
/// or before.
pub proof fn lemma_tracker_events(t: DriftTracker)
    requires
        t.wf(),
    ensures
        match t.spec_first_violation() {
            Some(k) => {
                &&& k < t.history().len()
                &&& t.history()[k as int].violated
                &&& forall|j: int| 0 <= j < k ==> !(#[trigger] t.history()[j]).violated
            },
            None => forall|j: int|
                0 <= j < t.history().len() ==> !(#[trigger] t.history()[j]).violated,
        },
        match t.spec_signal_destroyed_at() {
            Some(k) => {
                &&& k < t.history().len()
                &&& (t.history()[k as int].non_finite || (t.history()[k as int].zero && k > 0))
                &&& forall|j: int|
                    0 <= j < k ==> !(#[trigger] t.history()[j]).non_finite && !(
                    t.history()[j].zero && j > 0)
            },
            None => forall|j: int|
                0 <= j < t.history().len() ==> !(#[trigger] t.history()[j]).non_finite && !(
                t.history()[j].zero && j > 0),
        },
        forall|j: int|
            0 <= j < t.history().len() && (#[trigger] t.history()[j]).non_finite
                ==> (t.spec_signal_destroyed_at() matches Some(k) && k <= j),
{
    t.lemma_decisions();
    lemma_first_violation_law(t.history());
    lemma_signal_death_law(t.history());
}

/// Distinct machine indices are distinct mathematical ones.
proof fn lemma_as_index_injective(a: Option<u64>, b: Option<u64>)
    requires
        as_index(a) == as_index(b),
    ensures
        a == b,
{
}

/// The outcome of a run in plain values.
#[derive(Debug, Clone, Copy, PartialEq, Eq, Structural)]
pub struct DriftSummary {
    /// Which precision was tested.
    pub precision: Precision,
    /// Total iterations run.
    pub total_iterations: u64,
    /// Iteration at which the constraint was first violated, if ever.
    pub first_violation: Option<u64>,
    /// Iteration at which the signal collapsed (zero / inf / NaN).
    pub signal_destroyed_at: Option<u64>,
    /// Bytes per value for this precision.
    pub bytes_per_value: usize,
}

impl DriftSummary {
    /// Did this precision survive the full run without violating the constraint?
    pub fn survived(&self) -> (r: bool)
        ensures
            r == (self.first_violation is None),
    {
        self.first_violation.is_none()
    }
}

/// The decisions of a drift run, fed one observation per iteration.
pub struct DriftTracker {
    precision: Precision,
    sample_interval: u64,
    total_iterations: u64,
    last_observed: Option<u64>,
    first_violation: Option<u64>,
    signal_destroyed_at: Option<u64>,
    history: Ghost<Seq<Observation>>,
}

impl DriftTracker {
    /// The observations so far, iteration `i` at position `i`.
    pub closed spec fn history(&self) -> Seq<Observation> {
        self.history@
    }

    /// The precision under test.
    pub closed spec fn spec_precision(&self) -> Precision {
        self.precision
    }

    /// The sampling interval in use.
    pub closed spec fn spec_sample_interval(&self) -> u64 {
        self.sample_interval
    }

    /// The number of iterations after the initial one.
    pub closed spec fn spec_total_iterations(&self) -> u64 {
        self.total_iterations
    }

    /// The iteration of the first violation the tracker holds.
    pub closed spec fn spec_first_violation(&self) -> Option<u64> {
        self.first_violation
    }

    /// The iteration of the first signal collapse the tracker holds.
    pub closed spec fn spec_signal_destroyed_at(&self) -> Option<u64> {
        self.signal_destroyed_at
    }

    /// Every iteration of the run, `0..=total`, has been observed.
    pub open spec fn finished(&self) -> bool {
        self.history().len() == self.spec_total_iterations() + 1
    }

    /// The tracker's decisions agree with its history.
    pub closed spec fn wf(&self) -> bool {
        &&& self.sample_interval >= 1
        &&& self.history@.len() == match self.last_observed {
            Some(i) => i + 1,
            None => 0,
        }
        &&& match self.last_observed {
            Some(i) => i <= self.total_iterations,
            None => true,
        }
        &&& as_index(self.first_violation) == first_violation_in(self.history@)
        &&& as_index(self.signal_destroyed_at) == first_collapse_in(self.history@)
    }

    /// The tracker's decisions are those of its history.
    pub proof fn lemma_decisions(&self)
        requires
            self.wf(),
        ensures
            as_index(self.spec_first_violation()) == first_violation_in(self.history()),
            as_index(self.spec_signal_destroyed_at()) == first_collapse_in(self.history()),
    {
    }

    /// Starts a run of `total_iterations` iterations after the initial one,
    /// sampling every `sample_interval`-th iteration (at least every one).
    pub fn new(precision: Precision, sample_interval: u64, total_iterations: u64) -> (t: Self)
        ensures
            t.wf(),
            t.history() == Seq::<Observation>::empty(),
            t.spec_precision() == precision,
            t.spec_sample_interval() == spec_sampling_interval(sample_interval),
            t.spec_total_iterations() == total_iterations,
    {
        DriftTracker {
            precision,
            sample_interval: sampling_interval(sample_interval),
            total_iterations,
            last_observed: None,
            first_violation: None,
            signal_destroyed_at: None,
            history: Ghost(Seq::empty()),
        }
    }

    /// Whether every iteration of the run has been observed.
    pub fn is_finished(&self) -> (r: bool)
        requires
            self.wf(),
        ensures
            r == self.finished(),
    {
        match self.last_observed {
            Some(i) => i == self.total_iterations,
            None => false,
        }
    }

    /// The index of the iteration that the next observation belongs to.
    pub fn next_iteration(&self) -> (r: u64)
        requires
            self.wf(),
            !self.finished(),
        ensures
            r == self.history().len(),
    {
        match self.last_observed {
            Some(i) => i + 1,
            None => 0,
        }
    }

    /// Records the observation of the next iteration, and says whether that
    /// iteration is to be sampled.
    pub fn observe(&mut self, obs: Observation) -> (sampled: bool)
        requires
            old(self).wf(),
            !old(self).finished(),
        ensures
            final(self).wf(),
            final(self).history() == old(self).history().push(obs),
            final(self).spec_precision() == old(self).spec_precision(),
            final(self).spec_sample_interval() == old(self).spec_sample_interval(),
            final(self).spec_total_iterations() == old(self).spec_total_iterations(),
            sampled == spec_is_sample_point(
                old(self).history().len() as int,
                old(self).spec_sample_interval() as int,
                old(self).spec_total_iterations() as int,
            ),
    {
        let i = self.next_iteration();
        let ghost h0 = self.history@;
        let ghost h1 = h0.push(obs);
        assert(h1.drop_last() =~= h0);
        if obs.violated && self.first_violation.is_none() {
            self.first_violation = Some(i);
        }
        if self.signal_destroyed_at.is_none() && (obs.non_finite || (obs.zero && i > 0)) {
            self.signal_destroyed_at = Some(i);
        }
        self.last_observed = Some(i);
        self.history = Ghost(h1);
        is_sample_point(i, self.sample_interval, self.total_iterations)
    }

    /// The iteration at which the constraint was first violated, if any.
    pub fn first_violation(&self) -> (r: Option<u64>)
        requires
            self.wf(),
        ensures
            as_index(r) == first_violation_in(self.history()),
    {
        self.first_violation
    }

    /// The iteration at which the signal first collapsed, if any.
    pub fn signal_destroyed_at(&self) -> (r: Option<u64>)
        requires
            self.wf(),
        ensures
            as_index(r) == first_collapse_in(self.history()),
    {
        self.signal_destroyed_at
    }

    /// The outcome of the run so far.
    pub fn summary(&self) -> (s: DriftSummary)
        requires
            self.wf(),
        ensures
            s.precision == self.spec_precision(),
            s.total_iterations == self.spec_total_iterations(),
            as_index(s.first_violation) == first_violation_in(self.history()),
            as_index(s.signal_destroyed_at) == first_collapse_in(self.history()),
            s.bytes_per_value == spec_bytes(self.spec_precision()),
    {
        DriftSummary {
            precision: self.precision,
            total_iterations: self.total_iterations,
            first_violation: self.first_violation,
            signal_destroyed_at: self.signal_destroyed_at,
            bytes_per_value: self.precision.bytes(),
        }
    }
}

} // verus!
