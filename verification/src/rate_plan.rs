//! Load-testing plans made of rate segments, fixed or linear, where the last
//! fixed segment may run forever; and the schedule of request times such a
//! plan implies.

use vstd::prelude::*;

use crate::duration::{max_nanos, Duration, Instant};
use crate::plan::{Environment, Headers, HttpMethod, Rate};
use crate::target::Target;

verus! {

/// Load testing plan.
///
/// A [Plan] describes how a load test should be run.
#[derive(Clone, Debug)]
pub struct Plan {
    pub segments: Vec<RateSegment>,
    pub actions: Vec<Action>,
}

/// What one request of a load test does.
#[derive(Clone, Debug)]
pub enum Action {
    Http { method: HttpMethod, headers: Headers, payload: String, target: Target },
    Udp { payload: String, target: Target },
    Exec { command: String, args: Vec<String>, env: Environment },
    Wasm {},
}

/// How request rate should be treated over a given duration.
#[derive(Clone, Copy, Debug, PartialEq, Eq, Structural)]
pub enum RateSegment {
    /// Rate should be fixed over the given duration (or forever).
    Fixed { rate: Rate, duration: Option<Duration> },
    /// Rate should vary linearly over the given duration.
    Linear { rate_start: Rate, rate_end: Rate, duration: Duration },
}

impl RateSegment {
    /// The segment's length in nanoseconds, or `None` where it runs forever.
    pub open spec fn length(self) -> Option<nat> {
        match self {
            RateSegment::Fixed { duration, .. } => match duration {
                Some(d) => Some(d@),
                None => None,
            },
            RateSegment::Linear { duration, .. } => Some(duration@),
        }
    }

    /// The segment's duration, or `None` where it runs forever.
    pub fn duration(&self) -> (r: Option<Duration>)
        ensures
            r matches Some(d) ==> self.length() == Some(d@),
            r is None <==> self.length() is None,
    {
        match self {
            RateSegment::Fixed { duration, .. } => *duration,
            RateSegment::Linear { duration, .. } => Some(*duration),
        }
    }
}

/// A segment lasts its duration, whatever its rates: a linear segment (a
/// ramp up or down alike) lasts its duration; a fixed one lasts its
/// duration where it has one and runs forever where it has none.
pub proof fn lemma_segment_lasts_its_duration(s: RateSegment)
    ensures
        s matches RateSegment::Linear { duration, .. } ==> s.length() == Some(duration@),
        s matches RateSegment::Fixed { duration: Some(d), .. } ==> s.length() == Some(d@),
        s matches RateSegment::Fixed { duration: None, .. } ==> s.length() is None,
{
}

/// The summed length, in nanoseconds, of the first `k` segments, where a
/// segment that runs forever counts as no time.
pub open spec fn prefix_nanos(segments: Seq<RateSegment>, k: int) -> nat
    decreases k,
{
    if k <= 0 {
        0
    } else {
        prefix_nanos(segments, k - 1) + match segments[k - 1].length() {
            Some(n) => n,
            None => 0,
        }
    }
}

/// None of the first `k` segments runs forever.
pub open spec fn all_finite(segments: Seq<RateSegment>, k: int) -> bool {
    forall|i: int| 0 <= i < k ==> (#[trigger] segments[i]).length() is Some
}

/// Every sum of the lengths of leading segments that all end fits in a
/// [`Duration`].
pub open spec fn sums_fit(segments: Seq<RateSegment>) -> bool {
    forall|k: int|
        0 <= k <= segments.len() && all_finite(segments, k) ==> #[trigger] prefix_nanos(segments, k)
            <= max_nanos()
}

/// The sums that a search for `progress` forms all fit in a [`Duration`].
pub open spec fn search_fits(segments: Seq<RateSegment>, progress: nat) -> bool {
    forall|k: int|
        0 <= k < segments.len() && all_finite(segments, k + 1) && prefix_nanos(segments, k)
            <= progress ==> #[trigger] prefix_nanos(segments, k + 1) <= max_nanos()
}

/// Segment `i` is the one that `progress` (nanoseconds since the start of
/// the plan) falls into: all segments before it end before `progress`, and
/// it runs forever or ends after `progress`.
pub open spec fn falls_into(segments: Seq<RateSegment>, progress: nat, i: int) -> bool {
    &&& 0 <= i < segments.len()
    &&& all_finite(segments, i)
    &&& prefix_nanos(segments, i) <= progress
    &&& (segments[i].length() is None || progress < prefix_nanos(segments, i + 1))
}

/// The plan runs for a bounded time: none of its segments runs forever.
pub open spec fn ends(segments: Seq<RateSegment>) -> bool {
    all_finite(segments, segments.len() as int)
}

/// The plan's length in nanoseconds, where it ends.
pub open spec fn total_nanos(segments: Seq<RateSegment>) -> nat {
    prefix_nanos(segments, segments.len() as int)
}

/// Sums over the leading segments of a joined sequence stop at the first part.
proof fn lemma_prefix_of_join_left(a: Seq<RateSegment>, b: Seq<RateSegment>, j: int)
    requires
        0 <= j <= a.len(),
    ensures
        prefix_nanos(a + b, j) == prefix_nanos(a, j),
    decreases j,
{
    if j > 0 {
        lemma_prefix_of_join_left(a, b, j - 1);
        assert((a + b)[j - 1] == a[j - 1]);
    }
}

/// Sums over a joined sequence add the second part's sums to the first's total.
proof fn lemma_prefix_of_join_right(a: Seq<RateSegment>, b: Seq<RateSegment>, k: int)
    requires
        0 <= k <= b.len(),
    ensures
        prefix_nanos(a + b, a.len() + k) == total_nanos(a) + prefix_nanos(b, k),
    decreases k,
{
    if k > 0 {
        lemma_prefix_of_join_right(a, b, k - 1);
        assert((a + b)[a.len() + k - 1] == b[k - 1]);
    } else {
        lemma_prefix_of_join_left(a, b, a.len() as int);
    }
}

/// A plan lasts as long as its segments together: no segments last no time,
/// one segment lasts its length (a segment that runs forever counts as no time here), and two runs of segments one after the
/// other last the sum of their lengths.
pub proof fn lemma_total_adds_up(a: Seq<RateSegment>, b: Seq<RateSegment>, s: RateSegment)
    ensures
        total_nanos(Seq::<RateSegment>::empty()) == 0,
        total_nanos(seq![s]) == match s.length() {
            Some(n) => n,
            None => 0nat,
        },
        total_nanos(a + b) == total_nanos(a) + total_nanos(b),
{
    lemma_prefix_of_join_right(a, b, b.len() as int);
    assert(seq![s][0] == s);
    reveal_with_fuel(prefix_nanos, 2);
}

/// Sums of segment lengths grow with the number of segments summed.
pub proof fn lemma_prefix_monotone(segments: Seq<RateSegment>, i: int, j: int)
    requires
        0 <= i <= j <= segments.len(),
    ensures
        prefix_nanos(segments, i) <= prefix_nanos(segments, j),
    decreases j - i,
{
    if i < j {
        lemma_prefix_monotone(segments, i, j - 1);
    }
}

/// Where all sums fit, every search fits.
pub proof fn lemma_sums_fit_search(segments: Seq<RateSegment>, progress: nat)
    requires
        sums_fit(segments),
    ensures
        search_fits(segments, progress),
{
    assert forall|k: int|
        0 <= k < segments.len() && all_finite(segments, k + 1) && prefix_nanos(segments, k)
            <= progress implies #[trigger] prefix_nanos(segments, k + 1) <= max_nanos() by {
        assert(0 <= k + 1 <= segments.len() && all_finite(segments, k + 1));
    }
}

/// Progress falls into at most one segment.
pub proof fn lemma_falls_into_unique(segments: Seq<RateSegment>, progress: nat, i: int, j: int)
    requires
        falls_into(segments, progress, i),
        falls_into(segments, progress, j),
    ensures
        i == j,
{
    if i < j {
        assert(segments[i].length() is Some);
        lemma_prefix_monotone(segments, i + 1, j);
    } else if j < i {
        assert(segments[j].length() is Some);
        lemma_prefix_monotone(segments, j + 1, i);
    }
}

impl Plan {
    /// Starts a walk of the plan's request times at `start`.
    pub fn ticks(&self, start: Instant) -> (t: Ticks<'_>)
        requires
            sums_fit(self.segments@),
        ensures
            t.plan() == self,
            t.start() == start,
            t.prev() is None,
    {
        Ticks::new(self, start)
    }

    /// Calculates the total duration of the plan.
    ///
    /// If the returned value is `None` the plan runs forever.
    pub fn calculate_duration(&self) -> (r: Option<Duration>)
        requires
            sums_fit(self.segments@),
        ensures
            r is None <==> !ends(self.segments@),
            r matches Some(d) ==> d@ == total_nanos(self.segments@),
    {
        let mut total = Duration::zero();
        let mut i: usize = 0;
        while i < self.segments.len()
            invariant
                i <= self.segments@.len(),
                all_finite(self.segments@, i as int),
                total@ == prefix_nanos(self.segments@, i as int),
                sums_fit(self.segments@),
            decreases self.segments@.len() - i,
        {
            match self.segments[i].duration() {
                Some(d) => {
                    assert(all_finite(self.segments@, i + 1));
                    assert(prefix_nanos(self.segments@, i + 1) <= max_nanos());
                    total = total.add(d);
                },
                None => {
                    return None;
                },
            }
            i = i + 1;
        }
        Some(total)
    }

    /// Finds the segment that `progress` (time since the start of the plan)
    /// falls into, and how far into that segment it lies.
    ///
    /// If the returned value is `None` then we have completed the plan.
    pub fn find_position(&self, progress: Duration) -> (r: Option<(&RateSegment, Duration)>)
        requires
            search_fits(self.segments@, progress@),
        ensures
            r is None <==> ends(self.segments@) && total_nanos(self.segments@) <= progress@,
            r matches Some(p) ==> exists|i: int|
                {
                    &&& falls_into(self.segments@, progress@, i)
                    &&& *p.0 == self.segments@[i]
                    &&& p.1@ == progress@ - prefix_nanos(self.segments@, i)
                },
    {
        let mut total = Duration::zero();
        let mut i: usize = 0;
        while i < self.segments.len()
            invariant
                i <= self.segments@.len(),
                all_finite(self.segments@, i as int),
                total@ == prefix_nanos(self.segments@, i as int),
                total@ <= progress@,
                search_fits(self.segments@, progress@),
            decreases self.segments@.len() - i,
        {
            let offset = progress.saturating_sub(total);
            match self.segments[i].duration() {
                Some(d) => {
                    assert(all_finite(self.segments@, i + 1));
                    assert(prefix_nanos(self.segments@, i + 1) <= max_nanos());
                    total = total.add(d);
                    if progress.is_shorter_than(&total) {
                        proof {
                            lemma_prefix_monotone(
                                self.segments@,
                                i + 1,
                                self.segments@.len() as int,
                            );
                        }
                        assert(falls_into(self.segments@, progress@, i as int));
                        return Some((&self.segments[i], offset));
                    }
                },
                None => {
                    // The plan runs forever.
                    assert(falls_into(self.segments@, progress@, i as int));
                    return Some((&self.segments[i], offset));
                },
            }
            i = i + 1;
        }
        None
    }

    /// Finds the segment that `progress` (time since the start of the plan)
    /// falls into.
    ///
    /// If the returned value is `None` then we have completed the plan.
    pub fn find_segment(&self, progress: Duration) -> (r: Option<&RateSegment>)
        requires
            search_fits(self.segments@, progress@),
        ensures
            r is None <==> ends(self.segments@) && total_nanos(self.segments@) <= progress@,
            r matches Some(s) ==> exists|i: int|
                falls_into(self.segments@, progress@, i) && *s == self.segments@[i],
    {
        match self.find_position(progress) {
            Some(p) => Some(p.0),
            None => None,
        }
    }
}

/// The points in time at which a plan's requests are due.
///
/// The first request is due at the start, each later one a span after the
/// previous one, and, where the plan ends, no request is due at or after its
/// end.
pub struct Ticks<'a> {
    /// The plan.
    plan: &'a Plan,
    /// Cached plan duration (none where the plan runs forever).
    duration: Option<Duration>,
    /// When the plan was started.
    start: Instant,
    /// Previously returned instant (none if not started).
    prev: Option<Instant>,
}

impl<'a> Ticks<'a> {
    #[verifier::type_invariant]
    closed spec fn consistent(self) -> bool {
        &&& sums_fit(self.plan.segments@)
        &&& (self.duration is None <==> !ends(self.plan.segments@))
        &&& self.duration matches Some(d) ==> d@ == total_nanos(self.plan.segments@)
        &&& self.prev matches Some(t) ==> self.start@ <= t@
    }

    /// The plan being walked.
    pub closed spec fn plan(self) -> &'a Plan {
        self.plan
    }

    /// When the plan was started.
    pub closed spec fn start(self) -> Instant {
        self.start
    }

    /// The most recent point returned, if any.
    pub closed spec fn prev(self) -> Option<Instant> {
        self.prev
    }

    /// The length of the plan, where it ends.
    pub closed spec fn duration(self) -> Option<Duration> {
        self.duration
    }

    /// How far into the plan the walk is, in nanoseconds.
    pub open spec fn progress_nanos(self) -> nat {
        match self.prev() {
            Some(t) => (t@ - self.start()@) as nat,
            None => 0,
        }
    }

    /// The walk has reached the end of a plan that ends.
    pub open spec fn exhausted(self) -> bool {
        ends(self.plan().segments@) && total_nanos(self.plan().segments@) <= self.progress_nanos()
    }

    /// Starts a walk of `plan` at `start`.
    pub fn new(plan: &'a Plan, start: Instant) -> (t: Ticks<'a>)
        requires
            sums_fit(plan.segments@),
        ensures
            t.plan() == plan,
            t.start() == start,
            t.prev() is None,
            t.duration() is None <==> !ends(plan.segments@),
            t.duration() matches Some(d) ==> d@ == total_nanos(plan.segments@),
    {
        let duration = plan.calculate_duration();
        Ticks { plan, duration, start, prev: None }
    }

    /// The most recent point returned, if any.
    pub fn last(&self) -> (t: Option<Instant>)
        ensures
            t == self.prev(),
    {
        self.prev
    }

    /// How far into the plan we are: the span from the start to the most
    /// recent point (zero before the first).
    pub fn progress(&self) -> (p: Duration)
        ensures
            p@ == self.progress_nanos(),
    {
        proof {
            use_type_invariant(self);
        }
        match self.prev {
            Some(t) => t.duration_since(&self.start),
            None => Duration::zero(),
        }
    }

    /// The segment that the walk's progress falls into, or `None` where the
    /// walk has reached the end of the plan.
    pub fn current_segment(&self) -> (r: Option<&'a RateSegment>)
        ensures
            r is None <==> self.exhausted(),
            r matches Some(s) ==> exists|i: int|
                falls_into(self.plan().segments@, self.progress_nanos(), i) && *s
                    == self.plan().segments@[i],
    {
        proof {
            use_type_invariant(self);
        }
        let progress = self.progress();
        proof {
            lemma_sums_fit_search(self.plan.segments@, progress@);
        }
        self.plan.find_segment(progress)
    }

    /// The segment that the walk's progress falls into and how far into it
    /// the progress lies, or `None` where the walk has reached the end of the
    /// plan.
    pub fn position(&self) -> (r: Option<(&'a RateSegment, Duration)>)
        ensures
            r is None <==> self.exhausted(),
            r matches Some(p) ==> exists|i: int|
                {
                    &&& falls_into(self.plan().segments@, self.progress_nanos(), i)
                    &&& *p.0 == self.plan().segments@[i]
                    &&& p.1@ == self.progress_nanos() - prefix_nanos(self.plan().segments@, i)
                },
    {
        proof {
            use_type_invariant(self);
        }
        let progress = self.progress();
        proof {
            lemma_sums_fit_search(self.plan.segments@, progress@);
        }
        self.plan.find_position(progress)
    }

    /// Moves the walk to its next point: the start of the plan at first, and
    /// `delta` after the previous point later on. Returns the new point, or
    /// `None` where the plan ends and the point lies at or beyond its end.
    pub fn advance(&mut self, delta: Duration) -> (r: Option<Instant>)
        requires
            old(self).prev() matches Some(t) ==> t@ + delta@ <= max_nanos(),
        ensures
            final(self).plan() == old(self).plan(),
            final(self).start() == old(self).start(),
            final(self).duration() == old(self).duration(),
            final(self).prev() matches Some(next) && next@ == match old(self).prev() {
                Some(t) => t@ + delta@,
                None => old(self).start()@,
            },
            r == (if final(self).exhausted() {
                None
            } else {
                final(self).prev()
            }),
            old(self).prev() matches Some(t) ==> final(self).prev()->0@ >= t@,
            old(self).exhausted() ==> final(self).exhausted() && r is None,
            r matches Some(t) ==> old(self).start()@ <= t@,
            r matches Some(t) ==> ends(old(self).plan().segments@) ==> t@ < old(self).start()@
                + total_nanos(old(self).plan().segments@),
    {
        proof {
            use_type_invariant(&*self);
        }
        let next = match self.prev {
            Some(t) => t.add(delta),
            None => self.start,
        };
        self.prev = Some(next);
        match self.duration {
            Some(d) => {
                let elapsed = next.duration_since(&self.start);
                if elapsed.is_shorter_than(&d) {
                    Some(next)
                } else {
                    None
                }
            },
            None => Some(next),
        }
    }
}

/// A walk of a plan that runs forever never reaches an end.
pub proof fn lemma_forever_plan_never_exhausted(t: Ticks)
    requires
        !ends(t.plan().segments@),
    ensures
        !t.exhausted(),
{
}

} // verus!
