//! Load-testing plans made of named segments, and the schedule of request
//! times that a plan implies.

use std::collections::HashMap;

use vstd::prelude::*;

use crate::duration::{max_nanos, Duration, Instant};
use crate::target::Target;

verus! {

/// A request rate in requests per second, held as the bit pattern of the
/// IEEE-754 single-precision number that gives it.
#[derive(Clone, Copy, Debug, PartialEq, Eq, Structural)]
pub struct Rate {
    pub bits: u32,
}

impl Rate {
    /// The rate whose single-precision bit pattern is `bits`.
    pub fn from_bits(bits: u32) -> (r: Rate)
        ensures
            r.bits == bits,
    {
        Rate { bits }
    }

    /// The single-precision bit pattern of the rate.
    pub fn to_bits(self) -> (b: u32)
        ensures
            b == self.bits,
    {
        self.bits
    }
}

/// HTTP request methods.
#[derive(Clone, Copy, Debug, PartialEq, Eq, Structural)]
pub enum HttpMethod {
    Get,
    Post,
    Put,
    Patch,
    Delete,
    Head,
    Options,
    Trace,
    Connect,
}

/// HTTP headers, by name.
pub type Headers = HashMap<String, String>;

/// Environment variables, by name.
pub type Environment = HashMap<String, String>;

/// Load testing plan.
///
/// A [Plan] describes how a load test should be run: the segments of the
/// test, one after the other, and the actions each request performs.
#[derive(Clone, Debug)]
pub struct Plan {
    pub name: String,
    pub segments: Vec<Segment>,
    pub actions: Vec<Action>,
}

/// What one request of a load test does.
#[derive(Clone, Debug)]
pub enum Action {
    Http {
        name: String,
        target: Target,
        method: HttpMethod,
        headers: Headers,
        payload: Vec<u8>,
    },
    Udp {
        name: String,
        target: Target,
        payload: Vec<u8>,
    },
    Exec {
        name: String,
        command: String,
        args: Vec<String>,
        env: Environment,
    },
    Wasm {},
}

/// A stretch of a load test over which the request rate moves linearly from
/// `rate_start` to `rate_end`.
#[derive(Clone, Debug)]
pub struct Segment {
    pub name: String,
    pub rate_start: Rate,
    pub rate_end: Rate,
    pub duration: Duration,
}

/// The summed length, in nanoseconds, of the first `k` segments.
pub open spec fn prefix_nanos(segments: Seq<Segment>, k: int) -> nat
    decreases k,
{
    if k <= 0 {
        0
    } else {
        prefix_nanos(segments, k - 1) + segments[k - 1].duration@
    }
}

/// The summed length, in nanoseconds, of all segments.
pub open spec fn total_nanos(segments: Seq<Segment>) -> nat {
    prefix_nanos(segments, segments.len() as int)
}

/// Sums over the leading segments of a joined sequence stop at the first part.
proof fn lemma_prefix_of_join_left(a: Seq<Segment>, b: Seq<Segment>, j: int)
    requires
        0 <= j <= a.len(),
    ensures
        prefix_nanos(a + b, j) == prefix_nanos(a, j),
    decreases j,
{
    if j > 0 {
        lemma_prefix_of_join_left(a, b, j - 1);
        assert((a + b)[j - 1] == a[j - 1]);
    }
}

/// Sums over a joined sequence add the second part's sums to the first's total.
proof fn lemma_prefix_of_join_right(a: Seq<Segment>, b: Seq<Segment>, k: int)
    requires
        0 <= k <= b.len(),
    ensures
        prefix_nanos(a + b, a.len() + k) == total_nanos(a) + prefix_nanos(b, k),
    decreases k,
{
    if k > 0 {
        lemma_prefix_of_join_right(a, b, k - 1);
        assert((a + b)[a.len() + k - 1] == b[k - 1]);
    } else {
        lemma_prefix_of_join_left(a, b, a.len() as int);
    }
}

/// A plan lasts as long as its segments together: no segments last no time,
/// one segment lasts its duration, and two runs of segments one after the
/// other last the sum of their lengths.
pub proof fn lemma_total_adds_up(a: Seq<Segment>, b: Seq<Segment>, s: Segment)
    ensures
        total_nanos(Seq::<Segment>::empty()) == 0,
        total_nanos(seq![s]) == s.duration@,
        total_nanos(a + b) == total_nanos(a) + total_nanos(b),
{
    lemma_prefix_of_join_right(a, b, b.len() as int);
    assert(seq![s][0] == s);
    reveal_with_fuel(prefix_nanos, 2);
}

/// Summing segment lengths up to the segment that `progress` falls into
/// (or up to the end, where it falls into none) stays within the range of a
/// [`Duration`]: the sums that a search for `progress` forms all fit.
pub open spec fn search_fits(segments: Seq<Segment>, progress: nat) -> bool {
    forall|k: int|
        0 <= k < segments.len() && prefix_nanos(segments, k) <= progress ==> #[trigger] prefix_nanos(
            segments,
            k,
        ) + segments[k].duration@ <= max_nanos()
}

/// Segment `i` is the one that `progress` (nanoseconds since the start of
/// the plan) falls into.
pub open spec fn falls_into(segments: Seq<Segment>, progress: nat, i: int) -> bool {
    0 <= i < segments.len() && prefix_nanos(segments, i) <= progress < prefix_nanos(segments, i + 1)
}

/// Sums of segment lengths grow with the number of segments summed.
pub proof fn lemma_prefix_monotone(segments: Seq<Segment>, i: int, j: int)
    requires
        0 <= i <= j <= segments.len(),
    ensures
        prefix_nanos(segments, i) <= prefix_nanos(segments, j),
    decreases j - i,
{
    if i < j {
        lemma_prefix_monotone(segments, i, j - 1);
    }
}

/// Where the total length fits in a [`Duration`], every search fits.
pub proof fn lemma_total_fits_search(segments: Seq<Segment>, progress: nat)
    requires
        total_nanos(segments) <= max_nanos(),
    ensures
        search_fits(segments, progress),
{
    assert forall|k: int|
        0 <= k < segments.len() && prefix_nanos(segments, k) <= progress implies #[trigger] prefix_nanos(
            segments,
            k,
        ) + segments[k].duration@ <= max_nanos() by {
        lemma_prefix_monotone(segments, k + 1, segments.len() as int);
    }
}

/// Progress falls into at most one segment.
pub proof fn lemma_falls_into_unique(segments: Seq<Segment>, progress: nat, i: int, j: int)
    requires
        falls_into(segments, progress, i),
        falls_into(segments, progress, j),
    ensures
        i == j,
{
    if i < j {
        lemma_prefix_monotone(segments, i + 1, j);
    } else if j < i {
        lemma_prefix_monotone(segments, j + 1, i);
    }
}

/// The segments tile the plan: every point before the end falls into one
/// of them.
pub proof fn lemma_segments_cover(segments: Seq<Segment>, progress: nat)
    requires
        progress < total_nanos(segments),
    ensures
        exists|i: int| falls_into(segments, progress, i),
    decreases segments.len(),
{
    let n = segments.len() as int;
    if prefix_nanos(segments, n - 1) <= progress {
        assert(falls_into(segments, progress, n - 1));
    } else {
        let front = segments.drop_last();
        assert forall|k: int| 0 <= k <= n - 1 implies prefix_nanos(front, k) == prefix_nanos(
            segments,
            k,
        ) by {
            lemma_prefix_drop_last(segments, k);
        }
        lemma_segments_cover(front, progress);
        let i = choose|i: int| falls_into(front, progress, i);
        assert(falls_into(segments, progress, i));
    }
}

/// Summing over the leading segments does not see the last one.
proof fn lemma_prefix_drop_last(segments: Seq<Segment>, k: int)
    requires
        0 <= k < segments.len(),
    ensures
        prefix_nanos(segments.drop_last(), k) == prefix_nanos(segments, k),
    decreases k,
{
    if k > 0 {
        lemma_prefix_drop_last(segments, k - 1);
    }
}

impl Plan {
    /// A plan with no name, no segments and no actions.
    pub fn empty() -> (p: Plan)
        ensures
            p.name@ == Seq::<char>::empty(),
            p.segments@.len() == 0,
            p.actions@.len() == 0,
    {
        Plan { name: String::new(), segments: Vec::new(), actions: Vec::new() }
    }

    /// Starts a walk of the plan's request times at `start`.
    pub fn ticks(&self, start: Instant) -> (t: Ticks<'_>)
        requires
            total_nanos(self.segments@) <= max_nanos(),
        ensures
            t.plan() == self,
            t.start() == start,
            t.prev() is None,
    {
        Ticks::new(self, start)
    }

    /// Calculates the total duration of the plan: the sum of its segments'
    /// durations.
    pub fn calculate_duration(&self) -> (d: Duration)
        requires
            total_nanos(self.segments@) <= max_nanos(),
        ensures
            d@ == total_nanos(self.segments@),
    {
        let mut total = Duration::zero();
        let mut i: usize = 0;
        while i < self.segments.len()
            invariant
                i <= self.segments@.len(),
                total@ == prefix_nanos(self.segments@, i as int),
                total_nanos(self.segments@) <= max_nanos(),
            decreases self.segments@.len() - i,
        {
            proof {
                lemma_prefix_monotone(self.segments@, i + 1, self.segments@.len() as int);
            }
            total = total.add(self.segments[i].duration);
            i = i + 1;
        }
        total
    }

    /// Finds the segment that `progress` (time since the start of the plan)
    /// falls into, and how far into that segment it lies.
    ///
    /// If the returned value is `None` then we have completed the plan.
    pub fn find_position(&self, progress: Duration) -> (r: Option<(&Segment, Duration)>)
        requires
            search_fits(self.segments@, progress@),
        ensures
            r is None <==> total_nanos(self.segments@) <= progress@,
            r matches Some(p) ==> exists|i: int|
                {
                    &&& falls_into(self.segments@, progress@, i)
                    &&& *p.0 == self.segments@[i]
                    &&& p.1@ == progress@ - prefix_nanos(self.segments@, i)
                },
    {
        let mut total = Duration::zero();
        let mut i: usize = 0;
        while i < self.segments.len()
            invariant
                i <= self.segments@.len(),
                total@ == prefix_nanos(self.segments@, i as int),
                total@ <= progress@,
                search_fits(self.segments@, progress@),
            decreases self.segments@.len() - i,
        {
            assert(prefix_nanos(self.segments@, i as int) + self.segments@[i as int].duration@
                <= max_nanos());
            let offset = progress.saturating_sub(total);
            total = total.add(self.segments[i].duration);
            if progress.is_shorter_than(&total) {
                proof {
                    lemma_prefix_monotone(self.segments@, i + 1, self.segments@.len() as int);
                    assert(falls_into(self.segments@, progress@, i as int));
                }
                return Some((&self.segments[i], offset));
            }
            i = i + 1;
        }
        None
    }

    /// Finds the segment that `progress` (time since the start of the plan)
    /// falls into.
    ///
    /// If the returned value is `None` then we have completed the plan.
    pub fn find_segment(&self, progress: Duration) -> (r: Option<&Segment>)
        requires
            search_fits(self.segments@, progress@),
        ensures
            r is None <==> total_nanos(self.segments@) <= progress@,
            r matches Some(s) ==> exists|i: int|
                falls_into(self.segments@, progress@, i) && *s == self.segments@[i],
    {
        match self.find_position(progress) {
            Some(p) => Some(p.0),
            None => None,
        }
    }
}

/// The points in time at which a plan's requests are due.
///
/// A `Ticks` walks a plan from its start: the first request is due at the
/// start, each later one a span after the previous one (the span follows from
/// the segment the previous request fell into), and no request is due at or
/// after the end of the plan.
pub struct Ticks<'a> {
    /// The plan.
    plan: &'a Plan,
    /// Cached plan duration.
    duration: Duration,
    /// When the plan was started.
    start: Instant,
    /// Previously returned instant (none if not started).
    prev: Option<Instant>,
}

impl<'a> Ticks<'a> {
    #[verifier::type_invariant]
    closed spec fn consistent(self) -> bool {
        &&& self.duration@ == total_nanos(self.plan.segments@)
        &&& self.duration@ <= max_nanos()
        &&& self.prev matches Some(t) ==> self.start@ <= t@
    }

    /// The plan being walked.
    pub closed spec fn plan(self) -> &'a Plan {
        self.plan
    }

    /// When the plan was started.
    pub closed spec fn start(self) -> Instant {
        self.start
    }

    /// The most recent point returned, if any.
    pub closed spec fn prev(self) -> Option<Instant> {
        self.prev
    }

    /// The length of the plan.
    pub closed spec fn duration(self) -> Duration {
        self.duration
    }

    /// How far into the plan the walk is, in nanoseconds.
    pub open spec fn progress_nanos(self) -> nat {
        match self.prev() {
            Some(t) => (t@ - self.start()@) as nat,
            None => 0,
        }
    }

    /// The walk has reached the end of the plan.
    pub open spec fn exhausted(self) -> bool {
        total_nanos(self.plan().segments@) <= self.progress_nanos()
    }

    /// Starts a walk of `plan` at `start`.
    pub fn new(plan: &'a Plan, start: Instant) -> (t: Ticks<'a>)
        requires
            total_nanos(plan.segments@) <= max_nanos(),
        ensures
            t.plan() == plan,
            t.start() == start,
            t.prev() is None,
            t.duration()@ == total_nanos(plan.segments@),
    {
        let duration = plan.calculate_duration();
        Ticks { plan, duration, start, prev: None }
    }

    /// The most recent point returned, if any.
    pub fn last(&self) -> (t: Option<Instant>)
        ensures
            t == self.prev(),
    {
        self.prev
    }

    /// How far into the plan we are: the span from the start to the most
    /// recent point (zero before the first).
    pub fn progress(&self) -> (p: Duration)
        ensures
            p@ == self.progress_nanos(),
    {
        proof {
            use_type_invariant(self);
        }
        match self.prev {
            Some(t) => t.duration_since(&self.start),
            None => Duration::zero(),
        }
    }

    /// The segment that the walk's progress falls into, or `None` where the
    /// walk has reached the end of the plan.
    pub fn current_segment(&self) -> (r: Option<&'a Segment>)
        ensures
            r is None <==> self.exhausted(),
            r matches Some(s) ==> exists|i: int|
                falls_into(self.plan().segments@, self.progress_nanos(), i) && *s
                    == self.plan().segments@[i],
    {
        proof {
            use_type_invariant(self);
        }
        let progress = self.progress();
        proof {
            lemma_total_fits_search(self.plan.segments@, progress@);
        }
        self.plan.find_segment(progress)
    }

    /// The segment that the walk's progress falls into and how far into it
    /// the progress lies, or `None` where the walk has reached the end of the
    /// plan.
    pub fn position(&self) -> (r: Option<(&'a Segment, Duration)>)
        ensures
            r is None <==> self.exhausted(),
            r matches Some(p) ==> exists|i: int|
                {
                    &&& falls_into(self.plan().segments@, self.progress_nanos(), i)
                    &&& *p.0 == self.plan().segments@[i]
                    &&& p.1@ == self.progress_nanos() - prefix_nanos(self.plan().segments@, i)
                },
    {
        proof {
            use_type_invariant(self);
        }
        let progress = self.progress();
        proof {
            lemma_total_fits_search(self.plan.segments@, progress@);
        }
        self.plan.find_position(progress)
    }

    /// Moves the walk to its next point: the start of the plan at first, and
    /// `delta` after the previous point later on. Returns the new point, or
    /// `None` where it lies at or beyond the end of the plan.
    pub fn advance(&mut self, delta: Duration) -> (r: Option<Instant>)
        requires
            old(self).prev() matches Some(t) ==> t@ + delta@ <= max_nanos(),
        ensures
            final(self).plan() == old(self).plan(),
            final(self).start() == old(self).start(),
            final(self).duration() == old(self).duration(),
            final(self).prev() matches Some(next) && next@ == match old(self).prev() {
                Some(t) => t@ + delta@,
                None => old(self).start()@,
            },
            r == (if final(self).exhausted() {
                None
            } else {
                final(self).prev()
            }),
            old(self).prev() matches Some(t) ==> final(self).prev()->0@ >= t@,
            old(self).exhausted() ==> final(self).exhausted() && r is None,
            r matches Some(t) ==> old(self).start()@ <= t@ < old(self).start()@ + total_nanos(
                old(self).plan().segments@,
            ),
    {
        proof {
            use_type_invariant(&*self);
        }
        let next = match self.prev {
            Some(t) => t.add(delta),
            None => self.start,
        };
        self.prev = Some(next);
        let elapsed = next.duration_since(&self.start);
        if elapsed.is_shorter_than(&self.duration) {
            Some(next)
        } else {
            None
        }
    }
}

} // verus!
