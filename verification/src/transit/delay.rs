//! The one-way delay signal, and why the window is steered on it.
//!
//! A round trip is the obvious thing to measure and the wrong one: it sums the
//! queues in *both* directions. A one-way delay is attributable to a single
//! direction, and the direction it describes is the one the receiver's window is
//! responsible for. It costs a timestamp per `DATA` frame and no clock
//! synchronisation at all: the offset between two unsynchronised clocks lands in
//! every sample identically, so subtracting a minimum over recent samples
//! removes it and leaves the queue.

use vstd::prelude::*;
use vstd::relations::{sorted_by, total_ordering};
use vstd::seq_lib::{
    lemma_sorted_unique, to_multiset_contains, to_multiset_insert, to_multiset_len,
    to_multiset_remove,
};

use crate::time::{capped, span, TimeSpan, Timestamp};

verus! {

/// How many buckets the base remembers.
pub const BUCKETS: usize = 60;

/// How long a bucket of the base stays open, in nanoseconds.
pub const BUCKET: u128 = 1_000_000_000;

/// The smaller of two delays, where there are any.
pub open spec fn lesser(a: Option<i64>, b: Option<i64>) -> Option<i64> {
    match (a, b) {
        (Some(x), Some(y)) => if y < x {
            Some(y)
        } else {
            Some(x)
        },
        (Some(x), None) => Some(x),
        (None, _) => b,
    }
}

/// The smallest of the delays there are.
pub open spec fn least(delays: Seq<Option<i64>>) -> Option<i64>
    decreases delays.len(),
{
    if delays.len() == 0 {
        None
    } else {
        lesser(least(delays.drop_last()), delays.last())
    }
}

/// What a bucket holds: `i64::MAX` stands for nothing.
pub open spec fn in_bucket(raw: i64) -> Option<i64> {
    if raw == i64::MAX {
        None
    } else {
        Some(raw)
    }
}

/// A [`Base`] as a mathematical value.
#[verifier::ext_equal]
pub ghost struct BaseView {
    /// The smallest delay of each second, newest first.
    pub ages: Seq<Option<i64>>,
    /// When the newest second began.
    pub opened: Timestamp,
}

impl BaseView {
    /// Whole seconds that have passed at `now` since the newest one began.
    pub open spec fn behind(self, now: Timestamp) -> int {
        (span(self.opened, now).nanos / BUCKET) as int
    }

    /// The memory once `steps` more seconds have begun, with nothing in them.
    pub open spec fn aged(self, steps: int) -> Self {
        BaseView {
            ages: Seq::new(
                BUCKETS as nat,
                |k: int|
                    if k < steps {
                        None
                    } else {
                        self.ages[k - steps]
                    },
            ),
            opened: Timestamp { nanos: capped(self.opened.nanos + steps * BUCKET) },
        }
    }

    /// The memory once `owd` has been seen at `now`.
    pub open spec fn observed(self, owd: i64, now: Timestamp) -> Self {
        let current = self.aged(self.behind(now));
        BaseView {
            ages: current.ages.update(0, lesser(current.ages[0], in_bucket(owd))),
            ..current
        }
    }
}

/// A minimum of one-way delay over a sliding window, in microseconds.
///
/// Sliding rather than all-time, because the two things that would otherwise pin
/// the base below anything reachable are both real: a path whose propagation
/// delay genuinely changed, and a clock that drifted. The link-clearing probe
/// re-establishes the base every few seconds, and the memory is longer than the
/// gap between two probes by a comfortable margin.
#[derive(Debug)]
pub struct Base {
    buckets: Vec<i64>,
    /// Where the newest bucket is.
    head: usize,
    opened: Timestamp,
}

/// The bucket that is `age` seconds older than the newest.
pub open spec fn slot(head: int, age: int) -> int {
    if age <= head {
        head - age
    } else {
        head + BUCKETS - age
    }
}

impl View for Base {
    type V = BaseView;

    closed spec fn view(&self) -> BaseView {
        BaseView {
            ages: Seq::new(
                BUCKETS as nat,
                |age: int| in_bucket(self.buckets@[slot(self.head as int, age)]),
            ),
            opened: self.opened,
        }
    }
}

impl Base {
    /// The ring is complete and its head is in it.
    pub closed spec fn wf(self) -> bool {
        self.buckets@.len() == BUCKETS && self.head < BUCKETS
    }

    /// An empty memory whose newest second begins at `now`.
    pub fn new(now: Timestamp) -> (r: Self)
        ensures
            r.wf(),
            r@ == (BaseView { ages: Seq::new(BUCKETS as nat, |age: int| None), opened: now }),
    {
        let mut buckets: Vec<i64> = Vec::new();
        while buckets.len() < BUCKETS
            invariant
                buckets@.len() <= BUCKETS,
                forall|i: int| 0 <= i < buckets@.len() ==> buckets@[i] == i64::MAX,
            decreases BUCKETS - buckets@.len(),
        {
            buckets.push(i64::MAX);
        }
        let r = Base { buckets, head: 0, opened: now };
        assert(r@.ages =~= Seq::new(BUCKETS as nat, |age: int| None));
        r
    }

    /// Begins the next second, with nothing in it.
    fn step(&mut self)
        requires
            old(self).wf(),
        ensures
            final(self).wf(),
            final(self)@.ages == old(self)@.aged(1).ages,
            final(self)@.opened == old(self)@.opened,
    {
        self.head = if self.head + 1 == BUCKETS {
            0
        } else {
            self.head + 1
        };
        self.buckets.set(self.head, i64::MAX);
        assert forall|age: int| 0 <= age < BUCKETS implies self@.ages[age] == old(self)@.aged(
            1,
        ).ages[age] by {
            if age >= 1 {
                assert(slot(self.head as int, age) == slot(old(self).head as int, age - 1));
            }
        }
        assert(self@.ages =~= old(self)@.aged(1).ages);
    }

    /// Folds in one delay.
    pub fn observe(&mut self, owd: i64, now: Timestamp)
        requires
            old(self).wf(),
        ensures
            final(self).wf(),
            final(self)@ == old(self)@.observed(owd, now),
    {
        let secs: u128 = now.since(self.opened).nanos / BUCKET;
        // Past a full lap the whole memory is empty, and there is no point
        // walking further.
        let steps: u128 = if secs < BUCKETS as u128 {
            secs
        } else {
            BUCKETS as u128
        };
        let ghost before = self@;
        assert(self@.ages =~= before.aged(0).ages);
        let mut done: u128 = 0;
        while done < steps
            invariant
                done <= steps,
                self.wf(),
                self@.ages == before.aged(done as int).ages,
                self@.opened == before.opened,
            decreases steps - done,
        {
            let ghost prior = self@;
            self.step();
            assert(prior.aged(1).ages =~= before.aged(done + 1).ages);
            done = done + 1;
        }
        assert(before.aged(steps as int).ages =~= before.aged(secs as int).ages);
        assert(secs * BUCKET <= span(before.opened, now).nanos) by {
            assert(secs == span(before.opened, now).nanos / BUCKET);
        }
        self.opened = self.opened.plus(TimeSpan::from_nanos(secs * BUCKET));
        let newest: i64 = self.buckets[self.head];
        if owd < newest {
            self.buckets.set(self.head, owd);
        }
        let ghost current = before.aged(secs as int);
        assert forall|age: int| 0 <= age < BUCKETS implies self@.ages[age]
            == current.ages.update(0, lesser(current.ages[0], in_bucket(owd)))[age] by {
            assert(current.ages[0] == in_bucket(newest)) by {
                assert(slot(self.head as int, 0) == self.head);
            }
            if age > 0 {
                assert(slot(self.head as int, age) != self.head);
            }
        }
        assert(self@.ages =~= current.ages.update(0, lesser(current.ages[0], in_bucket(owd))));
    }

    /// The smallest delay in memory, if there is one.
    pub fn get(&self) -> (r: Option<i64>)
        requires
            self.wf(),
        ensures
            r == least(self@.ages),
    {
        let mut age: usize = 0;
        let mut min: i64 = i64::MAX;
        assert(self@.ages.take(0).len() == 0);
        while age < BUCKETS
            invariant
                age <= BUCKETS,
                self.wf(),
                in_bucket(min) == least(self@.ages.take(age as int)),
            decreases BUCKETS - age,
        {
            let at: usize = if age <= self.head {
                self.head - age
            } else {
                self.head + BUCKETS - age
            };
            let raw: i64 = self.buckets[at];
            let ghost upto = self@.ages.take(age + 1);
            assert(upto.drop_last() =~= self@.ages.take(age as int));
            assert(upto.last() == in_bucket(raw));
            if raw < min {
                min = raw;
            }
            age = age + 1;
        }
        assert(self@.ages.take(BUCKETS as int) =~= self@.ages);
        if min == i64::MAX {
            None
        } else {
            Some(min)
        }
    }
}

/// Numbers in ascending order.
pub open spec fn ascending() -> spec_fn(u128, u128) -> bool {
    |x: u128, y: u128| x <= y
}

/// The median of a non-empty list: what stands in the middle once it is sorted,
/// the upper of the two where its length is even.
pub open spec fn median(s: Seq<u128>) -> u128 {
    s.sort_by(ascending())[s.len() as int / 2]
}

/// Puts a number where it belongs in a sorted list.
pub(crate) fn insert_sorted(sorted: &mut Vec<u128>, x: u128)
    requires
        sorted_by(old(sorted)@, ascending()),
    ensures
        sorted_by(final(sorted)@, ascending()),
        final(sorted)@.to_multiset() == old(sorted)@.to_multiset().insert(x),
{
    let mut at: usize = 0;
    while at < sorted.len() && sorted[at] < x
        invariant
            at <= sorted@.len(),
            sorted@ == old(sorted)@,
            forall|i: int| 0 <= i < at ==> sorted@[i] < x,
        decreases sorted@.len() - at,
    {
        at = at + 1;
    }
    let ghost before = sorted@;
    sorted.insert(at, x);
    proof {
        let le = ascending();
        before.insert_ensures(at as int, x);
        to_multiset_insert(before, at as int, x);
        assert forall|i: int, j: int| 0 <= i < j < sorted@.len() implies #[trigger] le(
            sorted@[i],
            sorted@[j],
        ) by {
            let i0 = if i < at {
                i
            } else {
                i - 1
            };
            let j0 = if j < at {
                j
            } else {
                j - 1
            };
            if i != at && j != at {
                assert(le(before[i0], before[j0]));
            } else if i == at && j0 > at {
                assert(le(before[at as int], before[j0]));
            }
        }
    }
}

/// The median of a non-empty list.
pub fn median_of(list: &Vec<u128>) -> (r: u128)
    requires
        list@.len() > 0,
    ensures
        r == median(list@),
{
    let mut sorted: Vec<u128> = Vec::new();
    let mut i: usize = 0;
    proof {
        assert(list@.take(0) =~= Seq::<u128>::empty());
        assert(sorted@ =~= Seq::<u128>::empty());
    }
    while i < list.len()
        invariant
            i <= list@.len(),
            sorted_by(sorted@, ascending()),
            sorted@.to_multiset() == list@.take(i as int).to_multiset(),
        decreases list@.len() - i,
    {
        insert_sorted(&mut sorted, list[i]);
        proof {
            let prefix = list@.take(i as int);
            assert(list@.take(i + 1) =~= prefix.push(list@[i as int]));
            prefix.to_multiset_ensures();
        }
        i = i + 1;
    }
    proof {
        assert(list@.take(i as int) =~= list@);
        assert(total_ordering(ascending()));
        list@.lemma_sort_by_ensures(ascending());
        lemma_sorted_unique(sorted@, list@.sort_by(ascending()), ascending());
        to_multiset_len(sorted@);
        to_multiset_len(list@);
    }
    sorted[sorted.len() / 2]
}

/// A [`Delay`] as a mathematical value.
#[verifier::ext_equal]
pub ghost struct DelayView {
    /// Smallest delays of the recent past.
    pub base: BaseView,
    /// Smallest delay seen since the interval opened.
    pub interval: Option<i64>,
    /// Recent intervals' queuing delays, newest first.
    pub history: Seq<u128>,
    /// How many of those the median is taken over.
    pub filter: int,
}

/// How far `delay` stands above `base`.
pub open spec fn queue_above(base: i64, delay: i64) -> u128 {
    if delay < base {
        0
    } else {
        (delay - base) as u128
    }
}

/// The first `n` of a list.
pub open spec fn newest(s: Seq<u128>, n: int) -> Seq<u128> {
    if s.len() <= n {
        s
    } else {
        s.take(n)
    }
}

impl DelayView {
    /// Whether there is anything to steer on: a base, and a sample in the open
    /// interval.
    pub open spec fn ready(self) -> bool {
        least(self.base.ages) is Some && self.interval is Some
    }

    /// The queuing delay of the open interval.
    pub open spec fn queue(self) -> u128 {
        queue_above(least(self.base.ages).unwrap(), self.interval.unwrap())
    }

    /// The recent queuing delays once the open interval has been closed.
    pub open spec fn recent(self) -> Seq<u128> {
        newest(seq![self.queue()] + self.history, self.filter)
    }

    /// The signal once `owd` has been seen at `now`.
    pub open spec fn observed(self, owd: i64, now: Timestamp) -> Self {
        DelayView {
            base: self.base.observed(owd, now),
            interval: lesser(self.interval, Some(owd)),
            ..self
        }
    }

    /// The signal once the open interval has been closed, if there is anything
    /// in it.
    pub open spec fn sampled(self) -> Self {
        if self.ready() {
            DelayView { interval: None, history: self.recent(), ..self }
        } else {
            self
        }
    }

    /// The queuing delay that closing the open interval gives.
    pub open spec fn reading(self) -> Option<TimeSpan> {
        if self.ready() {
            Some(TimeSpan { nanos: capped(median(self.recent()) * 1_000) })
        } else {
            None
        }
    }
}

/// Queuing delay on one direction, filtered enough to steer a window with.
///
/// Two filters, and both are load-bearing. *Within* a control interval the
/// statistic is the **minimum**, because the minimum is the standing queue and
/// nothing else. *Across* intervals the statistic is a **median of the last
/// few**, because a single interval's minimum is far too noisy to act on.
#[derive(Debug)]
pub struct Delay {
    base: Base,
    interval: Option<i64>,
    history: Vec<u128>,
    filter: usize,
}

impl View for Delay {
    type V = DelayView;

    closed spec fn view(&self) -> DelayView {
        DelayView {
            base: self.base@,
            interval: self.interval,
            history: self.history@,
            filter: self.filter as int,
        }
    }
}

impl Delay {
    /// The memory is complete, and the median is taken over something.
    pub closed spec fn wf(self) -> bool {
        self.base.wf() && self.filter >= 1 && self.history@.len() <= self.filter
    }

    /// A signal with nothing in it, whose median is taken over `filter`
    /// intervals, and over one at least.
    pub fn new(filter: usize, now: Timestamp) -> (r: Self)
        ensures
            r.wf(),
            r@ == (DelayView {
                base: BaseView { ages: Seq::new(BUCKETS as nat, |age: int| None), opened: now },
                interval: None,
                history: Seq::empty(),
                filter: if filter == 0 {
                    1
                } else {
                    filter as int
                },
            }),
    {
        Delay {
            base: Base::new(now),
            interval: None,
            history: Vec::new(),
            filter: if filter == 0 {
                1
            } else {
                filter
            },
        }
    }

    /// Folds in one frame's one-way delay, offset and all.
    pub fn observe(&mut self, owd: i64, now: Timestamp)
        requires
            old(self).wf(),
        ensures
            final(self).wf(),
            final(self)@ == old(self)@.observed(owd, now),
    {
        self.base.observe(owd, now);
        self.interval = match self.interval {
            Some(min) => Some(
                if owd < min {
                    owd
                } else {
                    min
                },
            ),
            None => Some(owd),
        };
    }

    /// Closes the interval and returns the queuing delay to steer on.
    ///
    /// `None` until a base and at least one sample exist, which is also what
    /// keeps the control law from acting on an empty interval.
    pub fn sample(&mut self) -> (r: Option<TimeSpan>)
        requires
            old(self).wf(),
        ensures
            final(self).wf(),
            final(self)@ == old(self)@.sampled(),
            r == old(self)@.reading(),
    {
        let base: i64 = match self.base.get() {
            Some(base) => base,
            None => return None,
        };
        let interval: i64 = match self.interval {
            Some(interval) => interval,
            None => return None,
        };
        self.interval = None;
        let queue: u128 = if interval < base {
            0
        } else {
            (interval as i128 - base as i128) as u128
        };
        let ghost before = self.history@;
        self.history.insert(0, queue);
        assert(self.history@ =~= seq![queue] + before);
        self.history.truncate(self.filter);
        assert(self.history@ =~= newest(seq![queue] + before, self.filter as int));
        Some(TimeSpan::from_micros(median_of(&self.history)))
    }

    /// Throws away the open interval.
    ///
    /// For when the connection disturbed the link itself - a link-clearing probe
    /// empties it on purpose, so the frames either side of one carry the probe's
    /// own drain rather than whatever queue was standing.
    pub fn discard_interval(&mut self)
        requires
            old(self).wf(),
        ensures
            final(self).wf(),
            final(self)@ == (DelayView { interval: None, ..old(self)@ }),
    {
        self.interval = None;
    }
}

/// Whether `b` is `a` with `offset` added wherever there is a delay.
pub open spec fn offset_by(a: Option<i64>, b: Option<i64>, offset: int) -> bool {
    match (a, b) {
        (Some(x), Some(y)) => y == x + offset,
        (None, None) => true,
        _ => false,
    }
}

/// Whether `b` is the signal of `a` with `offset` added to every sample.
pub open spec fn apart(a: DelayView, b: DelayView, offset: int) -> bool {
    &&& a.base.opened == b.base.opened
    &&& a.base.ages.len() == BUCKETS
    &&& b.base.ages.len() == BUCKETS
    &&& forall|age: int|
        #![trigger a.base.ages[age]]
        0 <= age < BUCKETS ==> offset_by(a.base.ages[age], b.base.ages[age], offset)
    &&& offset_by(a.interval, b.interval, offset)
    &&& a.history == b.history
    &&& a.filter == b.filter
}

/// An offset in every delay is an offset in the smallest.
proof fn least_is_offset(a: Seq<Option<i64>>, b: Seq<Option<i64>>, offset: int)
    requires
        a.len() == b.len(),
        forall|i: int| #![trigger a[i]] 0 <= i < a.len() ==> offset_by(a[i], b[i], offset),
    ensures
        offset_by(least(a), least(b), offset),
    decreases a.len(),
{
    if a.len() > 0 {
        assert forall|i: int| #![trigger a.drop_last()[i]] 0 <= i < a.len() - 1 implies offset_by(
            a.drop_last()[i],
            b.drop_last()[i],
            offset,
        ) by {
            assert(offset_by(a[i], b[i], offset));
        }
        least_is_offset(a.drop_last(), b.drop_last(), offset);
        assert(offset_by(a[a.len() - 1], b[a.len() - 1], offset));
    }
}

/// No clock synchronisation is needed: whatever the offset between two clocks
/// is, it is in every sample, and the queuing delay is the same as without it.
///
/// Two signals that differ by an offset stay that way as samples that differ by
/// it arrive and as intervals are closed, and they read the same queue.
pub proof fn clock_offset_cancels(
    a: DelayView,
    b: DelayView,
    offset: int,
    owd: i64,
    shifted: i64,
    now: Timestamp,
)
    requires
        apart(a, b, offset),
        shifted == owd + offset,
        owd < i64::MAX,
        shifted < i64::MAX,
    ensures
        a.reading() == b.reading(),
        apart(a.sampled(), b.sampled(), offset),
        apart(a.observed(owd, now), b.observed(shifted, now), offset),
{
    least_is_offset(a.base.ages, b.base.ages, offset);
    assert(a.ready() ==> a.queue() == b.queue());
    let a1 = a.observed(owd, now);
    let b1 = b.observed(shifted, now);
    let steps = a.base.behind(now);
    assert(offset_by(a.base.ages[0], b.base.ages[0], offset));
    assert forall|age: int| #![trigger a1.base.ages[age]] 0 <= age < BUCKETS implies offset_by(
        a1.base.ages[age],
        b1.base.ages[age],
        offset,
    ) by {
        if age >= steps {
            assert(offset_by(a.base.ages[age - steps], b.base.ages[age - steps], offset));
        }
    }
}

/// A base older than the memory is gone: once a whole lap has passed, the only
/// delay remembered is the one just seen.
pub proof fn old_bases_are_forgotten(base: BaseView, owd: i64, now: Timestamp)
    requires
        base.behind(now) >= BUCKETS,
    ensures
        least(base.observed(owd, now).ages) == in_bucket(owd),
{
    let ages = base.observed(owd, now).ages;
    nothing_is_least(ages.take(1), ages);
    assert(least(ages.take(1).drop_last()) is None);
}

/// Empty buckets behind a prefix change nothing about its smallest delay.
proof fn nothing_is_least(prefix: Seq<Option<i64>>, s: Seq<Option<i64>>)
    requires
        prefix.len() <= s.len(),
        s.take(prefix.len() as int) == prefix,
        forall|i: int| prefix.len() <= i < s.len() ==> s[i] is None,
    ensures
        least(s) == least(prefix),
    decreases s.len(),
{
    if s.len() > prefix.len() {
        assert(s.drop_last().take(prefix.len() as int) =~= prefix);
        nothing_is_least(prefix, s.drop_last());
    } else {
        assert(s =~= prefix);
    }
}

/// No delay in memory is below the base, and the base is one of them.
pub proof fn base_is_the_smallest(ages: Seq<Option<i64>>)
    ensures
        least(ages) matches Some(base) ==> ages.contains(Some(base)),
        forall|i: int|
            0 <= i < ages.len() && ages[i] is Some ==> least(ages) is Some && least(ages).unwrap()
                <= (#[trigger] ages[i]).unwrap(),
    decreases ages.len(),
{
    if ages.len() > 0 {
        let rest = ages.drop_last();
        base_is_the_smallest(rest);
        assert forall|i: int| 0 <= i < ages.len() && ages[i] is Some implies least(ages) is Some
            && least(ages).unwrap() <= (#[trigger] ages[i]).unwrap() by {
            if i < rest.len() {
                assert(rest[i] == ages[i]);
            }
        }
        if least(ages) is Some {
            if least(ages) == ages.last() {
                assert(ages[ages.len() - 1] == least(ages));
            } else {
                let i = choose|i: int| 0 <= i < rest.len() && rest[i] == least(rest);
                assert(ages[i] == least(ages));
            }
        }
    }
}

/// One outlying interval in three or more never reaches the control law: the
/// median is no larger than what bounds all the others.
pub proof fn median_rejects_one_outlier(recent: Seq<u128>, outlier: int, bound: u128)
    requires
        recent.len() >= 3,
        0 <= outlier < recent.len(),
        forall|i: int| 0 <= i < recent.len() && i != outlier ==> recent[i] <= bound,
    ensures
        median(recent) <= bound,
{
    let le = ascending();
    assert(total_ordering(le));
    recent.lemma_sort_by_ensures(le);
    let sorted = recent.sort_by(le);
    to_multiset_len(recent);
    to_multiset_len(sorted);
    let n = recent.len() as int;
    if median(recent) > bound {
        let mid = n / 2;
        let x = sorted[n - 1];
        let y = sorted[n - 2];
        assert(mid <= n - 2);
        assert(le(sorted[mid], x));
        if mid < n - 2 {
            assert(le(sorted[mid], y));
        }
        let others = recent.remove(outlier);
        to_multiset_remove(recent, outlier);
        assert(!others.contains(x) && !others.contains(y));
        to_multiset_contains(others, x);
        to_multiset_contains(others, y);
        assert(sorted.contains(x) && sorted.contains(y));
        to_multiset_contains(sorted, x);
        to_multiset_contains(sorted, y);
        assert(x == recent[outlier] && y == recent[outlier]);
        let shorter = sorted.remove(n - 1);
        to_multiset_remove(sorted, n - 1);
        assert(shorter[n - 2] == y);
        to_multiset_contains(shorter, y);
        assert(false);
    }
}

} // verus!
