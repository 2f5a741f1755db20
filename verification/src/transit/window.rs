//! The window one end grants the other.
//!
//! The window is sized by a delay-targeting rule after LEDBAT: hold a fixed
//! amount of one-way queuing delay on the direction this window governs. It
//! needs two signals, not one. The delay says when the window is too big; the
//! peer reporting that it ran out of credit says when it is too small. Delay
//! alone cannot tell, because a byte waiting for credit has not entered the path
//! yet and so contributes no delay at all.
//!
//! # Why the window may only come down one way
//!
//! A window comes down only by handing back less than was freed, so a single
//! re-grant can shrink it by at most what it just freed and deeper cuts arrive
//! over the following few. Nothing is ever taken away.

use vstd::prelude::*;

use super::delay::{BaseView, Delay, DelayView, BUCKETS};
use super::probe::held_between;
use super::rate::{tau, time_constant, RateEstimate, RateSample};
use crate::time::{saturated, span, TimeSpan, Timestamp};

verus! {

/// Smallest re-grant the pacing rule will ask for.
///
/// A floor on frame count rather than on bandwidth: finer than this buys nothing
/// measurable while costing a packet per re-grant on a fast path.
pub const RE_GRANT_FLOOR: u32 = 4096;

/// Smallest window the delay rule may shrink to.
///
/// Below about this the re-grant cadence is all that is left of the window.
pub const MIN_WINDOW: u32 = 16384;

/// Control interval before a round trip is known, in nanoseconds.
///
/// The rule is otherwise clocked at one round trip, because that is how long a
/// change to the window takes to show up in the delay it is steering.
pub const DEFAULT_CONTROL_INTERVAL: u128 = 50_000_000;

/// The bounds and cadences a window is sized within.
#[derive(Clone, Copy, Debug, PartialEq, Eq, Structural)]
pub struct Sizing {
    /// Granted before anything has been measured.
    pub initial: u32,
    /// Growth limit.
    pub max: u32,
    /// Upper bound on the freed credit that triggers a re-grant. Capped again at
    /// half the window, so a small window keeps the classic half-window cadence
    /// rather than re-granting more than it has outstanding.
    pub re_grant: u32,
    /// Re-grants to fit into a round trip, or zero to leave the cadence at the
    /// flat `re_grant` on every link.
    pub re_grants_per_rtt: u32,
    /// Control intervals the delay median is taken over.
    pub delay_filter: usize,
}

impl Default for Sizing {
    /// The tuned configuration.
    fn default() -> (r: Self)
        ensures
            r == (Sizing {
                initial: 131_072,
                max: 16_777_216,
                re_grant: 65_536,
                re_grants_per_rtt: 32,
                delay_filter: 4,
            }),
    {
        Sizing {
            // Large enough that a fast path is not starved through its ramp; the
            // delay rule brings it down where it is too much.
            initial: 128 * 1024,
            // Above the largest bandwidth-delay product measured, so it never
            // binds on the links tried.
            max: 16 * 1024 * 1024,
            // The flat cap on a re-grant; pacing usually asks for less.
            re_grant: 64 * 1024,
            // Holds the re-grant's delay to a thirty-second of the round trip.
            re_grants_per_rtt: 32,
            // Four intervals removed the run-to-run spread entirely.
            delay_filter: 4,
        }
    }
}

/// What the delay rule acts on.
#[derive(Clone, Copy, Debug, PartialEq, Eq, Structural)]
pub struct Steering {
    /// Queuing delay that was read.
    pub queued: TimeSpan,
    /// Whether the peer has run out of credit since the last time.
    pub starved: bool,
    /// The control interval.
    pub interval: TimeSpan,
    /// The size to scale.
    pub desired: u32,
}

/// A [`Window`] as a mathematical value.
#[verifier::ext_equal]
pub ghost struct WindowView {
    /// The bounds and cadences the window is sized within.
    pub sizing: Sizing,
    /// What the peer is currently allowed to have in flight.
    pub granted: u32,
    /// Freed since the last re-grant.
    pub freed: u32,
    /// Everything ever granted.
    pub granted_total: u64,
    /// Everything ever received.
    pub received_total: u64,
    /// What the delay rule is steering towards.
    pub desired: u32,
    /// The open bucket of arrivals.
    pub rate: RateEstimate,
    /// Closed buckets that the rate estimate has not taken yet.
    pub rate_samples: Seq<RateSample>,
    /// The delay signal.
    pub delay: DelayView,
    /// Last queuing delay the control law acted on.
    pub queued: Option<TimeSpan>,
    /// Whether the peer has reported running out of credit this control
    /// interval.
    pub peer_starved: bool,
    /// When the control law last ran.
    pub controlled_at: Timestamp,
}

/// The smallest size the delay rule may ask for under the limit `max`.
pub open spec fn window_floor(max: u32) -> u32 {
    if MIN_WINDOW < max {
        MIN_WINDOW
    } else {
        max
    }
}

/// The control interval for a path with this round trip.
pub open spec fn control_interval(rtt: Option<TimeSpan>) -> TimeSpan {
    match rtt {
        Some(rtt) => rtt,
        None => TimeSpan { nanos: DEFAULT_CONTROL_INTERVAL },
    }
}

impl WindowView {
    /// The window of a connection that starts at `now`.
    pub open spec fn opened(sizing: Sizing, now: Timestamp) -> Self {
        WindowView {
            sizing,
            granted: sizing.initial,
            freed: 0,
            granted_total: sizing.initial as u64,
            received_total: 0,
            desired: sizing.initial,
            rate: RateEstimate { pending: 0, since: now },
            rate_samples: Seq::empty(),
            delay: DelayView {
                base: BaseView { ages: Seq::new(BUCKETS as nat, |age: int| None), opened: now },
                interval: None,
                history: Seq::empty(),
                filter: if sizing.delay_filter == 0 {
                    1
                } else {
                    sizing.delay_filter as int
                },
            },
            queued: None,
            peer_starved: false,
            controlled_at: now,
        }
    }

    /// The window once `len` bytes of payload have arrived.
    pub open spec fn paid(self, len: u32, rtt: Option<TimeSpan>, now: Timestamp) -> Self {
        WindowView {
            received_total: saturated(self.received_total + len),
            freed: if self.freed + len > u32::MAX {
                u32::MAX
            } else {
                (self.freed + len) as u32
            },
            rate: self.rate.observed(len as int, now),
            rate_samples: match self.rate.sample(len as int, time_constant(rtt), now) {
                Some(sample) => self.rate_samples.push(sample),
                None => self.rate_samples,
            },
            ..self
        }
    }

    /// Whether the peer has sent more than it was ever granted.
    pub open spec fn overdrawn(self) -> bool {
        self.received_total > self.granted_total
    }

    /// The window once a frame's one-way delay has been folded in.
    pub open spec fn delayed(self, owd: i64, now: Timestamp) -> Self {
        WindowView { delay: self.delay.observed(owd, now), ..self }
    }

    /// The window once an exchange of the probe has ended.
    pub open spec fn probe_ended(self, now: Timestamp) -> Self {
        WindowView {
            controlled_at: now,
            delay: DelayView { interval: None, ..self.delay },
            ..self
        }
    }

    /// Whether the control law runs at `now`.
    pub open spec fn steers(self, rtt: Option<TimeSpan>, now: Timestamp) -> bool {
        span(self.controlled_at, now).nanos >= control_interval(rtt).nanos && self.delay.ready()
    }

    /// What the control law acts on at `now`, if it runs.
    pub open spec fn steering(self, rtt: Option<TimeSpan>, now: Timestamp) -> Option<Steering> {
        if self.steers(rtt, now) {
            Some(
                Steering {
                    queued: self.delay.reading().unwrap(),
                    starved: self.peer_starved,
                    interval: control_interval(rtt),
                    desired: self.desired,
                },
            )
        } else {
            None
        }
    }

    /// The window once the control law has read its signals at `now`.
    pub open spec fn steered(self, rtt: Option<TimeSpan>, now: Timestamp) -> Self {
        if self.steers(rtt, now) {
            WindowView {
                delay: self.delay.sampled(),
                controlled_at: now,
                queued: self.delay.reading(),
                peer_starved: false,
                ..self
            }
        } else {
            self
        }
    }

    /// The size the rule asks for when its formula gives `scaled`.
    ///
    /// Shrinking always applies; growing needs the peer to have said it wanted
    /// the credit, or an idle direction reads no queue and grows into the cap.
    pub open spec fn aim(self, scaled: u32, starved: bool) -> u32 {
        let wanted = if starved || scaled < self.desired {
            scaled
        } else {
            self.desired
        };
        held_between(
            wanted as int,
            window_floor(self.sizing.max) as int,
            self.sizing.max as int,
        ) as u32
    }

    /// The freed credit that triggers a re-grant on every link.
    pub open spec fn flat_threshold(self) -> u32 {
        let capped = if self.sizing.re_grant < self.granted / 2 {
            self.sizing.re_grant
        } else {
            self.granted / 2
        };
        if capped < 1 {
            1
        } else {
            capped
        }
    }

    /// How much freed credit triggers a re-grant: the share of a round trip that
    /// pacing asks for where there is one, within the flat bound.
    pub open spec fn threshold(self, rtt: Option<TimeSpan>, paced: Option<u32>) -> u32 {
        let flat = self.flat_threshold();
        if rtt is Some && self.sizing.re_grants_per_rtt > 0 && paced is Some {
            held_between(
                paced.unwrap() as int,
                if RE_GRANT_FLOOR < flat {
                    RE_GRANT_FLOOR as int
                } else {
                    flat as int
                },
                flat as int,
            ) as u32
        } else {
            flat
        }
    }

    /// Whether a re-grant is due.
    pub open spec fn grants(
        self,
        undelivered: int,
        rtt: Option<TimeSpan>,
        paced: Option<u32>,
    ) -> bool {
        self.freed >= self.threshold(rtt, paced) && undelivered < self.granted
    }

    /// The size the rule wants now.
    pub open spec fn wanted(self) -> int {
        held_between(
            self.desired as int,
            window_floor(self.sizing.max) as int,
            self.sizing.max as int,
        )
    }

    /// The size after a re-grant: what the rule wants, but no further down than
    /// by what was freed.
    pub open spec fn next_size(self) -> int {
        if self.wanted() < self.granted - self.freed {
            self.granted - self.freed
        } else {
            self.wanted()
        }
    }

    /// The credit a re-grant carries: what was freed, and whatever the window's
    /// change adds to or subtracts from it.
    pub open spec fn update(self) -> int {
        if self.freed + self.next_size() > u32::MAX {
            u32::MAX - self.granted
        } else {
            self.freed + self.next_size() - self.granted
        }
    }

    /// The window after a re-grant.
    pub open spec fn regranted(self) -> Self {
        WindowView {
            granted: self.next_size() as u32,
            granted_total: saturated(self.granted_total + self.update()),
            freed: 0,
            ..self
        }
    }

    /// Credit out is never more than the window.
    pub open spec fn bounded(self) -> bool {
        &&& self.received_total < u64::MAX ==> self.granted_total + self.freed
            <= self.received_total + self.granted
        &&& self.granted <= self.sizing.initial || self.granted <= self.sizing.max
    }

    /// The books balance: credit out is exactly the window less what was freed.
    pub open spec fn balanced(self) -> bool {
        &&& self.granted_total + self.freed == self.received_total + self.granted
        &&& self.granted <= self.sizing.initial || self.granted <= self.sizing.max
    }
}

/// The window one end grants the other, and everything that sizes it.
#[derive(Debug)]
pub struct Window {
    sizing: Sizing,
    granted: u32,
    freed: u32,
    granted_total: u64,
    received_total: u64,
    desired: u32,
    rate: RateEstimate,
    rate_samples: Vec<RateSample>,
    delay: Delay,
    queued: Option<TimeSpan>,
    peer_starved: bool,
    controlled_at: Timestamp,
}

impl View for Window {
    type V = WindowView;

    closed spec fn view(&self) -> WindowView {
        WindowView {
            sizing: self.sizing,
            granted: self.granted,
            freed: self.freed,
            granted_total: self.granted_total,
            received_total: self.received_total,
            desired: self.desired,
            rate: self.rate,
            rate_samples: self.rate_samples@,
            delay: self.delay@,
            queued: self.queued,
            peer_starved: self.peer_starved,
            controlled_at: self.controlled_at,
        }
    }
}

impl Window {
    /// Credit out is within the window, and the delay signal is sound.
    pub closed spec fn wf(self) -> bool {
        self.delay.wf() && self@.bounded()
    }

    /// The window of a connection that starts at `now`.
    pub fn new(sizing: Sizing, now: Timestamp) -> (r: Self)
        ensures
            r.wf(),
            r@ == WindowView::opened(sizing, now),
    {
        Window {
            sizing,
            granted: sizing.initial,
            freed: 0,
            granted_total: sizing.initial as u64,
            received_total: 0,
            desired: sizing.initial,
            rate: RateEstimate::new(now),
            rate_samples: Vec::new(),
            delay: Delay::new(sizing.delay_filter, now),
            queued: None,
            peer_starved: false,
            controlled_at: now,
        }
    }

    /// What the peer is currently allowed to have in flight.
    pub fn granted(&self) -> (r: u32)
        ensures
            r == self@.granted,
    {
        self.granted
    }

    /// What the delay rule is steering towards.
    pub fn desired(&self) -> (r: u32)
        ensures
            r == self@.desired,
    {
        self.desired
    }

    /// The bounds and cadences the window is sized within.
    pub fn sizing(&self) -> (r: Sizing)
        ensures
            r == self@.sizing,
    {
        self.sizing
    }

    /// Last queuing delay the control law acted on.
    pub fn queued(&self) -> (r: Option<TimeSpan>)
        ensures
            r == self@.queued,
    {
        self.queued
    }

    /// Frees credit for payload that has arrived, and feeds the rate estimate.
    ///
    /// Credit is freed on *arrival*, not on the application reading it, because
    /// arrival is what ends a byte's time in flight.
    pub fn on_payload(&mut self, len: u32, rtt: Option<TimeSpan>, now: Timestamp)
        requires
            old(self).wf(),
        ensures
            final(self).wf(),
            final(self)@ == old(self)@.paid(len, rtt, now),
    {
        self.received_total = self.received_total.saturating_add(len as u64);
        self.freed = self.freed.saturating_add(len);
        match self.rate.observe(len as u64, tau(rtt), now) {
            Some(sample) => {
                self.rate_samples.push(sample);
            },
            None => {},
        }
    }

    /// Whether the peer has sent more than it was ever granted.
    pub fn overdrawn(&self) -> (r: bool)
        ensures
            r == self@.overdrawn(),
    {
        self.received_total > self.granted_total
    }

    /// Takes the buckets of arrivals that have closed since the last time.
    pub fn take_rate_samples(&mut self) -> (r: Vec<RateSample>)
        requires
            old(self).wf(),
        ensures
            final(self).wf(),
            r@ == old(self)@.rate_samples,
            final(self)@ == (WindowView { rate_samples: Seq::empty(), ..old(self)@ }),
    {
        let mut taken: Vec<RateSample> = Vec::new();
        std::mem::swap(&mut taken, &mut self.rate_samples);
        taken
    }

    /// Folds in one frame's one-way delay.
    pub fn on_delay(&mut self, owd: i64, now: Timestamp)
        requires
            old(self).wf(),
        ensures
            final(self).wf(),
            final(self)@ == old(self)@.delayed(owd, now),
    {
        self.delay.observe(owd, now);
    }

    /// Records that the peer wrote a frame after running out of credit.
    pub fn note_peer_starved(&mut self)
        requires
            old(self).wf(),
        ensures
            final(self).wf(),
            final(self)@ == (WindowView { peer_starved: true, ..old(self)@ }),
    {
        self.peer_starved = true;
    }

    /// Restarts the delay clock a link-clearing probe disturbed.
    ///
    /// A probe empties the link on purpose, so the frames either side of one
    /// carry the probe's own drain rather than whatever queue was standing; the
    /// interval they landed in is thrown away and the control clock restarts.
    pub fn on_probe_end(&mut self, now: Timestamp)
        requires
            old(self).wf(),
        ensures
            final(self).wf(),
            final(self)@ == old(self)@.probe_ended(now),
    {
        self.controlled_at = now;
        self.delay.discard_interval();
    }

    /// Reads the signals of the delay control law, if its interval has come
    /// round.
    ///
    /// Deliberately not folded into [`Self::take_grant`]. That is skipped while
    /// undelivered payload stands at a window's worth, which is exactly when an
    /// application busy enough to stop reading is also the one whose queue most
    /// needs steering.
    pub fn steer(&mut self, rtt: Option<TimeSpan>, now: Timestamp) -> (r: Option<Steering>)
        requires
            old(self).wf(),
        ensures
            final(self).wf(),
            final(self)@ == old(self)@.steered(rtt, now),
            r == old(self)@.steering(rtt, now),
    {
        let interval = match rtt {
            Some(rtt) => rtt,
            None => TimeSpan { nanos: DEFAULT_CONTROL_INTERVAL },
        };
        if now.since(self.controlled_at).nanos < interval.nanos {
            return None;
        }
        let queued = match self.delay.sample() {
            Some(queued) => queued,
            None => return None,
        };
        self.controlled_at = now;
        self.queued = Some(queued);
        let starved = self.peer_starved;
        self.peer_starved = false;
        Some(Steering { queued, starved, interval, desired: self.desired })
    }

    /// Sets the size to steer towards to what the rule's formula gave, within
    /// its bounds, and growing only for a peer that asked for it.
    pub fn resize_towards(&mut self, scaled: u32, starved: bool)
        requires
            old(self).wf(),
        ensures
            final(self).wf(),
            final(self)@ == (WindowView {
                desired: old(self)@.aim(scaled, starved),
                ..old(self)@
            }),
    {
        let wanted: u32 = if starved || scaled < self.desired {
            scaled
        } else {
            self.desired
        };
        self.desired = clamp_window(wanted, self.sizing.max);
    }

    /// The credit to grant now, if a re-grant is due.
    ///
    /// `undelivered` is payload parsed but not yet read by the application.
    /// Holding the grant back while that stands at a window's worth is what
    /// bounds memory - never declining to read the transport, which would also
    /// decline the credit this end is waiting for. `paced` is what the arrival
    /// rate carries in one of the re-grants of a round trip, once a rate is
    /// known.
    pub fn take_grant(
        &mut self,
        undelivered: usize,
        rtt: Option<TimeSpan>,
        paced: Option<u32>,
    ) -> (r: Option<u32>)
        requires
            old(self).wf(),
        ensures
            final(self).wf(),
            !old(self)@.grants(undelivered as int, rtt, paced) ==> r is None && final(self)@
                == old(self)@,
            old(self)@.grants(undelivered as int, rtt, paced) ==> {
                &&& final(self)@ == old(self)@.regranted()
                &&& r == (if old(self)@.update() > 0 {
                    Some(old(self)@.update() as u32)
                } else {
                    None
                })
            },
    {
        if self.freed < self.re_grant_threshold(rtt, paced) || undelivered
            >= crate::safe_cast_usize(self.granted) {
            return None;
        }
        let target: u32 = clamp_window(self.desired, self.sizing.max);
        let drop: u32 = self.granted.saturating_sub(target);
        let floor: u32 = self.granted - (if self.freed < drop {
            self.freed
        } else {
            drop
        });
        let granted: u32 = if target > floor {
            target
        } else {
            floor
        };
        let update: u32 = self.freed.saturating_add(granted) - self.granted;
        self.granted = granted;
        self.granted_total = self.granted_total.saturating_add(update as u64);
        self.freed = 0;
        if update > 0 {
            Some(update)
        } else {
            None
        }
    }

    /// How much freed credit triggers a re-grant.
    pub fn re_grant_threshold(&self, rtt: Option<TimeSpan>, paced: Option<u32>) -> (r: u32)
        ensures
            r == self@.threshold(rtt, paced),
    {
        // Never more than half the window: a step bigger than that cannot get
        // back before the sender has drained what it was holding.
        let half: u32 = self.granted / 2;
        let capped: u32 = if self.sizing.re_grant < half {
            self.sizing.re_grant
        } else {
            half
        };
        let flat: u32 = if capped < 1 {
            1
        } else {
            capped
        };
        match (rtt, paced) {
            (Some(_), Some(paced)) => {
                if self.sizing.re_grants_per_rtt == 0 {
                    return flat;
                }
                let low: u32 = if RE_GRANT_FLOOR < flat {
                    RE_GRANT_FLOOR
                } else {
                    flat
                };
                if paced < low {
                    low
                } else if paced > flat {
                    flat
                } else {
                    paced
                }
            },
            _ => flat,
        }
    }
}

/// Holds a size between the smallest the rule may ask for and its limit.
fn clamp_window(size: u32, max: u32) -> (r: u32)
    ensures
        r == held_between(size as int, window_floor(max) as int, max as int),
{
    let low: u32 = if MIN_WINDOW < max {
        MIN_WINDOW
    } else {
        max
    };
    if size < low {
        low
    } else if size > max {
        max
    } else {
        size
    }
}

/// Credit already granted is never taken back: a re-grant shrinks the window by
/// no more than the credit it just freed, and what it hands out is never
/// negative.
pub proof fn shrinking_is_limited_to_freed_credit(w: WindowView)
    ensures
        w.regranted().granted + w.freed >= w.granted,
        w.update() >= 0,
        w.regranted().granted_total >= w.granted_total,
{
}

/// Before the control law has moved the window, a re-grant returns exactly what
/// was freed and the window stays where it is.
pub proof fn unmoved_windows_return_what_was_freed(w: WindowView)
    requires
        w.desired == w.granted,
        window_floor(w.sizing.max) <= w.desired <= w.sizing.max,
        w.freed + w.granted <= u32::MAX,
    ensures
        w.update() == w.freed,
        w.regranted().granted == w.granted,
{
}

/// A window grows only for a peer that ran out of credit, and never past its
/// limit.
pub proof fn growth_needs_a_starved_peer(w: WindowView, scaled: u32)
    requires
        window_floor(w.sizing.max) <= w.desired,
    ensures
        w.aim(scaled, false) <= w.desired,
        w.aim(scaled, true) <= w.sizing.max,
        w.aim(scaled, false) <= w.sizing.max,
{
}

/// What the peer may have in flight is never more than the window: whatever
/// arrives and whatever is granted, the credit handed out and not yet used stays
/// within it.
pub proof fn credit_out_stays_within_the_window(w: WindowView)
    requires
        w.bounded(),
        w.received_total < u64::MAX,
    ensures
        w.granted_total - w.received_total <= w.granted - w.freed,
{
}

/// Credit is conserved: from the start, as payload arrives and as it is granted
/// again, what is out is exactly the window less what was freed, as long as the
/// peer keeps to it and no counter is at its limit.
pub proof fn credit_is_conserved(
    sizing: Sizing,
    w: WindowView,
    len: u32,
    rtt: Option<TimeSpan>,
    now: Timestamp,
)
    requires
        w.balanced(),
        w.sizing.initial <= u32::MAX / 2,
        w.sizing.max <= u32::MAX / 2,
        w.granted_total <= u64::MAX - u32::MAX,
    ensures
        WindowView::opened(sizing, now).balanced(),
        !w.overdrawn() ==> w.regranted().balanced(),
        w.received_total + len <= w.granted_total ==> {
            &&& w.paid(len, rtt, now).balanced()
            &&& !w.paid(len, rtt, now).overdrawn()
        },
        w.received_total + len > w.granted_total ==> w.paid(len, rtt, now).overdrawn(),
{
}

} // verus!
