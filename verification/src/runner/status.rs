use vstd::prelude::*;

use crate::runner::time::TimeDelta;
use crate::runner::time::Timestamp;

verus! {

/// What one observation did to a target's availability.
#[derive(PartialEq, Clone, Copy, Debug)]
pub enum Event {
    /// The target was available and is now held to be unavailable.
    AvailableToUnavailable,
    /// The target was unavailable and is available again, after an outage of
    /// the given length.
    UnavailableToAvailable(TimeDelta),
    /// The observation did not change the target's availability.
    NoChange,
}

/// The availability of one target, debounced: the state flips only after
/// `threshold` observations in a row that contradict it.
///
/// A `threshold` of 0 acts as a threshold of 1: the first contradicting
/// observation flips the state. [`Status::new`] stores 1 in its place.
#[derive(Debug)]
pub struct Status {
    pub threshold: u8,
    pub unavailable_count: u64,
    pub unavailable_started: Timestamp,
    pub unavailable_counted: u64,
    pub is_unavailable: bool,
    pub available_counted: u64,
    pub unavailable_events: Vec<Event>,
}

/// The mathematical value of a [`Status`].
pub ghost struct StatusView {
    pub threshold: nat,
    pub unavailable_count: nat,
    pub unavailable_started: Timestamp,
    pub unavailable_counted: nat,
    pub is_unavailable: bool,
    pub available_counted: nat,
    pub unavailable_events: Seq<Event>,
}

impl View for Status {
    type V = StatusView;

    open spec fn view(&self) -> StatusView {
        StatusView {
            threshold: self.threshold as nat,
            unavailable_count: self.unavailable_count as nat,
            unavailable_started: self.unavailable_started,
            unavailable_counted: self.unavailable_counted as nat,
            is_unavailable: self.is_unavailable,
            available_counted: self.available_counted as nat,
            unavailable_events: self.unavailable_events@,
        }
    }
}

impl StatusView {
    /// The state of a target that has not been observed yet: available, with
    /// empty counters and no history.
    pub open spec fn initial(threshold: nat) -> StatusView {
        StatusView {
            threshold: if threshold == 0 { 1 } else { threshold },
            unavailable_count: 0,
            unavailable_started: Timestamp { secs: 0, subsec_nanos: 0 },
            unavailable_counted: 0,
            is_unavailable: false,
            available_counted: 0,
            unavailable_events: Seq::empty(),
        }
    }

    /// Whether an available observation ends the outage: the target is
    /// unavailable and this observation completes the run of `threshold`.
    pub open spec fn recovers(self) -> bool {
        self.is_unavailable && self.available_counted + 1 >= self.threshold
    }

    /// Whether an unavailable observation starts an outage: the target is
    /// available and this observation completes the run of `threshold`.
    pub open spec fn fails(self) -> bool {
        !self.is_unavailable && self.unavailable_counted + 1 >= self.threshold
    }

    /// The event that an available observation at `now` returns.
    pub open spec fn available_event(self, now: Timestamp) -> Event {
        if self.recovers() {
            Event::UnavailableToAvailable(outage(self.unavailable_started, now))
        } else {
            Event::NoChange
        }
    }

    /// The state after an available observation at `now`.
    pub open spec fn observe_available(self, now: Timestamp) -> StatusView {
        StatusView {
            threshold: self.threshold,
            unavailable_count: self.unavailable_count,
            unavailable_started: self.unavailable_started,
            unavailable_counted: 0,
            is_unavailable: self.is_unavailable && !self.recovers(),
            available_counted: self.available_counted + 1,
            unavailable_events: if self.recovers() {
                self.unavailable_events.push(self.available_event(now))
            } else {
                self.unavailable_events
            },
        }
    }

    /// The event that an unavailable observation returns.
    pub open spec fn unavailable_event(self) -> Event {
        if self.fails() {
            Event::AvailableToUnavailable
        } else {
            Event::NoChange
        }
    }

    /// The state after an unavailable observation at `now`.
    pub open spec fn observe_unavailable(self, now: Timestamp) -> StatusView {
        StatusView {
            threshold: self.threshold,
            unavailable_count: if self.fails() {
                self.unavailable_count + 1
            } else {
                self.unavailable_count
            },
            unavailable_started: if self.fails() {
                now
            } else {
                self.unavailable_started
            },
            unavailable_counted: self.unavailable_counted + 1,
            is_unavailable: self.is_unavailable || self.fails(),
            available_counted: 0,
            unavailable_events: self.unavailable_events,
        }
    }

    /// What every state reached from [`StatusView::initial`] by observations
    /// satisfies: a threshold of at least 1, at most one counter running, the
    /// running counter still short of the threshold, and a history that holds
    /// recoveries only.
    pub open spec fn wf(self) -> bool {
        &&& self.threshold >= 1
        &&& self.available_counted == 0 || self.unavailable_counted == 0
        &&& !self.is_unavailable ==> self.unavailable_counted < self.threshold
        &&& self.is_unavailable ==> self.available_counted < self.threshold
        &&& forall|i: int|
            0 <= i < self.unavailable_events.len() ==> (
            #[trigger] self.unavailable_events[i]) is UnavailableToAvailable
    }
}

/// The length of an outage that began at `started` and ended at `ended`.
pub open spec fn outage(started: Timestamp, ended: Timestamp) -> TimeDelta {
    TimeDelta { nanos: (ended.nanos() - started.nanos()) as i128 }
}

/// The length of an outage is the difference of its two ends to the
/// nanosecond: no pair of timestamps is too far apart for a [`TimeDelta`].
pub proof fn lemma_outage_is_difference(started: Timestamp, ended: Timestamp)
    ensures
        outage(started, ended).nanos == ended.nanos() - started.nanos(),
{
}

impl Status {
    /// Creates the status of a target that has not been observed yet.
    ///
    /// `threshold` is the number of contradicting observations in a row that
    /// flips the state; 0 is taken as 1.
    pub fn new(threshold: u8) -> (status: Status)
        ensures
            status@ == StatusView::initial(threshold as nat),
            status@.wf(),
    {
        Status {
            threshold: if threshold == 0 { 1 } else { threshold },
            unavailable_count: 0,
            unavailable_started: Timestamp { secs: 0, subsec_nanos: 0 },
            unavailable_counted: 0,
            is_unavailable: false,
            available_counted: 0,
            unavailable_events: Vec::new(),
        }
    }

    /// Whether the counters can take one more observation of the given
    /// kind: the counter of its run is not at its limit, nor is the count of
    /// outages where the observation starts one.
    pub open spec fn has_room_for(&self, available: bool) -> bool {
        if available {
            self.available_counted < u64::MAX
        } else {
            &&& self.unavailable_counted < u64::MAX
            &&& self@.fails() ==> self.unavailable_count < u64::MAX
        }
    }

    /// Whether the counters can take one more observation of either kind.
    pub open spec fn has_room(&self) -> bool {
        self.has_room_for(true) && self.has_room_for(false)
    }

    /// Whether the counters can take one more observation of either kind.
    pub fn can_observe(&self) -> (room: bool)
        ensures
            room == self.has_room(),
    {
        if self.available_counted == u64::MAX || self.unavailable_counted == u64::MAX {
            return false;
        }
        let fails = !self.is_unavailable && self.unavailable_counted + 1
            >= self.threshold as u64;
        !fails || self.unavailable_count < u64::MAX
    }

    /// Takes in one available observation made at `now`.
    pub fn observe_available(&mut self, now: Timestamp) -> (event: Event)
        requires
            old(self).has_room_for(true),
        ensures
            final(self)@ == old(self)@.observe_available(now),
            event == old(self)@.available_event(now),
            old(self)@.wf() ==> final(self)@.wf(),
    {
        self.available_counted = self.available_counted + 1;
        self.unavailable_counted = 0;
        if self.is_unavailable && self.available_counted >= self.threshold as u64 {
            self.is_unavailable = false;
            let event = Event::UnavailableToAvailable(
                now.signed_duration_since(self.unavailable_started),
            );
            self.unavailable_events.push(event);
            return event;
        }
        Event::NoChange
    }

    /// Takes in one unavailable observation made at `now`.
    pub fn observe_unavailable(&mut self, now: Timestamp) -> (event: Event)
        requires
            old(self).has_room_for(false),
        ensures
            final(self)@ == old(self)@.observe_unavailable(now),
            event == old(self)@.unavailable_event(),
            old(self)@.wf() ==> final(self)@.wf(),
    {
        self.unavailable_counted = self.unavailable_counted + 1;
        self.available_counted = 0;
        if !self.is_unavailable && self.unavailable_counted >= self.threshold as u64 {
            self.is_unavailable = true;
            self.unavailable_started = now;
            self.unavailable_count = self.unavailable_count + 1;
            return Event::AvailableToUnavailable;
        }
        Event::NoChange
    }

    /// Takes in one available observation, made now by the wall clock.
    pub fn handle_available(&mut self) -> (event: Event)
        requires
            old(self).has_room_for(true),
        ensures
            exists|now: Timestamp|
                final(self)@ == #[trigger] old(self)@.observe_available(now)
                    && event == old(self)@.available_event(now),
            old(self)@.wf() ==> final(self)@.wf(),
    {
        let now = Timestamp::now();
        self.observe_available(now)
    }

    /// Takes in one unavailable observation, made now by the wall clock.
    pub fn handle_unavailable(&mut self) -> (event: Event)
        requires
            old(self).has_room_for(false),
        ensures
            exists|now: Timestamp|
                final(self)@ == #[trigger] old(self)@.observe_unavailable(now),
            event == old(self)@.unavailable_event(),
            old(self)@.wf() ==> final(self)@.wf(),
    {
        let now = Timestamp::now();
        self.observe_unavailable(now)
    }
}

impl Default for Status {
    /// The status that [`Status::new`] gives for a threshold of 1.
    fn default() -> (status: Status)
        ensures
            status@ == StatusView::initial(1),
    {
        Status::new(1)
    }
}

/// The state after a run of unavailable observations, one at each of `times`.
pub open spec fn after_unavailable_run(start: StatusView, times: Seq<Timestamp>) -> StatusView
    decreases times.len(),
{
    if times.len() == 0 {
        start
    } else {
        after_unavailable_run(start, times.drop_last()).observe_unavailable(times.last())
    }
}

/// The state after a run of available observations, one at each of `times`.
pub open spec fn after_available_run(start: StatusView, times: Seq<Timestamp>) -> StatusView
    decreases times.len(),
{
    if times.len() == 0 {
        start
    } else {
        after_available_run(start, times.drop_last()).observe_available(times.last())
    }
}

/// The event that observation number `i` (from 0) of a run of unavailable
/// observations returns.
pub open spec fn unavailable_run_event(start: StatusView, times: Seq<Timestamp>, i: int) -> Event {
    after_unavailable_run(start, times.take(i)).unavailable_event()
}

/// The event that observation number `i` (from 0) of a run of available
/// observations returns.
pub open spec fn available_run_event(start: StatusView, times: Seq<Timestamp>, i: int) -> Event {
    after_available_run(start, times.take(i)).available_event(times[i])
}

/// A run of unavailable observations on an available target counts up from
/// where it began and flips the state once the count reaches the threshold.
pub proof fn lemma_unavailable_run(start: StatusView, times: Seq<Timestamp>)
    requires
        start.threshold >= 1,
        !start.is_unavailable,
        start.unavailable_counted < start.threshold,
    ensures
        ({
            let end = after_unavailable_run(start, times);
            &&& end.threshold == start.threshold
            &&& end.unavailable_counted == start.unavailable_counted + times.len()
            &&& end.is_unavailable <==> end.unavailable_counted >= start.threshold
            &&& end.unavailable_events == start.unavailable_events
        }),
    decreases times.len(),
{
    if times.len() > 0 {
        lemma_unavailable_run(start, times.drop_last());
    }
}

/// A run of available observations on an unavailable target counts up from
/// where it began, flips the state once the count reaches the threshold, and
/// leaves the start of the outage as it was.
pub proof fn lemma_available_run(start: StatusView, times: Seq<Timestamp>)
    requires
        start.threshold >= 1,
        start.is_unavailable,
        start.available_counted < start.threshold,
    ensures
        ({
            let end = after_available_run(start, times);
            &&& end.threshold == start.threshold
            &&& end.available_counted == start.available_counted + times.len()
            &&& end.is_unavailable <==> end.available_counted < start.threshold
            &&& end.unavailable_started == start.unavailable_started
            &&& end.unavailable_count == start.unavailable_count
        }),
    decreases times.len(),
{
    if times.len() > 0 {
        lemma_available_run(start, times.drop_last());
    }
}

/// On an available target, `unavailable_counted` is the number of failures
/// seen in a row. While a run of unavailable observations keeps that number
/// below `threshold` the target stays available, and the observation that
/// completes the `threshold` makes it unavailable. Of a run of any length,
/// that observation alone returns `AvailableToUnavailable`; every other one
/// returns `NoChange`.
pub proof fn law_unavailable_after_threshold(start: StatusView, times: Seq<Timestamp>)
    requires
        start.wf(),
        start.threshold > 0,
        !start.is_unavailable,
    ensures
        forall|k: int|
            0 <= k <= times.len() ==> (#[trigger] after_unavailable_run(
                start,
                times.take(k),
            ).is_unavailable <==> start.unavailable_counted + k >= start.threshold),
        forall|i: int|
            0 <= i < times.len() ==> #[trigger] unavailable_run_event(start, times, i) == (
            if start.unavailable_counted + i + 1 == start.threshold {
                Event::AvailableToUnavailable
            } else {
                Event::NoChange
            }),
{
    assert forall|k: int| 0 <= k <= times.len() implies (#[trigger] after_unavailable_run(
        start,
        times.take(k),
    ).is_unavailable <==> start.unavailable_counted + k >= start.threshold) by {
        lemma_unavailable_run(start, times.take(k));
    }
    assert forall|i: int| 0 <= i < times.len() implies #[trigger] unavailable_run_event(
        start,
        times,
        i,
    ) == (if start.unavailable_counted + i + 1 == start.threshold {
        Event::AvailableToUnavailable
    } else {
        Event::NoChange
    }) by {
        lemma_unavailable_run(start, times.take(i));
    }
}

/// On an unavailable target, `available_counted` is the number of successes
/// seen in a row. While a run of available observations keeps that number
/// below `threshold` the target stays unavailable, and the observation that
/// completes the `threshold` makes it available. Of a run of any length,
/// that observation alone returns `UnavailableToAvailable`, and the length it
/// carries is the time from the start of the outage to that observation;
/// every other one returns `NoChange`.
pub proof fn law_available_after_threshold(start: StatusView, times: Seq<Timestamp>)
    requires
        start.wf(),
        start.threshold > 0,
        start.is_unavailable,
    ensures
        forall|k: int|
            0 <= k <= times.len() ==> (#[trigger] after_available_run(
                start,
                times.take(k),
            ).is_unavailable <==> start.available_counted + k < start.threshold),
        forall|i: int|
            0 <= i < times.len() ==> #[trigger] available_run_event(start, times, i) == (
            if start.available_counted + i + 1 == start.threshold {
                Event::UnavailableToAvailable(outage(start.unavailable_started, times[i]))
            } else {
                Event::NoChange
            }),
{
    assert forall|k: int| 0 <= k <= times.len() implies (#[trigger] after_available_run(
        start,
        times.take(k),
    ).is_unavailable <==> start.available_counted + k < start.threshold) by {
        lemma_available_run(start, times.take(k));
    }
    assert forall|i: int| 0 <= i < times.len() implies #[trigger] available_run_event(
        start,
        times,
        i,
    ) == (if start.available_counted + i + 1 == start.threshold {
        Event::UnavailableToAvailable(outage(start.unavailable_started, times[i]))
    } else {
        Event::NoChange
    }) by {
        lemma_available_run(start, times.take(i));
    }
}

/// The length that a recovery carries is the time from the start of the
/// outage to the observation that ends it, and it is not negative where the
/// observation is not earlier than that start.
pub proof fn law_outage_length(status: StatusView, now: Timestamp)
    requires
        status.recovers(),
        now.nanos() >= status.unavailable_started.nanos(),
    ensures
        status.available_event(now) matches Event::UnavailableToAvailable(length)
            && length.nanos == now.nanos() - status.unavailable_started.nanos()
            && length.nanos >= 0,
{
    lemma_outage_is_difference(status.unavailable_started, now);
}

/// One success in a run of failures on an available target empties the
/// failure counter and leaves the target available; one failure in a run of
/// successes on an unavailable target empties the success counter and leaves
/// the target unavailable. Neither returns an event other than `NoChange`.
pub proof fn law_opposite_observation_resets(status: StatusView, now: Timestamp)
    ensures
        status.observe_available(now).unavailable_counted == 0,
        status.observe_unavailable(now).available_counted == 0,
        !status.is_unavailable ==> !status.observe_available(now).is_unavailable
            && status.available_event(now) == Event::NoChange,
        status.is_unavailable ==> status.observe_unavailable(now).is_unavailable
            && status.unavailable_event() == Event::NoChange,
{
}

/// The threshold never changes, the history only grows, and it grows by one
/// entry exactly when a recovery is returned.
pub proof fn law_history_is_append_only(status: StatusView, now: Timestamp)
    ensures
        status.observe_available(now).threshold == status.threshold,
        status.observe_unavailable(now).threshold == status.threshold,
        status.observe_unavailable(now).unavailable_events == status.unavailable_events,
        status.available_event(now) == Event::NoChange ==> status.observe_available(
            now,
        ).unavailable_events == status.unavailable_events,
        status.available_event(now) != Event::NoChange ==> status.observe_available(
            now,
        ).unavailable_events == status.unavailable_events.push(status.available_event(now)),
{
}

/// The start of an outage is the time of the observation that began it: it
/// is set when `AvailableToUnavailable` is returned, and no other
/// observation touches it.
pub proof fn law_outage_start_is_time_of_transition(status: StatusView, now: Timestamp)
    ensures
        status.unavailable_event() == Event::AvailableToUnavailable ==> status.observe_unavailable(
            now,
        ).unavailable_started == now,
        status.unavailable_event() == Event::NoChange ==> status.observe_unavailable(
            now,
        ).unavailable_started == status.unavailable_started,
        status.observe_available(now).unavailable_started == status.unavailable_started,
{
}

/// One observation of a target: what was seen, and when.
pub ghost enum Observation {
    Available(Timestamp),
    Unavailable(Timestamp),
}

impl StatusView {
    /// The state after `seen`.
    pub open spec fn observe(self, seen: Observation) -> StatusView {
        match seen {
            Observation::Available(now) => self.observe_available(now),
            Observation::Unavailable(now) => self.observe_unavailable(now),
        }
    }

    /// The event that `seen` returns.
    pub open spec fn event(self, seen: Observation) -> Event {
        match seen {
            Observation::Available(now) => self.available_event(now),
            Observation::Unavailable(_) => self.unavailable_event(),
        }
    }
}

/// The state after the observations `seen`, taken in order.
pub open spec fn after_observations(start: StatusView, seen: Seq<Observation>) -> StatusView
    decreases seen.len(),
{
    if seen.len() == 0 {
        start
    } else {
        after_observations(start, seen.drop_last()).observe(seen.last())
    }
}

/// Whatever is observed of a target from its first observation on, in
/// whatever order, its status is well formed, has the threshold it began
/// with, and has counted one outage for each recovery in its history and
/// one more while the target is unavailable.
pub proof fn law_reachable_states(threshold: nat, seen: Seq<Observation>)
    ensures
        ({
            let end = after_observations(StatusView::initial(threshold), seen);
            &&& end.wf()
            &&& end.threshold == StatusView::initial(threshold).threshold
            &&& end.unavailable_count == end.unavailable_events.len() + (if end.is_unavailable {
                1nat
            } else {
                0nat
            })
        }),
    decreases seen.len(),
{
    if seen.len() > 0 {
        law_reachable_states(threshold, seen.drop_last());
    }
}

} // verus!
