//! The monitor loop as a whole: what a run reports, iteration by iteration,
//! given what the world hands it.
//!
//! The loop itself waits and makes requests, so it is run outside this
//! library, by calling [`Runner::next_step`], [`Runner::check_url_at`] (or
//! [`Runner::check_url`]) and [`Runner::advance`] in that order, from the
//! state that [`TickState::new`] and [`Runner::initial_status`] give. The
//! functions here say what those calls come to when they are made in that
//! order, and the laws below them say what holds of every such run.
//!
//! [`Runner::next_step`]: crate::runner::Runner::next_step
//! [`Runner::check_url_at`]: crate::runner::Runner::check_url_at
//! [`Runner::check_url`]: crate::runner::Runner::check_url
//! [`Runner::advance`]: crate::runner::Runner::advance
//! [`Runner::initial_status`]: crate::runner::Runner::initial_status
//! [`TickState::new`]: crate::runner::TickState::new

use vstd::prelude::*;

use crate::metric::VALUE_EVENT_STATUS_AVAILABLE_TO_UNAVAILABLE;
use crate::metric::VALUE_EVENT_STATUS_FAILURE;
use crate::metric::VALUE_EVENT_STATUS_SUCCESS;
use crate::metric::VALUE_EVENT_STATUS_UNAVAILABLE_TO_AVAILABLE;
use crate::runner::runner::ProbeOutcome;
use crate::runner::runner::ProbeReport;
use crate::runner::runner::RunnerView;
use crate::runner::runner::Step;
use crate::runner::runner::TickState;
use crate::runner::status::outage;
use crate::runner::status::Event;
use crate::runner::status::StatusView;
use crate::runner::time::Timestamp;

verus! {

/// What the world hands the loop in one iteration: the seconds since the
/// loop began when it asks whether to stop, what became of the request, how
/// long the request took, and the time at which its outcome is taken in.
pub ghost struct Iteration {
    pub elapsed_seconds: u64,
    pub outcome: ProbeOutcome,
    pub elapsed_ns: u128,
    pub now: Timestamp,
}

/// Where a run stands between two iterations.
pub ghost struct LoopState {
    pub tick: TickState,
    pub status: StatusView,
}

impl RunnerView {
    /// The threshold of the status that monitors the target: the runner's,
    /// with 0 taken as 1.
    pub open spec fn threshold(self) -> nat {
        StatusView::initial(self.failure_threshold as nat).threshold
    }

    /// The state in which a run begins.
    pub open spec fn start(self) -> LoopState {
        LoopState {
            tick: TickState { idx: 0, iterations: 0, available_count: 0 },
            status: StatusView::initial(self.failure_threshold as nat),
        }
    }

    /// The state after an iteration that began in `state`.
    pub open spec fn after_iteration(self, state: LoopState, iteration: Iteration) -> LoopState {
        LoopState {
            tick: self.after_step(state.tick, iteration.elapsed_seconds).advanced(
                iteration.outcome.is_available(),
            ),
            status: if iteration.outcome.is_available() {
                state.status.observe_available(iteration.now)
            } else {
                state.status.observe_unavailable(iteration.now)
            },
        }
    }

    /// The state in which iteration number `k` (from 0) of a run begins.
    pub open spec fn state_before(self, iterations: Seq<Iteration>, k: int) -> LoopState
        decreases k,
    {
        if k <= 0 {
            self.start()
        } else {
            self.after_iteration(self.state_before(iterations, k - 1), iterations[k - 1])
        }
    }

    /// Whether the loop, having come to iteration number `k`, makes it: it
    /// does not stop there.
    pub open spec fn probes(self, iterations: Seq<Iteration>, k: int) -> bool {
        self.step(self.state_before(iterations, k).tick, iterations[k].elapsed_seconds) is Probe
    }

    /// Whether the run makes the first `count` iterations: it stops at none
    /// of them.
    pub open spec fn makes(self, iterations: Seq<Iteration>, count: int) -> bool {
        forall|j: int| 0 <= j < count ==> #[trigger] self.probes(iterations, j)
    }

    /// The place among the target's URLs of the one that iteration number
    /// `k` probes.
    pub open spec fn probe_index(self, iterations: Seq<Iteration>, k: int) -> int {
        self.step(
            self.state_before(iterations, k).tick,
            iterations[k].elapsed_seconds,
        )->index as int
    }

    /// Whether `report` is what iteration number `k` of the run reports.
    pub open spec fn is_report(
        self,
        iterations: Seq<Iteration>,
        k: int,
        report: ProbeReport,
    ) -> bool {
        report.of_probe(
            self,
            self.target.urls[self.probe_index(iterations, k)],
            iterations[k].outcome,
            iterations[k].elapsed_ns,
            self.state_before(iterations, k).status,
            self.state_before(iterations, k + 1).status,
            self.target.name,
            iterations[k].now,
        )
    }
}

/// Whether the seconds that have passed at each of the first `count`
/// iterations are short of the runner's limit of seconds, if it has one.
pub open spec fn within_seconds(
    runner: RunnerView,
    iterations: Seq<Iteration>,
    count: int,
) -> bool {
    forall|j: int|
        0 <= j < count ==> (runner.run_for_seconds matches Some(limit) ==> (
        #[trigger] iterations[j]).elapsed_seconds < limit)
}

/// Whether none of the iterations from `from` up to `to` finds the target
/// available.
pub open spec fn all_fail(iterations: Seq<Iteration>, from: int, to: int) -> bool {
    forall|j: int| from <= j < to ==> !(#[trigger] iterations[j]).outcome.is_available()
}

/// Whether each of the iterations from `from` up to `to` finds the target
/// available.
pub open spec fn all_succeed(iterations: Seq<Iteration>, from: int, to: int) -> bool {
    forall|j: int| from <= j < to ==> (#[trigger] iterations[j]).outcome.is_available()
}

/// The cursor of a run that has made `k` iterations stands behind the URL
/// that the last of them probed, and `k` probes are counted.
pub proof fn lemma_tick_after(runner: RunnerView, iterations: Seq<Iteration>, k: int)
    requires
        0 < runner.target.urls.len() <= usize::MAX,
        0 <= k <= u64::MAX,
        runner.makes(iterations, k),
    ensures
        ({
            let tick = runner.state_before(iterations, k).tick;
            let total = runner.target.urls.len() as int;
            &&& tick.iterations == k
            &&& tick.wf(runner.target.urls.len())
            &&& k == 0 ==> tick.idx == 0
            &&& k > 0 ==> tick.idx == (k - 1) % total + 1
        }),
    decreases k,
{
    if k > 0 {
        let total = runner.target.urls.len() as int;
        lemma_tick_after(runner, iterations, k - 1);
        assert(runner.probes(iterations, k - 1));
        if k > 1 {
            lemma_next_place(k - 1, total);
        } else {
            lemma_first_place(total);
        }
    }
}

/// The first place is place 0.
proof fn lemma_first_place(total: int)
    requires
        total > 0,
    ensures
        0int % total == 0,
{
    assert(0int % total == 0) by (nonlinear_arith)
        requires
            total > 0,
    ;
}

/// Counting round a ring of `total` places: the place after that of `k - 1`
/// is the place of `k`, and it is the first place where that of `k - 1` was
/// the last.
proof fn lemma_next_place(k: int, total: int)
    requires
        k > 0,
        total > 0,
    ensures
        0 <= (k - 1) % total < total,
        (k - 1) % total + 1 == total ==> k % total == 0,
        (k - 1) % total + 1 < total ==> k % total == (k - 1) % total + 1,
{
    vstd::arithmetic::div_mod::lemma_fundamental_div_mod(k - 1, total);
    vstd::arithmetic::div_mod::lemma_mod_bound(k - 1, total);
    let q = (k - 1) / total;
    let r = (k - 1) % total;
    if r + 1 == total {
        assert(k == (q + 1) * total + 0) by (nonlinear_arith)
            requires
                k - 1 == total * q + r,
                r + 1 == total,
        ;
        vstd::arithmetic::div_mod::lemma_fundamental_div_mod_converse(k, total, q + 1, 0);
    } else {
        assert(k == q * total + (r + 1)) by (nonlinear_arith)
            requires
                k - 1 == total * q + r,
        ;
        vstd::arithmetic::div_mod::lemma_fundamental_div_mod_converse(k, total, q, r + 1);
    }
}

/// The threshold of a run's status never changes, and its status is well
/// formed before every iteration.
pub proof fn lemma_status_before(runner: RunnerView, iterations: Seq<Iteration>, k: int)
    ensures
        runner.state_before(iterations, k).status.wf(),
        runner.state_before(iterations, k).status.threshold == runner.threshold(),
        runner.threshold() >= 1,
    decreases k,
{
    if k > 0 {
        lemma_status_before(runner, iterations, k - 1);
    }
}

/// A run that begins with failures only: after `count` of them, that many
/// are counted, the target is unavailable once they reach the threshold, and
/// its outage began with the failure that completed the threshold.
pub proof fn lemma_failures_from_start(
    runner: RunnerView,
    iterations: Seq<Iteration>,
    count: int,
)
    requires
        0 <= count <= iterations.len(),
        all_fail(iterations, 0, count),
    ensures
        ({
            let status = runner.state_before(iterations, count).status;
            &&& status.unavailable_counted == count
            &&& status.is_unavailable <==> count >= runner.threshold()
            &&& status.is_unavailable ==> status.unavailable_started == iterations[
                runner.threshold() - 1
            ].now
            &&& status.available_counted == 0
            &&& status.unavailable_events.len() == 0
        }),
    decreases count,
{
    lemma_status_before(runner, iterations, count);
    if count > 0 {
        lemma_failures_from_start(runner, iterations, count - 1);
        lemma_status_before(runner, iterations, count - 1);
        assert(!iterations[count - 1].outcome.is_available());
    }
}

/// Successes that follow an outage: after `count` of them behind `from`
/// iterations that left the target unavailable with no success counted, that
/// many are counted, the target is available once they reach the threshold,
/// and the start of the outage is as it was.
pub proof fn lemma_successes_after(
    runner: RunnerView,
    iterations: Seq<Iteration>,
    from: int,
    count: int,
)
    requires
        0 <= from,
        0 <= count,
        from + count <= iterations.len(),
        runner.state_before(iterations, from).status.is_unavailable,
        runner.state_before(iterations, from).status.available_counted == 0,
        all_succeed(iterations, from, from + count),
    ensures
        ({
            let began = runner.state_before(iterations, from).status;
            let status = runner.state_before(iterations, from + count).status;
            &&& status.available_counted == count
            &&& status.is_unavailable <==> count < runner.threshold()
            &&& status.unavailable_started == began.unavailable_started
        }),
    decreases count,
{
    lemma_status_before(runner, iterations, from + count);
    if count > 0 {
        lemma_successes_after(runner, iterations, from, count - 1);
        lemma_status_before(runner, iterations, from + count - 1);
        assert(iterations[from + count - 1].outcome.is_available());
    }
}

/// A runner with a limit of `count` iterations makes exactly that many:
/// while the seconds that pass stay short of its limit of seconds, if it has
/// one, it stops at none of the first `count` iterations, and it stops
/// before the next one whatever time has passed by then. In iteration `k`
/// it probes the URL at place `k` modulo the number of URLs.
pub proof fn law_iteration_limit_ends_the_run(
    runner: RunnerView,
    iterations: Seq<Iteration>,
    count: int,
    later_seconds: u64,
)
    requires
        0 < runner.target.urls.len() <= usize::MAX,
        0 <= count <= iterations.len(),
        runner.run_for_iterations == Some(count as u64),
        count <= u64::MAX,
        within_seconds(runner, iterations, count),
    ensures
        runner.makes(iterations, count),
        forall|k: int|
            0 <= k < count ==> #[trigger] runner.probe_index(iterations, k) == k % (
            runner.target.urls.len() as int),
        runner.step(runner.state_before(iterations, count).tick, later_seconds) == Step::Stop,
{
    law_run_goes_on_within_limits(runner, iterations, count);
    lemma_tick_after(runner, iterations, count);
    assert forall|k: int| 0 <= k < count implies #[trigger] runner.probe_index(iterations, k)
        == k % (runner.target.urls.len() as int) by {
        lemma_probe_index(runner, iterations, k);
    }
}

/// A run goes on while its limits are not reached: it stops at none of its
/// first `count` iterations where its limit of iterations, if it has one, is
/// not below `count`, and the seconds that pass at each of them are short of
/// its limit of seconds, if it has one.
pub proof fn law_run_goes_on_within_limits(
    runner: RunnerView,
    iterations: Seq<Iteration>,
    count: int,
)
    requires
        0 < runner.target.urls.len() <= usize::MAX,
        0 <= count <= iterations.len(),
        count <= u64::MAX,
        runner.run_for_iterations matches Some(most) ==> count <= most,
        within_seconds(runner, iterations, count),
    ensures
        runner.makes(iterations, count),
    decreases count,
{
    if count > 0 {
        law_run_goes_on_within_limits(runner, iterations, count - 1);
        lemma_tick_after(runner, iterations, count - 1);
        let last = iterations[count - 1];
        assert(runner.run_for_seconds matches Some(most) ==> last.elapsed_seconds < most);
        assert(runner.probes(iterations, count - 1));
    }
}

/// An iteration that is made probes the URL at the place of its number
/// modulo the number of URLs.
pub proof fn lemma_probe_index(runner: RunnerView, iterations: Seq<Iteration>, k: int)
    requires
        0 < runner.target.urls.len() <= usize::MAX,
        0 <= k <= u64::MAX,
        runner.makes(iterations, k + 1),
    ensures
        runner.probe_index(iterations, k) == k % (runner.target.urls.len() as int),
        0 <= runner.probe_index(iterations, k) < runner.target.urls.len(),
{
    let total = runner.target.urls.len() as int;
    assert(runner.makes(iterations, k));
    lemma_tick_after(runner, iterations, k);
    assert(runner.probes(iterations, k));
    if k > 0 {
        lemma_next_place(k, total);
    } else {
        lemma_first_place(total);
    }
}

/// One iteration that finds the target available: a runner with a limit of
/// one iteration, whose limit of seconds is not reached when it begins,
/// reports one request, a success to the target's first URL under the
/// target's name, with no transition and the target still available, and
/// stops before a second probe.
pub proof fn law_one_successful_iteration(
    runner: RunnerView,
    iterations: Seq<Iteration>,
    report: ProbeReport,
    later_seconds: u64,
)
    requires
        0 < runner.target.urls.len() <= usize::MAX,
        iterations.len() >= 1,
        runner.run_for_iterations == Some(1u64),
        within_seconds(runner, iterations, 1),
        iterations[0].outcome.is_available(),
        runner.is_report(iterations, 0, report),
    ensures
        runner.makes(iterations, 1),
        runner.probe_index(iterations, 0) == 0,
        report.is_available,
        report.cause is None,
        report.request.status@ == VALUE_EVENT_STATUS_SUCCESS@,
        report.request.target_name@ == runner.target.name,
        report.request.url@ == runner.target.urls[0],
        report.request.response_time_ns == iterations[0].elapsed_ns,
        report.event == Event::NoChange,
        report.transition is None,
        !runner.state_before(iterations, 1).status.is_unavailable,
        runner.step(runner.state_before(iterations, 1).tick, later_seconds) == Step::Stop,
{
    law_iteration_limit_ends_the_run(runner, iterations, 1, later_seconds);
    lemma_probe_index(runner, iterations, 0);
}

/// A run that begins with failures only reports each of them as a failed
/// request with its cause, and reports one transition: the failure that
/// completes the threshold returns `AvailableToUnavailable` and is counted
/// under that label, and every other one returns `NoChange` and is counted
/// under none. After them the target is unavailable if and only if they
/// reached the threshold.
pub proof fn law_failures_give_one_outage(
    runner: RunnerView,
    iterations: Seq<Iteration>,
    count: int,
    k: int,
    report: ProbeReport,
)
    requires
        0 <= k < count <= iterations.len(),
        all_fail(iterations, 0, count),
        runner.makes(iterations, count),
        runner.is_report(iterations, k, report),
    ensures
        !report.is_available,
        report.cause == Some(iterations[k].outcome.cause()),
        report.request.status@ == VALUE_EVENT_STATUS_FAILURE@,
        report.request.target_name@ == runner.target.name,
        k + 1 == runner.threshold() ==> report.event == Event::AvailableToUnavailable
            && report.transition is Some && report.transition->0@
            == VALUE_EVENT_STATUS_AVAILABLE_TO_UNAVAILABLE@,
        k + 1 != runner.threshold() ==> report.event == Event::NoChange
            && report.transition is None,
        runner.state_before(iterations, count).status.is_unavailable <==> count
            >= runner.threshold(),
{
    assert(all_fail(iterations, 0, k));
    lemma_failures_from_start(runner, iterations, k);
    lemma_failures_from_start(runner, iterations, count);
    lemma_status_before(runner, iterations, k);
    assert(!iterations[k].outcome.is_available());
}

/// Recovery: in a run that begins with `failures` failures, enough to make
/// the target unavailable, and goes on with successes, the success that
/// completes the threshold returns `UnavailableToAvailable` and is counted
/// under that label, and every other success returns `NoChange` and is
/// counted under none. The length that the recovery carries is the time from
/// the failure that began the outage to that success, and it is positive
/// where the clock moved forward between the two.
pub proof fn law_successes_give_one_recovery(
    runner: RunnerView,
    iterations: Seq<Iteration>,
    failures: int,
    count: int,
    k: int,
    report: ProbeReport,
)
    requires
        runner.threshold() <= failures <= k < count <= iterations.len(),
        all_fail(iterations, 0, failures),
        all_succeed(iterations, failures, count),
        runner.makes(iterations, count),
        runner.is_report(iterations, k, report),
    ensures
        report.is_available,
        report.cause is None,
        report.request.status@ == VALUE_EVENT_STATUS_SUCCESS@,
        k - failures + 1 == runner.threshold() ==> report.event
            == Event::UnavailableToAvailable(
            outage(iterations[runner.threshold() - 1].now, iterations[k].now),
        ) && report.transition is Some && report.transition->0@
            == VALUE_EVENT_STATUS_UNAVAILABLE_TO_AVAILABLE@,
        k - failures + 1 != runner.threshold() ==> report.event == Event::NoChange
            && report.transition is None,
        outage(iterations[runner.threshold() - 1].now, iterations[k].now).nanos
            == iterations[k].now.nanos() - iterations[runner.threshold() - 1].now.nanos(),
        iterations[k].now.nanos() > iterations[runner.threshold() - 1].now.nanos() ==> outage(
            iterations[runner.threshold() - 1].now,
            iterations[k].now,
        ).nanos > 0,
        runner.state_before(iterations, count).status.is_unavailable <==> count - failures
            < runner.threshold(),
{
    lemma_status_before(runner, iterations, failures);
    lemma_failures_from_start(runner, iterations, failures);
    assert(all_succeed(iterations, failures, k));
    lemma_successes_after(runner, iterations, failures, k - failures);
    lemma_successes_after(runner, iterations, failures, count - failures);
    lemma_status_before(runner, iterations, k);
    assert(iterations[k].outcome.is_available());
}

} // verus!
