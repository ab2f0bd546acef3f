use vstd::prelude::*;
use vstd::string::StringExecFns;

use crate::built_info::PKG_NAME;
use crate::built_info::PKG_VERSION;
use crate::metric::VALUE_EVENT_STATUS_AVAILABLE_TO_UNAVAILABLE;
use crate::metric::VALUE_EVENT_STATUS_FAILURE;
use crate::metric::VALUE_EVENT_STATUS_SUCCESS;
use crate::metric::VALUE_EVENT_STATUS_UNAVAILABLE_TO_AVAILABLE;
use crate::runner::status::outage;
use crate::runner::status::Event;
use crate::runner::status::Status;
use crate::runner::status::StatusView;
use crate::runner::target::Target;
use crate::runner::target::TargetView;
use crate::runner::text::joined;
use crate::runner::time::TimeDelta;
use crate::runner::time::Timestamp;
use crate::runner::url::parsed_url;
use crate::runner::url::url_texts;
use crate::runner::url::urls_to_string;
use crate::runner::url::Url;

verus! {

/// Why a probe, or a whole run, failed.
#[derive(Debug)]
pub enum Error {
    /// The request did not bring a response: the message of the HTTP
    /// client's error.
    ReqwestError { message: String },
    /// The task that ran the monitor loop did not end in order: the message
    /// of the join error.
    TokioError { message: String },
    /// The response came with a client or server error status.
    StatusError { status: u16 },
}

/// What became of one HTTP request.
#[derive(Debug)]
pub enum ProbeOutcome {
    /// A response came back with this status code.
    Response { status: u16 },
    /// No response came back: a timeout, a refused connection, a name that
    /// does not resolve. `message` is the transport's account of it.
    Failed { message: String },
}

/// Whether `status` is a client error: 400 to 499.
pub open spec fn is_client_error(status: u16) -> bool {
    400 <= status < 500
}

/// Whether `status` is a server error: 500 to 599.
pub open spec fn is_server_error(status: u16) -> bool {
    500 <= status < 600
}

impl ProbeOutcome {
    /// Whether the outcome shows the target to be available: a response came
    /// back, and its status is neither a client nor a server error.
    pub open spec fn is_available(self) -> bool {
        match self {
            ProbeOutcome::Response { status } => !is_client_error(status) && !is_server_error(
                status,
            ),
            ProbeOutcome::Failed { .. } => false,
        }
    }

    /// The cause that an outcome which is not available is reported with.
    pub open spec fn cause(self) -> Error {
        match self {
            ProbeOutcome::Response { status } => Error::StatusError { status },
            ProbeOutcome::Failed { message } => Error::ReqwestError { message },
        }
    }

    /// Tells an available outcome from one that is not, and gives the cause
    /// of the latter.
    pub fn classify(self) -> (verdict: Result<(), Error>)
        ensures
            verdict is Ok <==> self.is_available(),
            verdict is Err ==> verdict->Err_0 == self.cause(),
    {
        match self {
            ProbeOutcome::Response { status } => {
                if (400 <= status && status < 500) || (500 <= status && status < 600) {
                    Err(Error::StatusError { status })
                } else {
                    Ok(())
                }
            },
            ProbeOutcome::Failed { message } => Err(Error::ReqwestError { message }),
        }
    }
}

/// What the text of an error says.
pub open spec fn error_text(error: Error, text: Seq<char>) -> bool {
    match error {
        Error::ReqwestError { message } => text == message@,
        Error::TokioError { message } => text == message@,
        Error::StatusError { status } => exists|written: String|
            text == written@ && #[trigger] vstd::string::to_string_from_display_ensures::<u16>(
                &status,
                written,
            ),
    }
}

impl Error {
    /// The error as text: the message it holds, or the status code in
    /// digits.
    pub fn to_text(&self) -> (text: String)
        ensures
            error_text(*self, text@),
    {
        match self {
            Error::ReqwestError { message } => message.clone(),
            Error::TokioError { message } => message.clone(),
            Error::StatusError { status } => status.to_string(),
        }
    }
}

/// The user agent that a runner sends where none was set: the package's
/// name and version with a slash between them.
pub fn get_user_agent() -> (agent: String)
    ensures
        agent@ == PKG_NAME@ + "/"@ + PKG_VERSION@,
{
    let mut agent = PKG_NAME.to_owned();
    agent.append("/");
    agent.append(PKG_VERSION);
    agent
}

/// Monitors one target: probes its URLs in turn and keeps its status.
#[derive(Clone)]
pub struct Runner {
    target: Target,
    connect_timeout_ms: u64,
    timeout_ms: u64,
    wait_time_seconds: u64,
    failure_threshold: u8,
    run_for_seconds: Option<u64>,
    run_for_iterations: Option<u64>,
    user_agent: String,
}

/// The mathematical value of a [`Runner`].
pub ghost struct RunnerView {
    pub target: TargetView,
    pub connect_timeout_ms: u64,
    pub timeout_ms: u64,
    pub wait_time_seconds: u64,
    pub failure_threshold: u8,
    pub run_for_seconds: Option<u64>,
    pub run_for_iterations: Option<u64>,
    pub user_agent: Seq<char>,
}

impl View for Runner {
    type V = RunnerView;

    closed spec fn view(&self) -> RunnerView {
        RunnerView {
            target: self.target@,
            connect_timeout_ms: self.connect_timeout_ms,
            timeout_ms: self.timeout_ms,
            wait_time_seconds: self.wait_time_seconds,
            failure_threshold: self.failure_threshold,
            run_for_seconds: self.run_for_seconds,
            run_for_iterations: self.run_for_iterations,
            user_agent: self.user_agent@,
        }
    }
}

impl RunnerView {
    /// Whether the monitor loop ends before its next probe: the iterations
    /// asked for are done, or the seconds asked for have passed. With
    /// neither limit set the loop never ends.
    pub open spec fn stops(self, elapsed_seconds: u64, iterations: u64) -> bool {
        ||| self.run_for_iterations matches Some(limit) && iterations >= limit
        ||| self.run_for_seconds matches Some(limit) && elapsed_seconds >= limit
    }
}

impl Runner {
    /// The target that is monitored.
    pub fn target(&self) -> (target: &Target)
        ensures
            target@ == self@.target,
    {
        &self.target
    }

    /// The time allowed for connecting, in milliseconds.
    pub fn connect_timeout_ms(&self) -> (ms: u64)
        ensures
            ms == self@.connect_timeout_ms,
    {
        self.connect_timeout_ms
    }

    /// The time allowed for a whole request, in milliseconds.
    pub fn timeout_ms(&self) -> (ms: u64)
        ensures
            ms == self@.timeout_ms,
    {
        self.timeout_ms
    }

    /// The time between two probes, in seconds.
    pub fn wait_time_seconds(&self) -> (seconds: u64)
        ensures
            seconds == self@.wait_time_seconds,
    {
        self.wait_time_seconds
    }

    /// The number of contradicting observations in a row that flips the
    /// target's state.
    pub fn failure_threshold(&self) -> (threshold: u8)
        ensures
            threshold == self@.failure_threshold,
    {
        self.failure_threshold
    }

    /// The seconds after which the loop ends, if it is to end.
    pub fn run_for_seconds(&self) -> (seconds: Option<u64>)
        ensures
            seconds == self@.run_for_seconds,
    {
        self.run_for_seconds
    }

    /// The iterations after which the loop ends, if it is to end.
    pub fn run_for_iterations(&self) -> (iterations: Option<u64>)
        ensures
            iterations == self@.run_for_iterations,
    {
        self.run_for_iterations
    }

    /// The user agent that requests are sent with.
    pub fn user_agent(&self) -> (agent: &str)
        ensures
            agent@ == self@.user_agent,
    {
        self.user_agent.as_str()
    }

    /// Whether the monitor loop ends before its next probe, `iterations`
    /// probes and `elapsed_seconds` seconds after it began.
    pub fn should_stop(&self, elapsed_seconds: u64, iterations: u64) -> (stop: bool)
        ensures
            stop == self@.stops(elapsed_seconds, iterations),
    {
        if let Some(run_for_iterations) = self.run_for_iterations {
            if iterations >= run_for_iterations {
                return true;
            }
        }
        if let Some(run_for_seconds) = self.run_for_seconds {
            if elapsed_seconds >= run_for_seconds {
                return true;
            }
        }
        false
    }
}

/// Where the monitor loop stands: the URL to probe next, the probes made so
/// far, and how many of the probes of the cycle under way found the target
/// available.
#[derive(Clone, Copy, Debug, PartialEq, Eq)]
pub struct TickState {
    pub idx: usize,
    pub iterations: u64,
    pub available_count: usize,
}

/// How one full pass over a target's URLs went.
#[derive(Clone, Copy, Debug, PartialEq, Eq)]
pub struct CycleSummary {
    pub available: usize,
    pub total: usize,
}

/// What the monitor loop does next.
#[derive(Clone, Copy, Debug, PartialEq, Eq)]
pub enum Step {
    /// The loop ends.
    Stop,
    /// The URL at `index` is probed. Where the probe before it was the last
    /// of a cycle, `completed` sums that cycle up.
    Probe { index: usize, completed: Option<CycleSummary> },
}

impl TickState {
    /// The state in which the loop begins: at the first URL, with nothing
    /// counted.
    pub fn new() -> (state: TickState)
        ensures
            state == (TickState { idx: 0, iterations: 0, available_count: 0 }),
    {
        TickState { idx: 0, iterations: 0, available_count: 0 }
    }

    /// Whether the state fits a target of `url_count` URLs: the cursor is at
    /// one of them or just behind the last, and no more probes of the cycle
    /// are counted as available than were made.
    pub open spec fn wf(self, url_count: nat) -> bool {
        self.idx <= url_count && self.available_count <= self.idx
    }

    /// The state after the probe at the cursor: the probe is counted, as
    /// available where it was, and the cursor moves on.
    pub open spec fn advanced(self, is_available: bool) -> TickState {
        TickState {
            idx: (self.idx + 1) as usize,
            iterations: (self.iterations + 1) as u64,
            available_count: if is_available {
                (self.available_count + 1) as usize
            } else {
                self.available_count
            },
        }
    }
}

impl RunnerView {
    /// What the loop does next in `state`, `elapsed_seconds` after it began.
    /// Whether to stop is asked first; a cursor behind the last URL goes back
    /// to the first one, and the cycle that ended is summed up.
    pub open spec fn step(self, state: TickState, elapsed_seconds: u64) -> Step {
        if self.stops(elapsed_seconds, state.iterations) {
            Step::Stop
        } else if state.idx >= self.target.urls.len() {
            Step::Probe {
                index: 0,
                completed: Some(
                    CycleSummary {
                        available: state.available_count,
                        total: self.target.urls.len() as usize,
                    },
                ),
            }
        } else {
            Step::Probe { index: state.idx, completed: None }
        }
    }

    /// The state in which the probe that [`RunnerView::step`] asks for is
    /// made: as before, but for a cursor that went back to the first URL and
    /// a count that began anew with it.
    pub open spec fn after_step(self, state: TickState, elapsed_seconds: u64) -> TickState {
        if !self.stops(elapsed_seconds, state.iterations) && state.idx >= self.target.urls.len() {
            TickState { idx: 0, iterations: state.iterations, available_count: 0 }
        } else {
            state
        }
    }
}

impl Runner {
    /// Decides what the monitor loop does next, `elapsed_seconds` after it
    /// began, and moves the cursor to the URL to probe.
    pub fn next_step(&self, state: &mut TickState, elapsed_seconds: u64) -> (step: Step)
        requires
            self@.target.urls.len() > 0,
            old(state).wf(self@.target.urls.len()),
        ensures
            step == self@.step(*old(state), elapsed_seconds),
            *final(state) == self@.after_step(*old(state), elapsed_seconds),
            final(state).wf(self@.target.urls.len()),
            step matches Step::Probe { index, .. } ==> index == final(state).idx && index
                < self@.target.urls.len(),
    {
        if self.should_stop(elapsed_seconds, state.iterations) {
            return Step::Stop;
        }
        let total = self.target.urls.len();
        if state.idx >= total {
            let completed = CycleSummary { available: state.available_count, total };
            state.idx = 0;
            state.available_count = 0;
            return Step::Probe { index: 0, completed: Some(completed) };
        }
        Step::Probe { index: state.idx, completed: None }
    }

    /// Counts the probe that was made at the cursor and moves the cursor on.
    pub fn advance(&self, state: &mut TickState, is_available: bool)
        requires
            old(state).wf(self@.target.urls.len()),
            old(state).idx < self@.target.urls.len(),
            old(state).iterations < u64::MAX,
        ensures
            *final(state) == old(state).advanced(is_available),
            final(state).iterations == old(state).iterations + 1,
            final(state).idx == old(state).idx + 1,
            final(state).available_count == old(state).available_count + (if is_available {
                1int
            } else {
                0int
            }),
            final(state).wf(self@.target.urls.len()),
    {
        assert(self@.target.urls.len() == self.target.urls.len());
        if is_available {
            state.available_count = state.available_count + 1;
        }
        state.iterations = state.iterations + 1;
        state.idx = state.idx + 1;
    }
}

/// What is recorded of one request: the labels and values of its counter,
/// its histogram and the two gauges of its target.
#[derive(Debug)]
pub struct RequestMetrics {
    /// `success` or `failure`.
    pub status: &'static str,
    pub target_name: String,
    pub url: String,
    /// The time the request took, in nanoseconds.
    pub response_time_ns: u128,
    /// The target's URLs, with commas between them.
    pub target_urls: String,
    /// The gauge of the state `available`: 1 after a success, else 0.
    pub available: u64,
    /// The gauge of the state `unavailable`: 1 after a failure, else 0.
    pub unavailable: u64,
}

/// The status label of a request.
pub open spec fn request_status(success: bool) -> Seq<char> {
    if success {
        VALUE_EVENT_STATUS_SUCCESS@
    } else {
        VALUE_EVENT_STATUS_FAILURE@
    }
}

/// The status label under which an event is counted; `NoChange` is not
/// counted.
pub open spec fn transition_status(event: Event) -> Option<Seq<char>> {
    match event {
        Event::AvailableToUnavailable => Some(VALUE_EVENT_STATUS_AVAILABLE_TO_UNAVAILABLE@),
        Event::UnavailableToAvailable(_) => Some(VALUE_EVENT_STATUS_UNAVAILABLE_TO_AVAILABLE@),
        Event::NoChange => None,
    }
}

/// Whether `metrics` is what is recorded of a request to `url` of the target
/// `target`, with the given result and duration.
pub open spec fn request_recorded(
    metrics: RequestMetrics,
    runner: RunnerView,
    success: bool,
    elapsed_ns: u128,
    target: Seq<char>,
    url: Seq<char>,
) -> bool {
    &&& metrics.status@ == request_status(success)
    &&& metrics.target_name@ == target
    &&& metrics.url@ == url
    &&& metrics.response_time_ns == elapsed_ns
    &&& metrics.target_urls@ == joined(runner.target.urls, seq![','])
    &&& metrics.available == (if success { 1u64 } else { 0u64 })
    &&& metrics.unavailable == (if success { 0u64 } else { 1u64 })
}

/// The label under which `event` is counted, if it is a transition.
pub fn transition_label(event: Event) -> (label: Option<&'static str>)
    ensures
        match label {
            Some(text) => transition_status(event) == Some(text@),
            None => transition_status(event) is None,
        },
{
    match event {
        Event::AvailableToUnavailable => Some(VALUE_EVENT_STATUS_AVAILABLE_TO_UNAVAILABLE),
        Event::UnavailableToAvailable(_) => Some(VALUE_EVENT_STATUS_UNAVAILABLE_TO_AVAILABLE),
        Event::NoChange => None,
    }
}

/// What one probe came to: whether it found the target available, the cause
/// where it did not, what to record of the request, the event it led to with
/// the label to count it under, and, where the target stays unavailable,
/// for how long it has been.
#[derive(Debug)]
pub struct ProbeReport {
    pub is_available: bool,
    pub cause: Option<Error>,
    pub request: RequestMetrics,
    pub event: Event,
    pub transition: Option<&'static str>,
    pub unavailable_for: Option<TimeDelta>,
}

impl ProbeReport {
    /// Whether the report's label is the one its event is counted under.
    pub open spec fn labelled(self) -> bool {
        match self.transition {
            Some(text) => transition_status(self.event) == Some(text@),
            None => transition_status(self.event) is None,
        }
    }

    /// Whether this is the report of a successful probe of `url`, made at
    /// `now` on a target in the state `before`.
    pub open spec fn of_success(
        self,
        runner: RunnerView,
        target: Seq<char>,
        url: Seq<char>,
        elapsed_ns: u128,
        before: StatusView,
        now: Timestamp,
    ) -> bool {
        &&& self.is_available
        &&& self.cause is None
        &&& request_recorded(self.request, runner, true, elapsed_ns, target, url)
        &&& self.event == before.available_event(now)
        &&& self.labelled()
        &&& self.unavailable_for is None
    }

    /// Whether this is the report of a probe of `url` that failed with
    /// `cause`, made at `now` on a target in the state `before`. A target
    /// that was unavailable already is reported with the time since its
    /// outage began.
    pub open spec fn of_failure(
        self,
        runner: RunnerView,
        cause: Error,
        target: Seq<char>,
        url: Seq<char>,
        elapsed_ns: u128,
        before: StatusView,
        now: Timestamp,
    ) -> bool {
        &&& !self.is_available
        &&& self.cause == Some(cause)
        &&& request_recorded(self.request, runner, false, elapsed_ns, target, url)
        &&& self.event == before.unavailable_event()
        &&& self.labelled()
        &&& self.unavailable_for == (if before.is_unavailable {
            Some(outage(before.unavailable_started, now))
        } else {
            None
        })
    }

    /// Whether this is the report of a probe of `url` with the given
    /// outcome, which took the target's state from `before` to `after`.
    pub open spec fn of_probe(
        self,
        runner: RunnerView,
        url: Seq<char>,
        outcome: ProbeOutcome,
        elapsed_ns: u128,
        before: StatusView,
        after: StatusView,
        target: Seq<char>,
        now: Timestamp,
    ) -> bool {
        if outcome.is_available() {
            &&& self.of_success(runner, target, url, elapsed_ns, before, now)
            &&& after == before.observe_available(now)
        } else {
            &&& self.of_failure(runner, outcome.cause(), target, url, elapsed_ns, before, now)
            &&& after == before.observe_unavailable(now)
        }
    }
}

impl Runner {
    /// Says what to record of a request to `url` of the target `target`
    /// that took `elapsed_ns` nanoseconds.
    pub fn update_request_metrics(
        &self,
        success: bool,
        elapsed_ns: u128,
        target: String,
        url: &Url,
    ) -> (metrics: RequestMetrics)
        ensures
            request_recorded(metrics, self@, success, elapsed_ns, target@, url@),
    {
        let status = if success {
            VALUE_EVENT_STATUS_SUCCESS
        } else {
            VALUE_EVENT_STATUS_FAILURE
        };
        RequestMetrics {
            status,
            target_name: target,
            url: url.as_str().to_owned(),
            response_time_ns: elapsed_ns,
            target_urls: urls_to_string(&self.target.urls),
            available: if success { 1 } else { 0 },
            unavailable: if success { 0 } else { 1 },
        }
    }

    /// Takes in a probe of `url` that failed with `err` at `now`.
    pub fn handle_response_error(
        &self,
        err: Error,
        target: String,
        url: &Url,
        elapsed_ns: u128,
        status: &mut Status,
        now: Timestamp,
    ) -> (report: ProbeReport)
        requires
            old(status).has_room_for(false),
        ensures
            report.of_failure(self@, err, target@, url@, elapsed_ns, old(status)@, now),
            final(status)@ == old(status)@.observe_unavailable(now),
            old(status)@.wf() ==> final(status)@.wf(),
    {
        let request = self.update_request_metrics(false, elapsed_ns, target, url);
        let event = status.observe_unavailable(now);
        let unavailable_for = match event {
            Event::AvailableToUnavailable => None,
            _ => {
                if status.is_unavailable {
                    Some(now.signed_duration_since(status.unavailable_started))
                } else {
                    None
                }
            },
        };
        ProbeReport {
            is_available: false,
            cause: Some(err),
            request,
            event,
            transition: transition_label(event),
            unavailable_for,
        }
    }

    /// Takes in a successful probe of `url` made at `now`.
    pub fn handle_response_ok(
        &self,
        target: String,
        url: &Url,
        elapsed_ns: u128,
        status: &mut Status,
        now: Timestamp,
    ) -> (report: ProbeReport)
        requires
            old(status).has_room_for(true),
        ensures
            report.of_success(self@, target@, url@, elapsed_ns, old(status)@, now),
            final(status)@ == old(status)@.observe_available(now),
            old(status)@.wf() ==> final(status)@.wf(),
    {
        let request = self.update_request_metrics(true, elapsed_ns, target, url);
        let event = status.observe_available(now);
        ProbeReport {
            is_available: true,
            cause: None,
            request,
            event,
            transition: transition_label(event),
            unavailable_for: None,
        }
    }

    /// Takes in the outcome of a probe of `url` that was made at `now` and
    /// took `elapsed_ns` nanoseconds: classifies it, feeds the target's
    /// status, and reports what to record.
    pub fn check_url_at(
        &self,
        url: &Url,
        outcome: ProbeOutcome,
        elapsed_ns: u128,
        status: &mut Status,
        target: String,
        now: Timestamp,
    ) -> (report: ProbeReport)
        requires
            old(status).has_room_for(outcome.is_available()),
        ensures
            report.of_probe(
                self@,
                url@,
                outcome,
                elapsed_ns,
                old(status)@,
                final(status)@,
                target@,
                now,
            ),
            report.is_available == outcome.is_available(),
            old(status)@.wf() ==> final(status)@.wf(),
    {
        match outcome.classify() {
            Ok(_) => self.handle_response_ok(target, url, elapsed_ns, status, now),
            Err(err) => self.handle_response_error(err, target, url, elapsed_ns, status, now),
        }
    }

    /// Takes in the outcome of a probe of `url` as [`Runner::check_url_at`]
    /// does, at the time that the wall clock shows.
    pub fn check_url(
        &self,
        url: &Url,
        outcome: ProbeOutcome,
        elapsed_ns: u128,
        status: &mut Status,
        target: String,
    ) -> (report: ProbeReport)
        requires
            old(status).has_room_for(outcome.is_available()),
        ensures
            exists|now: Timestamp| #[trigger]
                report.of_probe(
                    self@,
                    url@,
                    outcome,
                    elapsed_ns,
                    old(status)@,
                    final(status)@,
                    target@,
                    now,
                ),
            report.is_available == outcome.is_available(),
            old(status)@.wf() ==> final(status)@.wf(),
    {
        let now = Timestamp::now();
        self.check_url_at(url, outcome, elapsed_ns, status, target, now)
    }
}

/// Collects the settings of a [`Runner`].
pub struct RunnerBuilder {
    target: Target,
    connect_timeout_ms: u64,
    timeout_ms: u64,
    wait_time_seconds: u64,
    failure_threshold: u8,
    run_for_seconds: Option<u64>,
    run_for_iterations: Option<u64>,
    user_agent: Option<String>,
}

/// The mathematical value of a [`RunnerBuilder`].
pub ghost struct RunnerBuilderView {
    pub target: TargetView,
    pub connect_timeout_ms: u64,
    pub timeout_ms: u64,
    pub wait_time_seconds: u64,
    pub failure_threshold: u8,
    pub run_for_seconds: Option<u64>,
    pub run_for_iterations: Option<u64>,
    pub user_agent: Option<Seq<char>>,
}

/// `urls` with `url` behind them, where `url` is one.
pub open spec fn with_url(urls: Seq<Seq<char>>, url: Option<Seq<char>>) -> Seq<Seq<char>> {
    match url {
        Some(text) => urls.push(text),
        None => urls,
    }
}

impl RunnerBuilderView {
    /// The settings that a builder begins with: the target `external` with
    /// the URLs that `https://1.1.1.1` and `https://dns.google` parse to,
    /// one second for connecting, for a request and between probes, a
    /// threshold of 5, no end to the loop, and the user agent left open.
    pub open spec fn initial() -> RunnerBuilderView {
        RunnerBuilderView {
            target: TargetView {
                name: "external"@,
                urls: with_url(
                    with_url(Seq::empty(), parsed_url("https://1.1.1.1"@)),
                    parsed_url("https://dns.google"@),
                ),
            },
            connect_timeout_ms: 1000,
            timeout_ms: 1000,
            wait_time_seconds: 1,
            failure_threshold: 5,
            run_for_seconds: None,
            run_for_iterations: None,
            user_agent: None,
        }
    }

    /// The runner that is built from these settings. A user agent that was
    /// left open is the package's name and version.
    pub open spec fn built(self) -> RunnerView {
        RunnerView {
            target: self.target,
            connect_timeout_ms: self.connect_timeout_ms,
            timeout_ms: self.timeout_ms,
            wait_time_seconds: self.wait_time_seconds,
            failure_threshold: self.failure_threshold,
            run_for_seconds: self.run_for_seconds,
            run_for_iterations: self.run_for_iterations,
            user_agent: match self.user_agent {
                Some(agent) => agent,
                None => PKG_NAME@ + "/"@ + PKG_VERSION@,
            },
        }
    }
}

impl View for RunnerBuilder {
    type V = RunnerBuilderView;

    closed spec fn view(&self) -> RunnerBuilderView {
        RunnerBuilderView {
            target: self.target@,
            connect_timeout_ms: self.connect_timeout_ms,
            timeout_ms: self.timeout_ms,
            wait_time_seconds: self.wait_time_seconds,
            failure_threshold: self.failure_threshold,
            run_for_seconds: self.run_for_seconds,
            run_for_iterations: self.run_for_iterations,
            user_agent: match self.user_agent {
                Some(agent) => Some(agent@),
                None => None,
            },
        }
    }
}

/// Puts the URL that `input` parses to behind `urls`; leaves `urls` as they
/// are where `input` is no URL.
fn push_parsed(urls: &mut Vec<Url>, input: &str)
    ensures
        url_texts(final(urls)@) == with_url(url_texts(old(urls)@), parsed_url(input@)),
{
    match Url::parse(input) {
        Ok(url) => {
            urls.push(url);
            assert(url_texts(urls@) =~= url_texts(old(urls)@).push(url@));
        },
        Err(_) => {},
    }
}

impl RunnerBuilder {
    /// A builder with the settings of [`RunnerBuilderView::initial`].
    pub fn new() -> (builder: RunnerBuilder)
        ensures
            builder@ == RunnerBuilderView::initial(),
    {
        let mut urls: Vec<Url> = Vec::new();
        assert(url_texts(urls@) =~= Seq::empty());
        push_parsed(&mut urls, "https://1.1.1.1");
        push_parsed(&mut urls, "https://dns.google");
        RunnerBuilder {
            target: Target::new("external".to_owned(), urls),
            connect_timeout_ms: 1000,
            timeout_ms: 1000,
            wait_time_seconds: 1,
            failure_threshold: 5,
            run_for_seconds: None,
            run_for_iterations: None,
            user_agent: None,
        }
    }

    /// Sets the target to monitor.
    pub fn target(self, target: Target) -> (builder: RunnerBuilder)
        ensures
            builder@ == (RunnerBuilderView { target: target@, ..self@ }),
    {
        let mut builder = self;
        builder.target = target;
        builder
    }

    /// Sets the time allowed for connecting, in milliseconds.
    pub fn connect_timeout_ms(self, connect_timeout_ms: u64) -> (builder: RunnerBuilder)
        ensures
            builder@ == (RunnerBuilderView { connect_timeout_ms, ..self@ }),
    {
        let mut builder = self;
        builder.connect_timeout_ms = connect_timeout_ms;
        builder
    }

    /// Sets the time allowed for a whole request, in milliseconds.
    pub fn timeout_ms(self, timeout_ms: u64) -> (builder: RunnerBuilder)
        ensures
            builder@ == (RunnerBuilderView { timeout_ms, ..self@ }),
    {
        let mut builder = self;
        builder.timeout_ms = timeout_ms;
        builder
    }

    /// Sets the time between two probes, in seconds.
    pub fn wait_time_seconds(self, wait_time_seconds: u64) -> (builder: RunnerBuilder)
        ensures
            builder@ == (RunnerBuilderView { wait_time_seconds, ..self@ }),
    {
        let mut builder = self;
        builder.wait_time_seconds = wait_time_seconds;
        builder
    }

    /// Sets the number of contradicting observations in a row that flips
    /// the target's state. The status that monitors the target takes 0 as 1.
    pub fn failure_threshold(self, failure_threshold: u8) -> (builder: RunnerBuilder)
        ensures
            builder@ == (RunnerBuilderView { failure_threshold, ..self@ }),
    {
        let mut builder = self;
        builder.failure_threshold = failure_threshold;
        builder
    }

    /// Lets the loop end after `run_for_seconds` seconds.
    pub fn run_for_seconds(self, run_for_seconds: u64) -> (builder: RunnerBuilder)
        ensures
            builder@ == (RunnerBuilderView { run_for_seconds: Some(run_for_seconds), ..self@ }),
    {
        let mut builder = self;
        builder.run_for_seconds = Some(run_for_seconds);
        builder
    }

    /// Lets the loop end after `run_for_iterations` probes.
    pub fn run_for_iterations(self, run_for_iterations: u64) -> (builder: RunnerBuilder)
        ensures
            builder@ == (RunnerBuilderView {
                run_for_iterations: Some(run_for_iterations),
                ..self@
            }),
    {
        let mut builder = self;
        builder.run_for_iterations = Some(run_for_iterations);
        builder
    }

    /// Sets the user agent that requests are sent with.
    pub fn user_agent(self, user_agent: String) -> (builder: RunnerBuilder)
        ensures
            builder@ == (RunnerBuilderView { user_agent: Some(user_agent@), ..self@ }),
    {
        let mut builder = self;
        builder.user_agent = Some(user_agent);
        builder
    }

    /// Builds the runner.
    pub fn build(self) -> (runner: Runner)
        ensures
            runner@ == self@.built(),
    {
        let user_agent = match self.user_agent {
            Some(agent) => agent,
            None => get_user_agent(),
        };
        Runner {
            target: self.target,
            connect_timeout_ms: self.connect_timeout_ms,
            timeout_ms: self.timeout_ms,
            wait_time_seconds: self.wait_time_seconds,
            failure_threshold: self.failure_threshold,
            run_for_seconds: self.run_for_seconds,
            run_for_iterations: self.run_for_iterations,
            user_agent,
        }
    }
}

impl Default for RunnerBuilder {
    /// The builder that [`RunnerBuilder::new`] gives.
    fn default() -> (builder: RunnerBuilder)
        ensures
            builder@ == RunnerBuilderView::initial(),
    {
        RunnerBuilder::new()
    }
}

impl Runner {
    /// The status with which the monitoring of the target begins: available,
    /// with the runner's threshold.
    pub fn initial_status(&self) -> (status: Status)
        ensures
            status@ == StatusView::initial(self@.failure_threshold as nat),
            status@.wf(),
            status.has_room(),
    {
        Status::new(self.failure_threshold)
    }
}

/// A runner without a limit of iterations or seconds never stops.
pub proof fn law_without_limits_never_stops(
    runner: RunnerView,
    state: TickState,
    elapsed_seconds: u64,
)
    requires
        runner.run_for_iterations is None,
        runner.run_for_seconds is None,
    ensures
        !runner.stops(elapsed_seconds, state.iterations),
        runner.step(state, elapsed_seconds) is Probe,
{
}

/// A runner with a limit of iterations stops once that many probes are
/// counted, however little time has passed, and one with a limit of seconds
/// stops once that many have passed, however few probes are counted.
pub proof fn law_limits_stop_the_loop(
    runner: RunnerView,
    state: TickState,
    elapsed_seconds: u64,
)
    ensures
        runner.run_for_iterations is Some && state.iterations >= runner.run_for_iterations->0
            ==> runner.step(state, elapsed_seconds) == Step::Stop,
        runner.run_for_seconds is Some && elapsed_seconds >= runner.run_for_seconds->0
            ==> runner.step(state, elapsed_seconds) == Step::Stop,
        runner.step(state, elapsed_seconds) == Step::Stop ==> runner.after_step(
            state,
            elapsed_seconds,
        ) == state,
{
}

/// The URLs are probed in turn: the probe that follows the one at `index`
/// is at the next URL, or at the first one behind the last. A cycle is
/// summed up with the first probe of the next one and at no other, and no
/// more of its probes are counted as available than it has URLs.
pub proof fn law_round_robin(
    runner: RunnerView,
    state: TickState,
    elapsed_seconds: u64,
    is_available: bool,
    later_seconds: u64,
)
    requires
        runner.target.urls.len() > 0,
        runner.target.urls.len() <= usize::MAX,
        state.wf(runner.target.urls.len()),
        state.iterations < u64::MAX,
        runner.step(state, elapsed_seconds) is Probe,
        runner.step(
            runner.after_step(state, elapsed_seconds).advanced(is_available),
            later_seconds,
        ) is Probe,
    ensures
        ({
            let index = runner.step(state, elapsed_seconds)->index;
            let next = runner.step(
                runner.after_step(state, elapsed_seconds).advanced(is_available),
                later_seconds,
            );
            &&& 0 <= index < runner.target.urls.len()
            &&& next->index == (index + 1) % (runner.target.urls.len() as int)
            &&& next->completed is Some <==> next->index == 0
            &&& next->completed matches Some(cycle) ==> cycle.total == runner.target.urls.len()
                && cycle.available <= cycle.total
        }),
{
    let total = runner.target.urls.len() as int;
    let index = runner.step(state, elapsed_seconds)->index as int;
    if index + 1 < total {
        assert((index + 1) % total == index + 1) by (nonlinear_arith)
            requires
                0 <= index + 1 < total,
        ;
    } else {
        assert((index + 1) % total == 0) by (nonlinear_arith)
            requires
                index + 1 == total,
                total > 0,
        ;
    }
}

} // verus!
