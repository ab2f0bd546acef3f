use netcheck::built_info;
use netcheck::metric;
use netcheck::runner::runner::{get_user_agent, transition_label};
use netcheck::runner::{
    CycleSummary, Error, Event, ProbeOutcome, ProbeReport, Runner, RunnerBuilder, Status, Step,
    Target, TickState, TimeDelta, Timestamp, Url,
};

fn example_target() -> Target {
    Target::new("external".to_string(), vec![Url::parse("https://example.com").unwrap()])
}

fn example_url() -> Url {
    Url::parse("https://example.com").unwrap()
}

fn ok() -> ProbeOutcome {
    ProbeOutcome::Response { status: 200 }
}

fn status_of(code: u16) -> ProbeOutcome {
    ProbeOutcome::Response { status: code }
}

/// Runs the monitor loop of `runner` on the outcomes of `script`, one second
/// of wall clock per probe, and hands back the reports in order.
fn run_script(runner: &Runner, status: &mut Status, script: &[u16]) -> Vec<ProbeReport> {
    let mut state = TickState::new();
    let mut reports = Vec::new();
    let mut elapsed = 0u64;
    loop {
        assert!(!runner.target().urls.is_empty());
        match runner.next_step(&mut state, elapsed) {
            Step::Stop => break,
            Step::Probe { index, .. } => {
                let outcome = match script.get(reports.len()) {
                    Some(code) => status_of(*code),
                    None => break,
                };
                assert!(status.can_observe());
                let url = runner.target().urls[index].duplicate();
                let now = Timestamp { secs: 1_000 + elapsed as i64, subsec_nanos: 0 };
                let report = runner.check_url_at(
                    &url,
                    outcome,
                    1_500,
                    status,
                    runner.target().name.clone(),
                    now,
                );
                runner.advance(&mut state, report.is_available);
                reports.push(report);
                elapsed += 1;
            }
        }
    }
    reports
}

#[test]
fn test_runner_builder() {
    let runner = RunnerBuilder::new()
        .target(example_target())
        .connect_timeout_ms(1000)
        .timeout_ms(1000)
        .failure_threshold(1)
        .wait_time_seconds(1)
        .run_for_seconds(1)
        .run_for_iterations(1)
        .user_agent("test".to_string())
        .build();

    assert_eq!(runner.target().name, "external");
    assert_eq!(runner.target().urls[0], Url::parse("https://example.com").unwrap());
    assert_eq!(runner.connect_timeout_ms(), 1000);
    assert_eq!(runner.timeout_ms(), 1000);
    assert_eq!(runner.failure_threshold(), 1);
    assert_eq!(runner.wait_time_seconds(), 1);
    assert_eq!(runner.run_for_seconds(), Some(1));
    assert_eq!(runner.run_for_iterations(), Some(1));
    assert_eq!(runner.user_agent(), "test");
}

#[test]
fn test_runner_builder_default() {
    let runner = RunnerBuilder::default().build();

    assert_eq!(runner.connect_timeout_ms(), 1000);
    assert_eq!(runner.timeout_ms(), 1000);
    assert_eq!(runner.wait_time_seconds(), 1);
    assert_eq!(runner.failure_threshold(), 5);
    assert_eq!(runner.run_for_seconds(), None);
    assert_eq!(runner.run_for_iterations(), None);
    assert_eq!(
        runner.user_agent(),
        format!("{}/{}", built_info::PKG_NAME, built_info::PKG_VERSION)
    );
}

#[test]
fn test_runner_builder_target() {
    let runner = RunnerBuilder::new().target(example_target()).build();

    assert_eq!(runner.target().name, "external");
    assert_eq!(runner.target().urls[0], Url::parse("https://example.com").unwrap());
}

#[test]
fn test_runner_builder_connect_timeout_ms() {
    let runner = RunnerBuilder::new().connect_timeout_ms(1000).build();

    assert_eq!(runner.connect_timeout_ms(), 1000);
}

#[test]
fn test_runner_builder_timeout_ms() {
    let runner = RunnerBuilder::new().timeout_ms(1000).build();

    assert_eq!(runner.timeout_ms(), 1000);
}

#[test]
fn test_runner_builder_wait_time_seconds() {
    let runner = RunnerBuilder::new().wait_time_seconds(1).build();

    assert_eq!(runner.wait_time_seconds(), 1);
}

#[test]
fn test_runner_builder_failure_threshold() {
    let runner = RunnerBuilder::new().failure_threshold(1).build();

    assert_eq!(runner.failure_threshold(), 1);
}

#[test]
fn test_runner_builder_run_for_seconds() {
    let runner = RunnerBuilder::new().run_for_seconds(1).build();

    assert_eq!(runner.run_for_seconds(), Some(1));
}

#[test]
fn test_runner_builder_run_for_iterations() {
    let runner = RunnerBuilder::new().run_for_iterations(1).build();

    assert_eq!(runner.run_for_iterations(), Some(1));
}

#[test]
fn test_runner_builder_user_agent() {
    let runner = RunnerBuilder::new().user_agent("test".to_string()).build();

    assert_eq!(runner.user_agent(), "test");
}

#[test]
fn test_runner_get_user_agent() {
    let user_agent = get_user_agent();
    assert_eq!(user_agent, format!("{}/{}", built_info::PKG_NAME, built_info::PKG_VERSION));
}

#[test]
fn test_runner_check_url_available() {
    let runner = RunnerBuilder::new().target(example_target()).build();

    let status = &mut Status::new(5);
    runner.check_url(&example_url(), ok(), 10, status, "test".to_string());

    assert_eq!(status.is_unavailable, false);
    assert_eq!(status.unavailable_counted, 0);
    assert_eq!(status.available_counted, 1);
}

#[test]
fn test_runner_check_url_unavailable_no_path() {
    let runner = RunnerBuilder::new().target(example_target()).build();

    let status = &mut Status::new(5);
    let outcome = ProbeOutcome::Failed { message: "connection refused".to_string() };
    runner.check_url(&example_url(), outcome, 10, status, "test".to_string());

    assert_eq!(status.is_unavailable, false);
    assert_eq!(status.unavailable_counted, 1);
    assert_eq!(status.available_counted, 0);
}

#[test]
fn test_runner_check_url_unavailable_500() {
    let runner = RunnerBuilder::new().target(example_target()).build();

    let status = &mut Status::new(5);
    runner.check_url(&example_url(), status_of(500), 10, status, "test".to_string());

    assert_eq!(status.is_unavailable, false);
    assert_eq!(status.unavailable_counted, 1);
    assert_eq!(status.available_counted, 0);
}

#[test]
fn test_runner_check_url_unavailable_400() {
    let runner = RunnerBuilder::new().target(example_target()).build();

    let status = &mut Status::new(5);
    runner.check_url(&example_url(), status_of(400), 10, status, "test".to_string());

    assert_eq!(status.is_unavailable, false);
    assert_eq!(status.unavailable_counted, 1);
    assert_eq!(status.available_counted, 0);
}

#[test]
fn test_runner_check_url_unavailable_status() {
    let runner = RunnerBuilder::new().target(example_target()).build();

    let status = &mut Status::new(2);
    runner.check_url(&example_url(), status_of(500), 10, status, "test".to_string());
    runner.check_url(&example_url(), status_of(500), 10, status, "test".to_string());
    runner.check_url(&example_url(), status_of(500), 10, status, "test".to_string());

    assert_eq!(status.is_unavailable, true);
    assert_eq!(status.unavailable_counted, 3);
    assert_eq!(status.available_counted, 0);
}

#[test]
fn test_runner_check_url_available_status() {
    let runner = RunnerBuilder::new().target(example_target()).build();

    let status = &mut Status::new(2);
    status.is_unavailable = true;
    status.unavailable_started = Timestamp::now();
    runner.check_url(&example_url(), ok(), 10, status, "test".to_string());
    runner.check_url(&example_url(), ok(), 10, status, "test".to_string());
    runner.check_url(&example_url(), ok(), 10, status, "test".to_string());

    assert_eq!(status.is_unavailable, false);
    assert_eq!(status.available_counted, 3);
    assert_eq!(status.unavailable_events.len(), 1);
}

#[test]
fn test_runner_check_url_timeout() {
    let runner = RunnerBuilder::new()
        .target(example_target())
        .connect_timeout_ms(10)
        .timeout_ms(10)
        .build();

    let status = &mut Status::new(2);
    let outcome = ProbeOutcome::Failed { message: "operation timed out".to_string() };
    runner.check_url(&example_url(), outcome, 10_000_000, status, "test".to_string());

    assert_eq!(status.unavailable_counted, 1);
}

#[test]
fn builder_default_target_is_external() {
    let runner = RunnerBuilder::new().build();
    assert_eq!(runner.target().name, "external");
    assert_eq!(
        runner.target().urls,
        vec![Url::parse("https://1.1.1.1").unwrap(), Url::parse("https://dns.google").unwrap()]
    );
    assert_eq!(runner.target().urls[0].as_str(), "https://1.1.1.1/");
    assert_eq!(runner.target().urls[1].as_str(), "https://dns.google/");
}

#[test]
fn user_agent_is_name_and_version() {
    assert_eq!(get_user_agent(), "netcheck/0.0.1");
}

#[test]
fn initial_status_has_the_runners_threshold() {
    let runner = RunnerBuilder::new().failure_threshold(7).build();
    let status = runner.initial_status();
    assert_eq!(status.threshold, 7);
    assert_eq!(status.is_unavailable, false);
    let zero = RunnerBuilder::new().failure_threshold(0).build();
    assert_eq!(zero.failure_threshold(), 0);
    assert_eq!(zero.initial_status().threshold, 1);
}

#[test]
fn classify_tells_errors_from_the_rest() {
    for code in [100u16, 200, 204, 301, 399, 600, 999] {
        assert!(status_of(code).classify().is_ok(), "{}", code);
    }
    for code in [400u16, 404, 499, 500, 503, 599] {
        match status_of(code).classify() {
            Err(Error::StatusError { status }) => assert_eq!(status, code),
            other => panic!("expected a status error, got {:?}", other),
        }
    }
    match (ProbeOutcome::Failed { message: "dns".to_string() }).classify() {
        Err(Error::ReqwestError { message }) => assert_eq!(message, "dns"),
        other => panic!("expected a transport error, got {:?}", other),
    }
}

#[test]
fn error_text_is_message_or_status() {
    assert_eq!(Error::StatusError { status: 503 }.to_text(), "503");
    assert_eq!(Error::ReqwestError { message: "timed out".to_string() }.to_text(), "timed out");
    assert_eq!(Error::TokioError { message: "cancelled".to_string() }.to_text(), "cancelled");
}

#[test]
fn should_stop_by_iterations_or_seconds() {
    let forever = RunnerBuilder::new().build();
    assert!(!forever.should_stop(u64::MAX, u64::MAX));
    let by_count = RunnerBuilder::new().run_for_iterations(3).build();
    assert!(!by_count.should_stop(100, 2));
    assert!(by_count.should_stop(0, 3));
    assert!(by_count.should_stop(0, 4));
    let by_time = RunnerBuilder::new().run_for_seconds(10).build();
    assert!(!by_time.should_stop(9, 1_000));
    assert!(by_time.should_stop(10, 0));
    let both = RunnerBuilder::new().run_for_seconds(10).run_for_iterations(3).build();
    assert!(!both.should_stop(9, 2));
    assert!(both.should_stop(9, 3));
    assert!(both.should_stop(10, 2));
    let none = RunnerBuilder::new().run_for_iterations(0).build();
    assert!(none.should_stop(0, 0));
}

#[test]
fn steps_go_round_the_urls() {
    let target = Target::parse("t=a.com,b.com,c.com").unwrap();
    let runner = RunnerBuilder::new().target(target).build();
    let mut state = TickState::new();
    let mut probed = Vec::new();
    let mut summaries = Vec::new();
    let available = [true, false, true, false, false, false, true];
    for found in available {
        match runner.next_step(&mut state, 0) {
            Step::Probe { index, completed } => {
                assert_eq!(index, state.idx);
                probed.push(index);
                if let Some(summary) = completed {
                    summaries.push(summary);
                }
            }
            Step::Stop => panic!("a runner without limits stopped"),
        }
        runner.advance(&mut state, found);
    }
    assert_eq!(probed, vec![0, 1, 2, 0, 1, 2, 0]);
    assert_eq!(
        summaries,
        vec![CycleSummary { available: 2, total: 3 }, CycleSummary { available: 0, total: 3 }]
    );
    assert_eq!(state, TickState { idx: 1, iterations: 7, available_count: 1 });
}

#[test]
fn stop_is_asked_before_the_cycle_ends() {
    let runner = RunnerBuilder::new().target(example_target()).run_for_iterations(1).build();
    let mut state = TickState::new();
    assert_eq!(runner.next_step(&mut state, 0), Step::Probe { index: 0, completed: None });
    runner.advance(&mut state, true);
    assert_eq!(state, TickState { idx: 1, iterations: 1, available_count: 1 });
    assert_eq!(runner.next_step(&mut state, 0), Step::Stop);
    assert_eq!(state, TickState { idx: 1, iterations: 1, available_count: 1 });
}

#[test]
fn request_metrics_of_success_and_failure() {
    let target = Target::parse("t=a.com,b.com").unwrap();
    let runner = RunnerBuilder::new().target(target).build();
    let url = Url::parse("https://b.com").unwrap();
    let good = runner.update_request_metrics(true, 1234, "t".to_string(), &url);
    assert_eq!(good.status, metric::VALUE_EVENT_STATUS_SUCCESS);
    assert_eq!(good.status, "success");
    assert_eq!(good.target_name, "t");
    assert_eq!(good.url, "https://b.com/");
    assert_eq!(good.response_time_ns, 1234);
    assert_eq!(good.target_urls, "https://a.com/,https://b.com/");
    assert_eq!((good.available, good.unavailable), (1, 0));
    let bad = runner.update_request_metrics(false, 99, "t".to_string(), &url);
    assert_eq!(bad.status, "failure");
    assert_eq!((bad.available, bad.unavailable), (0, 1));
}

#[test]
fn transition_labels() {
    assert_eq!(transition_label(Event::AvailableToUnavailable), Some("available_to_unavailable"));
    assert_eq!(
        transition_label(Event::UnavailableToAvailable(TimeDelta { nanos: 1 })),
        Some("unavailable_to_available")
    );
    assert_eq!(transition_label(Event::NoChange), None);
}

#[test]
fn one_iteration_against_200_records_one_success_and_no_transition() {
    let runner = RunnerBuilder::new().target(example_target()).run_for_iterations(1).build();
    let mut status = runner.initial_status();
    let reports = run_script(&runner, &mut status, &[200, 200, 200]);
    assert_eq!(reports.len(), 1);
    assert!(reports[0].is_available);
    assert!(reports[0].cause.is_none());
    assert_eq!(reports[0].request.status, "success");
    assert_eq!(reports[0].request.target_name, "external");
    assert_eq!(reports[0].request.url, "https://example.com/");
    assert_eq!(reports[0].request.response_time_ns, 1_500);
    assert_eq!(reports[0].event, Event::NoChange);
    assert_eq!(reports[0].transition, None);
    assert_eq!(reports[0].unavailable_for, None);
    assert_eq!(status.is_unavailable, false);
    assert!(status.unavailable_events.is_empty());
}

#[test]
fn threshold_two_against_500_gives_one_outage_on_the_second_probe() {
    let runner = RunnerBuilder::new().target(example_target()).failure_threshold(2).build();
    let mut status = runner.initial_status();
    let reports = run_script(&runner, &mut status, &[500, 500, 500]);
    assert_eq!(reports.len(), 3);
    let events: Vec<Event> = reports.iter().map(|report| report.event).collect();
    assert_eq!(events, vec![Event::NoChange, Event::AvailableToUnavailable, Event::NoChange]);
    assert_eq!(reports[0].transition, None);
    assert_eq!(reports[1].transition, Some("available_to_unavailable"));
    assert_eq!(reports[2].transition, None);
    assert_eq!(reports[0].unavailable_for, None);
    assert_eq!(reports[1].unavailable_for, None);
    assert_eq!(reports[2].unavailable_for, Some(TimeDelta { nanos: 1_000_000_000 }));
    for report in &reports {
        assert!(!report.is_available);
        assert_eq!(report.request.status, "failure");
        match &report.cause {
            Some(Error::StatusError { status }) => assert_eq!(*status, 500),
            other => panic!("expected a status error, got {:?}", other),
        }
    }
    assert!(status.is_unavailable);
    assert_eq!(status.unavailable_count, 1);
}

#[test]
fn recovery_after_threshold_successes_gives_one_event_with_the_outage() {
    let runner = RunnerBuilder::new().target(example_target()).failure_threshold(3).build();
    let mut status = runner.initial_status();
    let reports = run_script(&runner, &mut status, &[500, 500, 500, 200, 200, 200, 200]);
    let events: Vec<Event> = reports.iter().map(|report| report.event).collect();
    assert_eq!(
        events,
        vec![
            Event::NoChange,
            Event::NoChange,
            Event::AvailableToUnavailable,
            Event::NoChange,
            Event::NoChange,
            Event::UnavailableToAvailable(TimeDelta { nanos: 3_000_000_000 }),
            Event::NoChange,
        ]
    );
    assert_eq!(reports[5].transition, Some("unavailable_to_available"));
    assert_eq!(status.is_unavailable, false);
    assert_eq!(status.unavailable_events, vec![events[5]]);
    match events[5] {
        Event::UnavailableToAvailable(outage) => assert!(outage.nanos > 0),
        _ => panic!("expected a recovery"),
    }
}

#[test]
fn iteration_limit_makes_exactly_that_many_probes_in_turn() {
    let target = Target::parse("t=a.com,b.com,c.com").unwrap();
    let runner = RunnerBuilder::new().target(target).run_for_iterations(7).build();
    let mut status = runner.initial_status();
    let reports = run_script(&runner, &mut status, &[200; 20]);
    assert_eq!(reports.len(), 7);
    let urls: Vec<&str> = reports.iter().map(|report| report.request.url.as_str()).collect();
    assert_eq!(
        urls,
        vec![
            "https://a.com/",
            "https://b.com/",
            "https://c.com/",
            "https://a.com/",
            "https://b.com/",
            "https://c.com/",
            "https://a.com/",
        ]
    );
}

#[test]
fn seconds_limit_ends_the_run() {
    let runner = RunnerBuilder::new().target(example_target()).run_for_seconds(4).build();
    let mut status = runner.initial_status();
    let reports = run_script(&runner, &mut status, &[200; 20]);
    assert_eq!(reports.len(), 4);
}

#[test]
fn runner_clone_keeps_the_settings() {
    let runner = RunnerBuilder::new()
        .target(example_target())
        .failure_threshold(3)
        .run_for_iterations(2)
        .user_agent("test".to_string())
        .build();
    let copy = runner.clone();
    assert_eq!(copy.target().name, "external");
    assert_eq!(copy.target().urls, runner.target().urls);
    assert_eq!(copy.failure_threshold(), 3);
    assert_eq!(copy.run_for_iterations(), Some(2));
    assert_eq!(copy.run_for_seconds(), None);
    assert_eq!(copy.user_agent(), "test");
    assert_eq!(copy.timeout_ms(), runner.timeout_ms());
}

#[test]
fn two_failures_then_two_successes_recover_with_the_fourth_probe() {
    let runner = RunnerBuilder::new()
        .target(example_target())
        .failure_threshold(2)
        .run_for_iterations(4)
        .build();
    let mut status = runner.initial_status();
    let reports = run_script(&runner, &mut status, &[500, 500, 200, 200, 200]);
    let events: Vec<Event> = reports.iter().map(|report| report.event).collect();
    assert_eq!(
        events,
        vec![
            Event::NoChange,
            Event::AvailableToUnavailable,
            Event::NoChange,
            Event::UnavailableToAvailable(TimeDelta { nanos: 2_000_000_000 }),
        ]
    );
    assert_eq!(reports[2].transition, None);
    assert_eq!(reports[3].transition, Some("unavailable_to_available"));
}
