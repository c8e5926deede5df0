use w3p_ups::config::Config;
use w3p_ups::daemon::{
    shutdown_command, supervise, Flow, Monitor, ReadFailure, SessionEnd, Step, Supervision,
};
use w3p_ups::policy::{CancelReason, PolicyAction, PolicyState};
use w3p_ups::ups_data::UpsData;
use w3p_ups::wire::ParseError;

fn config() -> Config {
    let mut config = Config::default();
    config.battery.shutdown_threshold = 10;
    config.battery.shutdown_cancel_margin = 5;
    config.battery.min_valid_voltage = 8000;
    config.battery.max_valid_voltage = 21000;
    config.shutdown.delay_seconds = 30;
    config
}

fn idle(flow: Flow) -> Step {
    Step { flow, sample: None, rejected: None, status_due: false, action: PolicyAction::NoAction }
}

#[test]
fn new_monitor_is_idle() {
    let monitor = Monitor::new(17);
    assert_eq!(
        monitor,
        Monitor { policy: PolicyState::Idle, last_status_at: 17, decoded: 0 }
    );
    assert!(monitor.keeps_running(false));
    assert!(!monitor.keeps_running(true));
}

#[test]
fn empty_read_pauses() {
    let mut monitor = Monitor::new(0);
    assert_eq!(monitor.on_read(Ok(0), "", &config(), 1), idle(Flow::Pause));
    assert_eq!(monitor, Monitor::new(0));
}

#[test]
fn timeout_continues_and_other_failure_fails() {
    let mut monitor = Monitor::new(0);
    assert_eq!(
        monitor.on_read(Err(ReadFailure::TimedOut), "", &config(), 1),
        idle(Flow::Continue)
    );
    assert_eq!(monitor.on_read(Err(ReadFailure::Broken), "", &config(), 1), idle(Flow::Fail));
    assert_eq!(monitor, Monitor::new(0));
}

#[test]
fn malformed_lines_never_abort_and_change_nothing() {
    let mut monitor = Monitor::new(0);
    let lines = [
        ("{", ParseError::Malformed),
        ("garbage", ParseError::Malformed),
        ("{\"soc\":1}", ParseError::MissingField),
        ("{\"soc\":1,\"vi\":\"x\"}", ParseError::InvalidField),
        ("\n", ParseError::Empty),
        ("   \r\n", ParseError::Empty),
        ("{\"soc\":9,\"sd\":9,\"vi\":7000", ParseError::Malformed),
    ];
    for (line, reason) in lines {
        let step = monitor.on_read(Ok(line.len()), line, &config(), 5);
        assert_eq!(step, Step { rejected: Some(reason), ..idle(Flow::Continue) });
        assert_eq!(monitor, Monitor::new(0));
    }
}

#[test]
fn decoded_count_never_goes_down() {
    let mut monitor = Monitor::new(0);
    let lines = [
        "{\"soc\":50,\"sd\":50,\"vi\":9000}\n",
        "nonsense\n",
        "{\"soc\":50,\"sd\":50,\"vi\":9000}\n",
        "\n",
        "{\"soc\":50}\n",
        "{\"soc\":51,\"sd\":50,\"vi\":9000}\n",
    ];
    let mut counts = vec![];
    for (i, line) in lines.iter().enumerate() {
        let before = monitor.decoded;
        monitor.on_read(Ok(line.len()), line, &config(), i as u64);
        assert!(monitor.decoded >= before);
        counts.push(monitor.decoded);
    }
    assert_eq!(counts, vec![1, 1, 2, 2, 2, 3]);
    monitor.on_read(Err(ReadFailure::TimedOut), "", &config(), 9);
    monitor.on_read(Ok(0), "", &config(), 9);
    assert_eq!(monitor.decoded, 3);
}

#[test]
fn decoded_count_stops_at_the_ceiling() {
    let mut monitor = Monitor { policy: PolicyState::Idle, last_status_at: 0, decoded: u64::MAX - 1 };
    let sample = UpsData { soc: 50, sd: 50, vi: 9000, ..UpsData::zeroed() };
    monitor.on_sample(&sample, &config(), 1);
    assert_eq!(monitor.decoded, u64::MAX);
    monitor.on_sample(&sample, &config(), 2);
    assert_eq!(monitor.decoded, u64::MAX);
}

#[test]
fn good_line_is_published() {
    let mut monitor = Monitor::new(0);
    let line = "{\"soc\":50,\"sd\":49,\"vi\":9000}\n";
    let step = monitor.on_read(Ok(line.len()), line, &config(), 3);
    let sample = UpsData { soc: 50, sd: 49, vi: 9000, ..UpsData::zeroed() };
    assert_eq!(step, Step { sample: Some(sample), ..idle(Flow::Continue) });
    assert_eq!(monitor, Monitor { policy: PolicyState::Idle, last_status_at: 0, decoded: 1 });
}

#[test]
fn status_is_due_once_a_minute() {
    let mut monitor = Monitor::new(100);
    let sample = UpsData { soc: 50, sd: 50, vi: 9000, ..UpsData::zeroed() };
    assert!(!monitor.on_sample(&sample, &config(), 100).status_due);
    assert!(!monitor.on_sample(&sample, &config(), 159).status_due);
    assert_eq!(monitor.last_status_at, 100);
    assert!(monitor.on_sample(&sample, &config(), 160).status_due);
    assert_eq!(monitor.last_status_at, 160);
    assert!(!monitor.on_sample(&sample, &config(), 161).status_due);
    assert!(!monitor.on_sample(&sample, &config(), 219).status_due);
    assert!(monitor.on_sample(&sample, &config(), 500).status_due);
    assert_eq!(monitor.last_status_at, 500);
    assert!(!monitor.on_sample(&sample, &config(), 10).status_due);
    assert_eq!(monitor.last_status_at, 500);
}

#[test]
fn monitor_runs_the_countdown_scenario() {
    let mut monitor = Monitor::new(0);
    let low = "{\"soc\":9,\"sd\":9,\"vi\":7000}";
    let grid = "{\"soc\":9,\"sd\":9,\"vi\":9000}";
    let step = monitor.on_read(Ok(low.len()), low, &config(), 0);
    assert_eq!(step.action, PolicyAction::CountdownStarted);
    assert_eq!(monitor.policy, PolicyState::Counting { started_at: 0 });
    let step = monitor.on_read(Ok(low.len()), low, &config(), 20);
    assert_eq!(step.action, PolicyAction::CountdownRunning { remaining_seconds: 10 });
    let step = monitor.on_read(Ok(grid.len()), grid, &config(), 25);
    assert_eq!(
        step.action,
        PolicyAction::CountdownCancelled { reason: CancelReason::PowerRestored }
    );
    assert_eq!(monitor.policy, PolicyState::Idle);
    let step = monitor.on_read(Ok(low.len()), low, &config(), 26);
    assert_eq!(step.action, PolicyAction::CountdownStarted);
    assert_eq!(step.flow, Flow::Continue);
    assert_eq!(monitor.policy, PolicyState::Counting { started_at: 26 });
}

#[test]
fn bad_lines_do_not_disturb_a_running_countdown() {
    let mut monitor = Monitor::new(0);
    let low = "{\"soc\":9,\"sd\":9,\"vi\":7000}";
    monitor.on_read(Ok(low.len()), low, &config(), 0);
    monitor.on_read(Ok(3), "???", &config(), 10);
    monitor.on_read(Err(ReadFailure::TimedOut), "", &config(), 20);
    assert_eq!(monitor.policy, PolicyState::Counting { started_at: 0 });
    let step = monitor.on_read(Ok(low.len()), low, &config(), 30);
    assert_eq!(step.action, PolicyAction::Shutdown);
    assert_eq!(step.flow, Flow::Finished);
}

#[test]
fn shutdown_finishes_the_loop_and_is_ordered_once() {
    let mut monitor = Monitor::new(0);
    let low = UpsData { soc: 9, sd: 9, vi: 7000, ..UpsData::zeroed() };
    assert_eq!(monitor.on_sample(&low, &config(), 0).flow, Flow::Continue);
    let step = monitor.on_sample(&low, &config(), 30);
    assert_eq!(step.action, PolicyAction::Shutdown);
    assert_eq!(step.flow, Flow::Finished);
    assert_eq!(step.sample, Some(low));
    assert!(!monitor.keeps_running(false));
    for now in 31..35 {
        let step = monitor.on_sample(&low, &config(), now);
        assert_eq!(step.action, PolicyAction::NoAction);
        assert_eq!(step.flow, Flow::Finished);
    }
}

#[test]
fn on_line_takes_either_outcome() {
    let mut monitor = Monitor::new(0);
    let step = monitor.on_line(Err(ParseError::Malformed), &config(), 1);
    assert_eq!(step, Step { rejected: Some(ParseError::Malformed), ..idle(Flow::Continue) });
    assert_eq!(monitor.decoded, 0);
    let sample = UpsData { soc: 50, sd: 50, vi: 9000, ..UpsData::zeroed() };
    let step = monitor.on_line(Ok(sample), &config(), 1);
    assert_eq!(step, Step { sample: Some(sample), ..idle(Flow::Continue) });
    assert_eq!(monitor.decoded, 1);
}

#[test]
fn supervisor_restarts_failed_sessions_until_told_to_stop() {
    assert_eq!(supervise(SessionEnd::Completed, false), Supervision::Stop);
    assert_eq!(supervise(SessionEnd::Completed, true), Supervision::Stop);
    assert_eq!(supervise(SessionEnd::Failed, true), Supervision::Stop);
    assert_eq!(supervise(SessionEnd::Failed, false), Supervision::RestartAfter { seconds: 5 });
}

#[test]
fn shutdown_command_uses_script_or_falls_back() {
    let with_script = shutdown_command("/etc/w3p-ups/shutdown.sh", true);
    assert_eq!(with_script.program, "sh");
    assert_eq!(with_script.args, vec!["/etc/w3p-ups/shutdown.sh".to_string()]);
    let fallback = shutdown_command("/etc/w3p-ups/shutdown.sh", false);
    assert_eq!(fallback.program, "shutdown");
    assert_eq!(fallback.args, vec!["-h".to_string(), "now".to_string()]);
}
