use edamame_posture::controller::{
    exit_code, finish_start, foreground_scan_opening_steps, foreground_scan_steps, handle_wait_for_success, show_background_process_status,
    start_background_process, start_request, status_steps, stop_background_process,
    wait_closing_steps, wait_opening_steps, wait_timeout, Launched, Notice, Step, WaitOutcome,
    WaitStep, DEFAULT_WAIT_SECS, POLL_INTERVAL_SECS, STOP_GRACE_SECS, SUCCESS_GRACE_SECS,
};
use edamame_posture::launcher::{start_record, LaunchError};
use edamame_posture::liveness::{classify, is_alive, probe, Liveness};
use edamame_posture::state::{Platform, State};
use edamame_posture::store::StateStore;
use edamame_posture::worker::{background_process, Action, Event, Worker};

/// An identifier that no process has: above every limit that a Linux kernel
/// accepts for process identifiers.
const NO_SUCH_PROCESS: u32 = 4_000_000_000;

fn own_pid() -> u32 {
    sysinfo::get_current_pid().unwrap().as_u32()
}

fn record(pid: Option<u32>, handle: Option<u64>) -> State {
    State {
        pid,
        handle,
        is_success: false,
        connected_domain: "corp.example".to_string(),
        connected_user: "alice".to_string(),
        last_network_activity: String::new(),
    }
}

#[test]
fn intervals_and_grace_periods() {
    assert_eq!(POLL_INTERVAL_SECS, 5);
    assert_eq!(DEFAULT_WAIT_SECS, 180);
    assert_eq!(STOP_GRACE_SECS, 10);
    assert_eq!(SUCCESS_GRACE_SECS, 60);
}

#[test]
fn liveness_is_false_for_an_identifier_without_process() {
    assert!(!is_alive(NO_SUCH_PROCESS));
    assert_eq!(probe(&record(Some(NO_SUCH_PROCESS), None)), Liveness::Stale(NO_SUCH_PROCESS));
}

#[test]
fn liveness_is_true_for_the_checking_process() {
    let me = own_pid();
    assert!(is_alive(me));
    assert_eq!(probe(&record(Some(me), None)), Liveness::Alive(me));
}

#[test]
fn liveness_of_a_record_without_worker() {
    assert_eq!(probe(&record(None, Some(9))), Liveness::NotRunning);
    assert_eq!(classify(&record(None, None), true), Liveness::NotRunning);
    assert_eq!(classify(&record(Some(5), None), true), Liveness::Alive(5));
    assert_eq!(classify(&record(Some(5), None), false), Liveness::Stale(5));
}

#[test]
fn start_request_fills_in_what_was_not_given() {
    let args = start_request("u".to_string(), "d".to_string(), "p".to_string(), None, None);
    assert_eq!(args.device_id, "");
    assert!(args.lan_scanning);
    let args = start_request(
        "u".to_string(),
        "d".to_string(),
        "p".to_string(),
        Some("laptop".to_string()),
        Some(false),
    );
    assert_eq!(args.device_id, "laptop");
    assert!(!args.lan_scanning);
    assert_eq!(args.user, "u");
    assert_eq!(args.domain, "d");
    assert_eq!(args.pin, "p");
}

#[test]
fn normal_lifecycle() {
    let plan = start_background_process(
        "alice".to_string(),
        "corp.example".to_string(),
        "1234".to_string(),
        String::new(),
        true,
    );
    assert_eq!(
        plan.steps,
        vec![Step::ShowCoreVersion, Step::ShowCoreInfo, Step::Report(Notice::Starting), Step::Launch]
    );
    assert_eq!(
        plan.arguments,
        vec!["background-process", "alice", "corp.example", "1234", "", "true"]
    );

    let me = own_pid();
    let result = finish_start(
        Platform::Posix,
        Ok(Launched { pid: me, handle: None }),
        "alice",
        "corp.example",
    );
    assert_eq!(
        result.steps,
        vec![
            Step::Report(Notice::Launched(me)),
            Step::SaveRecord,
            Step::Report(Notice::Daemonized)
        ]
    );
    assert_eq!(exit_code(&result.steps), 0);
    let mut store = StateStore::new();
    store.save(&result.record.unwrap()).unwrap();
    let state = store.load().unwrap();
    assert!(state.pid.is_some());
    assert_eq!(state.connected_user, "alice");
    assert_eq!(state.connected_domain, "corp.example");
    assert!(!state.is_success);

    // The worker's first round, in which the engine reports success.
    let mut worker = Worker::new(
        "alice".to_string(),
        "corp.example".to_string(),
        "1234".to_string(),
        false,
        None,
        Platform::Posix,
    );
    for event in [Event::Started, Event::Done, Event::Done, Event::Done, Event::Done] {
        background_process(&mut worker, event);
    }
    let action = background_process(
        &mut worker,
        Event::Connection { is_success: true, last_network_activity: "now".to_string() },
    );
    assert!(matches!(action, Action::LoadRecord));
    let action = background_process(&mut worker, Event::Loaded(store.load().unwrap()));
    match action {
        Action::SaveRecord(synced) => store.save(&synced).unwrap(),
        other => panic!("no save: {:?}", other),
    }
    assert!(matches!(background_process(&mut worker, Event::Saved), Action::Sleep(5)));

    let state = store.load().unwrap();
    assert!(state.is_success);
    assert_eq!(state.last_network_activity, "now");
    assert_eq!(state.pid, Some(me));
    let steps = show_background_process_status(&state);
    assert_eq!(steps, vec![Step::Report(Notice::Running(me)), Step::ShowConnection]);
    assert_eq!(exit_code(&steps), 0);
}

#[test]
fn start_on_the_handle_platform_records_pid_and_handle() {
    let result = finish_start(
        Platform::Handle,
        Ok(Launched { pid: 31, handle: Some(0x1f4) }),
        "alice",
        "corp.example",
    );
    assert_eq!(result.steps, vec![Step::Report(Notice::Launched(31)), Step::SaveRecord]);
    let state = result.record.unwrap();
    assert_eq!(state.pid, Some(31));
    assert_eq!(state.handle, Some(0x1f4));
    let expected = start_record(31, Some(0x1f4), "alice", "corp.example");
    assert_eq!(state.connected_user, expected.connected_user);
    assert_eq!(state.connected_domain, expected.connected_domain);
}

#[test]
fn failed_launch_writes_no_record_and_exits_with_one() {
    for error in [LaunchError::Detach, LaunchError::Spawn, LaunchError::InteriorNul] {
        for platform in [Platform::Posix, Platform::Handle] {
            let result = finish_start(platform, Err(error), "alice", "corp.example");
            assert!(result.record.is_none());
            assert_eq!(
                result.steps,
                vec![Step::Report(Notice::LaunchFailed(error)), Step::Exit(1)]
            );
            assert_eq!(exit_code(&result.steps), 1);
        }
    }
}

#[test]
fn stop_semantics() {
    let me = own_pid();
    let mut store = StateStore::new();
    store.save(&record(Some(me), None)).unwrap();

    let steps = stop_background_process(&store.load().unwrap(), Platform::Posix);
    assert_eq!(
        steps,
        vec![
            Step::Report(Notice::Stopping(me as u64)),
            Step::ClearRecord,
            Step::DisconnectDomain
        ]
    );
    assert_eq!(exit_code(&steps), 0);
    for step in &steps {
        if *step == Step::ClearRecord {
            store.clear();
        }
    }
    assert!(store.contents.is_none());

    let status = show_background_process_status(&store.load().unwrap());
    assert_eq!(status, vec![Step::Report(Notice::NotRunning)]);
    assert_eq!(exit_code(&status), 0);
}

#[test]
fn stop_on_the_handle_platform_lingers_after_the_clear() {
    let steps = stop_background_process(&record(Some(8), Some(600)), Platform::Handle);
    assert_eq!(
        steps,
        vec![
            Step::Report(Notice::Stopping(600)),
            Step::ClearRecord,
            Step::Sleep(10),
            Step::DisconnectDomain
        ]
    );
    let steps = stop_background_process(&record(Some(8), None), Platform::Handle);
    assert_eq!(steps, vec![Step::Report(Notice::NotRunning)]);
}

#[test]
fn stop_without_worker_reports_not_running() {
    let steps = stop_background_process(&State::new(), Platform::Posix);
    assert_eq!(steps, vec![Step::Report(Notice::NotRunning)]);
    assert_eq!(exit_code(&steps), 0);
}

#[test]
fn stale_detection() {
    let mut store = StateStore::new();
    store.save(&record(Some(NO_SUCH_PROCESS), None)).unwrap();
    let steps = show_background_process_status(&store.load().unwrap());
    assert_eq!(
        steps,
        vec![Step::Report(Notice::Stale(NO_SUCH_PROCESS)), Step::ClearRecord, Step::Exit(1)]
    );
    assert_eq!(exit_code(&steps), 1);
    for step in &steps {
        if *step == Step::ClearRecord {
            store.clear();
        }
    }
    assert!(store.contents.is_none());
    assert_eq!(store.load().unwrap().pid, None);
}

#[test]
fn status_steps_for_each_finding() {
    assert_eq!(
        status_steps(Liveness::Alive(3)),
        vec![Step::Report(Notice::Running(3)), Step::ShowConnection]
    );
    assert_eq!(
        status_steps(Liveness::Stale(3)),
        vec![Step::Report(Notice::Stale(3)), Step::ClearRecord, Step::Exit(1)]
    );
    assert_eq!(status_steps(Liveness::NotRunning), vec![Step::Report(Notice::NotRunning)]);
}

#[test]
fn wait_for_success_timeout() {
    assert_eq!(wait_opening_steps(), vec![Step::ShowDeviceInfo, Step::ShowSystemInfo]);
    let state = record(Some(1), None);
    let mut remaining = wait_timeout(Some(10));
    let mut slept = 0;
    let outcome = loop {
        match handle_wait_for_success(&state, remaining) {
            WaitStep::Poll { sleep, remaining: left } => {
                slept += sleep;
                remaining = left;
            }
            WaitStep::Done(outcome) => break outcome,
        }
    };
    assert_eq!(outcome, WaitOutcome::TimedOut);
    assert_eq!(slept, 10);
    let steps = wait_closing_steps(outcome);
    assert_eq!(
        steps,
        vec![Step::Report(Notice::TimedOut), Step::Stop, Step::ShowLogs, Step::Exit(1)]
    );
    assert!(!steps.iter().any(|s| matches!(s, Step::Sleep(_) | Step::ShowLanScan | Step::ShowScore)));
    assert_eq!(exit_code(&steps), 1);
}

#[test]
fn wait_with_a_timeout_that_is_no_multiple_of_the_interval() {
    let state = State::new();
    assert_eq!(
        handle_wait_for_success(&state, 7),
        WaitStep::Poll { sleep: 5, remaining: 2 }
    );
    assert_eq!(
        handle_wait_for_success(&state, 2),
        WaitStep::Poll { sleep: 5, remaining: 0 }
    );
    assert_eq!(handle_wait_for_success(&state, 0), WaitStep::Done(WaitOutcome::TimedOut));
    assert_eq!(
        handle_wait_for_success(&state, u64::MAX),
        WaitStep::Poll { sleep: 5, remaining: u64::MAX - 5 }
    );
}

#[test]
fn wait_succeeds_once_success_and_activity_are_recorded() {
    let mut state = record(Some(1), None);
    state.is_success = true;
    assert_eq!(
        handle_wait_for_success(&state, 180),
        WaitStep::Poll { sleep: 5, remaining: 175 }
    );
    state.last_network_activity = "2024-05-01".to_string();
    assert_eq!(handle_wait_for_success(&state, 175), WaitStep::Done(WaitOutcome::Succeeded));
    state.is_success = false;
    assert_eq!(
        handle_wait_for_success(&state, 175),
        WaitStep::Poll { sleep: 5, remaining: 170 }
    );
    let steps = wait_closing_steps(WaitOutcome::Succeeded);
    assert_eq!(
        steps,
        vec![
            Step::ShowScore,
            Step::ShowLanScan,
            Step::ShowLogs,
            Step::Report(Notice::Connected),
            Step::Sleep(60)
        ]
    );
    assert_eq!(exit_code(&steps), 0);
}

#[test]
fn wait_counts_run_out_time_as_a_timeout_even_beside_success() {
    let mut state = record(Some(1), None);
    state.is_success = true;
    state.last_network_activity = "x".to_string();
    assert_eq!(handle_wait_for_success(&state, 0), WaitStep::Done(WaitOutcome::TimedOut));
}

#[test]
fn wait_timeout_defaults_to_three_minutes() {
    assert_eq!(wait_timeout(None), 180);
    assert_eq!(wait_timeout(Some(10)), 10);
    assert_eq!(wait_timeout(Some(0)), 0);
}

#[test]
fn foreground_scan_grants_consent_only_where_it_was_not_given() {
    assert_eq!(foreground_scan_opening_steps(), vec![Step::PointScan, Step::Sleep(120)]);
    assert_eq!(
        foreground_scan_steps(false),
        vec![Step::GrantConsent, Step::RequestScan, Step::Sleep(5), Step::ShowDevices]
    );
    assert_eq!(
        foreground_scan_steps(true),
        vec![Step::RequestScan, Step::Sleep(5), Step::ShowDevices]
    );
}

#[test]
fn exit_code_is_that_of_the_first_exit() {
    assert_eq!(exit_code(&vec![]), 0);
    assert_eq!(exit_code(&vec![Step::Sleep(1), Step::Exit(3), Step::Exit(4)]), 3);
    assert_eq!(exit_code(&vec![Step::ClearRecord, Step::Stop]), 0);
}
