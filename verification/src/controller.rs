use crate::lanscan::GATEWAY_SETTLE_SECS;
use crate::launcher::{
    arguments_of, launched_state, start_record, words_of, worker_arguments, LaunchError,
    WorkerArgs, WorkerArgsView,
};
use crate::liveness::{liveness_of, probe, Liveness};
use crate::state::{identity_of, Platform, State, StateView};
use vstd::prelude::*;

verus! {

/// Seconds between two looks at the shared record.
pub const POLL_INTERVAL_SECS: u64 = 5;

/// Seconds that `wait-for-success` waits where the operator names no limit.
pub const DEFAULT_WAIT_SECS: u64 = 180;

/// Seconds for which a stop on the handle platform lingers after the clear,
/// so that the worker's next look at the record falls before the controller
/// is gone.
pub const STOP_GRACE_SECS: u64 = 10;

/// Seconds for which a successful wait lingers, so that access control has
/// been applied before the caller goes on.
pub const SUCCESS_GRACE_SECS: u64 = 60;

/// What the controller tells the operator.
#[derive(Clone, Copy, Debug, PartialEq, Eq, Structural)]
pub enum Notice {
    Starting,
    Launched(u32),
    Daemonized,
    LaunchFailed(LaunchError),
    /// A stop is under way for the worker of this identity.
    Stopping(u64),
    NotRunning,
    Running(u32),
    /// The recorded worker is not in the process table.
    Stale(u32),
    TimedOut,
    Connected,
}

/// One thing that the controller does. A controller operation is a list of
/// these, carried out in order until the list ends or the process exits.
#[derive(Clone, Copy, Debug, PartialEq, Eq, Structural)]
pub enum Step {
    Report(Notice),
    ShowCoreVersion,
    ShowCoreInfo,
    ShowDeviceInfo,
    ShowSystemInfo,
    /// Fetch the connection from the engine and print it.
    ShowConnection,
    ShowScore,
    /// Carry out a device scan in the foreground and print what it found.
    ShowLanScan,
    ShowLogs,
    /// Point the engine at the network to scan, which starts the detection
    /// of the gateway.
    PointScan,
    /// Give the engine the operator's consent to scan.
    GrantConsent,
    /// Ask the engine for a scan of the devices.
    RequestScan,
    /// Watch the scan until it has ended and print its devices.
    ShowDevices,
    /// Create the worker process.
    Launch,
    /// Write the record of the worker that was created.
    SaveRecord,
    /// Remove the stored record, which tells the worker to end.
    ClearRecord,
    DisconnectDomain,
    /// Load the record and carry out a stop.
    Stop,
    Sleep(u64),
    /// End the process with this status.
    Exit(u8),
}

/// The steps that open a start.
pub open spec fn start_plan() -> Seq<Step> {
    seq![Step::ShowCoreVersion, Step::ShowCoreInfo, Step::Report(Notice::Starting), Step::Launch]
}

/// The steps that close a start, by what came of the launch.
pub open spec fn launched_plan(platform: Platform, launched: Result<u32, LaunchError>) -> Seq<Step> {
    match launched {
        Ok(pid) => match platform {
            Platform::Posix => seq![
                Step::Report(Notice::Launched(pid)),
                Step::SaveRecord,
                Step::Report(Notice::Daemonized),
            ],
            Platform::Handle => seq![Step::Report(Notice::Launched(pid)), Step::SaveRecord],
        },
        Err(e) => seq![Step::Report(Notice::LaunchFailed(e)), Step::Exit(1)],
    }
}

/// The steps of a stop. A recorded worker is never killed: the record is
/// cleared, and the worker ends itself when it next looks.
pub open spec fn stop_plan(state: StateView, platform: Platform) -> Seq<Step> {
    match identity_of(state, platform) {
        None => seq![Step::Report(Notice::NotRunning)],
        Some(id) => match platform {
            Platform::Posix => seq![
                Step::Report(Notice::Stopping(id)),
                Step::ClearRecord,
                Step::DisconnectDomain,
            ],
            Platform::Handle => seq![
                Step::Report(Notice::Stopping(id)),
                Step::ClearRecord,
                Step::Sleep(STOP_GRACE_SECS),
                Step::DisconnectDomain,
            ],
        },
    }
}

/// The steps of a status report.
pub open spec fn status_plan(liveness: Liveness) -> Seq<Step> {
    match liveness {
        Liveness::Alive(pid) => seq![Step::Report(Notice::Running(pid)), Step::ShowConnection],
        Liveness::Stale(pid) => seq![
            Step::Report(Notice::Stale(pid)),
            Step::ClearRecord,
            Step::Exit(1),
        ],
        Liveness::NotRunning => seq![Step::Report(Notice::NotRunning)],
    }
}

/// The status with which a process ends that carries out the steps: that of
/// the first exit among them, or 0 where they run to their end.
pub open spec fn exit_status(steps: Seq<Step>) -> u8
    decreases steps.len(),
{
    if steps.len() == 0 {
        0
    } else {
        match steps[0] {
            Step::Exit(code) => code,
            _ => exit_status(steps.drop_first()),
        }
    }
}

/// How a wait for success ended.
#[derive(Clone, Copy, Debug, PartialEq, Eq, Structural)]
pub enum WaitOutcome {
    Succeeded,
    TimedOut,
}

/// What a wait for success does next.
#[derive(Clone, Copy, Debug, PartialEq, Eq, Structural)]
pub enum WaitStep {
    /// Sleep for `sleep` seconds, load the record again and ask again with
    /// `remaining` seconds left.
    Poll { sleep: u64, remaining: u64 },
    Done(WaitOutcome),
}

/// Whether the worker has connected: it saw success, and network activity.
pub open spec fn connected(state: StateView) -> bool {
    state.is_success && state.last_network_activity.len() > 0
}

/// The seconds that are left once one more poll interval has passed.
pub open spec fn remaining_after_poll(remaining: u64) -> u64 {
    if remaining >= POLL_INTERVAL_SECS {
        (remaining - POLL_INTERVAL_SECS) as u64
    } else {
        0
    }
}

/// What a wait does next, from the record as it was just loaded and the
/// seconds that are left. It goes on while the worker has not connected and
/// time is left; once it stops, time that has run out counts as a timeout
/// whatever the record says.
pub open spec fn wait_decision(state: StateView, remaining: u64) -> WaitStep {
    if !connected(state) && remaining > 0 {
        WaitStep::Poll { sleep: POLL_INTERVAL_SECS, remaining: remaining_after_poll(remaining) }
    } else if remaining == 0 {
        WaitStep::Done(WaitOutcome::TimedOut)
    } else {
        WaitStep::Done(WaitOutcome::Succeeded)
    }
}

/// The steps that open a wait for success.
pub open spec fn wait_opening_plan() -> Seq<Step> {
    seq![Step::ShowDeviceInfo, Step::ShowSystemInfo]
}

/// The steps that close a wait for success. After a timeout nothing comes
/// before the stop: score and scan are shown only after success.
pub open spec fn wait_closing_plan(outcome: WaitOutcome) -> Seq<Step> {
    match outcome {
        WaitOutcome::Succeeded => seq![
            Step::ShowScore,
            Step::ShowLanScan,
            Step::ShowLogs,
            Step::Report(Notice::Connected),
            Step::Sleep(SUCCESS_GRACE_SECS),
        ],
        WaitOutcome::TimedOut => seq![
            Step::Report(Notice::TimedOut),
            Step::Stop,
            Step::ShowLogs,
            Step::Exit(1),
        ],
    }
}

/// The steps that open a scan in the foreground: the engine is pointed at
/// the network, and the detection of the gateway is given time to settle.
pub open spec fn scan_opening_plan() -> Seq<Step> {
    seq![Step::PointScan, Step::Sleep(GATEWAY_SETTLE_SECS)]
}

/// The steps of a scan in the foreground once the engine has said whether
/// consent was given: consent is granted exactly where it was not given
/// yet, then the scan is asked for, given one interval to start, and shown.
pub open spec fn scan_plan(consent_given: bool) -> Seq<Step> {
    if consent_given {
        seq![Step::RequestScan, Step::Sleep(POLL_INTERVAL_SECS), Step::ShowDevices]
    } else {
        seq![
            Step::GrantConsent,
            Step::RequestScan,
            Step::Sleep(POLL_INTERVAL_SECS),
            Step::ShowDevices,
        ]
    }
}

/// The number of polls after which a wait of `timeout` seconds gives up on a
/// worker that never connects.
pub open spec fn polls_until_timeout(timeout: u64) -> nat
    decreases timeout,
{
    if timeout == 0 {
        0
    } else {
        1 + polls_until_timeout(remaining_after_poll(timeout))
    }
}

/// What a start begins with.
#[derive(Clone, Debug, PartialEq, Eq)]
pub struct LaunchPlan {
    pub steps: Vec<Step>,
    /// The arguments for the worker process, after the program's name.
    pub arguments: Vec<String>,
}

/// What a start ends with.
#[derive(Clone, Debug, PartialEq, Eq)]
pub struct LaunchResult {
    pub steps: Vec<Step>,
    /// The record to write, where a worker was created.
    pub record: Option<State>,
}

/// The identity of a worker that was created.
#[derive(Clone, Copy, Debug, PartialEq, Eq, Structural)]
pub struct Launched {
    pub pid: u32,
    pub handle: Option<u64>,
}

/// The values that a start hands to the worker: those that the operator
/// gave, an empty device identifier where none was given, and scanning
/// switched on where nothing was said of it.
pub fn start_request(
    user: String,
    domain: String,
    pin: String,
    device_id: Option<String>,
    lan_scanning: Option<bool>,
) -> (args: WorkerArgs)
    ensures
        args@ == (WorkerArgsView {
            user: user@,
            domain: domain@,
            pin: pin@,
            device_id: match device_id {
                Some(id) => id@,
                None => Seq::empty(),
            },
            lan_scanning: match lan_scanning {
                Some(flag) => flag,
                None => true,
            },
        }),
{
    let device_id = match device_id {
        Some(id) => id,
        None => String::new(),
    };
    let lan_scanning = match lan_scanning {
        Some(flag) => flag,
        None => true,
    };
    WorkerArgs { user, domain, pin, device_id, lan_scanning }
}

/// Begins a start: what to show, and the arguments with which the worker
/// process is to be created.
pub fn start_background_process(
    user: String,
    domain: String,
    pin: String,
    device_id: String,
    lan_scanning: bool,
) -> (plan: LaunchPlan)
    ensures
        plan.steps@ == start_plan(),
        words_of(plan.arguments@) == arguments_of(
            WorkerArgsView {
                user: user@,
                domain: domain@,
                pin: pin@,
                device_id: device_id@,
                lan_scanning,
            },
        ),
{
    let args = WorkerArgs { user, domain, pin, device_id, lan_scanning };
    let arguments = worker_arguments(&args);
    let mut steps: Vec<Step> = Vec::new();
    steps.push(Step::ShowCoreVersion);
    steps.push(Step::ShowCoreInfo);
    steps.push(Step::Report(Notice::Starting));
    steps.push(Step::Launch);
    assert(steps@ =~= start_plan());
    LaunchPlan { steps, arguments }
}

/// Ends a start. Where a worker was created its record is handed out to be
/// written; where none was, no record is, and the process is to end with
/// status 1.
pub fn finish_start(
    platform: Platform,
    launched: Result<Launched, LaunchError>,
    user: &str,
    domain: &str,
) -> (r: LaunchResult)
    ensures
        r.steps@ == launched_plan(
            platform,
            match launched {
                Ok(l) => Ok(l.pid),
                Err(e) => Err(e),
            },
        ),
        match launched {
            Ok(l) => r.record matches Some(s) && s@ == launched_state(
                l.pid,
                l.handle,
                user@,
                domain@,
            ),
            Err(_) => r.record is None,
        },
{
    let mut steps: Vec<Step> = Vec::new();
    match launched {
        Ok(l) => {
            steps.push(Step::Report(Notice::Launched(l.pid)));
            steps.push(Step::SaveRecord);
            match platform {
                Platform::Posix => {
                    steps.push(Step::Report(Notice::Daemonized));
                },
                Platform::Handle => {},
            }
            assert(steps@ =~= launched_plan(platform, Ok(l.pid)));
            LaunchResult { steps, record: Some(start_record(l.pid, l.handle, user, domain)) }
        },
        Err(e) => {
            steps.push(Step::Report(Notice::LaunchFailed(e)));
            steps.push(Step::Exit(1));
            assert(steps@ =~= launched_plan(platform, Err(e)));
            LaunchResult { steps, record: None }
        },
    }
}

/// The steps of a stop, from the record as it was just loaded.
pub fn stop_background_process(state: &State, platform: Platform) -> (steps: Vec<Step>)
    ensures
        steps@ == stop_plan(state@, platform),
{
    let identity = state.identity(platform);
    let mut steps: Vec<Step> = Vec::new();
    match identity {
        None => {
            steps.push(Step::Report(Notice::NotRunning));
        },
        Some(id) => {
            steps.push(Step::Report(Notice::Stopping(id)));
            steps.push(Step::ClearRecord);
            match platform {
                Platform::Posix => {},
                Platform::Handle => {
                    steps.push(Step::Sleep(STOP_GRACE_SECS));
                },
            }
            steps.push(Step::DisconnectDomain);
        },
    }
    assert(steps@ =~= stop_plan(state@, platform));
    steps
}

/// The steps of a status report, from what is known of the worker.
pub fn status_steps(liveness: Liveness) -> (steps: Vec<Step>)
    ensures
        steps@ == status_plan(liveness),
{
    let mut steps: Vec<Step> = Vec::new();
    match liveness {
        Liveness::Alive(pid) => {
            steps.push(Step::Report(Notice::Running(pid)));
            steps.push(Step::ShowConnection);
        },
        Liveness::Stale(pid) => {
            steps.push(Step::Report(Notice::Stale(pid)));
            steps.push(Step::ClearRecord);
            steps.push(Step::Exit(1));
        },
        Liveness::NotRunning => {
            steps.push(Step::Report(Notice::NotRunning));
        },
    }
    assert(steps@ =~= status_plan(liveness));
    steps
}

/// The steps of a status report, from the record as it was just loaded. The
/// recorded worker is looked up in the process table.
pub fn show_background_process_status(state: &State) -> (steps: Vec<Step>)
    ensures
        exists|found: bool| steps@ == status_plan(liveness_of(state@, found)),
        state@.pid is None ==> steps@ == status_plan(Liveness::NotRunning),
{
    let liveness = probe(state);
    status_steps(liveness)
}

/// The seconds to wait for success: those that the operator named, or the
/// default.
pub fn wait_timeout(named: Option<u64>) -> (timeout: u64)
    ensures
        timeout == match named {
            Some(t) => t,
            None => DEFAULT_WAIT_SECS,
        },
{
    match named {
        Some(t) => t,
        None => DEFAULT_WAIT_SECS,
    }
}

/// The steps that open a wait for success.
pub fn wait_opening_steps() -> (steps: Vec<Step>)
    ensures
        steps@ == wait_opening_plan(),
{
    let mut steps: Vec<Step> = Vec::new();
    steps.push(Step::ShowDeviceInfo);
    steps.push(Step::ShowSystemInfo);
    assert(steps@ =~= wait_opening_plan());
    steps
}

/// What a wait for success does next, from the record as it was just loaded
/// and the seconds that are left.
pub fn handle_wait_for_success(state: &State, remaining: u64) -> (step: WaitStep)
    ensures
        step == wait_decision(state@, remaining),
{
    let connected = state.is_success && !state.last_network_activity.as_str().is_empty();
    if !connected && remaining > 0 {
        let left = if remaining >= POLL_INTERVAL_SECS {
            remaining - POLL_INTERVAL_SECS
        } else {
            0
        };
        WaitStep::Poll { sleep: POLL_INTERVAL_SECS, remaining: left }
    } else if remaining == 0 {
        WaitStep::Done(WaitOutcome::TimedOut)
    } else {
        WaitStep::Done(WaitOutcome::Succeeded)
    }
}

/// The steps that close a wait for success.
pub fn wait_closing_steps(outcome: WaitOutcome) -> (steps: Vec<Step>)
    ensures
        steps@ == wait_closing_plan(outcome),
        exit_status(steps@) == match outcome {
            WaitOutcome::Succeeded => 0u8,
            WaitOutcome::TimedOut => 1u8,
        },
{
    let mut steps: Vec<Step> = Vec::new();
    match outcome {
        WaitOutcome::Succeeded => {
            steps.push(Step::ShowScore);
            steps.push(Step::ShowLanScan);
            steps.push(Step::ShowLogs);
            steps.push(Step::Report(Notice::Connected));
            steps.push(Step::Sleep(SUCCESS_GRACE_SECS));
        },
        WaitOutcome::TimedOut => {
            steps.push(Step::Report(Notice::TimedOut));
            steps.push(Step::Stop);
            steps.push(Step::ShowLogs);
            steps.push(Step::Exit(1));
        },
    }
    assert(steps@ =~= wait_closing_plan(outcome));
    proof {
        lemma_exit_status_of_plans();
    }
    steps
}

/// The steps that open a scan in the foreground.
pub fn foreground_scan_opening_steps() -> (steps: Vec<Step>)
    ensures
        steps@ == scan_opening_plan(),
{
    let mut steps: Vec<Step> = Vec::new();
    steps.push(Step::PointScan);
    steps.push(Step::Sleep(GATEWAY_SETTLE_SECS));
    assert(steps@ =~= scan_opening_plan());
    steps
}

/// The steps of a scan in the foreground, from what the engine's first
/// answer says of the operator's consent.
pub fn foreground_scan_steps(consent_given: bool) -> (steps: Vec<Step>)
    ensures
        steps@ == scan_plan(consent_given),
        steps@.contains(Step::GrantConsent) <==> !consent_given,
{
    let mut steps: Vec<Step> = Vec::new();
    if !consent_given {
        steps.push(Step::GrantConsent);
    }
    steps.push(Step::RequestScan);
    steps.push(Step::Sleep(POLL_INTERVAL_SECS));
    steps.push(Step::ShowDevices);
    assert(steps@ =~= scan_plan(consent_given));
    proof {
        if !consent_given {
            assert(steps@[0] == Step::GrantConsent);
        }
    }
    steps
}

/// The exit status of each controller operation: 1 after a failed launch, a
/// stale worker or a wait that timed out, 0 otherwise. A record without a
/// worker is no stale worker.
pub proof fn lemma_exit_status_of_plans()
    ensures
        exit_status(start_plan()) == 0,
        forall|platform: Platform, pid: u32| #[trigger]
            exit_status(launched_plan(platform, Ok(pid))) == 0,
        forall|platform: Platform, e: LaunchError| #[trigger]
            exit_status(launched_plan(platform, Err(e))) == 1,
        forall|state: StateView, platform: Platform| #[trigger]
            exit_status(stop_plan(state, platform)) == 0,
        forall|pid: u32| #[trigger] exit_status(status_plan(Liveness::Alive(pid))) == 0,
        forall|pid: u32| #[trigger] exit_status(status_plan(Liveness::Stale(pid))) == 1,
        exit_status(status_plan(Liveness::NotRunning)) == 0,
        exit_status(wait_closing_plan(WaitOutcome::Succeeded)) == 0,
        exit_status(wait_closing_plan(WaitOutcome::TimedOut)) == 1,
{
    reveal_with_fuel(exit_status, 8);
}

/// A wait on a worker that never connects polls once for each started poll
/// interval of its timeout, so it has slept for at least the timeout and for
/// less than one interval more when it gives up.
pub proof fn lemma_polls_until_timeout(timeout: u64)
    ensures
        polls_until_timeout(timeout) == (timeout + POLL_INTERVAL_SECS - 1) / (
        POLL_INTERVAL_SECS as int),
        timeout <= polls_until_timeout(timeout) * POLL_INTERVAL_SECS < timeout
            + POLL_INTERVAL_SECS,
    decreases timeout,
{
    if timeout > 0 {
        lemma_polls_until_timeout(remaining_after_poll(timeout));
    }
}

/// A wait on a record that shows no connection goes on polling while time is
/// left and times out when none is; it never reports success.
pub proof fn lemma_wait_without_connection(state: StateView, remaining: u64)
    requires
        !connected(state),
    ensures
        remaining > 0 ==> wait_decision(state, remaining) == (WaitStep::Poll {
            sleep: POLL_INTERVAL_SECS,
            remaining: remaining_after_poll(remaining),
        }),
        remaining == 0 ==> wait_decision(state, remaining) == WaitStep::Done(WaitOutcome::TimedOut),
        remaining_after_poll(remaining) < remaining || remaining == 0,
{
}

/// The status with which a process ends that carries out the steps.
pub fn exit_code(steps: &Vec<Step>) -> (code: u8)
    ensures
        code == exit_status(steps@),
{
    let mut i: usize = 0;
    assert(steps@.skip(0) =~= steps@);
    while i < steps.len()
        invariant
            i <= steps.len(),
            exit_status(steps@) == exit_status(steps@.skip(i as int)),
        decreases steps.len() - i,
    {
        let ghost rest = steps@.skip(i as int);
        assert(rest[0] == steps@[i as int]);
        assert(rest.drop_first() =~= steps@.skip(i + 1));
        match steps[i] {
            Step::Exit(code) => {
                return code;
            },
            _ => {},
        }
        i += 1;
    }
    assert(steps@.skip(i as int).len() == 0);
    0
}

} // verus!
