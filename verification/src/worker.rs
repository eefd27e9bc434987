use crate::state::{identity_of, Platform, State, StateView};
use vstd::prelude::*;
use vstd::string::*;

verus! {

/// Seconds between two rounds of the worker, and between two looks at a scan
/// that has not ended.
pub const WORKER_INTERVAL_SECS: u64 = 5;

/// The states through which the worker passes.
#[derive(Clone, Copy, Debug, PartialEq, Eq, Structural)]
pub enum Phase {
    Initializing,
    ScanningIfEnabled,
    ComputingScore,
    Connecting,
    Syncing,
    Terminated,
}

/// Where the worker stands: what it asked for last and is waiting to hear of.
#[derive(Clone, Copy, Debug, PartialEq, Eq, Structural)]
pub enum Stage {
    /// Nothing was asked for yet.
    Created,
    UpdatingThreats,
    SettingCredentials,
    SettingNetwork,
    GrantingConsent,
    ReadingGateway,
    GatewayPause,
    RequestingScan,
    ReadingScan,
    ScanPause,
    ComputingScore,
    Connecting,
    ReadingConnection,
    LoadingRecord,
    SavingRecord,
    SyncPause,
    /// The worker has ended, with this exit status.
    Terminated(u8),
}

/// What came of the thing that the worker asked for last.
#[derive(Clone, Debug, PartialEq, Eq)]
pub enum Event {
    /// The worker process has started.
    Started,
    /// What was asked for is done and gives nothing back.
    Done,
    /// The engine's marker of the last gateway scan, empty before the first.
    GatewayScan(String),
    /// Whether the engine is still scanning devices.
    ScanProgress(bool),
    /// The engine's view of the connection.
    Connection { is_success: bool, last_network_activity: String },
    /// The record as it was loaded from the store.
    Loaded(State),
    /// The record was written.
    Saved,
    /// The store could not be read or written.
    StorageFailed,
}

/// The mathematical value of an [`Event`].
pub enum EventView {
    Started,
    Done,
    GatewayScan(Seq<char>),
    ScanProgress(bool),
    Connection { is_success: bool, last_network_activity: Seq<char> },
    Loaded(StateView),
    Saved,
    StorageFailed,
}

impl View for Event {
    type V = EventView;

    open spec fn view(&self) -> EventView {
        match self {
            Event::Started => EventView::Started,
            Event::Done => EventView::Done,
            Event::GatewayScan(t) => EventView::GatewayScan(t@),
            Event::ScanProgress(p) => EventView::ScanProgress(*p),
            Event::Connection { is_success, last_network_activity } => EventView::Connection {
                is_success: *is_success,
                last_network_activity: last_network_activity@,
            },
            Event::Loaded(s) => EventView::Loaded(s@),
            Event::Saved => EventView::Saved,
            Event::StorageFailed => EventView::StorageFailed,
        }
    }
}

/// What the worker asks for next.
#[derive(Clone, Debug, PartialEq, Eq)]
pub enum Action {
    UpdateThreats,
    SetCredentials { user: String, domain: String, pin: String },
    /// Point the scan at one interface, or let the engine choose.
    SetNetwork { interface: Option<String> },
    GrantConsent,
    ReadGatewayScan,
    Sleep(u64),
    RequestScan,
    ReadScanProgress,
    ComputeScore,
    ConnectDomain,
    ReadConnection,
    LoadRecord,
    SaveRecord(State),
    /// End the process with this status.
    Exit(u8),
}

/// The mathematical value of an [`Action`].
pub enum ActionView {
    UpdateThreats,
    SetCredentials { user: Seq<char>, domain: Seq<char>, pin: Seq<char> },
    SetNetwork { interface: Option<Seq<char>> },
    GrantConsent,
    ReadGatewayScan,
    Sleep(u64),
    RequestScan,
    ReadScanProgress,
    ComputeScore,
    ConnectDomain,
    ReadConnection,
    LoadRecord,
    SaveRecord(StateView),
    Exit(u8),
}

/// The text of an optional string.
pub open spec fn optional_text(s: Option<String>) -> Option<Seq<char>> {
    match s {
        Some(t) => Some(t@),
        None => None,
    }
}

impl View for Action {
    type V = ActionView;

    open spec fn view(&self) -> ActionView {
        match self {
            Action::UpdateThreats => ActionView::UpdateThreats,
            Action::SetCredentials { user, domain, pin } => ActionView::SetCredentials {
                user: user@,
                domain: domain@,
                pin: pin@,
            },
            Action::SetNetwork { interface } => ActionView::SetNetwork {
                interface: optional_text(*interface),
            },
            Action::GrantConsent => ActionView::GrantConsent,
            Action::ReadGatewayScan => ActionView::ReadGatewayScan,
            Action::Sleep(secs) => ActionView::Sleep(*secs),
            Action::RequestScan => ActionView::RequestScan,
            Action::ReadScanProgress => ActionView::ReadScanProgress,
            Action::ComputeScore => ActionView::ComputeScore,
            Action::ConnectDomain => ActionView::ConnectDomain,
            Action::ReadConnection => ActionView::ReadConnection,
            Action::LoadRecord => ActionView::LoadRecord,
            Action::SaveRecord(s) => ActionView::SaveRecord(s@),
            Action::Exit(code) => ActionView::Exit(*code),
        }
    }
}

/// The worker: what it was started with, where it stands, and what the
/// engine last said of the connection.
#[derive(Clone, Debug, PartialEq, Eq)]
pub struct Worker {
    pub stage: Stage,
    pub platform: Platform,
    pub user: String,
    pub domain: String,
    pub pin: String,
    pub lan_scanning: bool,
    /// The interface to scan, where the engine is not to choose.
    pub interface: Option<String>,
    pub is_success: bool,
    pub last_network_activity: String,
}

/// The mathematical value of a [`Worker`].
pub struct WorkerView {
    pub stage: Stage,
    pub platform: Platform,
    pub user: Seq<char>,
    pub domain: Seq<char>,
    pub pin: Seq<char>,
    pub lan_scanning: bool,
    pub interface: Option<Seq<char>>,
    pub is_success: bool,
    pub last_network_activity: Seq<char>,
}

impl View for Worker {
    type V = WorkerView;

    open spec fn view(&self) -> WorkerView {
        WorkerView {
            stage: self.stage,
            platform: self.platform,
            user: self.user@,
            domain: self.domain@,
            pin: self.pin@,
            lan_scanning: self.lan_scanning,
            interface: optional_text(self.interface),
            is_success: self.is_success,
            last_network_activity: self.last_network_activity@,
        }
    }
}

/// The named state to which a stage belongs.
pub open spec fn phase_of(stage: Stage) -> Phase {
    match stage {
        Stage::Created | Stage::UpdatingThreats | Stage::SettingCredentials => Phase::Initializing,
        Stage::SettingNetwork
        | Stage::GrantingConsent
        | Stage::ReadingGateway
        | Stage::GatewayPause
        | Stage::RequestingScan
        | Stage::ReadingScan
        | Stage::ScanPause => Phase::ScanningIfEnabled,
        Stage::ComputingScore => Phase::ComputingScore,
        Stage::Connecting => Phase::Connecting,
        Stage::ReadingConnection
        | Stage::LoadingRecord
        | Stage::SavingRecord
        | Stage::SyncPause => Phase::Syncing,
        Stage::Terminated(_) => Phase::Terminated,
    }
}

/// The place of a named state in the order in which the worker passes
/// through them.
pub open spec fn phase_rank(phase: Phase) -> nat {
    match phase {
        Phase::Initializing => 0,
        Phase::ScanningIfEnabled => 1,
        Phase::ComputingScore => 2,
        Phase::Connecting => 3,
        Phase::Syncing => 4,
        Phase::Terminated => 5,
    }
}

/// The record to save in a round: the record as loaded, with the engine's
/// latest word on the connection in place of what it held.
pub open spec fn synced_record(loaded: StateView, w: WorkerView) -> StateView {
    StateView {
        is_success: w.is_success,
        last_network_activity: w.last_network_activity,
        ..loaded
    }
}

/// The worker at another stage.
pub open spec fn at_stage(w: WorkerView, stage: Stage) -> WorkerView {
    WorkerView { stage, ..w }
}

/// The worker after a failure that ends it, and the exit that it asks for.
pub open spec fn failed(w: WorkerView) -> (WorkerView, ActionView) {
    (at_stage(w, Stage::Terminated(1)), ActionView::Exit(1))
}

/// One step of the worker: from where it stands and what came of its last
/// request, to where it stands next and what it asks for. A record that is
/// loaded without the worker's identity ends the worker with status 0, and
/// nothing is written any more. An event that does not answer the last
/// request ends the worker with status 1.
pub open spec fn step_of(w: WorkerView, e: EventView) -> (WorkerView, ActionView) {
    match (w.stage, e) {
        (Stage::Terminated(code), _) => (w, ActionView::Exit(code)),
        (Stage::Created, EventView::Started) => (
            at_stage(w, Stage::UpdatingThreats),
            ActionView::UpdateThreats,
        ),
        (Stage::UpdatingThreats, EventView::Done) => (
            at_stage(w, Stage::SettingCredentials),
            ActionView::SetCredentials { user: w.user, domain: w.domain, pin: w.pin },
        ),
        (Stage::SettingCredentials, EventView::Done) => if w.lan_scanning {
            (at_stage(w, Stage::SettingNetwork), ActionView::SetNetwork { interface: w.interface })
        } else {
            (at_stage(w, Stage::ComputingScore), ActionView::ComputeScore)
        },
        (Stage::SettingNetwork, EventView::Done) => (
            at_stage(w, Stage::GrantingConsent),
            ActionView::GrantConsent,
        ),
        (Stage::GrantingConsent, EventView::Done) => (
            at_stage(w, Stage::ReadingGateway),
            ActionView::ReadGatewayScan,
        ),
        (Stage::ReadingGateway, EventView::GatewayScan(marker)) => if marker.len() == 0 {
            (at_stage(w, Stage::GatewayPause), ActionView::Sleep(WORKER_INTERVAL_SECS))
        } else {
            (at_stage(w, Stage::RequestingScan), ActionView::RequestScan)
        },
        (Stage::GatewayPause, EventView::Done) => (
            at_stage(w, Stage::ReadingGateway),
            ActionView::ReadGatewayScan,
        ),
        (Stage::RequestingScan, EventView::Done) => (
            at_stage(w, Stage::ReadingScan),
            ActionView::ReadScanProgress,
        ),
        (Stage::ReadingScan, EventView::ScanProgress(in_progress)) => if in_progress {
            (at_stage(w, Stage::ScanPause), ActionView::Sleep(WORKER_INTERVAL_SECS))
        } else {
            (at_stage(w, Stage::ComputingScore), ActionView::ComputeScore)
        },
        (Stage::ScanPause, EventView::Done) => (
            at_stage(w, Stage::ReadingScan),
            ActionView::ReadScanProgress,
        ),
        (Stage::ComputingScore, EventView::Done) => (
            at_stage(w, Stage::Connecting),
            ActionView::ConnectDomain,
        ),
        (Stage::Connecting, EventView::Done) => (
            at_stage(w, Stage::ReadingConnection),
            ActionView::ReadConnection,
        ),
        (Stage::ReadingConnection, EventView::Connection { is_success, last_network_activity }) => (
            WorkerView { stage: Stage::LoadingRecord, is_success, last_network_activity, ..w },
            ActionView::LoadRecord,
        ),
        (Stage::LoadingRecord, EventView::Loaded(record)) => if identity_of(record, w.platform)
            is None {
            (at_stage(w, Stage::Terminated(0)), ActionView::Exit(0))
        } else {
            (at_stage(w, Stage::SavingRecord), ActionView::SaveRecord(synced_record(record, w)))
        },
        (Stage::SavingRecord, EventView::Saved) => (
            at_stage(w, Stage::SyncPause),
            ActionView::Sleep(WORKER_INTERVAL_SECS),
        ),
        (Stage::SyncPause, EventView::Done) => (
            at_stage(w, Stage::ReadingConnection),
            ActionView::ReadConnection,
        ),
        _ => failed(w),
    }
}

/// The worker after it has taken the events in turn.
pub open spec fn after(w: WorkerView, events: Seq<EventView>) -> WorkerView
    decreases events.len(),
{
    if events.len() == 0 {
        w
    } else {
        after(step_of(w, events[0]).0, events.drop_first())
    }
}

/// What the worker asks for as it takes the events in turn, one request for
/// each event.
pub open spec fn requests(w: WorkerView, events: Seq<EventView>) -> Seq<ActionView>
    decreases events.len(),
{
    if events.len() == 0 {
        Seq::empty()
    } else {
        seq![step_of(w, events[0]).1] + requests(step_of(w, events[0]).0, events.drop_first())
    }
}

/// A worker that has ended stays as it is and asks for nothing but its exit.
pub proof fn lemma_terminated_is_final(w: WorkerView, e: EventView)
    requires
        w.stage is Terminated,
    ensures
        step_of(w, e).0 == w,
        step_of(w, e).1 == ActionView::Exit(w.stage->Terminated_0),
{
}

/// Whatever events reach a worker that has ended, each of its requests is
/// its exit: it writes nothing and sleeps no more.
pub proof fn lemma_requests_after_end(w: WorkerView, events: Seq<EventView>)
    requires
        w.stage is Terminated,
    ensures
        requests(w, events).len() == events.len(),
        forall|i: int|
            0 <= i < events.len() ==> #[trigger] requests(w, events)[i] == ActionView::Exit(
                w.stage->Terminated_0,
            ),
        after(w, events) == w,
    decreases events.len(),
{
    if events.len() > 0 {
        lemma_terminated_is_final(w, events[0]);
        lemma_requests_after_end(w, events.drop_first());
    }
}

/// The worker writes the record only in answer to a load of a record that
/// names it: each save is made of the record that was just loaded, with the
/// engine's latest word on the connection and nothing else changed.
pub proof fn lemma_save_follows_load(w: WorkerView, e: EventView)
    requires
        step_of(w, e).1 is SaveRecord,
    ensures
        w.stage == Stage::LoadingRecord,
        e is Loaded,
        identity_of(e->Loaded_0, w.platform) is Some,
        step_of(w, e).1 == ActionView::SaveRecord(synced_record(e->Loaded_0, w)),
        synced_record(e->Loaded_0, w).pid == (e->Loaded_0).pid,
        synced_record(e->Loaded_0, w).handle == (e->Loaded_0).handle,
        synced_record(e->Loaded_0, w).connected_user == (e->Loaded_0).connected_user,
        synced_record(e->Loaded_0, w).connected_domain == (e->Loaded_0).connected_domain,
        synced_record(e->Loaded_0, w).is_success == w.is_success,
        synced_record(e->Loaded_0, w).last_network_activity == w.last_network_activity,
{
}

/// Once the worker loads a record that names no worker any more, it ends at
/// once with status 0: it asks for its exit in answer to that load, and
/// whatever events follow, every request from then on is its exit. It
/// writes nothing and sleeps no more.
pub proof fn lemma_cleared_record_ends_worker(
    w: WorkerView,
    record: StateView,
    rest: Seq<EventView>,
)
    requires
        w.stage == Stage::LoadingRecord,
        identity_of(record, w.platform) is None,
    ensures
        requests(w, seq![EventView::Loaded(record)] + rest).len() == rest.len() + 1,
        forall|i: int|
            0 <= i <= rest.len() ==> (#[trigger] requests(
                w,
                seq![EventView::Loaded(record)] + rest,
            )[i]) == ActionView::Exit(0),
        after(w, seq![EventView::Loaded(record)] + rest).stage == Stage::Terminated(0),
{
    let events = seq![EventView::Loaded(record)] + rest;
    assert(events[0] == EventView::Loaded(record));
    assert(events.drop_first() =~= rest);
    let w1 = step_of(w, events[0]).0;
    assert(w1.stage == Stage::Terminated(0));
    lemma_requests_after_end(w1, rest);
    let tail = requests(w1, rest);
    assert(after(w, events) == after(w1, rest));
    assert forall|i: int| 0 <= i <= rest.len() implies (#[trigger] requests(w, events)[i])
        == ActionView::Exit(0) by {
        if i >= 1 {
            assert(requests(w, events)[i] == tail[i - 1]);
        }
    }
}

/// The worker never asks for a save of a record that names no worker: a
/// record that the controller has cleared stays cleared.
pub proof fn lemma_no_save_without_identity(w: WorkerView, e: EventView)
    requires
        step_of(w, e).1 is SaveRecord,
    ensures
        identity_of(step_of(w, e).1->SaveRecord_0, w.platform) is Some,
{
}

/// One round of the worker while its record names it: it reads the
/// connection, loads the record, saves it with the engine's latest word,
/// sleeps for one interval and starts the next round. The load is the last
/// thing before the save, and there is one sleep to a round.
pub proof fn lemma_round(
    w: WorkerView,
    is_success: bool,
    last_network_activity: Seq<char>,
    record: StateView,
)
    requires
        w.stage == Stage::ReadingConnection,
        identity_of(record, w.platform) is Some,
    ensures
        requests(
            w,
            seq![
                EventView::Connection { is_success, last_network_activity },
                EventView::Loaded(record),
                EventView::Saved,
                EventView::Done,
            ],
        ) == seq![
            ActionView::LoadRecord,
            ActionView::SaveRecord(
                StateView { is_success, last_network_activity, ..record },
            ),
            ActionView::Sleep(WORKER_INTERVAL_SECS),
            ActionView::ReadConnection,
        ],
        after(
            w,
            seq![
                EventView::Connection { is_success, last_network_activity },
                EventView::Loaded(record),
                EventView::Saved,
                EventView::Done,
            ],
        ) == (WorkerView { is_success, last_network_activity, ..w }),
{
    let events = seq![
        EventView::Connection { is_success, last_network_activity },
        EventView::Loaded(record),
        EventView::Saved,
        EventView::Done,
    ];
    let e1 = events.drop_first();
    let e2 = e1.drop_first();
    let e3 = e2.drop_first();
    let e4 = e3.drop_first();
    assert(e4.len() == 0);
    let w1 = step_of(w, events[0]).0;
    let w2 = step_of(w1, e1[0]).0;
    let w3 = step_of(w2, e2[0]).0;
    let w4 = step_of(w3, e3[0]).0;
    assert(requests(w4, e4) =~= Seq::<ActionView>::empty());
    assert(requests(w3, e3) =~= seq![ActionView::ReadConnection]);
    assert(requests(w2, e2) =~= seq![
        ActionView::Sleep(WORKER_INTERVAL_SECS),
        ActionView::ReadConnection,
    ]);
    assert(requests(w1, e1) =~= seq![
        ActionView::SaveRecord(StateView { is_success, last_network_activity, ..record }),
        ActionView::Sleep(WORKER_INTERVAL_SECS),
        ActionView::ReadConnection,
    ]);
    assert(requests(w, events) =~= seq![
        ActionView::LoadRecord,
        ActionView::SaveRecord(StateView { is_success, last_network_activity, ..record }),
        ActionView::Sleep(WORKER_INTERVAL_SECS),
        ActionView::ReadConnection,
    ]);
    assert(after(w4, e4) == w4);
    assert(after(w3, e3) == w4);
    assert(after(w2, e2) == w4);
    assert(after(w1, e1) == w4);
}

/// The worker never goes back to an earlier of its named states.
pub proof fn lemma_phase_never_goes_back(w: WorkerView, e: EventView)
    ensures
        phase_rank(phase_of(w.stage)) <= phase_rank(phase_of(step_of(w, e).0.stage)),
{
}

/// A failure of the store ends the worker with status 1, whether it was
/// loading or saving.
pub proof fn lemma_storage_failure_is_fatal(w: WorkerView)
    requires
        w.stage == Stage::LoadingRecord || w.stage == Stage::SavingRecord,
    ensures
        step_of(w, EventView::StorageFailed).0.stage == Stage::Terminated(1),
        step_of(w, EventView::StorageFailed).1 == ActionView::Exit(1),
{
}

impl Worker {
    /// A worker that has asked for nothing yet.
    pub fn new(
        user: String,
        domain: String,
        pin: String,
        lan_scanning: bool,
        interface: Option<String>,
        platform: Platform,
    ) -> (w: Worker)
        ensures
            w@ == (WorkerView {
                stage: Stage::Created,
                platform,
                user: user@,
                domain: domain@,
                pin: pin@,
                lan_scanning,
                interface: optional_text(interface),
                is_success: false,
                last_network_activity: Seq::empty(),
            }),
    {
        Worker {
            stage: Stage::Created,
            platform,
            user,
            domain,
            pin,
            lan_scanning,
            interface,
            is_success: false,
            last_network_activity: String::new(),
        }
    }

    /// The named state in which the worker is.
    pub fn phase(&self) -> (phase: Phase)
        ensures
            phase == phase_of(self@.stage),
    {
        match self.stage {
            Stage::Created | Stage::UpdatingThreats | Stage::SettingCredentials => {
                Phase::Initializing
            },
            Stage::SettingNetwork
            | Stage::GrantingConsent
            | Stage::ReadingGateway
            | Stage::GatewayPause
            | Stage::RequestingScan
            | Stage::ReadingScan
            | Stage::ScanPause => Phase::ScanningIfEnabled,
            Stage::ComputingScore => Phase::ComputingScore,
            Stage::Connecting => Phase::Connecting,
            Stage::ReadingConnection
            | Stage::LoadingRecord
            | Stage::SavingRecord
            | Stage::SyncPause => Phase::Syncing,
            Stage::Terminated(_) => Phase::Terminated,
        }
    }

    fn fail(&mut self) -> (action: Action)
        ensures
            (final(self)@, action@) == failed(old(self)@),
    {
        self.stage = Stage::Terminated(1);
        Action::Exit(1)
    }

    fn go(&mut self, stage: Stage)
        ensures
            final(self)@ == at_stage(old(self)@, stage),
    {
        self.stage = stage;
    }
}

/// One step of the background process: takes what came of the worker's last
/// request and gives its next one. The caller carries the request out and
/// comes back with what came of it, until the request is to exit.
pub fn background_process(worker: &mut Worker, event: Event) -> (action: Action)
    ensures
        (final(worker)@, action@) == step_of(old(worker)@, event@),
{
    match worker.stage {
        Stage::Terminated(code) => Action::Exit(code),
        Stage::Created => match event {
            Event::Started => {
                worker.go(Stage::UpdatingThreats);
                Action::UpdateThreats
            },
            _ => worker.fail(),
        },
        Stage::UpdatingThreats => match event {
            Event::Done => {
                worker.go(Stage::SettingCredentials);
                Action::SetCredentials {
                    user: worker.user.clone(),
                    domain: worker.domain.clone(),
                    pin: worker.pin.clone(),
                }
            },
            _ => worker.fail(),
        },
        Stage::SettingCredentials => match event {
            Event::Done => {
                if worker.lan_scanning {
                    worker.go(Stage::SettingNetwork);
                    let interface = match &worker.interface {
                        Some(name) => Some(name.clone()),
                        None => None,
                    };
                    Action::SetNetwork { interface }
                } else {
                    worker.go(Stage::ComputingScore);
                    Action::ComputeScore
                }
            },
            _ => worker.fail(),
        },
        Stage::SettingNetwork => match event {
            Event::Done => {
                worker.go(Stage::GrantingConsent);
                Action::GrantConsent
            },
            _ => worker.fail(),
        },
        Stage::GrantingConsent => match event {
            Event::Done => {
                worker.go(Stage::ReadingGateway);
                Action::ReadGatewayScan
            },
            _ => worker.fail(),
        },
        Stage::ReadingGateway => match event {
            Event::GatewayScan(marker) => {
                if marker.as_str().is_empty() {
                    worker.go(Stage::GatewayPause);
                    Action::Sleep(WORKER_INTERVAL_SECS)
                } else {
                    worker.go(Stage::RequestingScan);
                    Action::RequestScan
                }
            },
            _ => worker.fail(),
        },
        Stage::GatewayPause => match event {
            Event::Done => {
                worker.go(Stage::ReadingGateway);
                Action::ReadGatewayScan
            },
            _ => worker.fail(),
        },
        Stage::RequestingScan => match event {
            Event::Done => {
                worker.go(Stage::ReadingScan);
                Action::ReadScanProgress
            },
            _ => worker.fail(),
        },
        Stage::ReadingScan => match event {
            Event::ScanProgress(in_progress) => {
                if in_progress {
                    worker.go(Stage::ScanPause);
                    Action::Sleep(WORKER_INTERVAL_SECS)
                } else {
                    worker.go(Stage::ComputingScore);
                    Action::ComputeScore
                }
            },
            _ => worker.fail(),
        },
        Stage::ScanPause => match event {
            Event::Done => {
                worker.go(Stage::ReadingScan);
                Action::ReadScanProgress
            },
            _ => worker.fail(),
        },
        Stage::ComputingScore => match event {
            Event::Done => {
                worker.go(Stage::Connecting);
                Action::ConnectDomain
            },
            _ => worker.fail(),
        },
        Stage::Connecting => match event {
            Event::Done => {
                worker.go(Stage::ReadingConnection);
                Action::ReadConnection
            },
            _ => worker.fail(),
        },
        Stage::ReadingConnection => match event {
            Event::Connection { is_success, last_network_activity } => {
                worker.is_success = is_success;
                worker.last_network_activity = last_network_activity;
                worker.stage = Stage::LoadingRecord;
                Action::LoadRecord
            },
            _ => worker.fail(),
        },
        Stage::LoadingRecord => match event {
            Event::Loaded(record) => {
                if record.identity(worker.platform).is_none() {
                    worker.go(Stage::Terminated(0));
                    return Action::Exit(0);
                }
                let synced = State {
                    pid: record.pid,
                    handle: record.handle,
                    is_success: worker.is_success,
                    connected_domain: record.connected_domain,
                    connected_user: record.connected_user,
                    last_network_activity: worker.last_network_activity.clone(),
                };
                worker.go(Stage::SavingRecord);
                Action::SaveRecord(synced)
            },
            _ => worker.fail(),
        },
        Stage::SavingRecord => match event {
            Event::Saved => {
                worker.go(Stage::SyncPause);
                Action::Sleep(WORKER_INTERVAL_SECS)
            },
            _ => worker.fail(),
        },
        Stage::SyncPause => match event {
            Event::Done => {
                worker.go(Stage::ReadingConnection);
                Action::ReadConnection
            },
            _ => worker.fail(),
        },
    }
}

} // verus!
