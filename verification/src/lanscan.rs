use vstd::prelude::*;
use vstd::string::*;

verus! {

/// Seconds for which a foreground scan lets gateway detection settle before
/// it first asks for devices.
pub const GATEWAY_SETTLE_SECS: u64 = 120;

/// Milliseconds between two looks at a device scan that is under way.
pub const LANSCAN_POLL_MILLIS: u64 = 5000;

/// Milliseconds between two looks at a score computation that is under way.
pub const SCORE_POLL_MILLIS: u64 = 100;

/// The length of a progress bar: progress is given in percent.
pub const PROGRESS_STEPS: u64 = 100;

/// A long-running engine operation that a foreground command watches.
#[derive(Clone, Copy, Debug, PartialEq, Eq, Structural)]
pub enum Watch {
    LanScan,
    Score,
}

/// What a foreground command does next while it watches an operation.
#[derive(Clone, Copy, Debug, PartialEq, Eq, Structural)]
pub enum WatchStep {
    /// Show the progress, sleep, and look again.
    Render { position: u64, sleep_millis: u64 },
    /// The operation has ended: show its result.
    Finished,
}

/// The milliseconds between two looks at an operation.
pub open spec fn poll_millis(watch: Watch) -> u64 {
    match watch {
        Watch::LanScan => LANSCAN_POLL_MILLIS,
        Watch::Score => SCORE_POLL_MILLIS,
    }
}

/// What to do next, from what the engine says of the operation.
pub open spec fn watch_decision(watch: Watch, in_progress: bool, percent: u64) -> WatchStep {
    if in_progress {
        WatchStep::Render { position: percent, sleep_millis: poll_millis(watch) }
    } else {
        WatchStep::Finished
    }
}

/// What a foreground command does next while it watches an operation: it
/// goes on for as long as the engine says that the operation is under way.
pub fn watch_step(watch: Watch, in_progress: bool, percent: u64) -> (step: WatchStep)
    ensures
        step == watch_decision(watch, in_progress, percent),
{
    if in_progress {
        let sleep_millis = match watch {
            Watch::LanScan => LANSCAN_POLL_MILLIS,
            Watch::Score => SCORE_POLL_MILLIS,
        };
        WatchStep::Render { position: percent, sleep_millis }
    } else {
        WatchStep::Finished
    }
}

/// An interface that a scan is pointed at.
#[derive(Clone, Debug, PartialEq, Eq)]
pub struct ScanInterface {
    pub address: String,
    pub prefix: u8,
    pub name: String,
}

/// The mathematical value of a [`ScanInterface`].
pub struct ScanInterfaceView {
    pub address: Seq<char>,
    pub prefix: u8,
    pub name: Seq<char>,
}

impl View for ScanInterface {
    type V = ScanInterfaceView;

    open spec fn view(&self) -> ScanInterfaceView {
        ScanInterfaceView { address: self.address@, prefix: self.prefix, name: self.name@ }
    }
}

/// The interfaces that the engine is told to scan: the one that was named,
/// under a stand-in address that the engine replaces, or none, which lets
/// the engine choose.
pub open spec fn scan_target(interface: Option<Seq<char>>) -> Seq<ScanInterfaceView> {
    match interface {
        Some(name) => seq![ScanInterfaceView { address: "dummy"@, prefix: 24, name }],
        None => Seq::empty(),
    }
}

/// The values of a list of interfaces.
pub open spec fn interfaces_view(v: Seq<ScanInterface>) -> Seq<ScanInterfaceView> {
    v.map_values(|i: ScanInterface| i@)
}

/// The interfaces that the engine is told to scan.
pub fn scan_interfaces(interface: Option<String>) -> (target: Vec<ScanInterface>)
    ensures
        interfaces_view(target@) == scan_target(
            match interface {
                Some(name) => Some(name@),
                None => None,
            },
        ),
{
    let mut target: Vec<ScanInterface> = Vec::new();
    match interface {
        Some(name) => {
            let ghost n = name@;
            target.push(ScanInterface { address: String::from_str("dummy"), prefix: 24, name });
            assert(interfaces_view(target@) =~= scan_target(Some(n)));
        },
        None => {
            assert(interfaces_view(target@) =~= scan_target(None));
        },
    }
    target
}

/// What a scan found out about a device, as far as the summary counts it.
#[derive(Clone, Debug, PartialEq, Eq)]
pub struct DeviceFacts {
    pub has_edamame: bool,
    pub criticality: String,
}

/// The summary of a scan.
#[derive(Clone, Copy, Debug, PartialEq, Eq, Structural)]
pub struct Tally {
    pub with_edamame: usize,
    pub highly_critical: usize,
    pub total: usize,
}

/// Whether a device counts as highly critical.
pub open spec fn is_highly_critical(device: DeviceFacts) -> bool {
    device.criticality@ == "High"@
}

/// The number of devices that run the engine.
pub open spec fn count_with_edamame(devices: Seq<DeviceFacts>) -> nat
    decreases devices.len(),
{
    if devices.len() == 0 {
        0
    } else {
        count_with_edamame(devices.drop_last()) + if devices.last().has_edamame {
            1nat
        } else {
            0nat
        }
    }
}

/// The number of devices that are highly critical.
pub open spec fn count_highly_critical(devices: Seq<DeviceFacts>) -> nat
    decreases devices.len(),
{
    if devices.len() == 0 {
        0
    } else {
        count_highly_critical(devices.drop_last()) + if is_highly_critical(devices.last()) {
            1nat
        } else {
            0nat
        }
    }
}

/// Neither count exceeds the number of devices.
pub proof fn lemma_counts_bounded(devices: Seq<DeviceFacts>)
    ensures
        count_with_edamame(devices) <= devices.len(),
        count_highly_critical(devices) <= devices.len(),
    decreases devices.len(),
{
    if devices.len() > 0 {
        lemma_counts_bounded(devices.drop_last());
    }
}

/// Counts the devices that run the engine and those that are highly
/// critical.
pub fn tally_devices(devices: &Vec<DeviceFacts>) -> (tally: Tally)
    ensures
        tally.total == devices@.len(),
        tally.with_edamame == count_with_edamame(devices@),
        tally.highly_critical == count_highly_critical(devices@),
{
    let high = String::from_str("High");
    let mut with_edamame: usize = 0;
    let mut highly_critical: usize = 0;
    let mut i: usize = 0;
    while i < devices.len()
        invariant
            i <= devices.len(),
            high@ == "High"@,
            with_edamame == count_with_edamame(devices@.take(i as int)),
            highly_critical == count_highly_critical(devices@.take(i as int)),
        decreases devices.len() - i,
    {
        proof {
            let next = devices@.take(i + 1);
            assert(next.drop_last() =~= devices@.take(i as int));
            assert(next.last() == devices@[i as int]);
            lemma_counts_bounded(next);
        }
        if devices[i].has_edamame {
            with_edamame += 1;
        }
        if devices[i].criticality == high {
            highly_critical += 1;
        }
        i += 1;
    }
    assert(devices@.take(i as int) =~= devices@);
    Tally { with_edamame, highly_critical, total: devices.len() }
}

} // verus!
