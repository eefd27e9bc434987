use crate::controller::{exit_status, launched_plan, status_plan, stop_plan, Step};
use crate::launcher::launched_state;
use crate::liveness::{liveness_of, Liveness};
use crate::state::{empty_state, identity_of, loaded, Platform, StateView, StorageError};
use crate::store::cleared;
use crate::worker::{requests, step_of, ActionView, EventView, Stage, WorkerView};
use vstd::prelude::*;

verus! {

/// A stop of a recorded worker clears the record and never asks for the
/// process to be killed. The worker, when it next loads, finds the empty
/// record, asks for its exit with status 0 and writes nothing, so the store
/// stays as the stop left it: empty.
pub proof fn lemma_stop_ends_the_worker(
    state: StateView,
    before: Option<Seq<char>>,
    w: WorkerView,
    rest: Seq<EventView>,
)
    requires
        identity_of(state, w.platform) is Some,
        w.stage == Stage::LoadingRecord,
    ensures
        stop_plan(state, w.platform).contains(Step::ClearRecord),
        exit_status(stop_plan(state, w.platform)) == 0,
        loaded(cleared(before)) == Ok::<StateView, StorageError>(empty_state()),
        forall|i: int|
            0 <= i <= rest.len() ==> (#[trigger] requests(w, events_after_clear(rest))[i])
                == ActionView::Exit(0),
{
    let plan = stop_plan(state, w.platform);
    assert(plan[1] == Step::ClearRecord);
    crate::controller::lemma_exit_status_of_plans();
    crate::worker::lemma_cleared_record_ends_worker(w, empty_state(), rest);
}

/// What reaches a worker that loads right after a clear: the empty record,
/// then `rest`.
pub open spec fn events_after_clear(rest: Seq<EventView>) -> Seq<EventView> {
    seq![EventView::Loaded(empty_state())] + rest
}

/// After a stop the store is empty and stays so, so a status report loads
/// the empty record: it says that nothing is running and ends with status
/// 0, whatever the process table holds.
pub proof fn lemma_status_after_stop(before: Option<Seq<char>>, found: bool)
    ensures
        loaded(cleared(before)) == Ok::<StateView, StorageError>(empty_state()),
        liveness_of(empty_state(), found) == Liveness::NotRunning,
        exit_status(status_plan(Liveness::NotRunning)) == 0,
{
    crate::controller::lemma_exit_status_of_plans();
}

/// The record that a start writes names the worker on either platform, so
/// the worker goes on after its first load of it, and a status report finds
/// a worker to look for.
pub proof fn lemma_started_worker_goes_on(
    platform: Platform,
    pid: u32,
    handle: u64,
    user: Seq<char>,
    domain: Seq<char>,
    w: WorkerView,
)
    requires
        w.stage == Stage::LoadingRecord,
        w.platform == platform,
    ensures
        launched_plan(platform, Ok(pid)).contains(Step::SaveRecord),
        identity_of(launched_state(pid, Some(handle), user, domain), platform) is Some,
        identity_of(launched_state(pid, None, user, domain), Platform::Posix) is Some,
        step_of(
            w,
            EventView::Loaded(launched_state(pid, Some(handle), user, domain)),
        ).0.stage == Stage::SavingRecord,
        liveness_of(launched_state(pid, Some(handle), user, domain), true) == Liveness::Alive(pid),
{
    assert(launched_plan(platform, Ok(pid))[1] == Step::SaveRecord);
}

} // verus!
