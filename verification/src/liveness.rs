use crate::state::{State, StateView};
use vstd::prelude::*;

verus! {

/// What is known of the worker that a record names.
#[derive(Clone, Copy, Debug, PartialEq, Eq, Structural)]
pub enum Liveness {
    /// The record names no worker.
    NotRunning,
    /// The record names a worker, and a process has its identifier.
    Alive(u32),
    /// The record names a worker, and no process has its identifier.
    Stale(u32),
}

/// What a record and one look at the process table say of the worker. The
/// look counts only where the record names a worker.
pub open spec fn liveness_of(state: StateView, found: bool) -> Liveness {
    match state.pid {
        None => Liveness::NotRunning,
        Some(pid) => if found {
            Liveness::Alive(pid)
        } else {
            Liveness::Stale(pid)
        },
    }
}

/// `sysinfo::System::new_all`, `refresh_all` and `process`: whether the
/// process table, read at this moment, has a process with the identifier.
/// The answer is that of the moment, so nothing is claimed of it.
#[verifier::external_body]
fn pid_exists(pid: u32) -> bool {
    let mut system = sysinfo::System::new_all();
    system.refresh_all();
    system.process(sysinfo::Pid::from_u32(pid)).is_some()
}

/// What a record and one look at the process table say of the worker.
pub fn classify(state: &State, found: bool) -> (l: Liveness)
    ensures
        l == liveness_of(state@, found),
{
    match state.pid {
        None => Liveness::NotRunning,
        Some(pid) => if found {
            Liveness::Alive(pid)
        } else {
            Liveness::Stale(pid)
        },
    }
}

/// Whether a process with the identifier exists at this moment. The process
/// table is read anew at every call.
pub fn is_alive(worker_id: u32) -> bool {
    pid_exists(worker_id)
}

/// Looks the recorded worker up in the process table. A record without a
/// worker is answered without a look.
pub fn probe(state: &State) -> (l: Liveness)
    ensures
        exists|found: bool| l == liveness_of(state@, found),
        state@.pid is None ==> l == Liveness::NotRunning,
{
    match state.pid {
        None => {
            assert(Liveness::NotRunning == liveness_of(state@, false));
            Liveness::NotRunning
        },
        Some(pid) => {
            let found = pid_exists(pid);
            classify(state, found)
        },
    }
}

} // verus!
