//! What holds of the supervisor over whole histories of operations.

use crate::error::SidecarError;
use crate::readiness::{lemma_ready_needs_healthy_probe, wait_end, WaitEnd, MAX_ATTEMPTS};
use crate::sidecar::ManagerView;
use vstd::prelude::*;

verus! {

/// One operation on a supervisor, as far as the slot for the handle goes.
pub enum LifecycleOp<H> {
    /// A start; the launch, if it comes to one, ends as given.
    Start(Result<H, String>),
    /// A stop.
    Stop,
    /// An operation that leaves the slot alone: a query of the state, a
    /// remote call, a wait.
    Other,
}

/// The state after one operation.
pub open spec fn after<H>(state: ManagerView<H>, op: LifecycleOp<H>) -> ManagerView<H> {
    match op {
        LifecycleOp::Start(spawned) => state.start(spawned).0,
        LifecycleOp::Stop => state.stopped(),
        LifecycleOp::Other => state,
    }
}

/// The state after a history of operations, the first one first.
pub open spec fn after_all<H>(state: ManagerView<H>, ops: Seq<LifecycleOp<H>>) -> ManagerView<H>
    decreases ops.len(),
{
    if ops.len() == 0 {
        state
    } else {
        after_all(after(state, ops[0]), ops.drop_first())
    }
}

/// Whether a history holds no stop.
pub open spec fn without_stop<H>(ops: Seq<LifecycleOp<H>>) -> bool {
    forall|i: int| 0 <= i < ops.len() ==> !(#[trigger] ops[i] is Stop)
}

/// How a reconnect ends once the probes of its wait are in: `None` while the
/// wait is undecided.
pub open spec fn reconnect_end<H>(
    state: ManagerView<H>,
    spawned: Result<H, String>,
    probes: Seq<bool>,
) -> Option<Result<(), SidecarError>> {
    match state.reconnect(spawned).1 {
        Err(e) => Some(Err(e)),
        Ok(_) => match wait_end(probes) {
            WaitEnd::Ready { .. } => Some(Ok(())),
            WaitEnd::NotReady { .. } => Some(Err(SidecarError::NotReady)),
            WaitEnd::Undecided { .. } => None,
        },
    }
}

/// A running supervisor stays as it is through every history without a
/// stop: it keeps its handle, and starts in the history launch nothing.
pub proof fn lemma_running_until_stopped<H>(state: ManagerView<H>, ops: Seq<LifecycleOp<H>>)
    requires
        state.is_running(),
        without_stop(ops),
    ensures
        after_all(state, ops) == state,
    decreases ops.len(),
{
    if ops.len() > 0 {
        assert(!(ops[0] is Stop));
        let rest = ops.drop_first();
        assert forall|i: int| 0 <= i < rest.len() implies !(#[trigger] rest[i] is Stop) by {
            assert(rest[i] == ops[i + 1]);
        }
        lemma_running_until_stopped(after(state, ops[0]), rest);
    }
}

/// A start after a start that succeeded, with no stop between the two, is
/// refused with `AlreadyRunning`, whatever else happened between them, and
/// leaves the first start's process in place.
pub proof fn lemma_second_start_is_refused<H>(
    state: ManagerView<H>,
    first: Result<H, String>,
    between: Seq<LifecycleOp<H>>,
    second: Result<H, String>,
)
    requires
        state.start(first).1 is Ok,
        without_stop(between),
    ensures
        after_all(state.start(first).0, between).start(second) == (
            state.start(first).0,
            Err::<(), SidecarError>(SidecarError::AlreadyRunning),
        ),
{
    lemma_running_until_stopped(state.start(first).0, between);
}

/// A stop leaves the supervisor stopped, and a second stop changes nothing.
pub proof fn lemma_stop_is_idempotent<H>(state: ManagerView<H>)
    ensures
        !state.stopped().is_running(),
        state.stopped().stopped() == state.stopped(),
{
}

/// A start succeeds exactly from the stopped state with a launch that
/// succeeded; the supervisor is running right after it, with the handle of
/// that launch, and a start that failed leaves the state as it was.
pub proof fn lemma_running_after_start<H>(state: ManagerView<H>, spawned: Result<H, String>)
    ensures
        state.start(spawned).1 is Ok <==> !state.is_running() && spawned is Ok,
        state.start(spawned).1 is Ok ==> state.start(spawned).0.is_running() && state.start(
            spawned,
        ).0.child == Some(spawned->Ok_0),
        state.start(spawned).1 is Err ==> state.start(spawned).0 == state,
{
}

/// A reconnect that ends in success has put the new launch's handle in the
/// place of whatever was held before, and its wait saw a healthy probe within
/// the budget. One that fails at the launch leaves the supervisor stopped.
pub proof fn lemma_reconnect_success_needs_health<H>(
    state: ManagerView<H>,
    spawned: Result<H, String>,
    probes: Seq<bool>,
)
    ensures
        reconnect_end(state, spawned, probes) == Some(Ok::<(), SidecarError>(())) ==> {
            &&& spawned is Ok
            &&& state.reconnect(spawned).0.child == Some(spawned->Ok_0)
            &&& exists|i: int| 0 <= i < probes.len() && i < MAX_ATTEMPTS && probes[i]
        },
        spawned matches Err(reason) ==> {
            &&& reconnect_end(state, spawned, probes) == Some(
                Err::<(), SidecarError>(SidecarError::SpawnFailed(reason)),
            )
            &&& !state.reconnect(spawned).0.is_running()
        },
{
    if reconnect_end(state, spawned, probes) == Some(Ok::<(), SidecarError>(())) {
        lemma_ready_needs_healthy_probe(probes);
    }
}

} // verus!
