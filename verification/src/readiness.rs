//! Waiting for the sidecar to answer: a bounded series of health probes.

use vstd::prelude::*;

verus! {

/// The number of health probes after which the wait is given up.
pub const MAX_ATTEMPTS: u32 = 50;

/// Milliseconds to let pass after a failed probe.
pub const POLL_INTERVAL_MS: u64 = 100;

/// A wait in progress: how many probes have failed so far. Fewer than
/// [`MAX_ATTEMPTS`], or the wait would be over.
#[derive(Debug)]
pub struct ReadinessPoll {
    failed: u32,
}

/// What to do after a probe.
#[derive(Debug)]
pub enum PollStep {
    /// The sidecar answered; `attempts` probes were made, the last one healthy.
    Ready { attempts: u32 },
    /// Let `delay_ms` pass, probe again, and hand the result to `poll`.
    Retry { delay_ms: u64, poll: ReadinessPoll },
    /// Let `delay_ms` pass, then report that the sidecar is not ready.
    GiveUp { delay_ms: u64 },
}

/// The mathematical content of a [`PollStep`].
pub enum StepView {
    Ready { attempts: nat },
    Retry { delay_ms: nat, failed: nat },
    GiveUp { delay_ms: nat },
}

/// How a whole wait ends, given the probes' results in order.
pub enum WaitEnd {
    /// A probe was healthy: the number of probes made, and the milliseconds
    /// spent between them.
    Ready { attempts: nat, waited_ms: nat },
    /// The budget ran out: the number of probes made, and the milliseconds
    /// spent after them.
    NotReady { attempts: nat, waited_ms: nat },
    /// The results ran out before the wait was decided; `failed` probes so far.
    Undecided { failed: nat },
}

/// The step after a probe, for a wait in which `failed` probes have failed.
pub open spec fn step_after(failed: nat, healthy: bool) -> StepView {
    if healthy {
        StepView::Ready { attempts: failed + 1 }
    } else if failed + 1 < MAX_ATTEMPTS {
        StepView::Retry { delay_ms: POLL_INTERVAL_MS as nat, failed: failed + 1 }
    } else {
        StepView::GiveUp { delay_ms: POLL_INTERVAL_MS as nat }
    }
}

/// The end of a wait that has seen `failed` failures and spent `waited_ms`
/// between probes, when the coming probes give `probes`.
pub open spec fn wait_from(failed: nat, waited_ms: nat, probes: Seq<bool>) -> WaitEnd
    decreases probes.len(),
{
    if probes.len() == 0 {
        WaitEnd::Undecided { failed }
    } else {
        match step_after(failed, probes[0]) {
            StepView::Ready { attempts } => WaitEnd::Ready { attempts, waited_ms },
            StepView::Retry { delay_ms, failed: now_failed } => wait_from(
                now_failed,
                waited_ms + delay_ms,
                probes.drop_first(),
            ),
            StepView::GiveUp { delay_ms } => WaitEnd::NotReady {
                attempts: failed + 1,
                waited_ms: waited_ms + delay_ms,
            },
        }
    }
}

/// The end of a fresh wait when the probes give `probes`.
pub open spec fn wait_end(probes: Seq<bool>) -> WaitEnd {
    wait_from(0, 0, probes)
}

impl View for ReadinessPoll {
    type V = nat;

    closed spec fn view(&self) -> nat {
        self.failed as nat
    }
}

impl View for PollStep {
    type V = StepView;

    open spec fn view(&self) -> StepView {
        match self {
            PollStep::Ready { attempts } => StepView::Ready { attempts: *attempts as nat },
            PollStep::Retry { delay_ms, poll } => StepView::Retry {
                delay_ms: *delay_ms as nat,
                failed: poll@,
            },
            PollStep::GiveUp { delay_ms } => StepView::GiveUp { delay_ms: *delay_ms as nat },
        }
    }
}

impl ReadinessPoll {
    #[verifier::type_invariant]
    spec fn within_budget(self) -> bool {
        self.failed < MAX_ATTEMPTS
    }

    /// A wait before its first probe.
    pub fn new() -> (poll: ReadinessPoll)
        ensures
            poll@ == 0,
    {
        ReadinessPoll { failed: 0 }
    }

    /// The number of probes that have failed so far.
    pub fn failed_attempts(&self) -> (failed: u32)
        ensures
            failed == self@,
            failed < MAX_ATTEMPTS,
    {
        proof {
            use_type_invariant(self);
        }
        self.failed
    }

    /// Takes the result of one probe and says how the wait goes on: it is over
    /// at the first healthy probe, and at the failure that uses up the budget.
    pub fn record(self, healthy: bool) -> (step: PollStep)
        ensures
            step@ == step_after(self@, healthy),
    {
        proof {
            use_type_invariant(&self);
        }
        let made: u32 = self.failed + 1;
        if healthy {
            PollStep::Ready { attempts: made }
        } else if made < MAX_ATTEMPTS {
            PollStep::Retry { delay_ms: POLL_INTERVAL_MS, poll: ReadinessPoll { failed: made } }
        } else {
            PollStep::GiveUp { delay_ms: POLL_INTERVAL_MS }
        }
    }
}

/// As long as every probe fails, a wait stays undecided and has slept once
/// per failure; it turns into `NotReady` at the failure that uses up the budget.
proof fn lemma_all_failing(failed: nat, waited_ms: nat, probes: Seq<bool>)
    requires
        failed < MAX_ATTEMPTS,
        forall|i: int| 0 <= i < probes.len() && failed + i < MAX_ATTEMPTS ==> !probes[i],
    ensures
        wait_from(failed, waited_ms, probes) == if failed + probes.len() < MAX_ATTEMPTS {
            WaitEnd::Undecided { failed: failed + probes.len() }
        } else {
            WaitEnd::NotReady {
                attempts: MAX_ATTEMPTS as nat,
                waited_ms: (waited_ms + (MAX_ATTEMPTS - failed) * POLL_INTERVAL_MS) as nat,
            }
        },
    decreases probes.len(),
{
    if probes.len() > 0 {
        assert(!probes[0]);
        if failed + 1 < MAX_ATTEMPTS {
            let rest = probes.drop_first();
            assert forall|i: int| 0 <= i < rest.len() && failed + 1 + i < MAX_ATTEMPTS implies !rest[i] by {
                assert(rest[i] == probes[i + 1]);
            }
            lemma_all_failing(failed + 1, waited_ms + POLL_INTERVAL_MS as nat, rest);
        }
    }
}

/// A wait ends `Ready` at the first healthy probe, if that probe is within
/// the budget.
proof fn lemma_first_healthy(failed: nat, waited_ms: nat, probes: Seq<bool>, first: int)
    requires
        0 <= first < probes.len(),
        failed + first < MAX_ATTEMPTS,
        probes[first],
        forall|i: int| 0 <= i < first ==> !probes[i],
    ensures
        wait_from(failed, waited_ms, probes) == (WaitEnd::Ready {
            attempts: (failed + first + 1) as nat,
            waited_ms: (waited_ms + first * POLL_INTERVAL_MS) as nat,
        }),
    decreases first,
{
    if first > 0 {
        assert(!probes[0]);
        let rest = probes.drop_first();
        assert(rest[first - 1] == probes[first]);
        assert forall|i: int| 0 <= i < first - 1 implies !rest[i] by {
            assert(rest[i] == probes[i + 1]);
        }
        lemma_first_healthy(failed + 1, waited_ms + POLL_INTERVAL_MS as nat, rest, first - 1);
    }
}

/// Once the sidecar begins to answer within the budget, the wait succeeds: if
/// the first healthy probe is the one at index `first`, below
/// [`MAX_ATTEMPTS`], the wait ends `Ready` after `first + 1` probes and
/// `first` intervals.
pub proof fn lemma_ready_once_healthy(probes: Seq<bool>, first: int)
    requires
        0 <= first < probes.len(),
        first < MAX_ATTEMPTS,
        probes[first],
        forall|i: int| 0 <= i < first ==> !probes[i],
    ensures
        wait_end(probes) == (WaitEnd::Ready {
            attempts: (first + 1) as nat,
            waited_ms: (first * POLL_INTERVAL_MS) as nat,
        }),
        first + 1 <= MAX_ATTEMPTS,
{
    lemma_first_healthy(0, 0, probes, first);
}

/// If none of the first [`MAX_ATTEMPTS`] probes is healthy, the wait ends
/// `NotReady` after exactly that many probes and as many intervals: five
/// seconds in all.
pub proof fn lemma_not_ready_when_exhausted(probes: Seq<bool>)
    requires
        probes.len() >= MAX_ATTEMPTS,
        forall|i: int| 0 <= i < MAX_ATTEMPTS ==> !probes[i],
    ensures
        wait_end(probes) == (WaitEnd::NotReady { attempts: 50, waited_ms: 5000 }),
{
    lemma_all_failing(0, 0, probes);
}

/// A wait never ends `Ready` without a healthy probe: the probe that ended it
/// was healthy, and it was within the budget.
pub proof fn lemma_ready_needs_healthy_probe(probes: Seq<bool>)
    requires
        wait_end(probes) is Ready,
    ensures
        exists|i: int| 0 <= i < probes.len() && i < MAX_ATTEMPTS && probes[i],
{
    lemma_ready_has_witness(0, 0, probes);
    let i = choose|i: int| 0 <= i < probes.len() && 0 + i < MAX_ATTEMPTS && probes[i];
    assert(0 <= i < probes.len() && i < MAX_ATTEMPTS && probes[i]);
}

proof fn lemma_ready_has_witness(failed: nat, waited_ms: nat, probes: Seq<bool>)
    requires
        failed < MAX_ATTEMPTS,
        wait_from(failed, waited_ms, probes) is Ready,
    ensures
        exists|i: int| 0 <= i < probes.len() && failed + i < MAX_ATTEMPTS && probes[i],
    decreases probes.len(),
{
    if probes.len() > 0 {
        if probes[0] {
            assert(0 <= 0 < probes.len() && failed + 0 < MAX_ATTEMPTS && probes[0]);
        } else {
            let rest = probes.drop_first();
            lemma_ready_has_witness(failed + 1, waited_ms + POLL_INTERVAL_MS as nat, rest);
            let j = choose|j: int| 0 <= j < rest.len() && failed + 1 + j < MAX_ATTEMPTS && rest[j];
            assert(probes[j + 1] == rest[j]);
            assert(0 <= j + 1 < probes.len() && failed + (j + 1) < MAX_ATTEMPTS && probes[j + 1]);
        }
    }
}

} // verus!
