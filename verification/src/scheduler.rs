//! The re-verification state machine.
//!
//! Once a worker identity is assigned, a background task must re-prove it
//! with the coordinator before the stated renewal deadline, for the process
//! lifetime. The decisions of that task live here as a state machine: the
//! surrounding process performs each returned action (sleep, send the
//! re-verification request, retry after a delay, halt) and hands the next
//! event back. A network failure is retried after a short delay; ten
//! consecutive failures exhaust the budget and halt the process. A response
//! is checked for identity integrity and clock agreement; on success the
//! task sleeps for the originally computed interval again.

use vstd::prelude::*;

use crate::coordinator::AssignmentResponse;
use crate::coordinator::FatalError;
use crate::coordinator::spec_accept_reverification;
use crate::coordinator::accept_reverification;

verus! {

/// Consecutive re-verification failures tolerated before the process halts.
pub const RETRY_BUDGET: u8 = 10;

/// Where the re-verification task stands.
#[derive(Clone, Copy, PartialEq, Eq, Structural, Debug)]
pub enum SchedulerState {
    /// Sleeping until the scheduled re-verification time.
    Waiting,
    /// Actively contacting the coordinator; `failures` consecutive attempts
    /// have failed since the last success.
    Verifying {
        /// Consecutive failed attempts in this verification round.
        failures: u8,
    },
    /// An invariant was violated; the process must stop issuing identifiers.
    Halted {
        /// The violation that ended the task.
        error: FatalError,
    },
}

/// What the surrounding process observes while re-verifying.
#[derive(Clone, Copy, PartialEq, Eq, Structural, Debug)]
pub enum SchedulerEvent {
    /// The sleep until the scheduled re-verification time elapsed.
    WakeElapsed,
    /// The re-verification request failed at the network level.
    RequestFailed,
    /// The coordinator answered; the response and the local clock reading
    /// (seconds since the epoch) taken on receipt.
    Responded {
        /// The parsed response body.
        response: AssignmentResponse,
        /// Local clock when the response arrived.
        local_secs: u64,
    },
}

/// What the surrounding process must do next.
#[derive(Clone, Copy, PartialEq, Eq, Structural, Debug)]
pub enum SchedulerAction {
    /// Sleep for the given number of seconds, then report `WakeElapsed`.
    Sleep {
        /// Seconds to sleep.
        secs: u64,
    },
    /// Send the re-verification request now.
    SendRequest,
    /// Wait one second, then send the re-verification request again.
    RetryAfterDelay,
    /// Stop: the carried violation is fatal.
    Halt {
        /// The violation to escalate.
        error: FatalError,
    },
    /// The event does not apply in the current state; do nothing.
    Idle,
}

/// The re-verification task: the identity it re-proves, the originally
/// computed sleep interval (kept for the task's lifetime), and its state.
#[derive(Clone, Copy, PartialEq, Eq, Structural, Debug)]
pub struct Scheduler {
    /// The worker id originally assigned; every response must re-confirm it.
    pub expected_id: u16,
    /// Seconds between wakes, fixed when the identity was accepted.
    pub wake_secs: u64,
    /// Where the task stands.
    pub state: SchedulerState,
}

/// One transition of the task: the state it moves to and the action the
/// surrounding process must perform.
pub open spec fn spec_scheduler_step(s: Scheduler, event: SchedulerEvent) -> (
    Scheduler,
    SchedulerAction,
) {
    match s.state {
        SchedulerState::Waiting => match event {
            SchedulerEvent::WakeElapsed => (
                Scheduler { state: SchedulerState::Verifying { failures: 0 }, ..s },
                SchedulerAction::SendRequest,
            ),
            _ => (s, SchedulerAction::Idle),
        },
        SchedulerState::Verifying { failures } => match event {
            SchedulerEvent::RequestFailed => {
                if failures + 1 >= RETRY_BUDGET {
                    let halted = Scheduler {
                        state: SchedulerState::Halted {
                            error: FatalError::RetryBudgetExhausted,
                        },
                        ..s
                    };
                    (halted, SchedulerAction::Halt { error: FatalError::RetryBudgetExhausted })
                } else {
                    (
                        Scheduler {
                            state: SchedulerState::Verifying { failures: (failures + 1) as u8 },
                            ..s
                        },
                        SchedulerAction::RetryAfterDelay,
                    )
                }
            },
            SchedulerEvent::Responded { response, local_secs } => {
                match spec_accept_reverification(s.expected_id, response, local_secs) {
                    Ok(_) => (
                        Scheduler { state: SchedulerState::Waiting, ..s },
                        SchedulerAction::Sleep { secs: s.wake_secs },
                    ),
                    Err(e) => (
                        Scheduler { state: SchedulerState::Halted { error: e }, ..s },
                        SchedulerAction::Halt { error: e },
                    ),
                }
            },
            SchedulerEvent::WakeElapsed => (s, SchedulerAction::Idle),
        },
        SchedulerState::Halted { error } => (s, SchedulerAction::Halt { error }),
    }
}

impl Scheduler {
    /// A task for a freshly accepted identity: waiting, with its first wake
    /// after the computed interval.
    pub fn new(expected_id: u16, wake_secs: u64) -> (r: Scheduler)
        ensures
            r == (Scheduler { expected_id, wake_secs, state: SchedulerState::Waiting }),
    {
        Scheduler { expected_id, wake_secs, state: SchedulerState::Waiting }
    }

    /// The first action after acceptance: sleep until the scheduled
    /// re-verification time.
    pub fn initial_action(&self) -> (r: SchedulerAction)
        ensures
            r == (SchedulerAction::Sleep { secs: self.wake_secs }),
    {
        SchedulerAction::Sleep { secs: self.wake_secs }
    }

    /// Performs one transition on an observed event.
    pub fn step(&mut self, event: SchedulerEvent) -> (r: SchedulerAction)
        ensures
            *final(self) == spec_scheduler_step(*old(self), event).0,
            r == spec_scheduler_step(*old(self), event).1,
    {
        match self.state {
            SchedulerState::Waiting => match event {
                SchedulerEvent::WakeElapsed => {
                    self.state = SchedulerState::Verifying { failures: 0 };
                    SchedulerAction::SendRequest
                },
                _ => SchedulerAction::Idle,
            },
            SchedulerState::Verifying { failures } => match event {
                SchedulerEvent::RequestFailed => {
                    if failures >= RETRY_BUDGET - 1 {
                        self.state = SchedulerState::Halted {
                            error: FatalError::RetryBudgetExhausted,
                        };
                        SchedulerAction::Halt { error: FatalError::RetryBudgetExhausted }
                    } else {
                        self.state = SchedulerState::Verifying { failures: failures + 1 };
                        SchedulerAction::RetryAfterDelay
                    }
                },
                SchedulerEvent::Responded { response, local_secs } => {
                    match accept_reverification(self.expected_id, &response, local_secs) {
                        Ok(_) => {
                            self.state = SchedulerState::Waiting;
                            SchedulerAction::Sleep { secs: self.wake_secs }
                        },
                        Err(e) => {
                            self.state = SchedulerState::Halted { error: e };
                            SchedulerAction::Halt { error: e }
                        },
                    }
                },
                SchedulerEvent::WakeElapsed => SchedulerAction::Idle,
            },
            SchedulerState::Halted { error } => SchedulerAction::Halt { error },
        }
    }
}

/// Law (fixed cadence): no transition changes which identity the task
/// re-proves or the originally computed sleep interval; on success the task
/// reschedules with the interval it was created with, not one recomputed
/// from the new response.
pub proof fn lemma_step_preserves_config(s: Scheduler, event: SchedulerEvent)
    ensures
        spec_scheduler_step(s, event).0.expected_id == s.expected_id,
        spec_scheduler_step(s, event).0.wake_secs == s.wake_secs,
{
}

/// The task after `n` consecutive network failures.
pub open spec fn spec_after_failures(s: Scheduler, n: nat) -> Scheduler
    decreases n,
{
    if n == 0 {
        s
    } else {
        spec_scheduler_step(spec_after_failures(s, (n - 1) as nat), SchedulerEvent::RequestFailed).0
    }
}

/// Law (retry budget): from a fresh verification round, fewer consecutive
/// failures than the budget keep the task verifying (with the failures
/// counted), and failures numbering the whole budget halt it with the
/// budget-exhausted violation.
pub proof fn lemma_retry_budget(s: Scheduler, n: nat)
    requires
        s.state == (SchedulerState::Verifying { failures: 0 }),
        n <= RETRY_BUDGET,
    ensures
        n < RETRY_BUDGET ==> spec_after_failures(s, n) == (Scheduler {
            state: SchedulerState::Verifying { failures: n as u8 },
            ..s
        }),
        n == RETRY_BUDGET ==> spec_after_failures(s, n) == (Scheduler {
            state: SchedulerState::Halted { error: FatalError::RetryBudgetExhausted },
            ..s
        }),
    decreases n,
{
    if n > 0 {
        lemma_retry_budget(s, (n - 1) as nat);
    }
}

/// Law (retry budget, success side): any run of consecutive failures short
/// of the budget, followed by a re-confirming response, returns the task to
/// waiting rather than halting it.
pub proof fn lemma_failures_then_success(
    s: Scheduler,
    n: nat,
    response: AssignmentResponse,
    local_secs: u64,
)
    requires
        s.state == (SchedulerState::Verifying { failures: 0 }),
        n < RETRY_BUDGET,
        spec_accept_reverification(s.expected_id, response, local_secs) is Ok,
    ensures
        spec_scheduler_step(
            spec_after_failures(s, n),
            SchedulerEvent::Responded { response, local_secs },
        ).0 == (Scheduler { state: SchedulerState::Waiting, ..s }),
{
    lemma_retry_budget(s, n);
}

} // verus!
