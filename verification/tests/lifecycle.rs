use snowflake_id::coordinator::accept_assignment;
use snowflake_id::coordinator::accept_reverification;
use snowflake_id::coordinator::coordinator_address;
use snowflake_id::coordinator::receive_assignment;
use snowflake_id::coordinator::AssignmentResponse;
use snowflake_id::coordinator::FatalError;
use snowflake_id::identity::ResolveOutcome;
use snowflake_id::identity::WorkerSlot;
use snowflake_id::scheduler::Scheduler;
use snowflake_id::scheduler::SchedulerAction;
use snowflake_id::scheduler::SchedulerEvent;
use snowflake_id::scheduler::SchedulerState;

// A real response body parses into its three fields and passes validation;
// the wake interval runs the tolerance margin ahead of the deadline.
#[test]
fn assignment_body_is_parsed_and_accepted() {
    let accepted = receive_assignment("{\"id\": 7, \"ts\": 1200, \"re_ts\": 2000}", 1000)
        .expect("a well-formed, timely assignment is accepted");
    assert_eq!(accepted.worker_id, 7);
    assert_eq!(accepted.wake_secs, 700);
}

// An unparsable body, a body missing a field, and an id beyond sixteen bits
// are protocol violations.
#[test]
fn malformed_bodies_are_protocol_errors() {
    assert_eq!(receive_assignment("not json", 1000), Err(FatalError::CoordinatorProtocol));
    assert_eq!(
        receive_assignment("{\"id\": 7, \"ts\": 1200}", 1000),
        Err(FatalError::CoordinatorProtocol)
    );
    assert_eq!(
        receive_assignment("{\"id\": 70000, \"ts\": 1200, \"re_ts\": 2000}", 1000),
        Err(FatalError::CoordinatorProtocol)
    );
    assert_eq!(
        receive_assignment("{\"id\": -3, \"ts\": 1200, \"re_ts\": 2000}", 1000),
        Err(FatalError::CoordinatorProtocol)
    );
}

// Clock skew rejection: a response issued more than the tolerance away from
// local time is fatal in either direction and assigns no identity.
#[test]
fn clock_skew_is_fatal() {
    let ahead = AssignmentResponse { worker_id: 1, issued_at: 1301, renew_by: 4000 };
    assert_eq!(accept_assignment(&ahead, 1000), Err(FatalError::ClockSkew));
    let behind = AssignmentResponse { worker_id: 1, issued_at: 699, renew_by: 4000 };
    assert_eq!(accept_assignment(&behind, 1000), Err(FatalError::ClockSkew));
    // Exactly at the tolerance the response is still trusted.
    let edge = AssignmentResponse { worker_id: 1, issued_at: 1300, renew_by: 4000 };
    assert!(accept_assignment(&edge, 1000).is_ok());
}

// Renewal deadline validity: a deadline already in the past is fatal.
#[test]
fn stale_renewal_deadline_is_fatal() {
    let stale = AssignmentResponse { worker_id: 1, issued_at: 1000, renew_by: 999 };
    assert_eq!(accept_assignment(&stale, 1000), Err(FatalError::RenewalDeadline));
    // A deadline nearer than the margin is accepted with an immediate wake.
    let near = AssignmentResponse { worker_id: 1, issued_at: 1000, renew_by: 1100 };
    let accepted = accept_assignment(&near, 1000).unwrap();
    assert_eq!(accepted.wake_secs, 0);
}

// A missing coordinator address is fatal configuration.
#[test]
fn missing_address_is_configuration_error() {
    assert_eq!(coordinator_address(None), Err(FatalError::Configuration));
    assert_eq!(
        coordinator_address(Some("http://coordinator".to_string())),
        Ok("http://coordinator".to_string())
    );
}

// Single acquisition: an empty slot directs exactly one caller to acquire;
// once installed, every resolution is a read of the same id.
#[test]
fn slot_acquires_once_then_reads() {
    let mut slot = WorkerSlot::new();
    assert_eq!(slot.resolve(), ResolveOutcome::Acquire);
    slot.install(42);
    assert_eq!(slot.resolve(), ResolveOutcome::Ready { worker_id: 42 });
    assert_eq!(slot.resolve(), ResolveOutcome::Ready { worker_id: 42 });
}

// Re-verification retry exhaustion: ten consecutive network failures halt
// the task with the budget-exhausted violation.
#[test]
fn ten_failures_exhaust_the_retry_budget() {
    let mut task = Scheduler::new(7, 100);
    assert_eq!(task.initial_action(), SchedulerAction::Sleep { secs: 100 });
    assert_eq!(task.step(SchedulerEvent::WakeElapsed), SchedulerAction::SendRequest);
    for _ in 0..9 {
        assert_eq!(task.step(SchedulerEvent::RequestFailed), SchedulerAction::RetryAfterDelay);
    }
    assert_eq!(
        task.step(SchedulerEvent::RequestFailed),
        SchedulerAction::Halt { error: FatalError::RetryBudgetExhausted }
    );
    assert_eq!(
        task.state,
        SchedulerState::Halted { error: FatalError::RetryBudgetExhausted }
    );
}

// Nine failures followed by a success do not halt: the task re-confirms the
// identity and sleeps for the originally computed interval again.
#[test]
fn nine_failures_then_success_recovers() {
    let mut task = Scheduler::new(7, 100);
    task.step(SchedulerEvent::WakeElapsed);
    for _ in 0..9 {
        assert_eq!(task.step(SchedulerEvent::RequestFailed), SchedulerAction::RetryAfterDelay);
    }
    let response = AssignmentResponse { worker_id: 7, issued_at: 1000, renew_by: 9000 };
    assert_eq!(
        task.step(SchedulerEvent::Responded { response, local_secs: 1000 }),
        SchedulerAction::Sleep { secs: 100 }
    );
    assert_eq!(task.state, SchedulerState::Waiting);
}

// Identity mismatch: a re-verification response bearing a different worker
// id than originally assigned is fatal.
#[test]
fn reverified_identity_must_match() {
    let wrong = AssignmentResponse { worker_id: 8, issued_at: 1000, renew_by: 9000 };
    assert_eq!(accept_reverification(7, &wrong, 1000), Err(FatalError::IdentityIntegrity));

    let mut task = Scheduler::new(7, 100);
    task.step(SchedulerEvent::WakeElapsed);
    assert_eq!(
        task.step(SchedulerEvent::Responded { response: wrong, local_secs: 1000 }),
        SchedulerAction::Halt { error: FatalError::IdentityIntegrity }
    );
    assert_eq!(task.state, SchedulerState::Halted { error: FatalError::IdentityIntegrity });
}

// Clock skew on re-verification is fatal too, and never retried.
#[test]
fn reverification_skew_is_fatal() {
    let skewed = AssignmentResponse { worker_id: 7, issued_at: 5000, renew_by: 9000 };
    assert_eq!(accept_reverification(7, &skewed, 1000), Err(FatalError::ClockSkew));
    let mut task = Scheduler::new(7, 100);
    task.step(SchedulerEvent::WakeElapsed);
    assert_eq!(
        task.step(SchedulerEvent::Responded { response: skewed, local_secs: 1000 }),
        SchedulerAction::Halt { error: FatalError::ClockSkew }
    );
}

// A halted task never leaves the halted state, whatever arrives.
#[test]
fn halted_task_stays_halted() {
    let mut task = Scheduler::new(7, 100);
    task.step(SchedulerEvent::WakeElapsed);
    let wrong = AssignmentResponse { worker_id: 9, issued_at: 1000, renew_by: 9000 };
    task.step(SchedulerEvent::Responded { response: wrong, local_secs: 1000 });
    assert_eq!(
        task.step(SchedulerEvent::WakeElapsed),
        SchedulerAction::Halt { error: FatalError::IdentityIntegrity }
    );
    assert_eq!(task.state, SchedulerState::Halted { error: FatalError::IdentityIntegrity });
}
