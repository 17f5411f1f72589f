//! Coordinator responses and the rules for accepting them.
//!
//! The coordinator answers both endpoints with a JSON body
//! `{"id": <worker id>, "ts": <seconds>, "re_ts": <seconds>}`. This module
//! parses that body, enforces the clock-agreement and renewal-deadline
//! invariants, and computes when re-verification must run. Every violated
//! invariant surfaces as a [`FatalError`]: the process must stop issuing
//! identifiers rather than continue under an unverified identity.

use vstd::prelude::*;

verus! {

/// Maximum tolerated disagreement, in seconds, between the local clock and
/// the coordinator's clock; also the margin by which re-verification runs
/// ahead of the coordinator's renewal deadline.
pub const SKEW_TOLERANCE_SECS: u64 = 300;

/// A condition under which the process may not keep issuing identifiers.
/// None of these is recoverable at the call site; the supervising layer
/// must halt identifier generation.
#[derive(Clone, Copy, PartialEq, Eq, Structural, Debug)]
pub enum FatalError {
    /// The coordinator address is not configured.
    Configuration,
    /// The coordinator answered with a non-success status or a body that is
    /// not an assignment response.
    CoordinatorProtocol,
    /// Local and coordinator clocks disagree by more than the tolerance.
    ClockSkew,
    /// The coordinator's renewal deadline already lies in the past.
    RenewalDeadline,
    /// A re-verification response carried a different worker id than the
    /// one originally assigned.
    IdentityIntegrity,
    /// Re-verification failed on every attempt the retry budget allows.
    RetryBudgetExhausted,
}

/// What the coordinator asserts in an assignment or re-verification
/// response: the worker id, the coordinator's clock at issuance, and the
/// deadline by which the id must be re-proved.
#[derive(Clone, Copy, PartialEq, Eq, Structural, Debug)]
pub struct AssignmentResponse {
    /// The worker id assigned to (or re-confirmed for) this process.
    pub worker_id: u16,
    /// Coordinator clock, seconds since the epoch, when the response was issued.
    pub issued_at: u64,
    /// Deadline, seconds since the epoch, by which the id must be re-proved.
    pub renew_by: u64,
}

/// The coordinator base address, as configuration supplied it. A process
/// that must generate identifiers cannot run without one: absence is fatal
/// at first resolution.
pub fn coordinator_address(addr: Option<String>) -> (r: Result<String, FatalError>)
    ensures
        r == match addr {
            Some(a) => Ok::<String, FatalError>(a),
            None => Err::<String, FatalError>(FatalError::Configuration),
        },
{
    match addr {
        Some(a) => Ok(a),
        None => Err(FatalError::Configuration),
    }
}

/// The `(id, ts, re_ts)` fields of the assignment-response JSON body, when
/// the body is a JSON object carrying all three as unsigned 64-bit numbers.
/// A function of the body text alone.
pub uninterp spec fn assignment_fields_of(s: Seq<char>) -> Option<(u64, u64, u64)>;

/// Relies on serde_json: `from_str` parses JSON text, `Value::get` looks a
/// key up in a JSON object, and `Value::as_u64` reads a number that fits in
/// a `u64`; together they read the three fields of the response body, a
/// function of that body alone.
#[verifier::external_body]
fn parse_assignment_fields(body: &str) -> (r: Option<(u64, u64, u64)>)
    ensures
        r == assignment_fields_of(body@),
{
    let v: serde_json::Value = match serde_json::from_str(body) {
        Ok(v) => v,
        Err(_) => return None,
    };
    let id = v.get("id").and_then(serde_json::Value::as_u64);
    let ts = v.get("ts").and_then(serde_json::Value::as_u64);
    let re_ts = v.get("re_ts").and_then(serde_json::Value::as_u64);
    match (id, ts, re_ts) {
        (Some(id), Some(ts), Some(re_ts)) => Some((id, ts, re_ts)),
        _ => None,
    }
}

/// The response the raw `(id, ts, re_ts)` fields describe: one exists
/// exactly when the id fits a worker id's sixteen bits.
pub open spec fn spec_assignment_from_fields(id: u64, ts: u64, re_ts: u64) -> Option<
    AssignmentResponse,
> {
    if id <= u16::MAX {
        Some(AssignmentResponse { worker_id: id as u16, issued_at: ts, renew_by: re_ts })
    } else {
        None
    }
}

/// Builds the response the raw fields describe, declining an id that does
/// not fit a worker id's sixteen bits.
pub fn assignment_from_fields(id: u64, ts: u64, re_ts: u64) -> (r: Option<AssignmentResponse>)
    ensures
        r == spec_assignment_from_fields(id, ts, re_ts),
{
    if id <= u16::MAX as u64 {
        Some(AssignmentResponse { worker_id: id as u16, issued_at: ts, renew_by: re_ts })
    } else {
        None
    }
}

/// What a response body parses to: the response its three fields describe,
/// if the body carries them and the id fits a worker id.
pub open spec fn spec_parse_assignment(s: Seq<char>) -> Option<AssignmentResponse> {
    match assignment_fields_of(s) {
        Some((id, ts, re_ts)) => spec_assignment_from_fields(id, ts, re_ts),
        None => None,
    }
}

/// Parses an assignment-response body.
pub fn parse_assignment(body: &str) -> (r: Option<AssignmentResponse>)
    ensures
        r == spec_parse_assignment(body@),
{
    match parse_assignment_fields(body) {
        Some((id, ts, re_ts)) => assignment_from_fields(id, ts, re_ts),
        None => None,
    }
}

/// The two clocks agree to within the tolerance window.
pub open spec fn skew_within_tolerance(local_secs: u64, remote_secs: u64) -> bool {
    (if local_secs >= remote_secs {
        local_secs - remote_secs
    } else {
        remote_secs - local_secs
    }) <= SKEW_TOLERANCE_SECS
}

/// Tests clock agreement: the two readings differ by at most the tolerance.
pub fn clocks_agree(local_secs: u64, remote_secs: u64) -> (r: bool)
    ensures
        r == skew_within_tolerance(local_secs, remote_secs),
{
    let diff = if local_secs >= remote_secs {
        local_secs - remote_secs
    } else {
        remote_secs - local_secs
    };
    diff <= SKEW_TOLERANCE_SECS
}

/// Seconds to sleep before re-verifying: the margin ahead of the renewal
/// deadline, or immediately when the deadline is nearer than the margin.
pub open spec fn spec_wake_secs(renew_by: u64, local_secs: u64) -> u64 {
    if renew_by >= local_secs + SKEW_TOLERANCE_SECS {
        (renew_by - local_secs - SKEW_TOLERANCE_SECS) as u64
    } else {
        0
    }
}

/// A worker identity the process accepted, with the interval after which it
/// must be re-proved.
#[derive(Clone, Copy, PartialEq, Eq, Structural, Debug)]
pub struct AcceptedAssignment {
    /// The assigned worker id.
    pub worker_id: u16,
    /// Seconds until the re-verification task must first wake.
    pub wake_secs: u64,
}

/// Whether an initial assignment satisfies both invariants enforced on
/// receipt: clock agreement, and a renewal deadline not already past.
pub open spec fn spec_accept_assignment(resp: AssignmentResponse, local_secs: u64) -> Result<
    AcceptedAssignment,
    FatalError,
> {
    if !skew_within_tolerance(local_secs, resp.issued_at) {
        Err(FatalError::ClockSkew)
    } else if resp.renew_by < local_secs {
        Err(FatalError::RenewalDeadline)
    } else {
        Ok(
            AcceptedAssignment {
                worker_id: resp.worker_id,
                wake_secs: spec_wake_secs(resp.renew_by, local_secs),
            },
        )
    }
}

/// Validates an initial assignment against the local clock. A response
/// whose issuance time disagrees with the local clock beyond the tolerance,
/// or whose renewal deadline already lies in the past, is fatal and assigns
/// no identity.
pub fn accept_assignment(resp: &AssignmentResponse, local_secs: u64) -> (r: Result<
    AcceptedAssignment,
    FatalError,
>)
    ensures
        r == spec_accept_assignment(*resp, local_secs),
{
    if !clocks_agree(local_secs, resp.issued_at) {
        Err(FatalError::ClockSkew)
    } else if resp.renew_by < local_secs {
        Err(FatalError::RenewalDeadline)
    } else {
        let wake_secs = if resp.renew_by >= local_secs && resp.renew_by - local_secs
            >= SKEW_TOLERANCE_SECS {
            resp.renew_by - local_secs - SKEW_TOLERANCE_SECS
        } else {
            0
        };
        Ok(AcceptedAssignment { worker_id: resp.worker_id, wake_secs })
    }
}

/// The whole receipt of an initial assignment, from response body to
/// accepted identity: an unparsable body is a protocol violation, and the
/// invariants of acceptance are enforced on what parses.
pub fn receive_assignment(body: &str, local_secs: u64) -> (r: Result<
    AcceptedAssignment,
    FatalError,
>)
    ensures
        r == match spec_parse_assignment(body@) {
            Some(resp) => spec_accept_assignment(resp, local_secs),
            None => Err::<AcceptedAssignment, FatalError>(FatalError::CoordinatorProtocol),
        },
{
    match parse_assignment(body) {
        Some(resp) => accept_assignment(&resp, local_secs),
        None => Err(FatalError::CoordinatorProtocol),
    }
}

/// Whether a re-verification response re-confirms the identity: the worker
/// id must be the one originally assigned, and the clocks must still agree.
/// The renewal deadline of the new response is not examined; the original
/// cadence stays.
pub open spec fn spec_accept_reverification(
    expected_id: u16,
    resp: AssignmentResponse,
    local_secs: u64,
) -> Result<(), FatalError> {
    if resp.worker_id != expected_id {
        Err(FatalError::IdentityIntegrity)
    } else if !skew_within_tolerance(local_secs, resp.issued_at) {
        Err(FatalError::ClockSkew)
    } else {
        Ok(())
    }
}

/// Validates a re-verification response: a different worker id than the one
/// originally assigned, or renewed clock disagreement, is fatal.
pub fn accept_reverification(expected_id: u16, resp: &AssignmentResponse, local_secs: u64) -> (r:
    Result<(), FatalError>)
    ensures
        r == spec_accept_reverification(expected_id, *resp, local_secs),
{
    if resp.worker_id != expected_id {
        Err(FatalError::IdentityIntegrity)
    } else if !clocks_agree(local_secs, resp.issued_at) {
        Err(FatalError::ClockSkew)
    } else {
        Ok(())
    }
}

} // verus!
