//! Classification of one probe attempt against the monitored target.

use vstd::prelude::*;

verus! {

/// The HTTP status that counts as a healthy response.
pub const HTTP_OK: u16 = 200;

/// Transient result of one probe attempt: a healthy response, a response
/// with an unexpected status, or no response at all.
#[derive(Clone, Copy, Debug, PartialEq, Eq, Structural)]
pub enum ProbeOutcome {
    /// An HTTP response with status `HTTP_OK`.
    Success(u16),
    /// An HTTP response with any other status.
    FailureStatus(u16),
    /// A transport-level error: no response was received.
    FailureTransport,
}

/// A probe outcome counts as a failure exactly when it is not a success.
pub open spec fn is_failure(o: ProbeOutcome) -> bool {
    !(o is Success)
}

/// How a raw probe result is classified: `status` is the received HTTP
/// status, or `None` when the request failed at the transport level.
pub open spec fn spec_classify(status: Option<u16>) -> ProbeOutcome {
    match status {
        Option::Some(s) => if s == HTTP_OK {
            ProbeOutcome::Success(s)
        } else {
            ProbeOutcome::FailureStatus(s)
        },
        Option::None => ProbeOutcome::FailureTransport,
    }
}

/// Classifies a raw probe result. Only a response with status `HTTP_OK` is a
/// success; any other status, and any transport error, is a failure.
pub fn classify(status: Option<u16>) -> (r: ProbeOutcome)
    ensures
        r == spec_classify(status),
        is_failure(r) <==> status != Some(HTTP_OK),
{
    match status {
        Some(s) => if s == HTTP_OK {
            ProbeOutcome::Success(s)
        } else {
            ProbeOutcome::FailureStatus(s)
        },
        None => ProbeOutcome::FailureTransport,
    }
}

} // verus!
