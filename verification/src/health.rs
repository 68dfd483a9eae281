//! Classification of liveness probes against the agent's local metrics
//! endpoint, and the pacing of the optional pre-start health wait.

use vstd::prelude::*;

verus! {

/// Outcome of one health probe.  `Unhealthy` carries the HTTP status that
/// was observed, or `0` when the request could not be made at all.
#[derive(Clone, Copy, Debug, PartialEq, Eq, Structural)]
pub enum HealthState {
    Healthy,
    Unhealthy(u16),
}

/// What one probe response means: healthy exactly when the request went
/// through and the status was in the 2xx range.
pub open spec fn spec_classify(transport_ok: bool, status: u16) -> HealthState {
    if transport_ok && 200 <= status && status < 300 {
        HealthState::Healthy
    } else if transport_ok {
        HealthState::Unhealthy(status)
    } else {
        HealthState::Unhealthy(0)
    }
}

/// Classify one probe of the metrics endpoint.  `transport_ok` says whether
/// a response was received at all; `status` is its HTTP status code (ignored
/// when no response came back).
pub fn classify_probe(transport_ok: bool, status: u16) -> (h: HealthState)
    ensures
        h == spec_classify(transport_ok, status),
{
    if transport_ok && 200 <= status && status < 300 {
        HealthState::Healthy
    } else if transport_ok {
        HealthState::Unhealthy(status)
    } else {
        HealthState::Unhealthy(0)
    }
}

/// How many probes the pre-start health wait makes: the target URL is
/// polled every two seconds, so a delay of `delay` seconds allows
/// `delay / 2` attempts.
pub fn health_wait_ticks(delay: u32) -> (t: u32)
    ensures
        t == delay / 2,
{
    delay / 2
}

} // verus!
