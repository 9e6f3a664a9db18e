//! The decisions around forwarding one request to a downstream service: whether it
//! is admitted and where it goes, and how the outcome of the call settles the
//! service's circuit breaker and the status the client gets. The HTTP exchange
//! itself is done by the application between the two steps.

use vstd::prelude::*;
use crate::gateway::circuit_breaker::{
    breaker_config_for, breaker_config_of, BreakerView, CircuitBreaker, CircuitBreakerManager,
};
use crate::gateway::config::GatewayConfig;
use crate::gateway::proxy::{build_target_url, is_server_error, send_error_status, target_url};
use crate::gateway::service_registry::{ServiceRegistry, ServiceStatus};

verus! {

/// Whether a service is registered and healthy.
pub open spec fn service_available(registry: ServiceRegistry, name: Seq<char>) -> bool {
    registry.services().contains_key(name) && registry.services()[name].status == ServiceStatus::Healthy
}

/// The breaker of a service as it stands before a request: the one kept for it, or
/// a fresh one with the service's configuration.
pub open spec fn breaker_before(
    breakers: Map<Seq<char>, CircuitBreaker>,
    config: GatewayConfig,
    name: Seq<char>,
) -> BreakerView {
    if breakers.contains_key(name) {
        breakers[name]@
    } else {
        BreakerView::initial(breaker_config_of(config, name))
    }
}

/// The breaker of a service: the one kept for it, or else a new one with the
/// service's configuration, which is kept from then on.
pub fn get_circuit_breaker(
    breakers: &mut CircuitBreakerManager,
    config: &GatewayConfig,
    service_name: &str,
) -> (b: CircuitBreaker)
    requires
        old(breakers).wf(),
    ensures
        final(breakers).wf(),
        old(breakers).breakers().contains_key(service_name@) ==> b == old(breakers).breakers()[service_name@]
            && final(breakers).breakers() == old(breakers).breakers(),
        !old(breakers).breakers().contains_key(service_name@) ==> b@ == BreakerView::initial(
            breaker_config_of(*config, service_name@),
        ) && final(breakers).breakers() == old(breakers).breakers().insert(service_name@, b),
{
    let breaker_config = breaker_config_for(config, service_name);
    breakers.get_or_create(service_name, breaker_config)
}

/// Admits a request for the service named in its route at time `now` (seconds):
/// without a name it is a bad request (400); a service that is unknown or not
/// healthy is unavailable (503); otherwise the service's breaker, created if new,
/// is asked, and refuses with 503 or admits the request to the service's URL with
/// the path and query.
pub fn admit_proxy_request(
    registry: &ServiceRegistry,
    breakers: &mut CircuitBreakerManager,
    config: &GatewayConfig,
    service_name: Option<&str>,
    path: &str,
    query: &Vec<(String, String)>,
    now: u64,
) -> (r: Result<String, u16>)
    requires
        registry.wf(),
        old(breakers).wf(),
    ensures
        final(breakers).wf(),
        match service_name {
            None => r == Err::<String, u16>(400) && final(breakers).breakers() == old(
                breakers,
            ).breakers(),
            Some(n) => if !service_available(*registry, n@) {
                r == Err::<String, u16>(503) && final(breakers).breakers() == old(breakers).breakers()
            } else {
                let b0 = breaker_before(old(breakers).breakers(), *config, n@);
                &&& final(breakers).breakers().contains_key(n@)
                &&& final(breakers).breakers()[n@]@ == b0.after_allow(now)
                &&& forall|k: Seq<char>|
                    k != n@ ==> #[trigger] final(breakers).breakers().contains_key(k) == old(
                        breakers,
                    ).breakers().contains_key(k) && (old(breakers).breakers().contains_key(k)
                        ==> final(breakers).breakers()[k] == old(breakers).breakers()[k])
                &&& b0.allows(now) ==> (r matches Ok(u) && u@ == target_url(
                    registry.services()[n@].url@,
                    path@,
                    query@,
                ))
                &&& !b0.allows(now) ==> r == Err::<String, u16>(503)
            },
        },
{
    let name = match service_name {
        Some(n) => n,
        None => return Err(400),
    };
    let service = match registry.get_healthy_service(name) {
        Some(s) => s,
        None => return Err(503),
    };
    let breaker_config = breaker_config_for(config, name);
    if !breakers.allow_request_at(name, breaker_config, now) {
        return Err(503);
    }
    Ok(build_target_url(service.url.as_str(), path, query))
}

/// How the downstream call of an admitted request went.
#[derive(Debug, Clone, Copy, PartialEq, Eq, Structural)]
pub enum CallOutcome {
    /// The client's body could not be read.
    BodyUnreadable,
    /// The request's method cannot be forwarded.
    MethodRejected,
    /// The call failed before an answer: by timeout, by connection failure, or
    /// otherwise.
    SendFailed { timed_out: bool, connect_failed: bool },
    /// The service answered with a status; `body_read` says whether its body arrived.
    Answered { status: u16, body_read: bool },
}

/// The status the client gets for an outcome, as `Ok` when the service's answer is
/// passed on and as `Err` when the gateway answers itself.
pub open spec fn client_status(o: CallOutcome) -> Result<u16, u16> {
    match o {
        CallOutcome::BodyUnreadable => Err(400),
        CallOutcome::MethodRejected => Err(405),
        CallOutcome::SendFailed { timed_out, connect_failed } => Err(
            if timed_out { 504u16 } else if connect_failed { 502u16 } else { 500u16 },
        ),
        CallOutcome::Answered { status, body_read } => if body_read { Ok(status) } else { Err(502) },
    }
}

/// Whether an outcome counts against the service: an unreadable body, a failed
/// call, or a server error.
pub open spec fn counts_as_failure(o: CallOutcome) -> bool {
    match o {
        CallOutcome::BodyUnreadable => true,
        CallOutcome::MethodRejected => false,
        CallOutcome::SendFailed { .. } => true,
        CallOutcome::Answered { status, .. } => 500 <= status < 600,
    }
}

/// Whether an outcome counts for the service: an answer that is no server error.
pub open spec fn counts_as_success(o: CallOutcome) -> bool {
    o matches CallOutcome::Answered { status, .. } && !(500 <= status < 600)
}

/// Settles an admitted request at time `now` (seconds): a failure or a success is
/// recorded on the service's breaker as `counts_as_failure` and `counts_as_success`
/// say, and the client's status is `client_status` of the outcome.
pub fn settle_proxy_request(
    breakers: &mut CircuitBreakerManager,
    service_name: &str,
    outcome: CallOutcome,
    now: u64,
) -> (r: Result<u16, u16>)
    requires
        old(breakers).wf(),
    ensures
        final(breakers).wf(),
        r == client_status(outcome),
        ({
            let n = service_name@;
            let before = old(breakers).breakers();
            if !before.contains_key(n) || (!counts_as_failure(outcome) && !counts_as_success(
                outcome,
            )) {
                final(breakers).breakers() == before
            } else {
                &&& final(breakers).breakers() == before.insert(n, final(breakers).breakers()[n])
                &&& counts_as_failure(outcome) ==> final(breakers).breakers()[n]@
                    == before[n]@.after_failure(now)
                &&& counts_as_success(outcome) ==> final(breakers).breakers()[n]@
                    == before[n]@.after_success()
            }
        }),
{
    match outcome {
        CallOutcome::BodyUnreadable => {
            breakers.record_failure_at(service_name, now);
            Err(400)
        },
        CallOutcome::MethodRejected => Err(405),
        CallOutcome::SendFailed { timed_out, connect_failed } => {
            breakers.record_failure_at(service_name, now);
            Err(send_error_status(timed_out, connect_failed))
        },
        CallOutcome::Answered { status, body_read } => {
            if is_server_error(status) {
                breakers.record_failure_at(service_name, now);
            } else {
                breakers.record_success(service_name);
            }
            if body_read {
                Ok(status)
            } else {
                Err(502)
            }
        },
    }
}

} // verus!
