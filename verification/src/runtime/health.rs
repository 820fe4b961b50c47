//! Whether a runtime's server is healthy, decided from what its health endpoint answered.

use vstd::prelude::*;

use crate::text::{decimal, decimal_chars, owned, push_chars, push_str, string_of};

use super::http::{HttpProbeError, HttpResponse};
use super::spec::RuntimeHealthResponsePolicy;

verus! {

/// The health of a runtime's server.
#[derive(Debug, PartialEq, Eq)]
pub enum RuntimeHealth {
    Healthy,
    Unhealthy { reason: String },
}

impl Clone for RuntimeHealth {
    /// The same health.
    fn clone(&self) -> (r: Self)
        ensures
            r == *self,
    {
        match self {
            RuntimeHealth::Healthy => RuntimeHealth::Healthy,
            RuntimeHealth::Unhealthy { reason } => RuntimeHealth::Unhealthy { reason: reason.clone() },
        }
    }
}

/// What a JSON health body says of the `healthy` field.
#[derive(Debug, Clone, Copy, PartialEq, Eq, Structural)]
pub enum HealthyFlag {
    /// An object whose `healthy` field is `true`.
    Healthy,
    /// An object whose `healthy` field is `false`.
    NotHealthy,
    /// Not a JSON object with a boolean `healthy` field.
    Malformed,
}

impl RuntimeHealth {
    /// An unhealthy server, for `reason`.
    pub fn unhealthy(reason: &str) -> (r: Self)
        ensures
            r matches RuntimeHealth::Unhealthy { reason: x } && x@ == reason@,
    {
        RuntimeHealth::Unhealthy { reason: owned(reason) }
    }

    /// Whether the server is healthy.
    pub fn is_healthy(&self) -> (r: bool)
        ensures
            r == (self is Healthy),
    {
        match self {
            RuntimeHealth::Healthy => true,
            RuntimeHealth::Unhealthy { .. } => false,
        }
    }

    /// `healthy` or `unhealthy`.
    pub fn status_str(&self) -> (r: &'static str)
        ensures
            r@ == if self is Healthy { "healthy"@ } else { "unhealthy"@ },
    {
        match self {
            RuntimeHealth::Healthy => "healthy",
            RuntimeHealth::Unhealthy { .. } => "unhealthy",
        }
    }

    /// Why the server is unhealthy, or `ok`.
    pub fn reason(&self) -> (r: &str)
        ensures
            match self {
                RuntimeHealth::Healthy => r@ == "ok"@,
                RuntimeHealth::Unhealthy { reason } => r@ == reason@,
            },
    {
        match self {
            RuntimeHealth::Healthy => "ok",
            RuntimeHealth::Unhealthy { reason } => reason.as_str(),
        }
    }
}

/// The health a response shows: a status other than 200 is unhealthy (`HTTP <status>`);
/// with status 200 a server is healthy unless its policy asks for a JSON `healthy` flag
/// that is false (`healthy=false`) or not there (`malformed JSON`).
pub open spec fn response_health(status_code: u16, policy: RuntimeHealthResponsePolicy, flag: HealthyFlag) -> Option<Seq<char>> {
    if status_code != 200 {
        Some("HTTP "@ + decimal(status_code as nat))
    } else {
        match policy {
            RuntimeHealthResponsePolicy::HttpOk => None,
            RuntimeHealthResponsePolicy::JsonHealthyFlag => match flag {
                HealthyFlag::Healthy => None,
                HealthyFlag::NotHealthy => Some("healthy=false"@),
                HealthyFlag::Malformed => Some("malformed JSON"@),
            },
        }
    }
}

/// Whether `h` is the health that `reason` describes: healthy for none, unhealthy for
/// that reason otherwise.
pub open spec fn health_is(h: RuntimeHealth, reason: Option<Seq<char>>) -> bool {
    match reason {
        None => h is Healthy,
        Some(r) => h matches RuntimeHealth::Unhealthy { reason: x } && x@ == r,
    }
}

/// The health a response shows, given what its body says of the `healthy` flag.
pub fn health_response_status(
    status_code: u16,
    response_policy: RuntimeHealthResponsePolicy,
    flag: HealthyFlag,
) -> (r: RuntimeHealth)
    ensures
        health_is(r, response_health(status_code, response_policy, flag)),
{
    if status_code != 200 {
        let mut out: Vec<char> = Vec::new();
        push_str(&mut out, "HTTP ");
        let d = decimal_chars(status_code as u64);
        push_chars(&mut out, &d);
        return RuntimeHealth::Unhealthy { reason: string_of(&out) };
    }
    match response_policy {
        RuntimeHealthResponsePolicy::HttpOk => RuntimeHealth::Healthy,
        RuntimeHealthResponsePolicy::JsonHealthyFlag => match flag {
            HealthyFlag::Healthy => RuntimeHealth::Healthy,
            HealthyFlag::NotHealthy => RuntimeHealth::unhealthy("healthy=false"),
            HealthyFlag::Malformed => RuntimeHealth::unhealthy("malformed JSON"),
        },
    }
}

/// The health one connection shows: unreachable when no complete response came back.
pub fn endpoint_connection_health(
    response: &Result<HttpResponse, HttpProbeError>,
    response_policy: RuntimeHealthResponsePolicy,
    flag: HealthyFlag,
) -> (r: RuntimeHealth)
    ensures
        match response {
            Ok(resp) => health_is(r, response_health(resp.status_code, response_policy, flag)),
            Err(_) => health_is(r, Some("unreachable"@)),
        },
{
    match response {
        Ok(resp) => health_response_status(resp.status_code, response_policy, flag),
        Err(_) => RuntimeHealth::unhealthy("unreachable"),
    }
}

/// The health of a server reached over several addresses, from the health each address
/// showed in turn: healthy as soon as one is, otherwise the last unhealthy outcome, or
/// unreachable when no address could be connected to.
pub fn combine_probe_outcomes(outcomes: &Vec<RuntimeHealth>) -> (r: RuntimeHealth)
    ensures
        (exists|i: int| 0 <= i < outcomes@.len() && outcomes@[i] is Healthy) ==> r is Healthy,
        !(exists|i: int| 0 <= i < outcomes@.len() && outcomes@[i] is Healthy) && outcomes@.len() > 0 ==> r == outcomes@.last(),
        outcomes@.len() == 0 ==> health_is(r, Some("unreachable"@)),
{
    let mut i: usize = 0;
    while i < outcomes.len()
        invariant
            i <= outcomes@.len(),
            forall|k: int| 0 <= k < i ==> !(outcomes@[k] is Healthy),
        decreases outcomes.len() - i,
    {
        if outcomes[i].is_healthy() {
            return RuntimeHealth::Healthy;
        }
        i = i + 1;
    }
    if outcomes.len() == 0 {
        RuntimeHealth::unhealthy("unreachable")
    } else {
        outcomes[outcomes.len() - 1].clone()
    }
}

} // verus!
