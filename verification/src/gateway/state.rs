//! The gateway's overall health: Redis and every downstream service.

use vstd::prelude::*;
use crate::strmap::StrMap;
use crate::text::{owned, str_eq};

verus! {

/// The health of one dependency.
pub struct ServiceHealth {
    pub status: String,
    pub message: Option<String>,
}

/// The overall health and that of each dependency.
pub struct HealthStatus {
    pub status: String,
    pub checks: StrMap<ServiceHealth>,
}

/// The health entry of a check outcome: healthy, or unhealthy with the error text.
pub open spec fn health_entry_ok(h: ServiceHealth, outcome: Result<(), String>) -> bool {
    match outcome {
        Ok(()) => h.status@ == "healthy"@ && h.message is None,
        Err(e) => h.status@ == "unhealthy"@ && h.message is Some && h.message->0@ == e@,
    }
}

fn entry_for(outcome: &Result<(), String>) -> (h: ServiceHealth)
    ensures
        health_entry_ok(h, *outcome),
{
    match outcome {
        Ok(()) => ServiceHealth { status: owned("healthy"), message: None },
        Err(e) => ServiceHealth { status: owned("unhealthy"), message: Some(e.clone()) },
    }
}

/// The gateway's health from the Redis check and the downstream checks, in the order
/// they ran: `healthy` when every check passed, `degraded` otherwise, with one entry per
/// dependency (`redis`, then each service by name; a later check of the same name
/// replaces an earlier one).
pub fn aggregate_health(redis: &Result<(), String>, services: &Vec<(String, Result<(), String>)>) -> (h:
    HealthStatus)
    ensures
        h.checks.wf(),
        h.status@ == if redis is Ok && forall|i: int|
            0 <= i < services@.len() ==> (#[trigger] services@[i]).1 is Ok {
            "healthy"@
        } else {
            "degraded"@
        },
        forall|k: Seq<char>|
            #[trigger] h.checks@.contains_key(k) <==> (k == "redis"@ || exists|i: int|
                0 <= i < services@.len() && (#[trigger] services@[i]).0@ == k),
        !(exists|i: int| 0 <= i < services@.len() && (#[trigger] services@[i]).0@ == "redis"@)
            ==> health_entry_ok(h.checks@["redis"@], *redis),
        forall|i: int|
            0 <= i < services@.len() && (forall|j: int|
                i < j < services@.len() ==> (#[trigger] services@[j]).0@ != services@[i].0@)
                ==> health_entry_ok(h.checks@[(#[trigger] services@[i]).0@], services@[i].1),
{
    let mut checks: StrMap<ServiceHealth> = StrMap::new();
    let mut healthy = true;
    checks.insert(owned("redis"), entry_for(redis));
    if redis.is_err() {
        healthy = false;
    }
    let mut i: usize = 0;
    while i < services.len()
        invariant
            checks.wf(),
            i <= services@.len(),
            healthy == (redis is Ok && forall|j: int| 0 <= j < i ==> (#[trigger] services@[j]).1 is Ok),
            forall|k: Seq<char>|
                #[trigger] checks@.contains_key(k) <==> (k == "redis"@ || exists|j: int|
                    0 <= j < i && (#[trigger] services@[j]).0@ == k),
            !(exists|j: int| 0 <= j < i && (#[trigger] services@[j]).0@ == "redis"@)
                ==> health_entry_ok(checks@["redis"@], *redis),
            forall|j: int|
                0 <= j < i && (forall|l: int| j < l < i ==> (#[trigger] services@[l]).0@ != services@[j].0@)
                    ==> health_entry_ok(checks@[(#[trigger] services@[j]).0@], services@[j].1),
        decreases services@.len() - i,
    {
        let entry = entry_for(&services[i].1);
        if services[i].1.is_err() {
            healthy = false;
        }
        checks.insert(services[i].0.clone(), entry);
        proof {
            assert forall|j: int|
                0 <= j < i + 1 && (forall|l: int|
                    j < l < i + 1 ==> (#[trigger] services@[l]).0@ != services@[j].0@)
                    implies health_entry_ok(checks@[(#[trigger] services@[j]).0@], services@[j].1) by {
                if j < i {
                    assert(services@[i as int].0@ != services@[j].0@);
                }
            }
            assert forall|k: Seq<char>|
                #[trigger] checks@.contains_key(k) <==> (k == "redis"@ || exists|j: int|
                    0 <= j < i + 1 && (#[trigger] services@[j]).0@ == k) by {
                if k == services@[i as int].0@ {
                    assert(services@[i as int].0@ == k);
                }
            }
        }
        i = i + 1;
    }
    let status = if healthy { owned("healthy") } else { owned("degraded") };
    HealthStatus { status, checks }
}

} // verus!
