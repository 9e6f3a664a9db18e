//! The registry of downstream services and their health.

use vstd::prelude::*;
use crate::gateway::config::{GatewayConfig, ServiceEndpoint, service_names, service_position};
use crate::strmap::StrMap;
use crate::text::{concat2, owned};

verus! {

/// Whether a service answers its health checks.
#[derive(Debug, Clone, Copy, PartialEq, Eq, Structural)]
pub enum ServiceStatus {
    Healthy,
    Unhealthy,
    Unknown,
}

/// A registered service. Times are milliseconds since the Unix epoch.
pub struct ServiceInfo {
    pub name: String,
    pub url: String,
    pub status: ServiceStatus,
    pub version: String,
    pub metadata: StrMap<String>,
    pub registered_at: u64,
    pub last_health_check: Option<u64>,
}

/// How many services are in each state.
#[derive(Debug, Clone, Copy, PartialEq, Eq, Structural)]
pub struct ServiceRegistryStats {
    pub total_services: usize,
    pub healthy_services: usize,
    pub unhealthy_services: usize,
    pub unknown_services: usize,
}

/// How a request picks among instances.
#[derive(Debug, Clone, Copy, PartialEq, Eq, Structural)]
pub enum LoadBalancingStrategy {
    RoundRobin,
    Random,
    LeastConnections,
    WeightedRoundRobin,
    ConsistentHash,
}

/// Where services are discovered.
#[derive(Debug, Clone, Copy, PartialEq, Eq, Structural)]
pub enum ServiceDiscoveryProvider {
    Static,
    Consul,
    Etcd,
    Kubernetes,
}

/// Discovery settings; intervals in seconds.
pub struct ServiceDiscoveryConfig {
    pub enabled: bool,
    pub provider: ServiceDiscoveryProvider,
    pub refresh_interval: u64,
    pub health_check_interval: u64,
}

impl Default for ServiceDiscoveryConfig {
    fn default() -> (c: Self)
        ensures
            c.enabled,
            c.provider == ServiceDiscoveryProvider::Static,
            c.refresh_interval == 30,
            c.health_check_interval == 10,
    {
        ServiceDiscoveryConfig {
            enabled: true,
            provider: ServiceDiscoveryProvider::Static,
            refresh_interval: 30,
            health_check_interval: 10,
        }
    }
}

/// The number of services in a sequence that have a given status.
pub open spec fn count_status(s: Seq<ServiceInfo>, st: ServiceStatus) -> nat
    decreases s.len(),
{
    if s.len() == 0 {
        0
    } else {
        count_status(s.drop_last(), st) + if s.last().status == st { 1nat } else { 0nat }
    }
}

proof fn lemma_count_status_le(s: Seq<ServiceInfo>, st: ServiceStatus)
    ensures
        count_status(s, st) <= s.len(),
    decreases s.len(),
{
    if s.len() > 0 {
        lemma_count_status_le(s.drop_last(), st);
    }
}

/// Services by name, and the configuration new ones are built from.
pub struct ServiceRegistry {
    config: GatewayConfig,
    services: StrMap<ServiceInfo>,
}

impl ServiceRegistry {
    /// The registered services by name.
    pub closed spec fn services(&self) -> Map<Seq<char>, ServiceInfo> {
        self.services@
    }

    /// The registered services in registration order.
    pub closed spec fn service_seq(&self) -> Seq<ServiceInfo> {
        self.services.value_seq()
    }

    /// The internal map is well formed.
    pub closed spec fn wf(&self) -> bool {
        self.services.wf()
    }

    /// The configuration the registry was built with.
    pub closed spec fn configuration(&self) -> GatewayConfig {
        self.config
    }

    /// The configuration the registry was built with.
    pub fn config(&self) -> (c: &GatewayConfig)
        ensures
            *c == self.configuration(),
    {
        &self.config
    }

    /// An empty registry over a configuration.
    pub fn new(config: GatewayConfig) -> (r: Self)
        ensures
            r.wf(),
            r.configuration() == config,
            r.services() == Map::<Seq<char>, ServiceInfo>::empty(),
    {
        ServiceRegistry { config, services: StrMap::new() }
    }

    /// Registers (or replaces) a service under a name.
    pub fn register_service(&mut self, name: String, info: ServiceInfo)
        requires
            old(self).wf(),
        ensures
            final(self).wf(),
            final(self).configuration() == old(self).configuration(),
            final(self).services() == old(self).services().insert(name@, info),
    {
        self.services.insert(name, info);
    }

    /// Removes a service.
    pub fn unregister_service(&mut self, name: &str)
        requires
            old(self).wf(),
        ensures
            final(self).wf(),
            final(self).configuration() == old(self).configuration(),
            final(self).services() == old(self).services().remove(name@),
    {
        let _ = self.services.remove(name);
    }

    /// The service registered under a name.
    pub fn get_service(&self, name: &str) -> (r: Option<&ServiceInfo>)
        requires
            self.wf(),
        ensures
            match r {
                Some(s) => self.services().contains_key(name@) && *s == self.services()[name@],
                None => !self.services().contains_key(name@),
            },
    {
        self.services.get(name)
    }

    /// The service registered under a name, when it is healthy.
    pub fn get_healthy_service(&self, name: &str) -> (r: Option<&ServiceInfo>)
        requires
            self.wf(),
        ensures
            match r {
                Some(s) => self.services().contains_key(name@) && *s == self.services()[name@]
                    && s.status == ServiceStatus::Healthy,
                None => !self.services().contains_key(name@) || self.services()[name@].status
                    != ServiceStatus::Healthy,
            },
    {
        match self.services.get(name) {
            Some(s) => if s.status == ServiceStatus::Healthy {
                Some(s)
            } else {
                None
            },
            None => None,
        }
    }

    /// Round-robin choice: the healthy service of that name.
    pub fn round_robin_select(&self, name: &str) -> (r: Option<&ServiceInfo>)
        requires
            self.wf(),
        ensures
            match r {
                Some(s) => self.services().contains_key(name@) && *s == self.services()[name@]
                    && s.status == ServiceStatus::Healthy,
                None => !self.services().contains_key(name@) || self.services()[name@].status
                    != ServiceStatus::Healthy,
            },
    {
        self.get_healthy_service(name)
    }

    /// Random choice: the healthy service of that name.
    pub fn random_select(&self, name: &str) -> (r: Option<&ServiceInfo>)
        requires
            self.wf(),
        ensures
            match r {
                Some(s) => self.services().contains_key(name@) && *s == self.services()[name@]
                    && s.status == ServiceStatus::Healthy,
                None => !self.services().contains_key(name@) || self.services()[name@].status
                    != ServiceStatus::Healthy,
            },
    {
        self.get_healthy_service(name)
    }

    /// Least-connections choice: the healthy service of that name.
    pub fn least_connections_select(&self, name: &str) -> (r: Option<&ServiceInfo>)
        requires
            self.wf(),
        ensures
            match r {
                Some(s) => self.services().contains_key(name@) && *s == self.services()[name@]
                    && s.status == ServiceStatus::Healthy,
                None => !self.services().contains_key(name@) || self.services()[name@].status
                    != ServiceStatus::Healthy,
            },
    {
        self.get_healthy_service(name)
    }

    /// Sets the status of a service checked at `now`. A name that is not registered but
    /// is a configured service is registered from its endpoint, with version `unknown`;
    /// any other unknown name is ignored.
    pub fn update_service_status(&mut self, name: &str, status: ServiceStatus, now: u64)
        requires
            old(self).wf(),
        ensures
            final(self).wf(),
            final(self).configuration() == old(self).configuration(),
            old(self).services().contains_key(name@) ==> final(self).services().contains_key(name@)
                && final(self).services() == old(self).services().insert(
                name@,
                final(self).services()[name@],
            ) && ({
                let s = final(self).services()[name@];
                let o = old(self).services()[name@];
                &&& s.status == status
                &&& s.last_health_check == Some(now)
                &&& s.name == o.name
                &&& s.url == o.url
                &&& s.version == o.version
                &&& s.registered_at == o.registered_at
            }),
            !old(self).services().contains_key(name@) ==> match service_position(name@) {
                Some(i) => final(self).services().contains_key(name@) && final(self).services()
                    == old(self).services().insert(name@, final(self).services()[name@]) && ({
                    let s = final(self).services()[name@];
                    &&& s.name@ == name@
                    &&& s.url == old(self).configuration().services.endpoint_seq()[i].url
                    &&& s.status == status
                    &&& s.version@ == "unknown"@
                    &&& s.metadata@ == Map::<Seq<char>, String>::empty()
                    &&& s.registered_at == now
                    &&& s.last_health_check == Some(now)
                }),
                None => final(self).services() == old(self).services(),
            },
    {
        proof {
            self.services.lemma_view();
        }
        match self.services.find(name) {
            Some(i) => {
                let cur = self.services.value_at(i);
                let updated = ServiceInfo {
                    name: cur.name.clone(),
                    url: cur.url.clone(),
                    status,
                    version: cur.version.clone(),
                    metadata: cur.metadata.duplicate(),
                    registered_at: cur.registered_at,
                    last_health_check: Some(now),
                };
                let _ = self.services.set_at(i, updated);
            },
            None => {
                let url = match self.config.get_service_endpoint(name) {
                    Some(e) => Some(e.url.clone()),
                    None => None,
                };
                if let Some(u) = url {
                    let info = ServiceInfo {
                        name: owned(name),
                        url: u,
                        status,
                        version: owned("unknown"),
                        metadata: StrMap::new(),
                        registered_at: now,
                        last_health_check: Some(now),
                    };
                    self.services.insert(owned(name), info);
                    proof {
                        self.services.lemma_view();
                    }
                }
            },
        }
    }

    /// The health URL of a configured service and its timeout in seconds; `None` when
    /// the name is not a configured service.
    pub fn health_check_target(&self, service_name: &str) -> (r: Option<(String, u64)>)
        ensures
            match service_position(service_name@) {
                Some(i) => match r {
                    Some((url, timeout)) => url@ == self.configuration().services.endpoint_seq()[i].url@
                        + "/health"@ && timeout == self.configuration().services.endpoint_seq()[i].timeout,
                    None => false,
                },
                None => r is None,
            },
    {
        match self.config.get_service_endpoint(service_name) {
            Some(e) => Some((concat2(e.url.as_str(), "/health"), e.timeout)),
            None => None,
        }
    }

    /// Records the outcome of a health check at `now`: a success marks the service
    /// healthy, a failure unhealthy.
    pub fn record_health_check(&mut self, service_name: &str, success: bool, now: u64)
        requires
            old(self).wf(),
        ensures
            final(self).wf(),
            final(self).configuration() == old(self).configuration(),
            (old(self).services().contains_key(service_name@) || service_position(service_name@)
                is Some) ==> final(self).services().contains_key(service_name@)
                && final(self).services()[service_name@].status == if success {
                ServiceStatus::Healthy
            } else {
                ServiceStatus::Unhealthy
            },
    {
        let status = if success { ServiceStatus::Healthy } else { ServiceStatus::Unhealthy };
        self.update_service_status(service_name, status, now);
    }

    /// Registers every configured service with unknown status at `now`, and returns
    /// their entries in the configured order.
    pub fn discover_services(&mut self, now: u64) -> (v: Vec<ServiceInfo>)
        requires
            old(self).wf(),
        ensures
            final(self).wf(),
            final(self).configuration() == old(self).configuration(),
            v@.len() == 7,
            forall|i: int|
                0 <= i < 7 ==> {
                    let s = #[trigger] v@[i];
                    &&& s.name@ == service_names()[i]
                    &&& s.url == old(self).configuration().services.endpoint_seq()[i].url
                    &&& s.status == ServiceStatus::Unknown
                    &&& s.version@ == "unknown"@
                    &&& s.registered_at == now
                    &&& s.last_health_check is None
                    &&& final(self).services().contains_key(service_names()[i])
                },
    {
        let mut v: Vec<ServiceInfo> = Vec::new();
        self.discover_one(&mut v, "user", 0, now);
        self.discover_one(&mut v, "trading", 1, now);
        self.discover_one(&mut v, "market-data", 2, now);
        self.discover_one(&mut v, "strategy", 3, now);
        self.discover_one(&mut v, "risk", 4, now);
        self.discover_one(&mut v, "notification", 5, now);
        self.discover_one(&mut v, "analytics", 6, now);
        v
    }

    fn discover_one(&mut self, v: &mut Vec<ServiceInfo>, name: &str, idx: usize, now: u64)
        requires
            old(self).wf(),
            idx < 7,
            name@ == service_names()[idx as int],
            old(v)@.len() == idx,
            forall|i: int|
                0 <= i < idx ==> {
                    let s = #[trigger] old(v)@[i];
                    &&& s.name@ == service_names()[i]
                    &&& s.url == old(self).configuration().services.endpoint_seq()[i].url
                    &&& s.status == ServiceStatus::Unknown
                    &&& s.version@ == "unknown"@
                    &&& s.registered_at == now
                    &&& s.last_health_check is None
                    &&& old(self).services().contains_key(service_names()[i])
                },
        ensures
            final(self).wf(),
            final(self).configuration() == old(self).configuration(),
            final(v)@.len() == idx + 1,
            forall|i: int|
                0 <= i < idx + 1 ==> {
                    let s = #[trigger] final(v)@[i];
                    &&& s.name@ == service_names()[i]
                    &&& s.url == old(self).configuration().services.endpoint_seq()[i].url
                    &&& s.status == ServiceStatus::Unknown
                    &&& s.version@ == "unknown"@
                    &&& s.registered_at == now
                    &&& s.last_health_check is None
                    &&& final(self).services().contains_key(service_names()[i])
                },
    {
        let e: &ServiceEndpoint = if idx == 0 {
            &self.config.services.user_service
        } else if idx == 1 {
            &self.config.services.trading_service
        } else if idx == 2 {
            &self.config.services.market_data_service
        } else if idx == 3 {
            &self.config.services.strategy_service
        } else if idx == 4 {
            &self.config.services.risk_service
        } else if idx == 5 {
            &self.config.services.notification_service
        } else {
            &self.config.services.analytics_service
        };
        assert(*e == self.config.services.endpoint_seq()[idx as int]);
        let url = e.url.clone();
        let entry = ServiceInfo {
            name: owned(name),
            url: url.clone(),
            status: ServiceStatus::Unknown,
            version: owned("unknown"),
            metadata: StrMap::new(),
            registered_at: now,
            last_health_check: None,
        };
        let stored = ServiceInfo {
            name: owned(name),
            url,
            status: ServiceStatus::Unknown,
            version: owned("unknown"),
            metadata: StrMap::new(),
            registered_at: now,
            last_health_check: None,
        };
        v.push(entry);
        self.services.insert(owned(name), stored);
    }

    /// How many services are registered and how many are in each state.
    pub fn get_service_stats(&self) -> (st: ServiceRegistryStats)
        requires
            self.wf(),
        ensures
            st.total_services == self.services().dom().len(),
            st.healthy_services == count_status(self.service_seq(), ServiceStatus::Healthy),
            st.unhealthy_services == count_status(self.service_seq(), ServiceStatus::Unhealthy),
            st.unknown_services == count_status(self.service_seq(), ServiceStatus::Unknown),
    {
        proof {
            self.services.lemma_view();
        }
        let n = self.services.len();
        let mut healthy: usize = 0;
        let mut unhealthy: usize = 0;
        let mut unknown: usize = 0;
        let mut i: usize = 0;
        while i < n
            invariant
                self.wf(),
                n == self.service_seq().len(),
                i <= n,
                healthy == count_status(self.service_seq().subrange(0, i as int), ServiceStatus::Healthy),
                unhealthy == count_status(
                    self.service_seq().subrange(0, i as int),
                    ServiceStatus::Unhealthy,
                ),
                unknown == count_status(self.service_seq().subrange(0, i as int), ServiceStatus::Unknown),
            decreases n - i,
        {
            let ghost pre = self.service_seq().subrange(0, i as int);
            let ghost post = self.service_seq().subrange(0, i + 1);
            assert(post.drop_last() =~= pre);
            proof {
                self.services.lemma_view();
                lemma_count_status_le(pre, ServiceStatus::Healthy);
                lemma_count_status_le(pre, ServiceStatus::Unhealthy);
                lemma_count_status_le(pre, ServiceStatus::Unknown);
            }
            let s = self.services.value_at(i).status;
            if s == ServiceStatus::Healthy {
                healthy = healthy + 1;
            } else if s == ServiceStatus::Unhealthy {
                unhealthy = unhealthy + 1;
            } else {
                unknown = unknown + 1;
            }
            i = i + 1;
        }
        assert(self.service_seq().subrange(0, n as int) =~= self.service_seq());
        ServiceRegistryStats {
            total_services: n,
            healthy_services: healthy,
            unhealthy_services: unhealthy,
            unknown_services: unknown,
        }
    }
}

/// A registered service is what a lookup of its name finds, and registering it leaves
/// every other name as it was.
pub proof fn law_registration_is_found(
    services: Map<Seq<char>, ServiceInfo>,
    name: Seq<char>,
    info: ServiceInfo,
    other: Seq<char>,
)
    ensures
        services.insert(name, info).contains_key(name),
        services.insert(name, info)[name] == info,
        other != name ==> services.insert(name, info).contains_key(other) == services.contains_key(
            other,
        ),
        other != name && services.contains_key(other) ==> services.insert(name, info)[other]
            == services[other],
{
}

} // verus!
