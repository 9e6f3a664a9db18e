//! Health of the market-data service: the verdict and the component report built
//! from what storage, the data processor and the exchange connections say, and
//! the checker that counts consecutive successes and failures.

use vstd::prelude::*;
use crate::strmap::StrMap;
use crate::text::{concat2, decimal_seq, owned, u64_to_decimal};

verus! {

/// The answer of the basic health check.
pub struct HealthResponse {
    pub status: String,
    pub timestamp: i64,
    pub version: String,
    pub uptime_seconds: u64,
}

impl HealthResponse {
    /// A healthy answer with the given stamp, version and uptime.
    pub fn healthy(timestamp: i64, version: &str, uptime_seconds: u64) -> (r: Self)
        ensures
            r.status@ == "healthy"@,
            r.timestamp == timestamp,
            r.version@ == version@,
            r.uptime_seconds == uptime_seconds,
    {
        HealthResponse { status: owned("healthy"), timestamp, version: owned(version), uptime_seconds }
    }
}

/// The state of one component in the detailed report.
pub struct ComponentHealth {
    pub status: String,
    pub message: Option<String>,
    pub last_check: i64,
}

/// One storage back end as the storage manager reports it.
pub struct BackendHealth {
    pub name: String,
    pub is_healthy: bool,
    pub connection_status: String,
}

/// What the storage manager's health check returned: its verdict and back ends, or
/// the text of its failure.
pub enum StorageReport {
    Checked { is_healthy: bool, backends: Vec<BackendHealth> },
    Failed(String),
}

/// The overall status: it starts healthy; an unhealthy storage makes it degraded
/// and a failed storage check unhealthy; an unhealthy processor makes it degraded;
/// then, with exchanges configured, none healthy makes it unhealthy and some
/// unhealthy makes it degraded. Each later rule overrides an earlier one.
pub open spec fn overall_status(
    storage_failed: bool,
    storage_healthy: bool,
    processor_healthy: bool,
    healthy_exchanges: int,
    total_exchanges: int,
) -> Seq<char> {
    let s0 = "healthy"@;
    let s1 = if storage_failed {
        "unhealthy"@
    } else if !storage_healthy {
        "degraded"@
    } else {
        s0
    };
    let s2 = if !processor_healthy { "degraded"@ } else { s1 };
    if healthy_exchanges == 0 && total_exchanges > 0 {
        "unhealthy"@
    } else if healthy_exchanges < total_exchanges {
        "degraded"@
    } else {
        s2
    }
}

/// `healthy` or `unhealthy`.
pub open spec fn health_word(b: bool) -> Seq<char> {
    if b { "healthy"@ } else { "unhealthy"@ }
}

/// The number of `true` flags.
pub open spec fn count_true(s: Seq<bool>) -> int
    decreases s.len(),
{
    if s.len() == 0 {
        0
    } else {
        count_true(s.drop_last()) + if s.last() { 1int } else { 0int }
    }
}

/// The components, by name, as status and message, after the storage report: the
/// storage manager itself and, when it was checked, each back end under
/// `storage_` and its name, later back ends of the same name replacing earlier ones.
pub open spec fn storage_components(r: StorageReport) -> Map<Seq<char>, (Seq<char>, Option<Seq<char>>)> {
    match r {
        StorageReport::Failed(e) => Map::empty().insert(
            "storage_manager"@,
            ("unhealthy"@, Some("Health check failed: "@ + e@)),
        ),
        StorageReport::Checked { is_healthy, backends } => backend_components(
            Map::empty().insert("storage_manager"@, (health_word(is_healthy), None)),
            backends@,
        ),
    }
}

/// The components after adding the back ends in order.
pub open spec fn backend_components(
    m: Map<Seq<char>, (Seq<char>, Option<Seq<char>>)>,
    b: Seq<BackendHealth>,
) -> Map<Seq<char>, (Seq<char>, Option<Seq<char>>)>
    decreases b.len(),
{
    if b.len() == 0 {
        m
    } else {
        backend_components(m, b.drop_last()).insert(
            "storage_"@ + b.last().name@,
            (health_word(b.last().is_healthy), Some(b.last().connection_status@)),
        )
    }
}

/// The full component report: the storage components, then the data processor
/// with its message, then the exchange manager with `h/t exchanges healthy`.
pub open spec fn detailed_components(
    r: StorageReport,
    processor_healthy: bool,
    processor_message: Seq<char>,
    exchanges: Seq<bool>,
) -> Map<Seq<char>, (Seq<char>, Option<Seq<char>>)> {
    let h = count_true(exchanges);
    let t = exchanges.len() as int;
    storage_components(r).insert(
        "data_processor"@,
        (health_word(processor_healthy), Some(processor_message)),
    ).insert(
        "exchange_manager"@,
        (
            if h == t { "healthy"@ } else { "degraded"@ },
            Some(decimal_seq(h as nat) + "/"@ + decimal_seq(t as nat) + " exchanges healthy"@),
        ),
    )
}

/// The components of a report as status and message.
pub open spec fn component_view(m: StrMap<ComponentHealth>) -> Map<
    Seq<char>,
    (Seq<char>, Option<Seq<char>>),
> {
    m@.map_values(
        |c: ComponentHealth|
            (
                c.status@,
                match c.message {
                    Some(s) => Some(s@),
                    None => None,
                },
            ),
    )
}

/// Every component of a report was checked at `now_ms`.
pub open spec fn all_checked_at(m: StrMap<ComponentHealth>, now_ms: i64) -> bool {
    forall|k: Seq<char>| #[trigger] m@.contains_key(k) ==> m@[k].last_check == now_ms
}

/// The detailed report: the overall status and the state of each component.
pub struct DetailedHealth {
    pub status: String,
    pub components: StrMap<ComponentHealth>,
}

fn put_component(
    m: &mut StrMap<ComponentHealth>,
    name: String,
    status: &str,
    message: Option<String>,
    now_ms: i64,
)
    requires
        old(m).wf(),
        all_checked_at(*old(m), now_ms),
    ensures
        final(m).wf(),
        all_checked_at(*final(m), now_ms),
        component_view(*final(m)) == component_view(*old(m)).insert(
            name@,
            (
                status@,
                match message {
                    Some(s) => Some(s@),
                    None => None,
                },
            ),
        ),
{
    let ghost key = name@;
    let ghost msg = match &message {
        Some(s) => Some(s@),
        None => None::<Seq<char>>,
    };
    let c = ComponentHealth { status: owned(status), message, last_check: now_ms };
    m.insert(name, c);
    assert(component_view(*m) =~= component_view(*old(m)).insert(key, (status@, msg)));
    assert forall|k: Seq<char>| #[trigger] m@.contains_key(k) implies m@[k].last_check == now_ms by {
        if k != key {
            assert(old(m)@.contains_key(k));
        }
    }
}

/// Builds the detailed health report from the component checks, stamping each
/// component with `now_ms`. `processor_message` is the processor's line of the
/// report, and `exchanges` holds whether each exchange connection is healthy.
pub fn detailed_health(
    storage: StorageReport,
    processor_healthy: bool,
    processor_message: String,
    exchanges: &Vec<bool>,
    now_ms: i64,
) -> (r: DetailedHealth)
    ensures
        r.components.wf(),
        r.status@ == overall_status(
            storage is Failed,
            storage matches StorageReport::Checked { is_healthy, .. } && is_healthy,
            processor_healthy,
            count_true(exchanges@),
            exchanges@.len() as int,
        ),
        component_view(r.components) == detailed_components(
            storage,
            processor_healthy,
            processor_message@,
            exchanges@,
        ),
        all_checked_at(r.components, now_ms),
{
    let ghost storage_copy = storage;
    let ghost pm = processor_message@;
    let mut components: StrMap<ComponentHealth> = StrMap::new();
    let mut status: &str = "healthy";
    let ghost storage_failed = storage is Failed;
    let ghost storage_healthy = storage matches StorageReport::Checked { is_healthy, .. } && is_healthy;
    proof {
        assert(component_view(components) =~= Map::empty());
    }
    match storage {
        StorageReport::Checked { is_healthy, backends } => {
            if !is_healthy {
                status = "degraded";
            }
            put_component(
                &mut components,
                owned("storage_manager"),
                if is_healthy { "healthy" } else { "unhealthy" },
                None,
                now_ms,
            );
            let mut i: usize = 0;
            while i < backends.len()
                invariant
                    components.wf(),
                    all_checked_at(components, now_ms),
                    i <= backends.len(),
                    component_view(components) == backend_components(
                        Map::empty().insert("storage_manager"@, (health_word(is_healthy), None)),
                        backends@.subrange(0, i as int),
                    ),
                decreases backends.len() - i,
            {
                let b = &backends[i];
                let name = concat2("storage_", b.name.as_str());
                put_component(
                    &mut components,
                    name,
                    if b.is_healthy { "healthy" } else { "unhealthy" },
                    Some(b.connection_status.clone()),
                    now_ms,
                );
                proof {
                    let pre = backends@.subrange(0, i as int);
                    let post = backends@.subrange(0, i + 1);
                    assert(post.drop_last() =~= pre);
                }
                i = i + 1;
            }
            proof {
                assert(backends@.subrange(0, backends.len() as int) =~= backends@);
            }
        },
        StorageReport::Failed(e) => {
            status = "unhealthy";
            put_component(
                &mut components,
                owned("storage_manager"),
                "unhealthy",
                Some(concat2("Health check failed: ", e.as_str())),
                now_ms,
            );
        },
    }
    assert(component_view(components) == storage_components(storage_copy));
    assert(status@ == (if storage_failed {
        "unhealthy"@
    } else if !storage_healthy {
        "degraded"@
    } else {
        "healthy"@
    }));
    if !processor_healthy {
        status = "degraded";
    }
    put_component(
        &mut components,
        owned("data_processor"),
        if processor_healthy { "healthy" } else { "unhealthy" },
        Some(processor_message),
        now_ms,
    );
    let mut healthy: usize = 0;
    let mut i: usize = 0;
    while i < exchanges.len()
        invariant
            i <= exchanges.len(),
            healthy <= i,
            healthy == count_true(exchanges@.subrange(0, i as int)),
        decreases exchanges.len() - i,
    {
        proof {
            let pre = exchanges@.subrange(0, i as int);
            let post = exchanges@.subrange(0, i + 1);
            assert(post.drop_last() =~= pre);
        }
        if exchanges[i] {
            healthy = healthy + 1;
        }
        i = i + 1;
    }
    assert(exchanges@.subrange(0, exchanges.len() as int) =~= exchanges@);
    let total = exchanges.len();
    if healthy == 0 && total > 0 {
        status = "unhealthy";
    } else if healthy < total {
        status = "degraded";
    }
    let mut message = u64_to_decimal(healthy as u64);
    message.append("/");
    let total_text = u64_to_decimal(total as u64);
    message.append(total_text.as_str());
    message.append(" exchanges healthy");
    put_component(
        &mut components,
        owned("exchange_manager"),
        if healthy == total { "healthy" } else { "degraded" },
        Some(message),
        now_ms,
    );
    DetailedHealth { status: owned(status), components }
}

/// How often and how strictly the service checks its own health.
#[derive(Clone, Copy)]
pub struct HealthCheckConfig {
    pub enabled: bool,
    pub interval_seconds: u64,
    pub timeout_seconds: u64,
    pub failure_threshold: u32,
    pub success_threshold: u32,
}

impl Default for HealthCheckConfig {
    fn default() -> (r: Self)
        ensures
            r.enabled,
            r.interval_seconds == 30,
            r.timeout_seconds == 10,
            r.failure_threshold == 3,
            r.success_threshold == 2,
    {
        HealthCheckConfig {
            enabled: true,
            interval_seconds: 30,
            timeout_seconds: 10,
            failure_threshold: 3,
            success_threshold: 2,
        }
    }
}

/// Whether a round of checks passes: at least half of the three checks must pass,
/// that is two of them.
pub open spec fn round_passes(storage_healthy: bool, processor_healthy: bool, healthy_exchanges: int) -> bool {
    let passed = (if storage_healthy { 1int } else { 0int }) + (if processor_healthy {
        1int
    } else {
        0int
    }) + (if healthy_exchanges > 0 {
        1int
    } else {
        0int
    });
    2 * passed >= 3int
}

/// Counts consecutive healthy and unhealthy rounds of checks.
pub struct HealthChecker {
    config: HealthCheckConfig,
    failure_count: u32,
    success_count: u32,
    last_check: Option<u64>,
}

impl HealthChecker {
    /// The settings.
    pub closed spec fn config_spec(&self) -> HealthCheckConfig {
        self.config
    }

    /// Consecutive unhealthy rounds.
    pub closed spec fn failures(&self) -> u32 {
        self.failure_count
    }

    /// Consecutive healthy rounds.
    pub closed spec fn successes(&self) -> u32 {
        self.success_count
    }

    /// When the last round began, in milliseconds, if one ever did.
    pub closed spec fn last_check_spec(&self) -> Option<u64> {
        self.last_check
    }

    /// A checker that has not checked yet.
    pub fn new(config: HealthCheckConfig) -> (c: Self)
        ensures
            c.config_spec() == config,
            c.failures() == 0,
            c.successes() == 0,
            c.last_check_spec() is None,
    {
        HealthChecker { config, failure_count: 0, success_count: 0, last_check: None }
    }

    /// Records a round of checks begun at `now_ms`: when checking is switched off
    /// every round passes and nothing is recorded; otherwise the round passes when
    /// `round_passes` says so, a passing round adds a success and clears the
    /// failures, and a failing one adds a failure and clears the successes.
    /// Counters wrap at their limit.
    pub fn check_health_at(
        &mut self,
        storage_healthy: bool,
        processor_healthy: bool,
        healthy_exchanges: usize,
        now_ms: u64,
    ) -> (healthy: bool)
        ensures
            final(self).config_spec() == old(self).config_spec(),
            !old(self).config_spec().enabled ==> healthy && final(self).failures() == old(
                self,
            ).failures() && final(self).successes() == old(self).successes()
                && final(self).last_check_spec() == old(self).last_check_spec(),
            old(self).config_spec().enabled ==> {
                &&& healthy == round_passes(storage_healthy, processor_healthy, healthy_exchanges as int)
                &&& final(self).last_check_spec() == Some(now_ms)
                &&& healthy ==> final(self).successes() == (old(self).successes() + 1) % 0x1_0000_0000
                    && final(self).failures() == 0
                &&& !healthy ==> final(self).failures() == (old(self).failures() + 1) % 0x1_0000_0000
                    && final(self).successes() == 0
            },
    {
        if !self.config.enabled {
            return true;
        }
        self.last_check = Some(now_ms);
        let mut passed: u32 = 0;
        let total: u32 = 3;
        if storage_healthy {
            passed = passed + 1;
        }
        if processor_healthy {
            passed = passed + 1;
        }
        if healthy_exchanges > 0 {
            passed = passed + 1;
        }
        let healthy = 2 * passed >= total;
        if healthy {
            self.success_count = self.success_count.wrapping_add(1);
            self.failure_count = 0;
        } else {
            self.failure_count = self.failure_count.wrapping_add(1);
            self.success_count = 0;
        }
        healthy
    }

    /// Records a round that did not finish in time as a failure; the counter wraps
    /// at its limit.
    pub fn record_timeout(&mut self)
        ensures
            final(self).failures() == (old(self).failures() + 1) % 0x1_0000_0000,
            final(self).successes() == old(self).successes(),
            final(self).config_spec() == old(self).config_spec(),
            final(self).last_check_spec() == old(self).last_check_spec(),
    {
        self.failure_count = self.failure_count.wrapping_add(1);
    }

    /// Whether fewer consecutive failures than the threshold have been seen.
    pub fn is_healthy(&self) -> (b: bool)
        ensures
            b == (self.failures() < self.config_spec().failure_threshold),
    {
        self.failure_count < self.config.failure_threshold
    }

    /// When the last round began, in milliseconds, if one ever did.
    pub fn last_check_time(&self) -> (t: Option<u64>)
        ensures
            t == self.last_check_spec(),
    {
        self.last_check
    }
}

/// A failing round after `failures` consecutive failures (short of the counter's
/// limit) leaves `failures + 1` of them: the checker is then healthy exactly when
/// that number is below the threshold.
pub proof fn law_failure_count_against_threshold(failures: u32, threshold: u32)
    requires
        failures < u32::MAX,
    ensures
        ((failures + 1) % 0x1_0000_0000 < threshold) <==> (failures + 1 < threshold),
{
}

/// The overall status is `healthy` only when every part is: storage checked and
/// healthy, processor healthy, and every exchange connection healthy.
pub proof fn law_healthy_only_when_all_healthy(
    storage_failed: bool,
    storage_healthy: bool,
    processor_healthy: bool,
    healthy_exchanges: int,
    total_exchanges: int,
)
    requires
        0 <= healthy_exchanges <= total_exchanges,
    ensures
        overall_status(storage_failed, storage_healthy, processor_healthy, healthy_exchanges, total_exchanges)
            == "healthy"@ <==> (!storage_failed && storage_healthy && processor_healthy
            && healthy_exchanges == total_exchanges),
{
    reveal_strlit("healthy");
    reveal_strlit("degraded");
    reveal_strlit("unhealthy");
    assert("healthy"@.len() == 7 && "degraded"@.len() == 8 && "unhealthy"@.len() == 9);
}

/// With exchanges configured and none of them healthy, the status is `unhealthy`
/// whatever the other parts say.
pub proof fn law_no_exchange_unhealthy(
    storage_failed: bool,
    storage_healthy: bool,
    processor_healthy: bool,
    total_exchanges: int,
)
    requires
        total_exchanges > 0,
    ensures
        overall_status(storage_failed, storage_healthy, processor_healthy, 0, total_exchanges)
            == "unhealthy"@,
{
}

/// The number of healthy flags never exceeds the number of flags.
pub proof fn lemma_count_true_bounded(s: Seq<bool>)
    ensures
        0 <= count_true(s) <= s.len(),
    decreases s.len(),
{
    if s.len() > 0 {
        lemma_count_true_bounded(s.drop_last());
    }
}

} // verus!
