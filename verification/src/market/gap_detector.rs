//! Detection of holes in a symbol's data: the last data time of each symbol is
//! remembered, and data arriving more than the threshold after it calls for the
//! hole to be filled from the exchange's REST interface. The filling itself is done
//! by the application, which reports back how it went. Times are milliseconds.

use vstd::prelude::*;
use crate::market::config::MarketDataConfig;
use crate::strmap::StrMap;
use crate::text::{chars_of, owned, prefix_until, suffix_from};

verus! {

/// Counters of detected and filled holes.
#[derive(Debug, Clone, Copy, PartialEq, Eq, Structural)]
pub struct GapDetectorStats {
    pub total_gaps_detected: u64,
    pub total_gaps_filled: u64,
    pub failed_gap_fills: u64,
    pub total_records_filled: u64,
    pub manual_fills: u64,
    pub last_gap_detected: Option<i64>,
    pub last_consistency_check: Option<i64>,
}

impl Default for GapDetectorStats {
    fn default() -> (r: Self)
        ensures
            r == (GapDetectorStats {
                total_gaps_detected: 0,
                total_gaps_filled: 0,
                failed_gap_fills: 0,
                total_records_filled: 0,
                manual_fills: 0,
                last_gap_detected: None,
                last_consistency_check: None,
            }),
    {
        GapDetectorStats {
            total_gaps_detected: 0,
            total_gaps_filled: 0,
            failed_gap_fills: 0,
            total_records_filled: 0,
            manual_fills: 0,
            last_gap_detected: None,
            last_consistency_check: None,
        }
    }
}

/// Whether data at `ts` after data at `last` leaves a hole: the difference, taken
/// as an unsigned number of milliseconds (so that data older than the last wraps
/// to a very large one), exceeds the threshold.
pub open spec fn leaves_gap(last: i64, ts: i64, threshold_ms: u64) -> bool {
    ((ts - last) as u64) > threshold_ms
}

/// The position of the first `:` in a text, if any.
pub open spec fn first_colon(s: Seq<char>) -> Option<int> {
    if exists|i: int| 0 <= i < s.len() && s[i] == ':' {
        Some(choose|i: int| 0 <= i < s.len() && s[i] == ':' && forall|j: int| 0 <= j < i ==> s[j] != ':')
    } else {
        None
    }
}

/// The last data time of each symbol after taking the events in order: a later
/// event of a symbol replaces an earlier one.
pub open spec fn latest_times(events: Seq<(Seq<char>, i64)>) -> Map<Seq<char>, i64>
    decreases events.len(),
{
    if events.len() == 0 {
        Map::empty()
    } else {
        latest_times(events.drop_last()).insert(events.last().0, events.last().1)
    }
}

/// The hole detector.
pub struct DataGapDetector {
    config: MarketDataConfig,
    last_timestamps: StrMap<i64>,
    gap_threshold_ms: u64,
    stats: GapDetectorStats,
}

impl DataGapDetector {
    /// The last data time of each symbol.
    pub closed spec fn last_times(&self) -> Map<Seq<char>, i64> {
        self.last_timestamps@
    }

    /// The counters.
    pub closed spec fn stats_spec(&self) -> GapDetectorStats {
        self.stats
    }

    /// The threshold in milliseconds.
    pub closed spec fn threshold_ms(&self) -> u64 {
        self.gap_threshold_ms
    }

    /// The configuration the detector works for.
    pub closed spec fn config_spec(&self) -> &MarketDataConfig {
        &self.config
    }

    /// The detector's invariant: its maps are well formed.
    pub closed spec fn wf(&self) -> bool {
        self.last_timestamps.wf() && self.config.exchanges.wf()
    }

    /// A detector for a configuration, calling a hole anything longer than
    /// `gap_threshold_secs` seconds.
    pub fn new(config: MarketDataConfig, gap_threshold_secs: u64) -> (d: Self)
        requires
            config.exchanges.wf(),
            gap_threshold_secs * 1000 <= u64::MAX,
        ensures
            d.wf(),
            d.last_times() == Map::<Seq<char>, i64>::empty(),
            d.threshold_ms() == gap_threshold_secs * 1000,
            d.stats_spec() == (GapDetectorStats {
                total_gaps_detected: 0,
                total_gaps_filled: 0,
                failed_gap_fills: 0,
                total_records_filled: 0,
                manual_fills: 0,
                last_gap_detected: None,
                last_consistency_check: None,
            }),
    {
        DataGapDetector {
            config,
            last_timestamps: StrMap::new(),
            gap_threshold_ms: gap_threshold_secs * 1000,
            stats: GapDetectorStats::default(),
        }
    }

    /// Takes in data of a symbol at `timestamp`, seen at `now_ms`: when it leaves a
    /// hole after the symbol's last data, the hole is counted and its bounds are
    /// returned for filling; the symbol's last data time becomes `timestamp` either way.
    pub fn check_gap_at(&mut self, symbol: &str, timestamp: i64, now_ms: i64) -> (hole: Option<(i64, i64)>)
        requires
            old(self).wf(),
            old(self).stats_spec().total_gaps_detected < u64::MAX,
            old(self).last_times().contains_key(symbol@) ==> i64::MIN <= timestamp - old(
                self,
            ).last_times()[symbol@] <= i64::MAX,
        ensures
            final(self).wf(),
            final(self).last_times() == old(self).last_times().insert(symbol@, timestamp),
            final(self).threshold_ms() == old(self).threshold_ms(),
            ({
                let before = old(self).last_times();
                if before.contains_key(symbol@) && leaves_gap(
                    before[symbol@],
                    timestamp,
                    old(self).threshold_ms(),
                ) {
                    &&& hole == Some((before[symbol@], timestamp))
                    &&& final(self).stats_spec() == (GapDetectorStats {
                        total_gaps_detected: (old(self).stats_spec().total_gaps_detected + 1) as u64,
                        last_gap_detected: Some(now_ms),
                        ..old(self).stats_spec()
                    })
                } else {
                    &&& hole is None
                    &&& final(self).stats_spec() == old(self).stats_spec()
                }
            }),
    {
        let mut hole: Option<(i64, i64)> = None;
        match self.last_timestamps.get(symbol) {
            Some(last) => {
                let last_ts = *last;
                let diff = timestamp - last_ts;
                #[verifier::truncate]
                let elapsed = diff as u64;
                if elapsed > self.gap_threshold_ms {
                    self.stats.total_gaps_detected = self.stats.total_gaps_detected + 1;
                    self.stats.last_gap_detected = Some(now_ms);
                    hole = Some((last_ts, timestamp));
                }
            },
            None => {},
        }
        self.last_timestamps.insert(owned(symbol), timestamp);
        hole
    }

    /// Records how filling a hole went: the number of records filled, or a failure.
    pub fn record_fill(&mut self, outcome: Result<u64, ()>)
        requires
            old(self).stats_spec().total_gaps_filled < u64::MAX,
            old(self).stats_spec().failed_gap_fills < u64::MAX,
            outcome matches Ok(n) ==> old(self).stats_spec().total_records_filled + n <= u64::MAX,
        ensures
            final(self).last_times() == old(self).last_times(),
            final(self).wf() == old(self).wf(),
            final(self).threshold_ms() == old(self).threshold_ms(),
            final(self).stats_spec() == match outcome {
                Ok(n) => GapDetectorStats {
                    total_gaps_filled: (old(self).stats_spec().total_gaps_filled + 1) as u64,
                    total_records_filled: (old(self).stats_spec().total_records_filled + n) as u64,
                    ..old(self).stats_spec()
                },
                Err(()) => GapDetectorStats {
                    failed_gap_fills: (old(self).stats_spec().failed_gap_fills + 1) as u64,
                    ..old(self).stats_spec()
                },
            },
    {
        match outcome {
            Ok(n) => {
                self.stats.total_gaps_filled = self.stats.total_gaps_filled + 1;
                self.stats.total_records_filled = self.stats.total_records_filled + n;
            },
            Err(()) => {
                self.stats.failed_gap_fills = self.stats.failed_gap_fills + 1;
            },
        }
    }

    /// Records a fill asked for by hand that filled `filled` records.
    pub fn record_manual_fill(&mut self, filled: u64)
        requires
            old(self).stats_spec().manual_fills < u64::MAX,
            old(self).stats_spec().total_records_filled + filled <= u64::MAX,
        ensures
            final(self).last_times() == old(self).last_times(),
            final(self).wf() == old(self).wf(),
            final(self).threshold_ms() == old(self).threshold_ms(),
            final(self).stats_spec() == (GapDetectorStats {
                manual_fills: (old(self).stats_spec().manual_fills + 1) as u64,
                total_records_filled: (old(self).stats_spec().total_records_filled + filled) as u64,
                ..old(self).stats_spec()
            }),
    {
        self.stats.manual_fills = self.stats.manual_fills + 1;
        self.stats.total_records_filled = self.stats.total_records_filled + filled;
    }

    /// The counters.
    pub fn get_stats(&self) -> (s: GapDetectorStats)
        ensures
            s == self.stats_spec(),
    {
        self.stats
    }

    /// Clears the counters.
    pub fn reset_stats(&mut self)
        ensures
            final(self).last_times() == old(self).last_times(),
            final(self).wf() == old(self).wf(),
            final(self).threshold_ms() == old(self).threshold_ms(),
            final(self).stats_spec() == (GapDetectorStats {
                total_gaps_detected: 0,
                total_gaps_filled: 0,
                failed_gap_fills: 0,
                total_records_filled: 0,
                manual_fills: 0,
                last_gap_detected: None,
                last_consistency_check: None,
            }),
    {
        self.stats = GapDetectorStats::default();
    }

    /// The exchange and the bare symbol of a symbol key: `exchange:symbol` splits at
    /// its first colon; a key without one belongs to the first enabled exchange of the
    /// configuration, and without any the key cannot be placed.
    pub fn parse_symbol_info(&self, symbol: &str) -> (r: Result<(String, String), &'static str>)
        requires
            self.wf(),
        ensures
            match first_colon(symbol@) {
                Some(p) => r matches Ok(pair) && pair.0@ == symbol@.subrange(0, p) && pair.1@
                    == symbol@.subrange(p + 1, symbol@.len() as int),
                None => match r {
                    Ok(pair) => pair.1@ == symbol@ && exists|i: int|
                        0 <= i < self.config_spec().exchanges.value_seq().len()
                            && self.config_spec().exchanges.value_seq()[i].enabled
                            && self.config_spec().exchanges.key_seq()[i] == pair.0@
                            && forall|j: int|
                            0 <= j < i ==> !self.config_spec().exchanges.value_seq()[j].enabled,
                    Err(m) => m@ == "No enabled exchanges found"@ && forall|i: int|
                        0 <= i < self.config_spec().exchanges.value_seq().len()
                            ==> !self.config_spec().exchanges.value_seq()[i].enabled,
                },
            },
    {
        let chars = chars_of(symbol);
        let mut i: usize = 0;
        while i < chars.len()
            invariant
                chars@ == symbol@,
                i <= chars.len(),
                forall|j: int| 0 <= j < i ==> chars@[j] != ':',
            decreases chars.len() - i,
        {
            if chars[i] == ':' {
                proof {
                    let p = choose|p: int| 0 <= p < symbol@.len() && symbol@[p] == ':' && forall|j: int|
                        0 <= j < p ==> symbol@[j] != ':';
                    assert(0 <= i < symbol@.len() && symbol@[i as int] == ':');
                    if p < i {
                        assert(chars@[p] != ':');
                    } else if p > i {
                        assert(symbol@[i as int] != ':');
                    }
                }
                let exchange = prefix_until(symbol, i);
                let rest = suffix_from(symbol, i + 1);
                return Ok((exchange, rest));
            }
            i = i + 1;
        }
        assert(first_colon(symbol@) is None) by {
            assert forall|j: int| 0 <= j < symbol@.len() implies symbol@[j] != ':' by {
                assert(chars@[j] != ':');
            }
        }
        let ex = &self.config.exchanges;
        proof {
            ex.lemma_view();
        }
        let n = ex.len();
        let mut k: usize = 0;
        while k < n
            invariant
                ex.wf(),
                n == ex.value_seq().len(),
                n == ex.key_seq().len(),
                k <= n,
                first_colon(symbol@) is None,
                ex == &self.config.exchanges,
                forall|j: int| 0 <= j < k ==> !ex.value_seq()[j].enabled,
            decreases n - k,
        {
            if ex.value_at(k).enabled {
                let name = ex.key_at(k).clone();
                assert(0 <= k < ex.value_seq().len() && ex.value_seq()[k as int].enabled
                    && ex.key_seq()[k as int] == name@);
                return Ok((name, owned(symbol)));
            }
            k = k + 1;
        }
        Err("No enabled exchanges found")
    }
}

/// The last data time of each symbol in a batch of events, a later event of a
/// symbol replacing an earlier one; the keys are in the order first met.
pub fn latest_per_symbol(events: &Vec<(String, i64)>) -> (m: StrMap<i64>)
    ensures
        m.wf(),
        m@ == latest_times(Seq::new(events@.len(), |i: int| (events@[i].0@, events@[i].1))),
{
    let ghost evs = Seq::new(events@.len(), |i: int| (events@[i].0@, events@[i].1));
    let mut m: StrMap<i64> = StrMap::new();
    let mut i: usize = 0;
    while i < events.len()
        invariant
            m.wf(),
            i <= events.len(),
            evs == Seq::new(events@.len(), |i: int| (events@[i].0@, events@[i].1)),
            m@ == latest_times(evs.subrange(0, i as int)),
        decreases events.len() - i,
    {
        let ghost pre = evs.subrange(0, i as int);
        let ghost post = evs.subrange(0, i + 1);
        assert(post.drop_last() =~= pre);
        m.insert(events[i].0.clone(), events[i].1);
        i = i + 1;
    }
    assert(evs.subrange(0, events.len() as int) =~= evs);
    m
}

/// Data later than the last by no more than the threshold leaves no hole.
pub proof fn law_close_data_no_gap(last: i64, ts: i64, threshold_ms: u64)
    requires
        last <= ts,
        ts - last <= threshold_ms,
    ensures
        !leaves_gap(last, ts, threshold_ms),
{
}

} // verus!
