//! Book-keeping of the lightweight collector: the most recent closed candles, kept
//! up to a capacity with the oldest dropped first, and the counters of what was
//! stored. Times are milliseconds since the epoch.

use vstd::prelude::*;

verus! {

/// The items after adding one to a history of at most `cap`: it goes last, and when
/// that makes one too many the oldest goes.
pub open spec fn after_push<T>(s: Seq<T>, x: T, cap: nat) -> Seq<T> {
    if s.len() + 1 > cap {
        s.push(x).drop_first()
    } else {
        s.push(x)
    }
}

/// The history left by adding the items in order to an empty one.
pub open spec fn history_of<T>(pushed: Seq<T>, cap: nat) -> Seq<T>
    decreases pushed.len(),
{
    if pushed.len() == 0 {
        Seq::empty()
    } else {
        after_push(history_of(pushed.drop_last(), cap), pushed.last(), cap)
    }
}

/// The most recent items, oldest first, at most `capacity` of them.
pub struct RecentHistory<T> {
    items: Vec<T>,
    capacity: usize,
}

impl<T> RecentHistory<T> {
    /// The items, oldest first.
    pub closed spec fn items_spec(&self) -> Seq<T> {
        self.items@
    }

    /// The most items kept.
    pub closed spec fn capacity_spec(&self) -> nat {
        self.capacity as nat
    }

    /// The history never holds more than its capacity.
    pub closed spec fn wf(&self) -> bool {
        self.items@.len() <= self.capacity
    }

    /// An empty history keeping at most `capacity` items.
    pub fn new(capacity: usize) -> (h: Self)
        ensures
            h.wf(),
            h.items_spec() == Seq::<T>::empty(),
            h.capacity_spec() == capacity,
    {
        RecentHistory { items: Vec::new(), capacity }
    }

    /// Adds an item; when that makes one too many, the oldest goes.
    pub fn push(&mut self, item: T)
        requires
            old(self).wf(),
        ensures
            final(self).wf(),
            final(self).capacity_spec() == old(self).capacity_spec(),
            final(self).items_spec() == after_push(old(self).items_spec(), item, old(self).capacity_spec()),
    {
        let ghost before = self.items@;
        self.items.push(item);
        if self.items.len() > self.capacity {
            let _ = self.items.remove(0);
            assert(self.items@ =~= before.push(item).drop_first());
        }
    }

    /// The number of items held.
    pub fn len(&self) -> (n: usize)
        ensures
            n == self.items_spec().len(),
    {
        self.items.len()
    }

    /// The items, oldest first.
    pub fn items(&self) -> (v: &Vec<T>)
        ensures
            v@ == self.items_spec(),
    {
        &self.items
    }
}

/// Adding items one by one to an empty history keeps exactly the last `cap` of
/// them (all of them while there are fewer), in the order they came.
pub proof fn law_history_keeps_latest<T>(pushed: Seq<T>, cap: nat)
    ensures
        history_of(pushed, cap) == pushed.subrange(
            if pushed.len() > cap { pushed.len() - cap } else { 0 },
            pushed.len() as int,
        ),
    decreases pushed.len(),
{
    if pushed.len() > 0 {
        let prev = pushed.drop_last();
        law_history_keeps_latest(prev, cap);
        let h = history_of(prev, cap);
        let start = if prev.len() > cap { prev.len() - cap } else { 0 };
        assert(h == prev.subrange(start, prev.len() as int));
        let x = pushed.last();
        let new_start = if pushed.len() > cap { pushed.len() - cap } else { 0 };
        if h.len() + 1 > cap {
            assert(h.push(x).drop_first() =~= pushed.subrange(new_start, pushed.len() as int));
        } else {
            assert(h.push(x) =~= pushed.subrange(new_start, pushed.len() as int));
        }
    }
}

/// A history never holds more items than its capacity.
pub proof fn law_history_bounded<T>(pushed: Seq<T>, cap: nat)
    ensures
        history_of(pushed, cap).len() <= cap,
{
    law_history_keeps_latest(pushed, cap);
}

/// What the collector has stored.
#[derive(Debug, Clone, Copy, PartialEq, Eq, Structural)]
pub struct StorageStats {
    pub total_ticks: u64,
    pub total_klines: u64,
    pub last_tick_time: Option<i64>,
    pub last_kline_time: Option<i64>,
}

impl Default for StorageStats {
    fn default() -> (r: Self)
        ensures
            r == (StorageStats {
                total_ticks: 0,
                total_klines: 0,
                last_tick_time: None,
                last_kline_time: None,
            }),
    {
        StorageStats { total_ticks: 0, total_klines: 0, last_tick_time: None, last_kline_time: None }
    }
}

/// The collector's store: when switched off it stores nothing.
pub struct SimpleStorage {
    pub enabled: bool,
    pub stats: StorageStats,
}

impl SimpleStorage {
    /// A store, on or off, with nothing stored.
    pub fn new(enabled: bool) -> (s: Self)
        ensures
            s.enabled == enabled,
            s.stats == (StorageStats {
                total_ticks: 0,
                total_klines: 0,
                last_tick_time: None,
                last_kline_time: None,
            }),
    {
        SimpleStorage { enabled, stats: StorageStats::default() }
    }

    /// Stores a ticker at `now_ms`: counted and stamped when the store is on.
    pub fn store_tick_at(&mut self, now_ms: i64)
        requires
            old(self).stats.total_ticks < u64::MAX,
        ensures
            final(self).enabled == old(self).enabled,
            !old(self).enabled ==> final(self).stats == old(self).stats,
            old(self).enabled ==> final(self).stats == (StorageStats {
                total_ticks: (old(self).stats.total_ticks + 1) as u64,
                last_tick_time: Some(now_ms),
                ..old(self).stats
            }),
    {
        if self.enabled {
            self.stats.total_ticks = self.stats.total_ticks + 1;
            self.stats.last_tick_time = Some(now_ms);
        }
    }

    /// Stores a candle at `now_ms`: counted and stamped when the store is on.
    pub fn store_kline_at(&mut self, now_ms: i64)
        requires
            old(self).stats.total_klines < u64::MAX,
        ensures
            final(self).enabled == old(self).enabled,
            !old(self).enabled ==> final(self).stats == old(self).stats,
            old(self).enabled ==> final(self).stats == (StorageStats {
                total_klines: (old(self).stats.total_klines + 1) as u64,
                last_kline_time: Some(now_ms),
                ..old(self).stats
            }),
    {
        if self.enabled {
            self.stats.total_klines = self.stats.total_klines + 1;
            self.stats.last_kline_time = Some(now_ms);
        }
    }

    /// What has been stored.
    pub fn get_stats(&self) -> (s: StorageStats)
        ensures
            s == self.stats,
    {
        self.stats
    }
}

/// Whether a ticker stamped `timestamp` (milliseconds) falls in the first second of a
/// ten-second period, when the collector reports and stores it. A negative stamp's
/// remainder is never positive, so such a stamp always does.
pub fn due_for_report(timestamp: i64) -> (b: bool)
    ensures
        timestamp >= 0 ==> b == (timestamp % 10000 < 1000),
        timestamp < 0 ==> b,
{
    if timestamp < 0 {
        true
    } else {
        timestamp % 10000 < 1000
    }
}

} // verus!
