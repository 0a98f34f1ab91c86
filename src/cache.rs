//! The instance-list cache: a snapshot that stays valid for a fixed time, refreshed by at most
//! one caller at a time.
//!
//! The cache decides and the caller acts: `begin_read` says whether to use the snapshot, to
//! query the gateway, or to retry later, and `finish_refresh` takes the query's outcome back.
//! No gateway call happens inside a method, so a caller that shares the cache between threads
//! holds its lock only for these in-memory steps.
use vstd::prelude::*;
use crate::distro::{DistroView, WslDistribution, WslService, copy_distros, distro_views, distros_of_listing};

verus! {

/// How long a snapshot stays valid, in milliseconds.
pub const DISTRO_CACHE_TTL_MS: u64 = 2000;

/// A snapshot of the instance list and the time it was taken.
pub struct CacheEntry {
    pub captured_at: u64,
    pub distros: Vec<WslDistribution>,
}

/// The snapshot, if any, and whether a refresh is in flight.
pub struct DistroCache {
    entry: Option<CacheEntry>,
    refreshing: bool,
}

/// A snapshot, as plain values.
pub struct SnapshotView {
    pub captured_at: u64,
    pub distros: Seq<DistroView>,
}

/// What the cache holds, as plain values.
pub struct CacheView {
    pub entry: Option<SnapshotView>,
    pub refreshing: bool,
}

impl View for DistroCache {
    type V = CacheView;

    closed spec fn view(&self) -> CacheView {
        CacheView {
            entry: match self.entry {
                Some(e) => Some(SnapshotView { captured_at: e.captured_at, distros: distro_views(e.distros@) }),
                None => None,
            },
            refreshing: self.refreshing,
        }
    }
}

/// What a read tells its caller.
pub enum CacheRead {
    /// Use this list.
    Cached(Vec<WslDistribution>),
    /// Query the gateway, then hand the outcome to `finish_refresh`.
    Refresh,
    /// Another refresh is in flight and there is no list yet: retry shortly.
    Busy,
}

/// What a read tells its caller, as plain values.
pub enum ReadView {
    Cached(Seq<DistroView>),
    Refresh,
    Busy,
}

impl View for CacheRead {
    type V = ReadView;

    open spec fn view(&self) -> ReadView {
        match self {
            CacheRead::Cached(v) => ReadView::Cached(distro_views(v@)),
            CacheRead::Refresh => ReadView::Refresh,
            CacheRead::Busy => ReadView::Busy,
        }
    }
}

/// The age of a snapshot taken at `captured_at`, at time `now`; a clock that reads earlier than
/// the snapshot counts as no time elapsed.
pub open spec fn age(captured_at: u64, now: u64) -> int {
    if now >= captured_at {
        now - captured_at
    } else {
        0
    }
}

/// The cache holds a snapshot younger than the time to live.
pub open spec fn is_fresh(c: CacheView, now: u64) -> bool {
    c.entry is Some && age(c.entry->0.captured_at, now) < DISTRO_CACHE_TTL_MS
}

/// What a read at `now` answers: the snapshot while fresh; else a refresh when none is in
/// flight; else the previous snapshot, or `Busy` when there is none.
pub open spec fn read_result(c: CacheView, now: u64) -> ReadView {
    if is_fresh(c, now) {
        ReadView::Cached(c.entry->0.distros)
    } else if !c.refreshing {
        ReadView::Refresh
    } else if c.entry is Some {
        ReadView::Cached(c.entry->0.distros)
    } else {
        ReadView::Busy
    }
}

/// The cache after a read at `now`: marked as refreshing when the read asks for a refresh.
pub open spec fn after_read(c: CacheView, now: u64) -> CacheView {
    if read_result(c, now) is Refresh {
        CacheView { refreshing: true, ..c }
    } else {
        c
    }
}

/// The cache after a query's outcome comes back at `now`: no refresh in flight, and on success a
/// new snapshot of the parsed list.
pub open spec fn after_finish(c: CacheView, listing: Option<Seq<char>>, now: u64) -> CacheView {
    match listing {
        Some(text) => CacheView { entry: Some(SnapshotView { captured_at: now, distros: distros_of_listing(text) }), refreshing: false },
        None => CacheView { refreshing: false, ..c },
    }
}

/// The answers of reads at the times `ts`, one after another, from `c` on.
pub open spec fn reads(c: CacheView, ts: Seq<u64>) -> Seq<ReadView>
    decreases ts.len(),
{
    if ts.len() == 0 {
        seq![]
    } else {
        seq![read_result(c, ts[0])] + reads(after_read(c, ts[0]), ts.drop_first())
    }
}

impl DistroCache {
    /// An empty cache with no refresh in flight.
    pub fn new() -> (r: DistroCache)
        ensures
            r@.entry is None,
            !r@.refreshing,
    {
        DistroCache { entry: None, refreshing: false }
    }

    /// Decides a read at time `now` (milliseconds of a monotonic clock); when it answers
    /// `Refresh` the cache counts a refresh as in flight until `finish_refresh`.
    pub fn begin_read(&mut self, now: u64) -> (r: CacheRead)
        ensures
            r@ == read_result(old(self)@, now),
            final(self)@ == after_read(old(self)@, now),
    {
        let fresh = match &self.entry {
            Some(e) => {
                let age: u64 = if now >= e.captured_at { now - e.captured_at } else { 0 };
                age < DISTRO_CACHE_TTL_MS
            },
            None => false,
        };
        if fresh {
            return match &self.entry {
                Some(e) => CacheRead::Cached(copy_distros(&e.distros)),
                None => CacheRead::Busy,
            };
        }
        if !self.refreshing {
            self.refreshing = true;
            return CacheRead::Refresh;
        }
        match &self.entry {
            Some(e) => CacheRead::Cached(copy_distros(&e.distros)),
            None => CacheRead::Busy,
        }
    }

    /// Takes back the outcome of the query that a `Refresh` asked for, at time `now`: the
    /// in-flight mark is cleared whatever the outcome, a listing becomes the new snapshot and is
    /// returned parsed, and a failure is returned as it came.
    pub fn finish_refresh(&mut self, listing: Result<String, String>, now: u64) -> (r: Result<Vec<WslDistribution>, String>)
        ensures
            final(self)@ == after_finish(old(self)@, match listing { Ok(t) => Some(t@), Err(_) => None }, now),
            match listing {
                Ok(t) => r is Ok && distro_views(r->Ok_0@) == distros_of_listing(t@),
                Err(e) => r is Err && r->Err_0@ == e@,
            },
    {
        self.refreshing = false;
        self.store(listing, now)
    }

    /// Replaces the snapshot with a fresh listing whether or not the current one is still
    /// valid, leaving any in-flight mark alone; a failure is returned as it came.
    pub fn refresh_distributions(&mut self, listing: Result<String, String>, now: u64) -> (r: Result<Vec<WslDistribution>, String>)
        ensures
            final(self)@.refreshing == old(self)@.refreshing,
            match listing {
                Ok(t) => r is Ok && distro_views(r->Ok_0@) == distros_of_listing(t@)
                    && final(self)@.entry == Some(SnapshotView { captured_at: now, distros: distros_of_listing(t@) }),
                Err(e) => r is Err && r->Err_0@ == e@ && final(self)@.entry == old(self)@.entry,
            },
    {
        self.store(listing, now)
    }

    fn store(&mut self, listing: Result<String, String>, now: u64) -> (r: Result<Vec<WslDistribution>, String>)
        ensures
            final(self)@.refreshing == old(self)@.refreshing,
            match listing {
                Ok(t) => r is Ok && distro_views(r->Ok_0@) == distros_of_listing(t@)
                    && final(self)@.entry == Some(SnapshotView { captured_at: now, distros: distros_of_listing(t@) }),
                Err(e) => r is Err && r->Err_0@ == e@ && final(self)@.entry == old(self)@.entry,
            },
    {
        match listing {
            Ok(text) => {
                let parsed = WslService::parse_distributions(text.as_str());
                match parsed {
                    Ok(distros) => {
                        let copy = copy_distros(&distros);
                        self.entry = Some(CacheEntry { captured_at: now, distros });
                        Ok(copy)
                    },
                    Err(e) => Err(e),
                }
            },
            Err(e) => Err(e),
        }
    }

    /// Drops the snapshot, so that the next read asks for a refresh.
    pub fn invalidate_distro_cache(&mut self)
        ensures
            final(self)@ == (CacheView { entry: None, ..old(self)@ }),
    {
        self.entry = None;
    }
}

/// Two reads within the time to live of a completed refresh query the gateway once: a read of a
/// stale cache with no refresh in flight asks for a refresh, and once its listing is back, a
/// read before the time to live has passed answers with that listing and asks for nothing.
pub proof fn reads_within_ttl_query_once(c: CacheView, t1: u64, done: u64, t2: u64, listing: Seq<char>)
    requires
        !is_fresh(c, t1),
        !c.refreshing,
        done <= t2,
        t2 - done < DISTRO_CACHE_TTL_MS,
    ensures
        read_result(c, t1) is Refresh,
        ({
            let c2 = after_finish(after_read(c, t1), Some(listing), done);
            &&& read_result(c2, t2) == ReadView::Cached(distros_of_listing(listing))
            &&& after_read(c2, t2) == c2
        }),
{
}

/// Once the time to live of a snapshot has passed, a read with no refresh in flight queries the
/// gateway once more, and a read within the time to live of that second listing asks for
/// nothing.
pub proof fn read_after_ttl_queries_again(c: CacheView, t1: u64, done: u64, t2: u64, listing: Seq<char>)
    requires
        c.entry is Some,
        !c.refreshing,
        c.entry->0.captured_at <= t1,
        t1 - c.entry->0.captured_at >= DISTRO_CACHE_TTL_MS,
        done <= t2,
        t2 - done < DISTRO_CACHE_TTL_MS,
    ensures
        read_result(c, t1) is Refresh,
        ({
            let c2 = after_finish(after_read(c, t1), Some(listing), done);
            &&& read_result(c2, t2) == ReadView::Cached(distros_of_listing(listing))
            &&& after_read(c2, t2) == c2
        }),
{
}

/// While a refresh is in flight, every read answers with the previous snapshot, or `Busy` when
/// there is none, and leaves the cache as it is.
pub proof fn reads_while_refreshing(c: CacheView, ts: Seq<u64>)
    requires
        c.refreshing,
    ensures
        reads(c, ts).len() == ts.len(),
        forall|i: int| 0 <= i < ts.len() ==> #[trigger] reads(c, ts)[i] == if c.entry is Some {
            ReadView::Cached(c.entry->0.distros)
        } else {
            ReadView::Busy
        },
    decreases ts.len(),
{
    if ts.len() > 0 {
        assert(after_read(c, ts[0]) == c);
        reads_while_refreshing(c, ts.drop_first());
        let rest = reads(c, ts.drop_first());
        assert forall|i: int| 0 <= i < ts.len() implies #[trigger] reads(c, ts)[i] == if c.entry is Some {
            ReadView::Cached(c.entry->0.distros)
        } else {
            ReadView::Busy
        } by {
            if i > 0 {
                assert(reads(c, ts)[i] == rest[i - 1]);
            }
        }
    }
}

/// Of any number of reads of a stale cache with no refresh in flight, only the first queries
/// the gateway: the others, made before its outcome is back, answer with the previous snapshot,
/// or `Busy` when there is none.
pub proof fn concurrent_reads_query_once(c: CacheView, ts: Seq<u64>)
    requires
        ts.len() > 0,
        !is_fresh(c, ts[0]),
        !c.refreshing,
    ensures
        reads(c, ts).len() == ts.len(),
        reads(c, ts)[0] is Refresh,
        forall|i: int| 1 <= i < ts.len() ==> #[trigger] reads(c, ts)[i] == if c.entry is Some {
            ReadView::Cached(c.entry->0.distros)
        } else {
            ReadView::Busy
        },
{
    let c1 = after_read(c, ts[0]);
    reads_while_refreshing(c1, ts.drop_first());
    let rest = reads(c1, ts.drop_first());
    assert forall|i: int| 1 <= i < ts.len() implies #[trigger] reads(c, ts)[i] == if c.entry is Some {
        ReadView::Cached(c.entry->0.distros)
    } else {
        ReadView::Busy
    } by {
        assert(reads(c, ts)[i] == rest[i - 1]);
    }
}

} // verus!
