//! Per-provider sliding-window rate limiting. The limiter keeps, for
//! each provider, the request instants that still fall inside the
//! window, and admits a new request only while fewer than
//! `max_requests` of them remain. The waiting itself (semaphore and
//! sleep) happens outside the library; `acquire_step` is one admission
//! decision of that loop.
//!
//! Alongside the executable state the limiter carries the full grant
//! history as ghost data, and its invariant ties the two together: the
//! admission rule proves that no window of the configured length ever
//! holds more grants than allowed.

use vstd::prelude::*;
use vstd::seq_lib::*;
use crate::store::lemma_filter_take_step;
use crate::strutil::str_eq;

verus! {

/// Rate limiter configuration.
#[derive(Debug, Clone, Copy, PartialEq, Eq, Structural)]
pub struct RateLimitConfig {
    pub max_concurrent: usize,
    pub max_requests: usize,
    pub window_seconds: u64,
}

impl Default for RateLimitConfig {
    /// Five concurrent requests, forty per ten-second window.
    fn default() -> (r: Self)
        ensures
            r.max_concurrent == 5,
            r.max_requests == 40,
            r.window_seconds == 10,
    {
        RateLimitConfig { max_concurrent: 5, max_requests: 40, window_seconds: 10 }
    }
}

/// `a - b`, stopping at zero: the age of a timestamp.
pub open spec fn spec_sat_sub(a: u64, b: u64) -> int {
    if a >= b {
        a - b
    } else {
        0
    }
}

/// The grants that still fall inside the window ending at `t`.
pub open spec fn win_pred(t: u64, window_ms: u64) -> spec_fn(u64) -> bool {
    |g: u64| spec_sat_sub(t, g) < window_ms
}

/// Timestamps in non-decreasing order.
pub open spec fn sorted_ts(s: Seq<u64>) -> bool {
    forall|i: int, j: int| 0 <= i <= j < s.len() ==> s[i] <= s[j]
}

/// The admission rule, over a full grant history: each grant was
/// issued while fewer than `max_requests` earlier grants fell inside
/// the window ending at its own instant.
pub open spec fn admission_ok(grants: Seq<u64>, window_ms: u64, max_requests: usize) -> bool {
    &&& sorted_ts(grants)
    &&& forall|i: int|
        0 <= i < grants.len() ==> (#[trigger] grants.take(i)).filter(
            win_pred(grants[i], window_ms),
        ).len() < max_requests
}

/// A stretch of elements that all satisfy the predicate bounds the
/// filtered length from below.
proof fn lemma_filter_count_lower(s: Seq<u64>, p: spec_fn(u64) -> bool, i: int, j: int)
    requires
        0 <= i <= j <= s.len(),
        forall|k: int| i <= k < j ==> p(#[trigger] s[k]),
    ensures
        s.take(j).filter(p).len() >= j - i,
    decreases j - i,
{
    if j > i {
        lemma_filter_count_lower(s, p, i, j - 1);
        lemma_filter_take_step(s, p, j - 1);
    }
}

/// The sliding-window law: under the admission rule, two grants closer
/// than the window length have fewer than `max_requests` grants between
/// them, ends included — so no window of that length ever holds more
/// than `max_requests` grants.
pub proof fn lemma_sliding_window_bound(
    grants: Seq<u64>,
    window_ms: u64,
    max_requests: usize,
    i: int,
    j: int,
)
    requires
        admission_ok(grants, window_ms, max_requests),
        0 <= i <= j < grants.len(),
        spec_sat_sub(grants[j], grants[i]) < window_ms,
    ensures
        j - i < max_requests,
{
    assert forall|k: int| i <= k < j implies win_pred(grants[j], window_ms)(
        #[trigger] grants[k],
    ) by {
        assert(grants[i] <= grants[k]);
    }
    lemma_filter_count_lower(grants, win_pred(grants[j], window_ms), i, j);
}

/// The window law at the limiter: for a provider the limiter tracks,
/// any two grants closer together than the window have fewer than
/// `max_requests` grants between them, ends included — no window of
/// the configured length ever holds more grants than allowed.
pub proof fn lemma_limiter_window_bound(limiter: RateLimiter, provider: Seq<char>, i: int, j: int)
    requires
        limiter.wf(),
        exists|k: int|
            0 <= k < limiter.records@.len() && (#[trigger] limiter.records@[k]).0@ == provider,
        0 <= i <= j < limiter.history_of(provider).len(),
        spec_sat_sub(limiter.history_of(provider)[j], limiter.history_of(provider)[i])
            < limiter.spec_window_ms(),
    ensures
        j - i < limiter.config.max_requests,
{
    let k = choose|k: int|
        0 <= k < limiter.records@.len() && (#[trigger] limiter.records@[k]).0@ == provider;
    assert(limiter.entry_wf(limiter.records@[k].0@, limiter.records@[k].1));
    lemma_sliding_window_bound(
        limiter.history_of(provider),
        (limiter.spec_window_ms()) as u64,
        limiter.config.max_requests,
        i,
        j,
    );
}

/// Request instants of one provider, milliseconds, oldest first. Only
/// instants still inside the window are kept.
#[derive(Debug, Clone)]
pub struct RequestRecord {
    pub timestamps: Vec<u64>,
}

impl RequestRecord {
    /// The kept instants are in non-decreasing order.
    pub open spec fn wf(&self) -> bool {
        sorted_ts(self.timestamps@)
    }

    /// An empty record.
    pub fn new() -> (r: Self)
        ensures
            r.timestamps@ =~= Seq::<u64>::empty(),
            r.wf(),
    {
        RequestRecord { timestamps: Vec::new() }
    }

    /// Drop the instants that have aged out of the window.
    #[verifier::loop_isolation(false)]
    pub fn cleanup(&mut self, window_ms: u64, now: u64)
        requires
            old(self).wf(),
        ensures
            final(self).wf(),
            final(self).timestamps@ == old(self).timestamps@.filter(win_pred(now, window_ms)),
    {
        let ghost keep = win_pred(now, window_ms);
        let ghost orig = self.timestamps@;
        let mut kept: Vec<u64> = Vec::new();
        let mut i: usize = 0;
        while i < self.timestamps.len()
            invariant
                0 <= i <= orig.len(),
                self.timestamps@ == orig,
                kept@ =~= orig.take(i as int).filter(keep),
            decreases orig.len() - i,
        {
            proof {
                lemma_filter_take_step(orig, keep, i as int);
            }
            let t = self.timestamps[i];
            let age = if now >= t {
                now - t
            } else {
                0
            };
            if age < window_ms {
                kept.push(t);
            }
            i = i + 1;
        }
        proof {
            assert(orig.take(orig.len() as int) =~= orig);
        }
        self.timestamps = kept;
        proof {
            assert forall|a: int, b: int|
                0 <= a <= b < self.timestamps@.len() implies self.timestamps@[a]
                <= self.timestamps@[b] by {
                orig.lemma_filter_pred(keep, a);
                orig.lemma_filter_pred(keep, b);
                lemma_filter_ordered(orig, keep, a, b);
            }
        }
    }

    /// Whether the window still has room for a request.
    pub fn can_request(&self, max_requests: usize) -> (r: bool)
        ensures
            r == (self.timestamps@.len() < max_requests),
    {
        self.timestamps.len() < max_requests
    }

    /// Record a request granted at this instant.
    pub fn record_request(&mut self, now: u64)
        requires
            old(self).wf(),
            forall|i: int| 0 <= i < old(self).timestamps@.len() ==> old(self).timestamps@[i] <= now,
        ensures
            final(self).wf(),
            final(self).timestamps@ == old(self).timestamps@.push(now),
    {
        self.timestamps.push(now);
    }

    /// How long until the oldest instant ages out, when the window is
    /// full; nothing to wait for otherwise.
    pub fn next_available(&self, window_ms: u64, max_requests: usize, now: u64) -> (r: Option<u64>)
        ensures
            r == self.spec_next_available(window_ms, max_requests, now),
    {
        if self.timestamps.len() < max_requests {
            return None;
        }
        if self.timestamps.len() > 0 {
            let oldest = self.timestamps[0];
            let elapsed = if now >= oldest {
                now - oldest
            } else {
                0
            };
            if elapsed < window_ms {
                return Some(window_ms - elapsed);
            }
        }
        None
    }

    /// The delay `next_available` reports.
    pub open spec fn spec_next_available(
        &self,
        window_ms: u64,
        max_requests: usize,
        now: u64,
    ) -> Option<u64> {
        if self.timestamps@.len() < max_requests {
            None
        } else if self.timestamps@.len() > 0 && spec_sat_sub(now, self.timestamps@[0])
            < window_ms {
            Some((window_ms - spec_sat_sub(now, self.timestamps@[0])) as u64)
        } else {
            None
        }
    }
}

/// A filter that rejects every element keeps nothing.
proof fn lemma_filter_all_fail(s: Seq<u64>, p: spec_fn(u64) -> bool)
    requires
        forall|k: int| 0 <= k < s.len() ==> !p(#[trigger] s[k]),
    ensures
        s.filter(p).len() == 0,
    decreases s.len(),
{
    reveal_with_fuel(Seq::filter, 2);
    if s.len() > 0 {
        assert(forall|k: int| 0 <= k < s.drop_last().len() ==> !p(#[trigger] s.drop_last()[k]));
        lemma_filter_all_fail(s.drop_last(), p);
    }
}

/// A filter that accepts every element keeps the sequence unchanged.
proof fn lemma_filter_all_pass(s: Seq<u64>, p: spec_fn(u64) -> bool)
    requires
        forall|k: int| 0 <= k < s.len() ==> p(#[trigger] s[k]),
    ensures
        s.filter(p) =~= s,
    decreases s.len(),
{
    reveal_with_fuel(Seq::filter, 2);
    if s.len() > 0 {
        assert(forall|k: int| 0 <= k < s.drop_last().len() ==> p(#[trigger] s.drop_last()[k]));
        lemma_filter_all_pass(s.drop_last(), p);
        assert(s.filter(p) =~= s.drop_last().filter(p).push(s.last()));
    }
}

/// Windowing a sorted sequence keeps a suffix: everything it drops is
/// an expired prefix.
proof fn lemma_filter_sorted_suffix(s: Seq<u64>, now: u64, window_ms: u64)
    requires
        sorted_ts(s),
    ensures
        s.filter(win_pred(now, window_ms)).len() <= s.len(),
        s.filter(win_pred(now, window_ms)) =~= s.skip(
            s.len() - s.filter(win_pred(now, window_ms)).len(),
        ),
        forall|k: int|
            0 <= k < s.len() - s.filter(win_pred(now, window_ms)).len() ==> !win_pred(
                now,
                window_ms,
            )(#[trigger] s[k]),
    decreases s.len(),
{
    reveal_with_fuel(Seq::filter, 2);
    let p = win_pred(now, window_ms);
    if s.len() > 0 {
        if p(s.last()) {
            lemma_filter_sorted_suffix(s.drop_last(), now, window_ms);
            let m = s.drop_last().len() - s.drop_last().filter(p).len();
            assert(s.filter(p) =~= s.drop_last().filter(p).push(s.last()));
            assert(s.filter(p) =~= s.skip(m));
            assert forall|k: int| 0 <= k < m implies !p(#[trigger] s[k]) by {
                assert(s.drop_last()[k] == s[k]);
                assert(!p(s.drop_last()[k]));
            }
        } else {
            // The newest instant is already expired, so every earlier
            // instant is too.
            assert forall|k: int| 0 <= k < s.len() implies !p(#[trigger] s[k]) by {
                assert(s[k] <= s.last());
            }
            lemma_filter_all_fail(s, p);
            assert(s.filter(p) =~= s.skip(s.len() as int));
        }
    }
}

/// One admission decision: either the request was granted at `now`, or
/// the caller should wait this many milliseconds and retry.
#[derive(Debug, Clone, Copy, PartialEq, Eq, Structural)]
pub enum AcquireDecision {
    Granted,
    Wait(u64),
}

/// The sliding-window limiter: a request record per provider. The
/// global concurrency gate and the waiting happen outside the library;
/// each pass of that loop asks `acquire_step` for one decision.
pub struct RateLimiter {
    pub config: RateLimitConfig,
    pub records: Vec<(String, RequestRecord)>,
    /// Full grant history per provider name.
    pub grants: Ghost<Map<Seq<char>, Seq<u64>>>,
    /// The latest instant the limiter has seen.
    pub clock: Ghost<u64>,
}

impl RateLimiter {
    /// The window length in milliseconds.
    pub open spec fn spec_window_ms(&self) -> int {
        self.config.window_seconds * 1000
    }

    /// Everything the grant history of one provider ever recorded.
    pub open spec fn history_of(&self, provider: Seq<char>) -> Seq<u64> {
        if self.grants@.dom().contains(provider) {
            self.grants@[provider]
        } else {
            Seq::empty()
        }
    }

    /// The record of each provider is the live suffix of its grant
    /// history: what was dropped had aged out of the window, what was
    /// kept is ordered, and the whole history obeys the admission rule.
    pub open spec fn entry_wf(&self, key: Seq<char>, rec: RequestRecord) -> bool {
        let h = self.history_of(key);
        let dropped = h.len() - rec.timestamps@.len();
        &&& rec.wf()
        &&& self.grants@.dom().contains(key)
        &&& rec.timestamps@.len() <= h.len()
        &&& rec.timestamps@ == h.skip(dropped as int)
        &&& forall|k: int|
            0 <= k < dropped ==> spec_sat_sub(self.clock@, #[trigger] h[k]) >= self.spec_window_ms()
        &&& forall|k: int| 0 <= k < h.len() ==> #[trigger] h[k] <= self.clock@
        &&& admission_ok(h, (self.spec_window_ms()) as u64, self.config.max_requests)
    }

    /// Well-formedness of the limiter.
    pub open spec fn wf(&self) -> bool {
        &&& self.spec_window_ms() <= u64::MAX
        &&& forall|i: int, j: int|
            0 <= i < j < self.records@.len() ==> (#[trigger] self.records@[i]).0@ != (
            #[trigger] self.records@[j]).0@
        &&& forall|i: int|
            0 <= i < self.records@.len() ==> self.entry_wf(
                (#[trigger] self.records@[i]).0@,
                self.records@[i].1,
            )
        &&& forall|p: Seq<char>|
            #[trigger] self.grants@.dom().contains(p) ==> exists|i: int|
                0 <= i < self.records@.len() && (#[trigger] self.records@[i]).0@ == p
    }

    /// A fresh limiter with no recorded requests.
    pub fn new(config: RateLimitConfig) -> (r: RateLimiter)
        requires
            config.window_seconds * 1000 <= u64::MAX,
        ensures
            r.wf(),
            r.config == config,
            r.records@.len() == 0,
            forall|p: Seq<char>| r.history_of(p) == Seq::<u64>::empty(),
    {
        let r = RateLimiter {
            config,
            records: Vec::new(),
            grants: Ghost(Map::empty()),
            clock: Ghost(0),
        };
        proof {
            assert(forall|p: Seq<char>| !r.grants@.dom().contains(p));
        }
        r
    }

    /// The limiter's configuration.
    pub fn config(&self) -> (r: &RateLimitConfig)
        ensures
            r == self.config,
    {
        &self.config
    }

    /// Find the record of a provider.
    fn find_record(&self, provider: &str) -> (r: Option<usize>)
        ensures
            match r {
                Some(i) => i < self.records@.len() && self.records@[i as int].0@ == provider@,
                None => forall|i: int|
                    0 <= i < self.records@.len() ==> (#[trigger] self.records@[i]).0@
                        != provider@,
            },
    {
        let mut i: usize = 0;
        while i < self.records.len()
            invariant
                0 <= i <= self.records@.len(),
                forall|j: int| 0 <= j < i ==> (#[trigger] self.records@[j]).0@ != provider@,
            decreases self.records@.len() - i,
        {
            if str_eq(self.records[i].0.as_str(), provider) {
                return Some(i);
            }
            i = i + 1;
        }
        None
    }

    /// One pass of the acquisition loop: slide the provider's window
    /// forward to `now`, then either grant the request, recording the
    /// instant, or report how many milliseconds to wait before asking
    /// again. The concurrency permit and the sleeping live with the
    /// caller.
    #[verifier::loop_isolation(false)]
    #[verifier::rlimit(100)]
    #[verifier::spinoff_prover]
    pub fn acquire_step(&mut self, provider: &str, now: u64) -> (r: AcquireDecision)
        requires
            old(self).wf(),
            now >= old(self).clock@,
        ensures
            final(self).wf(),
            final(self).config == old(self).config,
            final(self).clock@ == now,
            forall|p: Seq<char>|
                p != provider@ ==> final(self).history_of(p) == old(self).history_of(p),
            ({
                let live = old(self).history_of(provider@).filter(
                    win_pred(now, (old(self).spec_window_ms()) as u64),
                );
                match r {
                    AcquireDecision::Granted => {
                        &&& final(self).history_of(provider@) == old(self).history_of(
                            provider@,
                        ).push(now)
                        &&& live.len() < old(self).config.max_requests
                    },
                    AcquireDecision::Wait(d) => {
                        &&& final(self).history_of(provider@) == old(self).history_of(provider@)
                        &&& live.len() >= old(self).config.max_requests
                        &&& d == (if live.len() > 0 && spec_sat_sub(now, live[0]) < old(
                            self,
                        ).spec_window_ms() {
                            ((old(self).spec_window_ms()) - spec_sat_sub(now, live[0])) as u64
                        } else {
                            100u64
                        })
                    },
                }
            }),
    {
        let window_ms: u64 = self.config.window_seconds * 1000;
        let idx: usize = match self.find_record(provider) {
            Some(i) => i,
            None => {
                self.records.push((provider.to_owned(), RequestRecord::new()));
                proof {
                    self.grants@ = self.grants@.insert(provider@, Seq::empty());
                    assert(old(self).history_of(provider@) =~= Seq::<u64>::empty()) by {
                        if old(self).grants@.dom().contains(provider@) {
                            let w = choose|w: int|
                                0 <= w < old(self).records@.len() && (#[trigger] old(
                                    self,
                                ).records@[w]).0@ == provider@;
                        }
                    }
                }
                self.records.len() - 1
            },
        };
        let ghost pre = *self;
        let ghost key = provider@;
        let ghost h = pre.history_of(key);
        let ghost wms = window_ms;
        proof {
            // The state after a possible fresh insertion still satisfies
            // the limiter invariant, with the same histories.
            assert(pre.wf()) by {
                if pre.records@.len() > old(self).records@.len() {
                    assert(pre.records@.drop_last() =~= old(self).records@);
                    assert forall|i: int|
                        0 <= i < pre.records@.len() implies pre.entry_wf(
                        (#[trigger] pre.records@[i]).0@,
                        pre.records@[i].1,
                    ) by {
                        if i < old(self).records@.len() {
                            assert(old(self).entry_wf(
                                old(self).records@[i].0@,
                                old(self).records@[i].1,
                            ));
                        } else {
                            assert(pre.records@[i].0@ == provider@);
                            assert(pre.records@[i].1.timestamps@ =~= Seq::<u64>::empty());
                            assert(pre.grants@[provider@] =~= Seq::<u64>::empty());
                            assert(pre.history_of(provider@) =~= Seq::<u64>::empty());
                            assert(pre.records@[i].1.timestamps@ == pre.history_of(
                                provider@,
                            ).skip(0));
                        }
                    }
                    assert forall|q: Seq<char>|
                        #[trigger] pre.grants@.dom().contains(q) implies exists|i: int|
                        0 <= i < pre.records@.len() && (#[trigger] pre.records@[i]).0@
                            == q by {
                        if q == provider@ {
                            assert(pre.records@[pre.records@.len() - 1].0@ == q);
                        } else {
                            let w = choose|w: int|
                                0 <= w < old(self).records@.len() && (#[trigger] old(
                                    self,
                                ).records@[w]).0@ == q;
                            assert(pre.records@[w].0@ == q);
                        }
                    }
                }
            }
            assert(h == old(self).history_of(key));
        }
        let ghost n = h.len() - pre.records@[idx as int].1.timestamps@.len();
        let mut entry = self.records.remove(idx);
        entry.1.cleanup(window_ms, now);
        proof {
            self.clock@ = now;
        }
        let ghost cleaned = entry.1.timestamps@;
        let ghost live = h.filter(win_pred(now, wms));
        proof {
            // The cleaned record is the live part of the history.
            let rec0 = pre.records@[idx as int].1.timestamps@;
            lemma_filter_sorted_suffix(rec0, now, wms);
            let m = rec0.len() - cleaned.len();
            assert(cleaned =~= h.skip(n + m));
            assert forall|k: int| 0 <= k < n + m implies !win_pred(now, wms)(
                #[trigger] h[k],
            ) by {
                if k < n {
                    assert(spec_sat_sub(pre.clock@, h[k]) >= pre.spec_window_ms());
                } else {
                    assert(h[k] == rec0[k - n]);
                }
            }
            assert(h =~= h.take(n + m) + h.skip(n + m));
            Seq::filter_distributes_over_add(h.take(n + m), h.skip(n + m), win_pred(now, wms));
            lemma_filter_all_fail(h.take(n + m), win_pred(now, wms));
            assert forall|k: int| 0 <= k < cleaned.len() implies win_pred(now, wms)(
                #[trigger] cleaned[k],
            ) by {
                rec0.lemma_filter_pred(win_pred(now, wms), k);
            }
            lemma_filter_all_pass(cleaned, win_pred(now, wms));
            assert(live =~= cleaned);
        }
        if entry.1.can_request(self.config.max_requests) {
            proof {
                assert forall|k: int|
                    0 <= k < entry.1.timestamps@.len() implies entry.1.timestamps@[k] <= now by {
                    assert(cleaned[k] == h[h.len() - cleaned.len() + k]);
                    assert(h[h.len() - cleaned.len() + k] <= pre.clock@);
                }
            }
            entry.1.record_request(now);
            proof {
                self.grants@ = self.grants@.insert(key, h.push(now));
            }
            self.records.insert(idx, entry);
            proof {
                assert forall|j: int|
                    0 <= j < pre.records@.len() && j != idx implies self.records@[j] == (
                #[trigger] pre.records@[j]) by {
                    if j < idx {
                        assert(self.records@[j] == pre.records@.remove(idx as int)[j]);
                    } else {
                        assert(self.records@[j] == pre.records@.remove(idx as int)[j - 1]);
                    }
                }
                lemma_acquire_grant_wf(pre, *self, key, idx as int, now, wms, n);
            }
            AcquireDecision::Granted
        } else {
            let d: u64 = match entry.1.next_available(window_ms, self.config.max_requests, now) {
                Some(d) => d,
                None => 100,
            };
            self.records.insert(idx, entry);
            proof {
                assert forall|j: int|
                    0 <= j < pre.records@.len() && j != idx implies self.records@[j] == (
                #[trigger] pre.records@[j]) by {
                    if j < idx {
                        assert(self.records@[j] == pre.records@.remove(idx as int)[j]);
                    } else {
                        assert(self.records@[j] == pre.records@.remove(idx as int)[j - 1]);
                    }
                }
                lemma_acquire_wait_wf(pre, *self, key, idx as int, now, wms, n);
            }
            AcquireDecision::Wait(d)
        }
    }

    /// Forget the recorded requests of one provider.
    pub fn reset(&mut self, provider: &str)
        requires
            old(self).wf(),
        ensures
            final(self).wf(),
            final(self).config == old(self).config,
            final(self).clock == old(self).clock,
            final(self).history_of(provider@) == Seq::<u64>::empty(),
            forall|p: Seq<char>|
                p != provider@ ==> final(self).history_of(p) == old(self).history_of(p),
    {
        match self.find_record(provider) {
            Some(i) => {
                self.records.remove(i);
                proof {
                    self.grants@ = self.grants@.remove(provider@);
                    assert forall|p: Seq<char>|
                        #[trigger] self.grants@.dom().contains(p) implies exists|w2: int|
                        0 <= w2 < self.records@.len() && (#[trigger] self.records@[w2]).0@
                            == p by {
                        let w = choose|w: int|
                            0 <= w < old(self).records@.len() && (#[trigger] old(
                                self,
                            ).records@[w]).0@ == p;
                        if w < i {
                            assert(self.records@[w].0@ == p);
                        } else {
                            assert(old(self).records@[i as int].0@ == provider@);
                            assert(w != i);
                            assert(self.records@[w - 1].0@ == p);
                        }
                    }
                    assert forall|j: int|
                        0 <= j < self.records@.len() implies self.entry_wf(
                        (#[trigger] self.records@[j]).0@,
                        self.records@[j].1,
                    ) by {
                        let jj = if j < i {
                            j
                        } else {
                            j + 1
                        };
                        assert(self.records@[j] == old(self).records@[jj]);
                        assert(old(self).entry_wf(
                            old(self).records@[jj].0@,
                            old(self).records@[jj].1,
                        ));
                    }
                }
            },
            None => {
                proof {
                    if self.grants@.dom().contains(provider@) {
                        let w = choose|w: int|
                            0 <= w < self.records@.len() && (#[trigger] self.records@[w]).0@
                                == provider@;
                    }
                }
            },
        }
    }

    /// Forget every recorded request.
    pub fn reset_all(&mut self)
        requires
            old(self).wf(),
        ensures
            final(self).wf(),
            final(self).config == old(self).config,
            final(self).clock == old(self).clock,
            forall|p: Seq<char>| final(self).history_of(p) == Seq::<u64>::empty(),
    {
        self.records.clear();
        proof {
            self.grants@ = Map::empty();
        }
    }
}

/// After a grant, the limiter invariant holds again and the provider's
/// history grew by the granted instant.
#[verifier::rlimit(100)]
#[verifier::spinoff_prover]
proof fn lemma_acquire_grant_wf(
    pre: RateLimiter,
    post: RateLimiter,
    key: Seq<char>,
    idx: int,
    now: u64,
    wms: u64,
    n: int,
)
    requires
        pre.wf(),
        now >= pre.clock@,
        wms == pre.spec_window_ms(),
        0 <= idx < pre.records@.len(),
        pre.records@[idx].0@ == key,
        n == pre.history_of(key).len() - pre.records@[idx].1.timestamps@.len(),
        post.config == pre.config,
        post.clock@ == now,
        post.grants@ == pre.grants@.insert(key, pre.history_of(key).push(now)),
        post.records@.len() == pre.records@.len(),
        forall|j: int| 0 <= j < pre.records@.len() && j != idx ==> post.records@[j] == (
        #[trigger] pre.records@[j]),
        post.records@[idx].0 == pre.records@[idx].0,
        post.records@[idx].1.timestamps@ == pre.records@[idx].1.timestamps@.filter(
            win_pred(now, wms),
        ).push(now),
        pre.history_of(key).filter(win_pred(now, wms)).len() < pre.config.max_requests,
    ensures
        post.wf(),
        post.history_of(key) == pre.history_of(key).push(now),
{
    let h = pre.history_of(key);
    let h2 = h.push(now);
    let rec0 = pre.records@[idx].1.timestamps@;
    let cleaned = rec0.filter(win_pred(now, wms));
    let rec2 = post.records@[idx].1.timestamps@;
    lemma_filter_sorted_suffix(rec0, now, wms);
    let m = rec0.len() - cleaned.len();
    assert(pre.entry_wf(key, pre.records@[idx].1));
    assert(cleaned =~= h.skip(n + m));
    assert(rec2 =~= h2.skip(n + m));
    // Every dropped instant is expired at `now`.
    assert forall|k: int| 0 <= k < n + m implies spec_sat_sub(now, #[trigger] h2[k]) >= wms by {
        assert(h2[k] == h[k]);
        if k < n {
            assert(spec_sat_sub(pre.clock@, h[k]) >= wms);
        } else {
            assert(h[k] == rec0[k - n]);
            assert(!win_pred(now, wms)(rec0[k - n]));
        }
    }
    // The live part of the history is exactly the cleaned record.
    assert(h =~= h.take(n + m) + h.skip(n + m));
    assert forall|k: int| 0 <= k < h.take(n + m).len() implies !win_pred(now, wms)(
        #[trigger] h.take(n + m)[k],
    ) by {
        assert(h.take(n + m)[k] == h[k]);
        assert(h2[k] == h[k]);
        assert(spec_sat_sub(now, h2[k]) >= wms);
    }
    Seq::filter_distributes_over_add(h.take(n + m), h.skip(n + m), win_pred(now, wms));
    lemma_filter_all_fail(h.take(n + m), win_pred(now, wms));
    assert forall|k: int| 0 <= k < cleaned.len() implies win_pred(now, wms)(
        #[trigger] cleaned[k],
    ) by {
        rec0.lemma_filter_pred(win_pred(now, wms), k);
    }
    lemma_filter_all_pass(cleaned, win_pred(now, wms));
    assert(h.filter(win_pred(now, wms)) =~= cleaned);
    // The new record is ordered: the cleaned suffix carries over its
    // order, and the granted instant is the newest.
    assert forall|a: int, b: int| 0 <= a <= b < rec2.len() implies rec2[a] <= rec2[b] by {
        if b < cleaned.len() {
            assert(cleaned[a] == h[n + m + a]);
            assert(cleaned[b] == h[n + m + b]);
        } else {
            assert(rec2[b] == now);
            if a < cleaned.len() {
                assert(cleaned[a] == h[n + m + a]);
                assert(h[n + m + a] <= pre.clock@);
            }
        }
    }
    // The extended history obeys the admission rule.
    assert(admission_ok(h2, wms, pre.config.max_requests)) by {
        assert forall|a: int, b: int| 0 <= a <= b < h2.len() implies h2[a] <= h2[b] by {
            if b < h.len() {
            } else {
                if a < h.len() {
                    assert(h[a] <= pre.clock@);
                }
            }
        }
        assert forall|i: int| 0 <= i < h2.len() implies (#[trigger] h2.take(i)).filter(
            win_pred(h2[i], wms),
        ).len() < pre.config.max_requests by {
            if i < h.len() {
                assert(h2.take(i) =~= h.take(i));
                assert(h.take(i).filter(win_pred(h[i], wms)).len() < pre.config.max_requests);
            } else {
                assert(h2.take(i) =~= h);
            }
        }
    }
    assert forall|a: int, b: int|
        0 <= a < b < post.records@.len() implies (#[trigger] post.records@[a]).0@ != (
    #[trigger] post.records@[b]).0@ by {
        assert(post.records@[a].0 == pre.records@[a].0);
        assert(post.records@[b].0 == pre.records@[b].0);
        assert(pre.records@[a].0@ != pre.records@[b].0@);
    }
    // Every history key still has its record.
    assert forall|p: Seq<char>| #[trigger] post.grants@.dom().contains(p) implies exists|i: int|
        0 <= i < post.records@.len() && (#[trigger] post.records@[i]).0@ == p by {
        if p == key {
            assert(post.records@[idx].0@ == p);
        } else {
            let w = choose|w: int|
                0 <= w < pre.records@.len() && (#[trigger] pre.records@[w]).0@ == p;
            assert(post.records@[w].0@ == p);
        }
    }
    // Each entry of the new state is well formed.
    assert forall|j: int| 0 <= j < post.records@.len() implies post.entry_wf(
        (#[trigger] post.records@[j]).0@,
        post.records@[j].1,
    ) by {
        if j == idx {
            assert(post.history_of(key) == h2);
            assert(rec2 =~= h2.skip(h2.len() - rec2.len()));
        } else {
            let k2 = post.records@[j].0@;
            assert(pre.entry_wf((pre.records@[j]).0@, pre.records@[j].1));
            assert(k2 != key);
            assert(post.history_of(k2) == pre.history_of(k2));
            assert forall|k: int|
                0 <= k < post.history_of(k2).len() - post.records@[j].1.timestamps@.len() implies
                spec_sat_sub(post.clock@, #[trigger] post.history_of(k2)[k])
                >= post.spec_window_ms() by {
                assert(spec_sat_sub(pre.clock@, pre.history_of(k2)[k]) >= pre.spec_window_ms());
            }
        }
    }
}

/// After a wait decision, the limiter invariant holds again and no
/// history changed.
#[verifier::rlimit(100)]
#[verifier::spinoff_prover]
proof fn lemma_acquire_wait_wf(
    pre: RateLimiter,
    post: RateLimiter,
    key: Seq<char>,
    idx: int,
    now: u64,
    wms: u64,
    n: int,
)
    requires
        pre.wf(),
        now >= pre.clock@,
        wms == pre.spec_window_ms(),
        0 <= idx < pre.records@.len(),
        pre.records@[idx].0@ == key,
        n == pre.history_of(key).len() - pre.records@[idx].1.timestamps@.len(),
        post.config == pre.config,
        post.clock@ == now,
        post.grants@ == pre.grants@,
        post.records@.len() == pre.records@.len(),
        forall|j: int| 0 <= j < pre.records@.len() && j != idx ==> post.records@[j] == (
        #[trigger] pre.records@[j]),
        post.records@[idx].0 == pre.records@[idx].0,
        post.records@[idx].1.timestamps@ == pre.records@[idx].1.timestamps@.filter(
            win_pred(now, wms),
        ),
    ensures
        post.wf(),
{
    let h = pre.history_of(key);
    let rec0 = pre.records@[idx].1.timestamps@;
    let cleaned = rec0.filter(win_pred(now, wms));
    lemma_filter_sorted_suffix(rec0, now, wms);
    let m = rec0.len() - cleaned.len();
    assert(pre.entry_wf(key, pre.records@[idx].1));
    assert(cleaned =~= h.skip(n + m));
    assert forall|a: int, b: int|
        0 <= a < b < post.records@.len() implies (#[trigger] post.records@[a]).0@ != (
    #[trigger] post.records@[b]).0@ by {
        assert(post.records@[a].0 == pre.records@[a].0);
        assert(post.records@[b].0 == pre.records@[b].0);
        assert(pre.records@[a].0@ != pre.records@[b].0@);
    }
    assert forall|p: Seq<char>| #[trigger] post.grants@.dom().contains(p) implies exists|i: int|
        0 <= i < post.records@.len() && (#[trigger] post.records@[i]).0@ == p by {
        let w = choose|w: int|
            0 <= w < pre.records@.len() && (#[trigger] pre.records@[w]).0@ == p;
        if w == idx {
            assert(post.records@[idx].0@ == p);
        } else {
            assert(post.records@[w].0@ == p);
        }
    }
    assert forall|j: int| 0 <= j < post.records@.len() implies post.entry_wf(
        (#[trigger] post.records@[j]).0@,
        post.records@[j].1,
    ) by {
        if j == idx {
            assert(post.history_of(key) == h);
            assert forall|k: int| 0 <= k < n + m implies spec_sat_sub(now, #[trigger] h[k])
                >= wms by {
                if k < n {
                    assert(spec_sat_sub(pre.clock@, h[k]) >= wms);
                } else {
                    assert(h[k] == rec0[k - n]);
                    assert(!win_pred(now, wms)(rec0[k - n]));
                }
            }
            assert forall|a: int, b: int|
                0 <= a <= b < cleaned.len() implies cleaned[a] <= cleaned[b] by {
                assert(cleaned[a] == h[n + m + a]);
                assert(cleaned[b] == h[n + m + b]);
            }
        } else {
            let k2 = post.records@[j].0@;
            assert(pre.entry_wf((pre.records@[j]).0@, pre.records@[j].1));
            assert(post.history_of(k2) == pre.history_of(k2));
            assert forall|k: int|
                0 <= k < post.history_of(k2).len() - post.records@[j].1.timestamps@.len() implies
                spec_sat_sub(post.clock@, #[trigger] post.history_of(k2)[k])
                >= post.spec_window_ms() by {
                assert(spec_sat_sub(pre.clock@, pre.history_of(k2)[k]) >= pre.spec_window_ms());
            }
        }
    }
}


/// Two elements of a filtered sequence keep their relative order in the
/// original, so a filter of a sorted sequence is sorted.
proof fn lemma_filter_ordered(s: Seq<u64>, p: spec_fn(u64) -> bool, a: int, b: int)
    requires
        sorted_ts(s),
        0 <= a <= b < s.filter(p).len(),
    ensures
        s.filter(p)[a] <= s.filter(p)[b],
    decreases s.len(),
{
    reveal_with_fuel(Seq::filter, 2);
    if s.len() > 0 {
        let sub = s.drop_last().filter(p);
        assert(sorted_ts(s.drop_last()));
        if b < sub.len() {
            lemma_filter_ordered(s.drop_last(), p, a, b);
        } else {
            // b is the appended last element of the original.
            if a < sub.len() {
                crate::store::lemma_filter_embeds(s.drop_last(), p);
                let k = choose|k: int|
                    a <= k < s.drop_last().len() && #[trigger] sub[a] == s.drop_last()[k];
                assert(s.filter(p)[a] == s[k]);
                assert(s.filter(p)[b] == s.last());
            }
        }
    }
}

} // verus!
