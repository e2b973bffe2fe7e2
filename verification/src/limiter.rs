//! The shared token-bucket rate limiter.
//!
//! One bucket per client instance: capacity and refill rate both equal the
//! configured requests-per-second quota. Each admitted request consumes one
//! token; when no token is available the caller is told how long to wait.
//! The bucket is driven by the caller's clock, handed in as a millisecond
//! timestamp, so the admission decisions themselves are verified.
//!
//! Internally the bucket keeps one number, a theoretical arrival time, on a
//! time scale multiplied by the quota: one token then corresponds to exactly
//! 1000 scaled units and no division is needed. A ghost history of the
//! scaled admission times carries the conservation argument.

use vstd::prelude::*;

verus! {

/// Milliseconds, rescaled so that one token is exactly 1000 units.
pub open spec fn scaled(now_ms: u64, quota: u32) -> int {
    now_ms * quota
}

/// A token bucket with capacity `quota` and refill rate `quota` per second.
pub struct TokenBucket {
    /// The configured requests-per-second quota; also the burst capacity.
    pub quota: u32,
    /// Theoretical arrival time, in scaled units (ms times quota).
    pub tat: u128,
    /// The latest clock reading handed in, in milliseconds.
    pub last_ms: u64,
    /// The scaled times of every admission granted so far.
    pub grants: Ghost<Seq<int>>,
}

impl TokenBucket {
    /// The bucket's invariant. Clause by clause: the quota is positive; every
    /// recorded admission lies in the past; admissions are recorded in order;
    /// the theoretical arrival time dominates every admission by a full token
    /// per admission since (which makes each new admission pay for itself);
    /// any two admissions `i <= j` are spaced at least `1000*(j-i)` scaled
    /// units apart, less the burst allowance of `quota - 1` tokens; and the
    /// theoretical arrival time never runs further than one second past the
    /// clock.
    pub open spec fn wf(self) -> bool {
        &&& self.quota >= 1
        &&& forall|i: int|
            0 <= i < self.grants@.len() ==> 0 <= #[trigger] self.grants@[i] <= scaled(
                self.last_ms,
                self.quota,
            )
        &&& forall|i: int, j: int|
            0 <= i <= j < self.grants@.len() ==> #[trigger] self.grants@[i]
                <= #[trigger] self.grants@[j]
        &&& forall|i: int|
            0 <= i < self.grants@.len() ==> #[trigger] self.grants@[i] + 1000 * (
            self.grants@.len() - i) <= self.tat
        &&& forall|i: int, j: int|
            0 <= i <= j < self.grants@.len() ==> #[trigger] self.grants@[j] - #[trigger] self.grants@[i]
                >= 1000 * (j - i) - 1000 * (self.quota - 1)
        &&& self.tat <= scaled(self.last_ms, self.quota) + 1000 * self.quota
    }

    /// The configured quota.
    pub open spec fn quota(self) -> u32 {
        self.quota
    }

    /// The scaled times of the admissions granted so far.
    pub open spec fn grants(self) -> Ghost<Seq<int>> {
        self.grants
    }

    /// A fresh, full bucket.
    pub fn new(quota: u32, now_ms: u64) -> (r: TokenBucket)
        requires
            quota >= 1,
        ensures
            r.wf(),
            r.quota == quota,
            r.last_ms == now_ms,
            r.grants@.len() == 0,
    {
        let r = TokenBucket { quota, tat: 0, last_ms: now_ms, grants: Ghost(Seq::empty()) };
        proof {
            assert(scaled(now_ms, quota) >= 0) by (nonlinear_arith);
        }
        r
    }

    /// Tries to consume one token at clock reading `now_ms`. Returns whether
    /// the request is admitted; an admission is recorded in the history, a
    /// denial changes nothing but the clock. The clock must not run
    /// backwards.
    pub fn try_acquire(&mut self, now_ms: u64) -> (granted: bool)
        requires
            old(self).wf(),
            now_ms >= old(self).last_ms,
        ensures
            final(self).wf(),
            final(self).quota == old(self).quota,
            final(self).last_ms == now_ms,
            granted <==> scaled(now_ms, old(self).quota) + 1000 * (old(self).quota - 1) >= old(
                self,
            ).tat,
            granted ==> final(self).grants@ == old(self).grants@.push(
                scaled(now_ms, old(self).quota),
            ) && final(self).tat == (if old(self).tat >= scaled(now_ms, old(self).quota) {
                old(self).tat + 1000
            } else {
                scaled(now_ms, old(self).quota) + 1000
            }),
            !granted ==> final(self).grants@ == old(self).grants@ && final(self).tat == old(
                self,
            ).tat,
    {
        proof {
            assert(now_ms as int * self.quota as int <= u64::MAX as int * u32::MAX as int)
                by (nonlinear_arith)
                requires
                    now_ms <= u64::MAX && self.quota <= u32::MAX,
            ;
            assert(self.last_ms as int * self.quota as int <= now_ms as int * self.quota as int)
                by (nonlinear_arith)
                requires
                    self.last_ms <= now_ms,
            ;
            assert(now_ms as int * self.quota as int >= 0) by (nonlinear_arith);
        }
        let s: u128 = (now_ms as u128) * (self.quota as u128);
        let tolerance: u128 = (self.quota as u128 - 1) * 1000;
        if s + tolerance >= self.tat {
            let ghost oldself = *self;
            let newtat: u128 = if self.tat >= s {
                self.tat + 1000
            } else {
                s + 1000
            };
            self.tat = newtat;
            self.last_ms = now_ms;
            proof {
                self.grants@ = oldself.grants@.push(scaled(now_ms, oldself.quota));
                let g = self.grants@;
                let n = g.len() - 1;
                assert forall|i: int| 0 <= i < g.len() implies #[trigger] g[i] + 1000 * (g.len()
                    - i) <= self.tat by {
                    if i < n {
                        assert(oldself.grants@[i] + 1000 * (n - i) <= oldself.tat);
                    }
                }
                assert forall|i: int, j: int| 0 <= i <= j < g.len() implies #[trigger] g[j]
                    - #[trigger] g[i] >= 1000 * (j - i) - 1000 * (self.quota - 1) by {
                    if j == n && i < n {
                        assert(oldself.grants@[i] + 1000 * (n - i) <= oldself.tat);
                    }
                }
            }
            true
        } else {
            self.last_ms = now_ms;
            false
        }
    }

    /// How many milliseconds to wait before a token will be available, from
    /// clock reading `now_ms`. Zero exactly when a token is available now;
    /// never more than a second.
    pub fn wait_hint_ms(&self, now_ms: u64) -> (r: u64)
        requires
            self.wf(),
            now_ms >= self.last_ms,
        ensures
            r == 0 <==> scaled(now_ms, self.quota) + 1000 * (self.quota - 1) >= self.tat,
            r <= 1000,
    {
        proof {
            assert(now_ms as int * self.quota as int <= u64::MAX as int * u32::MAX as int)
                by (nonlinear_arith)
                requires
                    now_ms <= u64::MAX && self.quota <= u32::MAX,
            ;
            assert(self.last_ms as int * self.quota as int <= now_ms as int * self.quota as int)
                by (nonlinear_arith)
                requires
                    self.last_ms <= now_ms,
            ;
        }
        let s: u128 = (now_ms as u128) * (self.quota as u128);
        let tolerance: u128 = (self.quota as u128 - 1) * 1000;
        if s + tolerance >= self.tat {
            0
        } else {
            let deficit: u128 = self.tat - tolerance - s;
            let q: u128 = self.quota as u128;
            proof {
                assert(deficit <= 1000 * q) by (nonlinear_arith)
                    requires
                        deficit == self.tat - tolerance - s,
                        tolerance == (self.quota as int - 1) * 1000,
                        s >= self.last_ms as int * self.quota as int,
                        self.tat <= self.last_ms as int * self.quota as int + 1000 * self.quota as int,
                        q == self.quota,
                ;
                assert((deficit as int + q as int - 1) / (q as int) <= 1000) by (nonlinear_arith)
                    requires
                        q >= 1 && deficit <= 1000 * (q as int),
                ;
                assert((deficit as int + q as int - 1) / (q as int) >= 1) by (nonlinear_arith)
                    requires
                        q >= 1 && deficit >= 1,
                ;
            }
            let w: u128 = (deficit + q - 1) / q;
            w as u64
        }
    }
}

/// Rate-limiter conservation. Admissions `i` through `j` of one bucket that
/// all fall within a window shorter than one second (that is, within
/// `1000 * quota` scaled units) number at most `2 * quota - 1`: a full burst
/// of `quota` admissions plus what one second can refill, less one. Since the
/// history is ordered, every admission inside such a window lies between `i`
/// and `j`, so this bounds every one-second sliding window. In particular the
/// sustained admission rate over any horizon of `k` seconds is below
/// `(k + 1) * quota`, so the aggregate throughput never exceeds the quota by
/// more than the one-time burst.
pub proof fn lemma_rate_conservation(b: TokenBucket, i: int, j: int)
    requires
        b.wf(),
        0 <= i <= j < b.grants@.len(),
        b.grants@[j] - b.grants@[i] < 1000 * b.quota,
    ensures
        j - i + 1 <= 2 * b.quota - 1,
{
    assert(b.grants@[j] - b.grants@[i] >= 1000 * (j - i) - 1000 * (b.quota - 1));
}

} // verus!
