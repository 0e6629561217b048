//! The limiter that paces outgoing requests: so many per window of one second.
//!
//! The limiter itself never sleeps. It says whether a request may go now or
//! must wait and until when; the caller waits and then tells the limiter the
//! time at which it went on.

use vstd::arithmetic::div_mod::{lemma_fundamental_div_mod, lemma_fundamental_div_mod_converse};
use vstd::prelude::*;

verus! {

/// The length of a window: one second, in nanoseconds.
pub const WINDOW_NANOS: u64 = 1_000_000_000;

/// What the limiter answers to a request.
#[derive(Clone, Copy, Debug, PartialEq, Eq, Structural)]
pub enum Permit {
    /// The request may go now.
    Granted,
    /// The window is used up: wait until the given time, call
    /// [`RateLimiter::resume`], then go.
    Wait { until: u64 },
}

/// The limiter: how many requests the current window has let through, and when
/// that window began. Times are nanoseconds on a clock of the caller's
/// choosing that never runs backwards.
#[derive(Debug)]
pub struct RateLimiter {
    limit: usize,
    count: usize,
    window_start: u64,
}

/// What a [`RateLimiter`] stands for.
pub struct LimiterState {
    /// Requests allowed per window.
    pub limit: nat,
    /// Requests let through in the current window.
    pub count: nat,
    /// When the current window began.
    pub window_start: int,
}

impl LimiterState {
    /// A limiter whose first window begins at `now` and has let nothing through.
    pub open spec fn fresh(limit: nat, now: int) -> LimiterState {
        LimiterState { limit, count: 0, window_start: now }
    }

    /// Whether the current window can take one more request.
    pub open spec fn has_room(self) -> bool {
        self.count < self.limit
    }

    /// The limiter after it let one more request through in the current window.
    pub open spec fn grant(self) -> LimiterState {
        LimiterState { count: self.count + 1, ..self }
    }

    /// When the current window ends.
    pub open spec fn deadline(self) -> int {
        self.window_start + WINDOW_NANOS
    }

    /// The limiter after a wait: a new window begins at `now`, and the request
    /// that waited is the first it lets through.
    pub open spec fn reopen(self, now: int) -> LimiterState {
        LimiterState { count: 1, window_start: now, ..self }
    }

    /// No window has let through more than the limit; a limit of zero still
    /// lets through the one request that opens each window.
    pub open spec fn within_ceiling(self) -> bool {
        self.count <= self.limit || self.count <= 1
    }

    /// One request that arrives at `now` and waits no longer than it must:
    /// the limiter once the request has gone, and the time at which it went.
    pub open spec fn serve(self, now: int) -> (LimiterState, int) {
        if self.has_room() {
            (self.grant(), now)
        } else if now >= self.deadline() {
            (self.reopen(now), now)
        } else {
            (self.reopen(self.deadline()), self.deadline())
        }
    }

    /// A burst of `n` requests, the first arriving at `now` and each next one
    /// arriving the moment the one before it went: the limiter after the burst,
    /// and the time at which its last request went (`now` for an empty
    /// burst).
    pub open spec fn burst(self, now: int, n: nat) -> (LimiterState, int)
        decreases n,
    {
        if n == 0 {
            (self, now)
        } else {
            let (limiter, clock) = self.burst(now, (n - 1) as nat);
            limiter.serve(clock)
        }
    }

    /// The time at which request number `k` of a burst goes, counting from
    /// zero.
    pub open spec fn granted_at(self, now: int, k: nat) -> int {
        self.burst(now, k + 1).1
    }
}

impl View for RateLimiter {
    type V = LimiterState;

    closed spec fn view(&self) -> LimiterState {
        LimiterState {
            limit: self.limit as nat,
            count: self.count as nat,
            window_start: self.window_start as int,
        }
    }
}

impl RateLimiter {
    #[verifier::type_invariant]
    spec fn inv(self) -> bool {
        &&& self.window_start + WINDOW_NANOS <= u64::MAX
        &&& self@.within_ceiling()
    }

    /// A limiter that allows `limit` requests per second and whose first window
    /// begins at `now`.
    pub fn new(limit: usize, now: u64) -> (limiter: RateLimiter)
        requires
            now + WINDOW_NANOS <= u64::MAX,
        ensures
            limiter@ == LimiterState::fresh(limit as nat, now as int),
    {
        RateLimiter { limit, count: 0, window_start: now }
    }

    /// The number of requests allowed per second.
    pub fn limit(&self) -> (limit: usize)
        ensures
            limit == self@.limit,
    {
        self.limit
    }

    /// The number of requests the current window has let through.
    pub fn count(&self) -> (count: usize)
        ensures
            count == self@.count,
            self@.within_ceiling(),
    {
        proof {
            use_type_invariant(self);
        }
        self.count
    }

    /// When the current window began.
    pub fn window_start(&self) -> (start: u64)
        ensures
            start == self@.window_start,
    {
        self.window_start
    }

    /// Asks to send one request.
    ///
    /// While the window has room the request is granted and counted, and the
    /// window stays as it is. Once the window is used up the answer is to
    /// wait until one second after the window began, and the limiter does not
    /// change: the caller waits, then calls [`RateLimiter::resume`]. With a
    /// limit of zero every request waits.
    pub fn acquire(&mut self) -> (permit: Permit)
        ensures
            old(self)@.has_room() ==> permit == Permit::Granted && final(self)@ == old(self)@.grant(),
            !old(self)@.has_room() ==> permit == (Permit::Wait {
                until: old(self)@.deadline() as u64,
            }) && old(self)@.deadline() <= u64::MAX && final(self)@ == old(self)@,
            final(self)@.within_ceiling(),
    {
        proof {
            use_type_invariant(&*self);
        }
        if self.count < self.limit {
            self.count = self.count + 1;
            Permit::Granted
        } else {
            Permit::Wait { until: self.window_start + WINDOW_NANOS }
        }
    }

    /// Goes on after a wait that ended at `now`: a new window begins at
    /// `now` and the request that waited is the first it lets through,
    /// whatever the limiter held before.
    pub fn resume(&mut self, now: u64)
        requires
            now + WINDOW_NANOS <= u64::MAX,
        ensures
            final(self)@ == old(self)@.reopen(now as int),
            final(self)@.within_ceiling(),
    {
        *self = RateLimiter { limit: self.limit, count: 1, window_start: now };
    }
}

/// Where a burst stands after `n` requests, when it began on a fresh limiter at
/// the moment the limiter's first window began and the limit is at least one:
/// the requests fill one window after another, `limit` to a window, and the
/// windows begin one second apart.
pub proof fn lemma_burst_fills_windows(limit: nat, start: int, n: nat)
    requires
        limit >= 1,
    ensures
        n == 0 ==> LimiterState::fresh(limit, start).burst(start, n) == (LimiterState::fresh(limit, start), start),
        n >= 1 ==> LimiterState::fresh(limit, start).burst(start, n) == (
            LimiterState {
                limit,
                count: ((n - 1) % (limit as int) + 1) as nat,
                window_start: start + ((n - 1) / (limit as int)) * WINDOW_NANOS,
            },
            start + ((n - 1) / (limit as int)) * WINDOW_NANOS,
        ),
    decreases n,
{
    let fresh = LimiterState::fresh(limit, start);
    let d = limit as int;
    if n == 0 {
    } else if n == 1 {
        assert(fresh.burst(start, 0) == (fresh, start));
        lemma_fundamental_div_mod_converse(0, d, 0, 0);
    } else {
        lemma_burst_fills_windows(limit, start, (n - 1) as nat);
        let m = n - 2;
        let q = m / d;
        let r = m % d;
        lemma_fundamental_div_mod(m, d);
        assert(d * q == q * d) by (nonlinear_arith);
        assert(0 <= r < d);
        let (limiter, clock) = fresh.burst(start, (n - 1) as nat);
        assert(limiter.count == r + 1);
        assert(clock == start + q * WINDOW_NANOS);
        assert(limiter.window_start == clock);
        if r + 1 < d {
            lemma_fundamental_div_mod_converse(n - 1, d, q, r + 1);
        } else {
            assert(n - 1 == (q + 1) * d + 0) by (nonlinear_arith)
                requires
                    m == q * d + r,
                    r + 1 == d,
                    m == n - 2,
            ;
            lemma_fundamental_div_mod_converse(n - 1, d, q + 1, 0);
            assert((q + 1) * WINDOW_NANOS == q * WINDOW_NANOS + WINDOW_NANOS) by (nonlinear_arith);
        }
    }
}

/// The time at which request number `k` of such a burst goes: the first
/// `limit` requests go at once, the next `limit` one second later, and so on.
pub proof fn lemma_burst_schedule(limit: nat, start: int, k: nat)
    requires
        limit >= 1,
    ensures
        LimiterState::fresh(limit, start).granted_at(start, k) == start + (k / limit) * WINDOW_NANOS,
{
    lemma_burst_fills_windows(limit, start, k + 1);
}

/// What holds after every request of a burst, where the limit is at least
/// one and the burst begins no later than the window that still has room:
/// the window has let through at least one request and no more than the
/// limit, it began no earlier than the request went, and no request goes
/// before the one ahead of it.
pub proof fn lemma_burst_keeps_order(limiter: LimiterState, now: int, n: nat)
    requires
        limiter.limit >= 1,
        limiter.has_room() ==> now <= limiter.window_start,
    ensures
        limiter.burst(now, n).1 <= limiter.burst(now, n + 1).1,
        limiter.burst(now, n + 1).0.limit == limiter.limit,
        1 <= limiter.burst(now, n + 1).0.count <= limiter.limit,
        limiter.burst(now, n + 1).1 <= limiter.burst(now, n + 1).0.window_start,
    decreases n,
{
    let (before, clock) = limiter.burst(now, n);
    assert(limiter.burst(now, n + 1) == before.serve(clock));
    if n == 0 {
        assert(before == limiter && clock == now);
    } else {
        lemma_burst_keeps_order(limiter, now, (n - 1) as nat);
    }
}

/// Between two requests of such a burst, either the window has not changed
/// and has counted every request in between, or a full second has passed.
proof fn lemma_burst_spans(limiter: LimiterState, now: int, i: nat, j: nat)
    requires
        limiter.limit >= 1,
        limiter.has_room() ==> now <= limiter.window_start,
        i <= j,
    ensures
        limiter.granted_at(now, i) <= limiter.granted_at(now, j),
        ({
            let (first, _) = limiter.burst(now, i + 1);
            let (last, _) = limiter.burst(now, j + 1);
            last.window_start == first.window_start && last.count == first.count + (j - i)
        }) || limiter.granted_at(now, j) - limiter.granted_at(now, i) >= WINDOW_NANOS,
    decreases j,
{
    if i < j {
        lemma_burst_spans(limiter, now, i, (j - 1) as nat);
        lemma_burst_keeps_order(limiter, now, i);
        lemma_burst_keeps_order(limiter, now, (j - 1) as nat);
        lemma_burst_keeps_order(limiter, now, j);
        let (before, clock) = limiter.burst(now, j);
        assert(limiter.burst(now, j + 1) == before.serve(clock));
    }
}

/// The ceiling on the rate. In a burst of requests that arrive back to back,
/// where the limit is at least one and the burst begins no later than the
/// window that still has room: requests go in the order they arrive, and any
/// two that go less than one second apart are fewer than `limit` places
/// apart. So no stretch of one second, its end left out, sees more than
/// `limit` requests of the burst go, wherever it begins.
pub proof fn lemma_rate_ceiling(limiter: LimiterState, now: int, i: nat, j: nat)
    requires
        limiter.limit >= 1,
        limiter.has_room() ==> now <= limiter.window_start,
        i <= j,
    ensures
        limiter.granted_at(now, i) <= limiter.granted_at(now, j),
        limiter.granted_at(now, j) - limiter.granted_at(now, i) < WINDOW_NANOS ==> j - i
            < limiter.limit,
{
    lemma_burst_spans(limiter, now, i, j);
    lemma_burst_keeps_order(limiter, now, i);
    lemma_burst_keeps_order(limiter, now, j);
}

} // verus!
