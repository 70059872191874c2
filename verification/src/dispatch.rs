use vstd::prelude::*;
use crate::clock::{LogicalClock, clock_ticked};

verus! {

/// The worker (counting from zero) that a round-robin position selects:
/// position `i` stands for worker `i`, counting from one.
pub open spec fn rr_pick(state: int) -> int {
    state - 1
}

/// The round-robin position after one selection among `n_workers` workers:
/// the next worker, wrapping from the last one back to the first.
pub open spec fn rr_advance(state: int, n_workers: int) -> int {
    state % n_workers + 1
}

/// Whether `state` is a round-robin position among `n_workers` workers.
pub open spec fn rr_valid(state: int, n_workers: int) -> bool {
    1 <= state <= n_workers
}

/// The round-robin state after `k` selections starting from `state`.
pub open spec fn rr_state_after(state: int, n_workers: int, k: nat) -> int
    decreases k,
{
    if k == 0 {
        state
    } else {
        rr_advance(rr_state_after(state, n_workers, (k - 1) as nat), n_workers)
    }
}

/// The worker chosen by the `k`-th selection (counting from zero) when the
/// round-robin state starts at `state`.
pub open spec fn rr_pick_at(state: int, n_workers: int, k: nat) -> int {
    rr_pick(rr_state_after(state, n_workers, k))
}

/// The coordinator's shared state: the round-robin position used to choose
/// the next worker, and the logical clock that stamps each request.
#[derive(Debug)]
pub struct AppState {
    pub state: u8,
    pub clock: LogicalClock,
}

impl AppState {
    /// The state the coordinator starts with: round robin at worker 1 and a
    /// clock at time zero.
    pub fn new() -> (s: Self)
        ensures
            s.state == 1,
            s.clock.time == 0,
    {
        AppState { state: 1, clock: LogicalClock::new() }
    }

    /// Chooses the worker for the next task among `n_workers` workers: the
    /// position names the worker, counting from one, and then moves on to the
    /// next worker, from the last one back to the first. Returns the chosen
    /// worker's index, counting from zero.
    pub fn next_worker(&mut self, n_workers: usize) -> (idx: usize)
        requires
            rr_valid(old(self).state as int, n_workers as int),
            n_workers <= u8::MAX,
        ensures
            idx == rr_pick(old(self).state as int),
            idx < n_workers,
            final(self).state == rr_advance(old(self).state as int, n_workers as int),
            rr_valid(final(self).state as int, n_workers as int),
            final(self).clock == old(self).clock,
    {
        let idx = (self.state - 1) as usize;
        proof {
            let s = self.state as int;
            let n = n_workers as int;
            if s < n {
                vstd::arithmetic::div_mod::lemma_small_mod(s as nat, n as nat);
            } else {
                vstd::arithmetic::div_mod::lemma_mod_self_0(n);
            }
        }
        if (self.state as usize) < n_workers {
            self.state = self.state + 1;
        } else {
            self.state = 1;
        }
        idx
    }

    /// The first step of handling a build request that goes to the single
    /// configured worker: the logical clock ticks once, and the new time
    /// stamps the request.
    pub fn begin_build_task(&mut self) -> (time: u64)
        requires
            old(self).clock.time < u64::MAX,
        ensures
            clock_ticked(old(self).clock, final(self).clock, time),
            final(self).state == old(self).state,
    {
        self.clock.increment();
        self.clock.get_time()
    }

    /// The first step of handling a build request that is spread over
    /// `n_workers` workers: round robin picks the worker, then the logical
    /// clock ticks once. Returns the worker's index and the request's
    /// logical time.
    pub fn begin_build_task2(&mut self, n_workers: usize) -> (r: (usize, u64))
        requires
            rr_valid(old(self).state as int, n_workers as int),
            n_workers <= u8::MAX,
            old(self).clock.time < u64::MAX,
        ensures
            r.0 == rr_pick(old(self).state as int),
            r.0 < n_workers,
            final(self).state == rr_advance(old(self).state as int, n_workers as int),
            rr_valid(final(self).state as int, n_workers as int),
            clock_ticked(old(self).clock, final(self).clock, r.1),
    {
        let idx = self.next_worker(n_workers);
        let time = self.begin_build_task();
        (idx, time)
    }
}

/// Round robin visits the workers in cyclic order: from position `state`,
/// the `k`-th selection (counting from zero) picks worker
/// `(state - 1 + k) mod n` (counting from zero), and the position stays a
/// valid one.
pub proof fn lemma_round_robin_cycle(state: u8, n_workers: usize, k: nat)
    requires
        rr_valid(state as int, n_workers as int),
    ensures
        rr_state_after(state as int, n_workers as int, k) == (state - 1 + k) % (n_workers as int)
            + 1,
        rr_pick_at(state as int, n_workers as int, k) == (state - 1 + k) % (n_workers as int),
        rr_valid(rr_state_after(state as int, n_workers as int, k), n_workers as int),
    decreases k,
{
    let n = n_workers as int;
    let s = state as int;
    if k == 0 {
        vstd::arithmetic::div_mod::lemma_small_mod((s - 1) as nat, n as nat);
    } else {
        lemma_round_robin_cycle(state, n_workers, (k - 1) as nat);
        vstd::arithmetic::div_mod::lemma_add_mod_noop_right(1, s - 1 + k - 1, n);
        assert(rr_state_after(s, n, k) == (1 + ((s - 1 + k - 1) % n)) % n + 1);
    }
    vstd::arithmetic::div_mod::lemma_mod_bound(s - 1 + k, n);
}

/// Round robin is fair: from any position, every one of the `n` workers is
/// picked within the next `n` selections.
pub proof fn lemma_round_robin_reaches_every_worker(state: u8, n_workers: usize, worker: int)
    requires
        rr_valid(state as int, n_workers as int),
        0 <= worker < n_workers,
    ensures
        exists|k: nat|
            k < n_workers && #[trigger] rr_pick_at(state as int, n_workers as int, k) == worker,
{
    let n = n_workers as int;
    let s = state as int;
    let d = (worker - (s - 1)) % n;
    vstd::arithmetic::div_mod::lemma_mod_bound(worker - (s - 1), n);
    let k = d as nat;
    lemma_round_robin_cycle(state, n_workers, k);
    vstd::arithmetic::div_mod::lemma_add_mod_noop_right(s - 1, worker - (s - 1), n);
    vstd::arithmetic::div_mod::lemma_small_mod(worker as nat, n as nat);
    assert(rr_pick_at(s, n, k) == worker);
}

/// Round robin never picks a worker twice within `n` consecutive selections.
pub proof fn lemma_round_robin_no_repeat(state: u8, n_workers: usize, j: nat, k: nat)
    requires
        rr_valid(state as int, n_workers as int),
        j < k < n_workers,
    ensures
        rr_pick_at(state as int, n_workers as int, j) != rr_pick_at(
            state as int,
            n_workers as int,
            k,
        ),
{
    let n = n_workers as int;
    let s = state as int;
    lemma_round_robin_cycle(state, n_workers, j);
    lemma_round_robin_cycle(state, n_workers, k);
    if (s - 1 + k) % n == (s - 1 + j) % n {
        vstd::arithmetic::div_mod::lemma_mod_equivalence(s - 1 + k, s - 1 + j, n);
        vstd::arithmetic::div_mod::lemma_small_mod((k - j) as nat, n as nat);
        assert((s - 1 + k - (s - 1 + j)) == k - j);
    }
}

/// Two selections in a row never go to the same worker when there are at
/// least two workers.
pub proof fn lemma_round_robin_consecutive_differ(state: u8, n_workers: usize, k: nat)
    requires
        rr_valid(state as int, n_workers as int),
        n_workers >= 2,
    ensures
        rr_pick_at(state as int, n_workers as int, k) != rr_pick_at(
            state as int,
            n_workers as int,
            k + 1,
        ),
{
    let n = n_workers as int;
    let s = state as int;
    lemma_round_robin_cycle(state, n_workers, k);
    lemma_round_robin_cycle(state, n_workers, k + 1);
    let x = s - 1 + k;
    vstd::arithmetic::div_mod::lemma_add_mod_noop_right(1, x, n);
    vstd::arithmetic::div_mod::lemma_mod_bound(x, n);
    if x % n + 1 < n {
        vstd::arithmetic::div_mod::lemma_small_mod((x % n + 1) as nat, n as nat);
    } else {
        vstd::arithmetic::div_mod::lemma_mod_self_0(n);
    }
    assert((1 + x) % n == (1 + x % n) % n);
}

/// How many of the first `k` selections from position `state` pick `worker`.
pub open spec fn rr_count(state: int, n_workers: int, k: nat, worker: int) -> nat
    decreases k,
{
    if k == 0 {
        0
    } else {
        rr_count(state, n_workers, (k - 1) as nat, worker) + if rr_pick_at(
            state,
            n_workers,
            (k - 1) as nat,
        ) == worker {
            1nat
        } else {
            0nat
        }
    }
}

/// The `k`-th selection (counting from zero) from position `state` picks
/// `worker` exactly when `k mod n` is the worker's offset from the start.
proof fn lemma_pick_matches_offset(state: u8, n_workers: usize, k: nat, worker: int)
    requires
        rr_valid(state as int, n_workers as int),
        0 <= worker < n_workers,
    ensures
        rr_pick_at(state as int, n_workers as int, k) == worker <==> (k as int) % (n_workers as int) == (
        worker - (state - 1)) % (n_workers as int),
{
    let n = n_workers as int;
    let p = state - 1;
    let d = (worker - p) % n;
    let r = (k as int) % n;
    lemma_round_robin_cycle(state, n_workers, k);
    vstd::arithmetic::div_mod::lemma_mod_bound(k as int, n);
    vstd::arithmetic::div_mod::lemma_mod_bound(worker - p, n);
    vstd::arithmetic::div_mod::lemma_add_mod_noop_right(p, k as int, n);
    vstd::arithmetic::div_mod::lemma_add_mod_noop_right(p, worker - p, n);
    vstd::arithmetic::div_mod::lemma_small_mod(worker as nat, n as nat);
    assert((p + d) % n == worker);
    assert((p + (k as int)) % n == (p + r) % n);
    if (p + r) % n == worker && r != d {
        if r < d {
            vstd::arithmetic::div_mod::lemma_mod_equivalence(p + d, p + r, n);
            vstd::arithmetic::div_mod::lemma_small_mod((d - r) as nat, n as nat);
            assert(p + d - (p + r) == d - r);
        } else {
            vstd::arithmetic::div_mod::lemma_mod_equivalence(p + r, p + d, n);
            vstd::arithmetic::div_mod::lemma_small_mod((r - d) as nat, n as nat);
            assert(p + r - (p + d) == r - d);
        }
    }
}

/// Exactly how often round robin picks each worker: in `k` selections from
/// position `state`, a worker is picked `k / n` times, plus once more when
/// its offset from the start is below `k mod n`.
pub proof fn lemma_round_robin_count(state: u8, n_workers: usize, k: nat, worker: int)
    requires
        rr_valid(state as int, n_workers as int),
        0 <= worker < n_workers,
    ensures
        rr_count(state as int, n_workers as int, k, worker) == (k as int) / (n_workers as int) + if (worker
            - (state - 1)) % (n_workers as int) < (k as int) % (n_workers as int) {
            1int
        } else {
            0int
        },
    decreases k,
{
    let n = n_workers as int;
    let d = (worker - (state - 1)) % n;
    if k == 0 {
        vstd::arithmetic::div_mod::lemma_small_mod(0, n as nat);
        assert(0int / n == 0) by {
            vstd::arithmetic::div_mod::lemma_fundamental_div_mod_converse(0, n, 0, 0);
        }
    } else {
        let j = (k - 1) as nat;
        lemma_round_robin_count(state, n_workers, j, worker);
        lemma_pick_matches_offset(state, n_workers, j, worker);
        vstd::arithmetic::div_mod::lemma_fundamental_div_mod(j as int, n);
        vstd::arithmetic::div_mod::lemma_mod_bound(j as int, n);
        vstd::arithmetic::div_mod::lemma_mod_bound(worker - (state - 1), n);
        let q = j as int / n;
        let r = j as int % n;
        if r + 1 < n {
            vstd::arithmetic::div_mod::lemma_fundamental_div_mod_converse(k as int, n, q, r + 1);
        } else {
            assert(k as int == (q + 1) * n + 0) by (nonlinear_arith)
                requires
                    j as int == n * q + r,
                    r == n - 1,
                    k == j + 1,
            ;
            vstd::arithmetic::div_mod::lemma_fundamental_div_mod_converse(k as int, n, q + 1, 0);
        }
    }
}

/// Round robin balances the load: in any `k` selections each worker is
/// picked `k / n` times, rounded down or up.
pub proof fn lemma_round_robin_balanced(state: u8, n_workers: usize, k: nat, worker: int)
    requires
        rr_valid(state as int, n_workers as int),
        0 <= worker < n_workers,
    ensures
        (k as int) / (n_workers as int) <= rr_count(state as int, n_workers as int, k, worker) <= (k as int) / (n_workers as int) + 1,
{
    lemma_round_robin_count(state, n_workers, k, worker);
}

} // verus!
