//! The back-off between passes of the processing loop: a base window that
//! doubles from 20 ms up to 2560 ms and then starts over, plus a random
//! extra of one to two windows, capped by a maximum.
use vstd::prelude::*;

use rand::Rng;

verus! {

/// Back-off state.
#[derive(Clone, Copy)]
pub struct DelayController {
    /// The milliseconds slept so far.
    pub total_sleep_time: u128,
    multiplier: u64,
    max_sleep_ms: u64,
}

/// The multiplier actually used: one more than 64 starts over at 1.
pub open spec fn effective_multiplier(m: u64) -> int {
    if m > 64 {
        1
    } else {
        m as int
    }
}

/// The base window of a pass, in milliseconds.
pub open spec fn base_window(m: u64) -> int {
    let e = effective_multiplier(m);
    if e == 1 {
        20
    } else {
        e * 40
    }
}

/// The multiplier of the next pass.
pub open spec fn next_multiplier(m: u64) -> u64 {
    (effective_multiplier(m) * 2) as u64
}

/// The multiplier of the `k`-th pass of a new controller (counted from 0).
pub open spec fn schedule_multiplier(k: nat) -> u64
    decreases k,
{
    if k == 0 {
        1
    } else {
        next_multiplier(schedule_multiplier((k - 1) as nat))
    }
}

/// The base windows of a cycle of passes.
pub open spec fn cycle_windows() -> Seq<nat> {
    seq![20, 80, 160, 320, 640, 1280, 2560]
}

pub open spec fn min_of(a: int, b: int) -> int {
    if a <= b {
        a
    } else {
        b
    }
}

/// A random number in `low..=high` (`rand::thread_rng().gen_range`).
#[verifier::external_body]
fn random_between(low: u64, high: u64) -> (res: u64)
    requires
        low <= high,
    ensures
        low <= res <= high,
{
    rand::thread_rng().gen_range(low..=high)
}

/// One pass of the back-off from `before` to `after`: the delay, added to
/// the total, is two to three base windows capped by the maximum; the
/// multiplier moves on and the maximum stays.
pub open spec fn backoff_pass(before: DelayController, after: DelayController) -> bool {
    let b = base_window(before.multiplier());
    let d = after.total() - before.total();
    &&& min_of(before.max_sleep(), 2 * b) <= d <= min_of(before.max_sleep(), 3 * b)
    &&& after.multiplier() == next_multiplier(before.multiplier())
    &&& after.max_sleep() == before.max_sleep()
}

/// The least total after the first `n` passes of a controller with
/// maximum `max`.
pub open spec fn run_low(max: int, n: nat) -> int
    decreases n,
{
    if n == 0 {
        0
    } else {
        run_low(max, (n - 1) as nat) + min_of(max, 2 * (cycle_windows()[((n - 1) % 7) as int] as int))
    }
}

/// The greatest total after the first `n` passes of a controller with
/// maximum `max`.
pub open spec fn run_high(max: int, n: nat) -> int
    decreases n,
{
    if n == 0 {
        0
    } else {
        run_high(max, (n - 1) as nat) + min_of(max, 3 * (cycle_windows()[((n - 1) % 7) as int] as int))
    }
}

/// `runs` are the states of a new controller with maximum `max` and of the
/// same controller after each of its passes.
pub open spec fn backoff_run(runs: Seq<DelayController>, max: u64) -> bool {
    &&& runs.len() >= 1
    &&& runs[0].total() == 0
    &&& runs[0].multiplier() == schedule_multiplier(0)
    &&& runs[0].max_sleep() == max
    &&& forall|i: int| 0 <= i < runs.len() - 1 ==> #[trigger] backoff_pass(runs[i], runs[i + 1])
}

impl DelayController {
    pub closed spec fn multiplier(&self) -> u64 {
        self.multiplier
    }

    pub closed spec fn total(&self) -> int {
        self.total_sleep_time as int
    }

    pub closed spec fn max_sleep(&self) -> int {
        self.max_sleep_ms as int
    }

    /// A controller that has not slept yet, whose delays never exceed
    /// `max_sleep_ms`.
    pub fn new(max_sleep_ms: u64) -> (res: DelayController)
        ensures
            res.total() == 0,
            res.multiplier() == schedule_multiplier(0),
            res.max_sleep() == max_sleep_ms,
    {
        DelayController { multiplier: 1, max_sleep_ms, total_sleep_time: 0 }
    }

    /// The base window of the next pass.
    pub fn window(&self) -> (res: u64)
        ensures
            res == base_window(self.multiplier()),
            res <= 2560,
    {
        let m = if self.multiplier > 64 {
            1
        } else {
            self.multiplier
        };
        if m == 1 {
            20
        } else {
            assert(m <= 64);
            m * 40
        }
    }

    /// Ends a pass with the random extra `add`, drawn from one to two
    /// windows: the delay is the window plus `add`, capped by the maximum;
    /// it is added to the total and the multiplier moves on.
    pub fn advance(&mut self, add: u64) -> (delay: u64)
        requires
            base_window(old(self).multiplier()) <= add <= 2 * base_window(old(self).multiplier()),
            old(self).total() + old(self).max_sleep() <= u128::MAX,
        ensures
            delay == min_of(
                old(self).max_sleep(),
                base_window(old(self).multiplier()) + add,
            ),
            final(self).total() == old(self).total() + delay,
            final(self).multiplier() == next_multiplier(old(self).multiplier()),
            final(self).max_sleep() == old(self).max_sleep(),
    {
        let m = self.window();
        if self.multiplier > 64 {
            self.multiplier = 1;
        }
        self.multiplier = self.multiplier * 2;
        let delay = if self.max_sleep_ms <= m + add {
            self.max_sleep_ms
        } else {
            m + add
        };
        self.total_sleep_time = self.total_sleep_time + delay as u128;
        delay
    }

    /// The delay of the next pass: the window plus a random extra of one to
    /// two windows, capped by the maximum.
    pub fn next_delay(&mut self) -> (delay: u64)
        requires
            old(self).total() + old(self).max_sleep() <= u128::MAX,
        ensures
            min_of(old(self).max_sleep(), 2 * base_window(old(self).multiplier())) <= delay,
            delay <= min_of(old(self).max_sleep(), 3 * base_window(old(self).multiplier())),
            final(self).total() == old(self).total() + delay,
            final(self).multiplier() == next_multiplier(old(self).multiplier()),
            final(self).max_sleep() == old(self).max_sleep(),
            backoff_pass(*old(self), *final(self)),
    {
        let m = self.window();
        let add = random_between(m, m * 2);
        self.advance(add)
    }
}

/// The multipliers of the passes after the first run through
/// 2, 4, ..., 128 and start over.
proof fn lemma_schedule_cycle(k: nat)
    requires
        k >= 1,
    ensures
        schedule_multiplier(k) == seq![2u64, 4, 8, 16, 32, 64, 128][((k - 1) % 7) as int],
    decreases k,
{
    let cycle = seq![2u64, 4, 8, 16, 32, 64, 128];
    if k == 1 {
        assert(schedule_multiplier(1) == next_multiplier(schedule_multiplier(0)));
        assert(cycle[0] == 2);
    } else {
        lemma_schedule_cycle((k - 1) as nat);
        let j = ((k - 2) % 7) as int;
        let prev = schedule_multiplier((k - 1) as nat);
        assert(prev == cycle[j]);
        assert(schedule_multiplier(k) == next_multiplier(prev));
        if j == 6 {
            assert((k - 1) % 7 == 0);
            assert(cycle[6] == 128);
            assert(next_multiplier(128) == 2);
        } else {
            assert((k - 1) % 7 == j + 1);
            assert(0 <= j < 6);
            assert(cycle[j + 1] == 2 * cycle[j]);
            assert(cycle[j] <= 64);
        }
    }
}

/// The back-off repeats every seven passes: the base window of the `k`-th
/// pass of a new controller is 20, 80, 160, 320, 640, 1280, 2560 ms as
/// `k % 7` runs from 0 to 6.
pub proof fn law_backoff_schedule(k: nat)
    ensures
        base_window(schedule_multiplier(k)) == cycle_windows()[(k % 7) as int],
{
    if k >= 1 {
        lemma_schedule_cycle(k);
        assert((k - 1) % 7 == 6 ==> k % 7 == 0);
        assert((k - 1) % 7 != 6 ==> k % 7 == (k - 1) % 7 + 1);
    }
}

proof fn lemma_run_prefix(runs: Seq<DelayController>, max: u64, n: nat)
    requires
        backoff_run(runs, max),
        n < runs.len(),
    ensures
        runs[n as int].multiplier() == schedule_multiplier(n),
        runs[n as int].max_sleep() == max,
        run_low(max as int, n) <= runs[n as int].total() <= run_high(max as int, n),
    decreases n,
{
    if n > 0 {
        let k = (n - 1) as nat;
        lemma_run_prefix(runs, max, k);
        law_backoff_schedule(k);
        assert(backoff_pass(runs[k as int], runs[k as int + 1]));
    }
}

/// Over any number of passes of a new controller with maximum `max`, the
/// `i`-th delay (counted from 0) lies between two and three times the
/// `i % 7`-th window of the cycle, each capped by `max`; so the total never
/// falls and grows by at most `max` a pass, and after `n` passes it lies
/// between `run_low(max, n)` and `run_high(max, n)`.
pub proof fn law_backoff_run(runs: Seq<DelayController>, max: u64)
    requires
        backoff_run(runs, max),
    ensures
        forall|i: int|
            0 <= i < runs.len() - 1 ==> {
                let d = runs[i + 1].total() - #[trigger] runs[i].total();
                &&& min_of(max as int, 2 * (cycle_windows()[i % 7] as int)) <= d
                &&& d <= min_of(max as int, 3 * (cycle_windows()[i % 7] as int))
                &&& 0 <= d <= max
            },
        forall|i: int| 0 <= i < runs.len() ==> (#[trigger] runs[i]).max_sleep() == max,
        run_low(max as int, (runs.len() - 1) as nat) <= runs.last().total(),
        runs.last().total() <= run_high(max as int, (runs.len() - 1) as nat),
{
    assert forall|i: int|
        0 <= i < runs.len() - 1 implies {
            let d = runs[i + 1].total() - #[trigger] runs[i].total();
            &&& min_of(max as int, 2 * (cycle_windows()[i % 7] as int)) <= d
            &&& d <= min_of(max as int, 3 * (cycle_windows()[i % 7] as int))
            &&& 0 <= d <= max
        } by {
        lemma_run_prefix(runs, max, i as nat);
        law_backoff_schedule(i as nat);
        assert(backoff_pass(runs[i], runs[i + 1]));
    }
    assert forall|i: int| 0 <= i < runs.len() implies (#[trigger] runs[i]).max_sleep() == max by {
        lemma_run_prefix(runs, max, i as nat);
    }
    lemma_run_prefix(runs, max, (runs.len() - 1) as nat);
}

proof fn lemma_capped_run(n: nat)
    requires
        1 <= n <= 7,
    ensures
        run_low(100, n) == 40 + 100 * (n - 1),
        run_high(100, n) == 60 + 100 * (n - 1),
    decreases n,
{
    let w = cycle_windows();
    assert(w[0] == 20 && w[1] == 80 && w[2] == 160 && w[3] == 320);
    assert(w[4] == 640 && w[5] == 1280 && w[6] == 2560);
    if n > 1 {
        lemma_capped_run((n - 1) as nat);
        assert((n - 1) % 7 == n - 1);
    } else {
        assert(run_low(100, 0) == 0);
        assert(run_high(100, 0) == 0);
    }
}

/// The processing loop's controller (maximum 100 ms): its first delay is
/// 40 to 60 ms and each later one in the first cycle is exactly 100 ms, so
/// after `n` passes, 1 to 7 of them, the total lies between
/// `40 + 100 (n - 1)` and `60 + 100 (n - 1)` ms.
pub proof fn law_backoff_capped_run(runs: Seq<DelayController>)
    requires
        backoff_run(runs, 100),
        2 <= runs.len() <= 8,
    ensures
        40 + 100 * (runs.len() - 2) <= runs.last().total() <= 60 + 100 * (runs.len() - 2),
{
    law_backoff_run(runs, 100);
    lemma_capped_run((runs.len() - 1) as nat);
}

} // verus!
