use vstd::prelude::*;

verus! {

/// A Lamport-style logical clock: a counter that only moves forward.
#[derive(Debug)]
pub struct LogicalClock {
    pub time: u64,
}

impl LogicalClock {
    /// A clock that starts at time zero.
    pub fn new() -> (clock: Self)
        ensures
            clock.time == 0,
    {
        LogicalClock { time: 0 }
    }

    /// Advances the clock by one tick.
    pub fn increment(&mut self)
        requires
            old(self).time < u64::MAX,
        ensures
            final(self).time == old(self).time + 1,
    {
        self.time = self.time + 1;
    }

    /// The current logical time.
    pub fn get_time(&self) -> (time: u64)
        ensures
            time == self.time,
    {
        self.time
    }
}

/// What one build step does to the clock: it moves on by exactly one tick,
/// and the new time stamps the request.
pub open spec fn clock_ticked(before: LogicalClock, after: LogicalClock, time: u64) -> bool {
    after.time == before.time + 1 && time == after.time
}

/// Build steps taken one after another each see their own time: after `k`
/// steps from time `t`, the clock shows `t + k`, and the `i`-th step
/// (counting from zero) was stamped `t + i + 1`, so the stamps are exactly
/// `t + 1` to `t + k`, with none lost or repeated.
pub proof fn lemma_serialized_ticks(clocks: Seq<LogicalClock>, times: Seq<u64>)
    requires
        clocks.len() == times.len() + 1,
        forall|i: int| 0 <= i < times.len() ==> clock_ticked(#[trigger] clocks[i], clocks[i + 1], times[i]),
    ensures
        clocks.last().time == clocks[0].time + times.len(),
        forall|i: int| 0 <= i < times.len() ==> #[trigger] times[i] == clocks[0].time + i + 1,
    decreases times.len(),
{
    if times.len() > 0 {
        let k = times.len() - 1;
        lemma_serialized_ticks(clocks.drop_last(), times.drop_last());
        assert(clocks.drop_last().last() == clocks[k]);
        assert(clock_ticked(clocks[k], clocks[k + 1], times[k]));
        assert forall|i: int| 0 <= i < times.len() implies #[trigger] times[i] == clocks[0].time + i + 1 by {
            if i < k {
                assert(times.drop_last()[i] == times[i]);
            }
        }
    }
}

} // verus!
