//! The repeating timer that decides when an obstacle is due.

use vstd::prelude::*;

verus! {

/// A repeating interval timer. Times are in nanoseconds.
///
/// `elapsed` is the time gathered since the last firing, together with what
/// earlier firings have left over. Time is unsigned: a negative delta cannot
/// be expressed, and whoever measures time converts before calling.
#[derive(Clone, Copy, Debug, PartialEq, Eq, Structural)]
pub struct SpawnScheduler {
    pub elapsed: u64,
    pub interval: u64,
}

impl SpawnScheduler {
    /// The timer fires on a tick of `delta`.
    pub open spec fn due(self, delta: u64) -> bool {
        self.elapsed + delta >= self.interval
    }

    /// Time carried over by a tick of `delta`, before the 64-bit limit applies:
    /// the gathered time, less one interval when the timer fires.
    pub open spec fn carried(self, delta: u64) -> int {
        if self.due(delta) {
            self.elapsed + delta - self.interval
        } else {
            self.elapsed + delta
        }
    }

    /// The timer after a tick of `delta`. Carried time that does not fit in
    /// 64 bits stops at the largest value.
    pub open spec fn after(self, delta: u64) -> SpawnScheduler {
        SpawnScheduler {
            elapsed: if self.carried(delta) > u64::MAX {
                u64::MAX
            } else {
                self.carried(delta) as u64
            },
            interval: self.interval,
        }
    }

    /// The timer after one tick for each element of `deltas`, in order.
    pub open spec fn after_all(self, deltas: Seq<u64>) -> SpawnScheduler
        decreases deltas.len(),
    {
        if deltas.len() == 0 {
            self
        } else {
            self.after_all(deltas.drop_last()).after(deltas.last())
        }
    }

    /// How many of the ticks `deltas` fire.
    pub open spec fn firings(self, deltas: Seq<u64>) -> nat
        decreases deltas.len(),
    {
        if deltas.len() == 0 {
            0
        } else {
            let before = self.after_all(deltas.drop_last());
            self.firings(deltas.drop_last()) + if before.due(deltas.last()) {
                1nat
            } else {
                0nat
            }
        }
    }

    /// No tick of `deltas` carries more time than 64 bits hold.
    pub open spec fn within_range(self, deltas: Seq<u64>) -> bool
        decreases deltas.len(),
    {
        deltas.len() > 0 ==> {
            &&& self.within_range(deltas.drop_last())
            &&& self.after_all(deltas.drop_last()).carried(deltas.last()) <= u64::MAX
        }
    }

    /// A timer that has gathered no time yet.
    pub fn new(interval: u64) -> (s: SpawnScheduler)
        ensures
            s == (SpawnScheduler { elapsed: 0, interval }),
    {
        SpawnScheduler { elapsed: 0, interval }
    }

    /// Whether a tick of `delta` would fire, without ticking.
    pub fn is_due(&self, delta: u64) -> (b: bool)
        ensures
            b == self.due(delta),
    {
        delta >= self.interval || self.elapsed >= self.interval - delta
    }

    /// Advances the timer by `delta` and reports whether it fires.
    ///
    /// It fires when the gathered time reaches the interval, at most once per
    /// tick, and then keeps what is left beyond one interval.
    pub fn tick(&mut self, delta: u64) -> (fired: bool)
        ensures
            fired == old(self).due(delta),
            *final(self) == old(self).after(delta),
    {
        let gathered: u128 = self.elapsed as u128 + delta as u128;
        let fired = gathered >= self.interval as u128;
        let carried: u128 = if fired {
            gathered - self.interval as u128
        } else {
            gathered
        };
        self.elapsed = if carried > u64::MAX as u128 {
            u64::MAX
        } else {
            carried as u64
        };
        fired
    }
}

/// Sum of a sequence of deltas.
pub open spec fn total(deltas: Seq<u64>) -> nat
    decreases deltas.len(),
{
    if deltas.len() == 0 {
        0
    } else {
        total(deltas.drop_last()) + deltas.last() as nat
    }
}

/// Every firing uses up exactly one interval of the time that went by: after
/// any sequence of ticks, the intervals fired and the time still carried add
/// up to the time carried at the start and the sum of the deltas.
pub proof fn lemma_firings_account_for_time(s: SpawnScheduler, deltas: Seq<u64>)
    requires
        s.within_range(deltas),
    ensures
        s.firings(deltas) * s.interval + s.after_all(deltas).elapsed == s.elapsed + total(deltas),
        s.after_all(deltas).interval == s.interval,
    decreases deltas.len(),
{
    let width = s.interval as int;
    if deltas.len() == 0 {
        assert(0 * width == 0);
    } else {
        let earlier = deltas.drop_last();
        lemma_firings_account_for_time(s, earlier);
        let fired_before = s.firings(earlier) as int;
        assert((fired_before + 1) * width == fired_before * width + width)
            by (nonlinear_arith);
        assert((fired_before + 0) * width == fired_before * width);
    }
}

/// A single tick fires at most once: no sequence of ticks fires more often
/// than it has ticks.
pub proof fn lemma_at_most_one_firing_per_tick(s: SpawnScheduler, deltas: Seq<u64>)
    ensures
        s.firings(deltas) <= deltas.len(),
    decreases deltas.len(),
{
    if deltas.len() > 0 {
        lemma_at_most_one_firing_per_tick(s, deltas.drop_last());
    }
}

/// Whenever less than one interval is carried, the timer has fired exactly
/// once for each full interval of the time gone by, and carries the remainder.
pub proof fn lemma_one_firing_per_interval(s: SpawnScheduler, deltas: Seq<u64>)
    requires
        s.within_range(deltas),
        s.after_all(deltas).elapsed < s.interval,
    ensures
        s.firings(deltas) == (s.elapsed + total(deltas)) / (s.interval as int),
        s.after_all(deltas).elapsed == (s.elapsed + total(deltas)) % (s.interval as int),
{
    lemma_firings_account_for_time(s, deltas);
    vstd::arithmetic::div_mod::lemma_fundamental_div_mod_converse(
        s.elapsed + total(deltas),
        s.interval as int,
        s.firings(deltas) as int,
        s.after_all(deltas).elapsed as int,
    );
}

/// While no single delta exceeds the interval, less than one interval is
/// carried after every tick, and no tick leaves the 64-bit range.
pub proof fn lemma_carry_stays_below_interval(s: SpawnScheduler, deltas: Seq<u64>)
    requires
        s.elapsed < s.interval,
        forall|i: int| 0 <= i < deltas.len() ==> deltas[i] <= s.interval,
    ensures
        s.after_all(deltas).elapsed < s.interval,
        s.within_range(deltas),
    decreases deltas.len(),
{
    if deltas.len() > 0 {
        lemma_carry_stays_below_interval(s, deltas.drop_last());
        lemma_firings_account_for_time(s, deltas.drop_last());
    }
}

} // verus!
