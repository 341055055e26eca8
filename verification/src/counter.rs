//! The display interpolator: eases a shown number toward its target by a
//! tenth of the remaining distance per tick, snapping exactly onto the target
//! once the remainder falls under the threshold.
//!
//! The displayed value is carried in fixed-point milli-units, so a displayed
//! count of `n` is `n * 1000` inside; the snap threshold of a tenth of a unit
//! is `100` milli-units.

use vstd::prelude::*;

verus! {

/// The remainder left after one easing tick: a tenth of it (rounded down)
/// is covered, and a result under the snap threshold collapses to zero, the
/// tick where the value snaps exactly onto the target.
pub open spec fn next_remaining(rem: int) -> int {
    let stepped = rem - rem / 10;
    if stepped < 100 {
        0
    } else {
        stepped
    }
}

/// How many ticks the easing takes to bring a remainder down to zero.
pub open spec fn ticks_to_settle(rem: int) -> nat
    decreases rem,
{
    if rem <= 0 {
        0
    } else {
        (1 + ticks_to_settle(next_remaining(rem))) as nat
    }
}

/// The easing from a displayed 0 toward a target of 47 settles in exactly 59
/// ticks: the remainder of 47000 milli-units loses a tenth per tick until it
/// falls under the snap threshold.
#[verifier::rlimit(100)]
pub proof fn lemma_tick_count_from_zero_to_47()
    ensures
        ticks_to_settle(47000) == 59,
{
    assert(ticks_to_settle(0) == 0);
    assert(ticks_to_settle(108) == 1);
    assert(ticks_to_settle(119) == 2);
    assert(ticks_to_settle(132) == 3);
    assert(ticks_to_settle(146) == 4);
    assert(ticks_to_settle(162) == 5);
    assert(ticks_to_settle(180) == 6);
    assert(ticks_to_settle(200) == 7);
    assert(ticks_to_settle(222) == 8);
    assert(ticks_to_settle(246) == 9);
    assert(ticks_to_settle(273) == 10);
    assert(ticks_to_settle(303) == 11);
    assert(ticks_to_settle(336) == 12);
    assert(ticks_to_settle(373) == 13);
    assert(ticks_to_settle(414) == 14);
    assert(ticks_to_settle(460) == 15);
    assert(ticks_to_settle(511) == 16);
    assert(ticks_to_settle(567) == 17);
    assert(ticks_to_settle(630) == 18);
    assert(ticks_to_settle(700) == 19);
    assert(ticks_to_settle(777) == 20);
    assert(ticks_to_settle(863) == 21);
    assert(ticks_to_settle(958) == 22);
    assert(ticks_to_settle(1064) == 23);
    assert(ticks_to_settle(1182) == 24);
    assert(ticks_to_settle(1313) == 25);
    assert(ticks_to_settle(1458) == 26);
    assert(ticks_to_settle(1619) == 27);
    assert(ticks_to_settle(1798) == 28);
    assert(ticks_to_settle(1997) == 29);
    assert(ticks_to_settle(2218) == 30);
    assert(ticks_to_settle(2464) == 31);
    assert(ticks_to_settle(2737) == 32);
    assert(ticks_to_settle(3041) == 33);
    assert(ticks_to_settle(3378) == 34);
    assert(ticks_to_settle(3753) == 35);
    assert(ticks_to_settle(4169) == 36);
    assert(ticks_to_settle(4632) == 37);
    assert(ticks_to_settle(5146) == 38);
    assert(ticks_to_settle(5717) == 39);
    assert(ticks_to_settle(6352) == 40);
    assert(ticks_to_settle(7057) == 41);
    assert(ticks_to_settle(7841) == 42);
    assert(ticks_to_settle(8712) == 43);
    assert(ticks_to_settle(9680) == 44);
    assert(ticks_to_settle(10755) == 45);
    assert(ticks_to_settle(11949) == 46);
    assert(ticks_to_settle(13276) == 47);
    assert(ticks_to_settle(14751) == 48);
    assert(ticks_to_settle(16390) == 49);
    assert(ticks_to_settle(18211) == 50);
    assert(ticks_to_settle(20234) == 51);
    assert(ticks_to_settle(22482) == 52);
    assert(ticks_to_settle(24979) == 53);
    assert(ticks_to_settle(27754) == 54);
    assert(ticks_to_settle(30837) == 55);
    assert(ticks_to_settle(34263) == 56);
    assert(ticks_to_settle(38070) == 57);
    assert(ticks_to_settle(42300) == 58);
    assert(ticks_to_settle(47000) == 59);
}

/// One animated counter, keyed by its target for render-surface addressing.
pub struct AnimatedCounter {
    /// The displayed value, in milli-units.
    pub current_milli: u64,
    /// The value the display is easing toward, in whole units.
    pub target: u32,
}

impl AnimatedCounter {
    /// The target in milli-units.
    pub open spec fn target_milli(&self) -> int {
        self.target * 1000
    }

    /// The distance still to cover, in milli-units.
    pub open spec fn remaining(&self) -> int {
        if self.current_milli <= self.target_milli() {
            self.target_milli() - self.current_milli
        } else {
            self.current_milli - self.target_milli()
        }
    }

    /// The displayed value never leaves the range of whole-unit counts.
    pub open spec fn wf(&self) -> bool {
        self.current_milli <= u32::MAX * 1000
    }

    /// A fresh counter shows its initial value and is already settled on it.
    pub fn new(initial: u32) -> (c: Self)
        ensures
            c.wf(),
            c.target == initial,
            c.current_milli == initial * 1000,
            c.remaining() == 0,
    {
        AnimatedCounter { current_milli: (initial as u64) * 1000, target: initial }
    }

    /// Retargets the animation; the displayed value is untouched.
    pub fn set_target(&mut self, new_target: u32)
        requires
            old(self).wf(),
        ensures
            final(self).wf(),
            final(self).target == new_target,
            final(self).current_milli == old(self).current_milli,
    {
        self.target = new_target;
    }

    /// One animation tick: covers exactly a tenth (rounded down) of the
    /// remaining distance toward the target, then snaps exactly onto it once
    /// the remainder is under the threshold. Never overshoots, and strictly
    /// shrinks a nonzero remainder.
    pub fn tick(&mut self) -> (done: bool)
        requires
            old(self).wf(),
        ensures
            final(self).wf(),
            final(self).target == old(self).target,
            done == (final(self).remaining() == 0),
            old(self).remaining() == 0 ==> *final(self) == *old(self),
            old(self).remaining() > 0 ==> final(self).remaining() == next_remaining(
                old(self).remaining(),
            ),
            old(self).remaining() > 0 ==> final(self).remaining() < old(self).remaining(),
            old(self).current_milli <= old(self).target_milli() ==> old(self).current_milli
                <= final(self).current_milli <= old(self).target_milli(),
            old(self).current_milli >= old(self).target_milli() ==> old(self).target_milli()
                <= final(self).current_milli <= old(self).current_milli,
    {
        let t: u64 = (self.target as u64) * 1000;
        if self.current_milli == t {
            return true;
        }
        if self.current_milli < t {
            let diff = t - self.current_milli;
            let step = diff / 10;
            self.current_milli = self.current_milli + step;
            let rem = t - self.current_milli;
            if rem < 100 {
                self.current_milli = t;
                true
            } else {
                false
            }
        } else {
            let diff = self.current_milli - t;
            let step = diff / 10;
            self.current_milli = self.current_milli - step;
            let rem = self.current_milli - t;
            if rem < 100 {
                self.current_milli = t;
                true
            } else {
                false
            }
        }
    }

    /// Runs ticks until the counter settles exactly on its target, in
    /// exactly as many ticks as the easing rule dictates (an already settled
    /// counter still spends the one tick that observes it).
    pub fn settle(&mut self) -> (ticks: u64)
        requires
            old(self).wf(),
        ensures
            final(self).wf(),
            final(self).target == old(self).target,
            final(self).current_milli == final(self).target_milli(),
            old(self).remaining() == 0 ==> ticks == 1,
            old(self).remaining() > 0 ==> ticks == ticks_to_settle(old(self).remaining()),
            ticks <= old(self).remaining() + 1,
    {
        let mut ticks: u64 = 0;
        loop
            invariant
                self.wf(),
                self.target == old(self).target,
                old(self).remaining() <= u32::MAX * 1000,
                ticks + self.remaining() <= old(self).remaining(),
                ticks + ticks_to_settle(self.remaining()) == ticks_to_settle(
                    old(self).remaining(),
                ),
                self.remaining() == 0 ==> ticks == 0,
            decreases self.remaining(),
        {
            let ghost rem_before = self.remaining();
            let done = self.tick();
            ticks = ticks + 1;
            proof {
                if rem_before > 0 {
                    assert(ticks_to_settle(rem_before) == 1 + ticks_to_settle(self.remaining()));
                }
                if old(self).remaining() > 0 {
                    assert(ticks_to_settle(old(self).remaining()) >= 1);
                }
                assert(ticks_to_settle(0) == 0);
            }
            if done {
                return ticks;
            }
        }
    }

    /// The whole-unit value shown on the render surface: the fixed-point
    /// value rounded to the nearest unit. A settled counter shows exactly its
    /// target.
    pub fn display_value(&self) -> (v: u32)
        requires
            self.wf(),
        ensures
            v == (self.current_milli + 500) / 1000,
            self.current_milli == self.target_milli() ==> v == self.target,
    {
        ((self.current_milli + 500) / 1000) as u32
    }
}

} // verus!
