//! The status blinker: one output pin toggled on a fixed period, forever,
//! independent of anything the USB side does.

use vstd::prelude::*;

verus! {

/// Milliseconds the pin stays at each level before the next toggle.
pub const BLINK_INTERVAL_MS: u64 = 1000;

/// The blinker's whole state: the current level of its output pin.
/// The driving task sets the pin to this level, suspends for
/// [`BLINK_INTERVAL_MS`], toggles, and repeats, forever.
#[derive(Clone, Copy, PartialEq, Eq, Structural, Debug)]
pub struct Blinker {
    pub pin_high: bool,
}

/// The pin level after `ticks` elapsed intervals, starting from `start`:
/// each interval flips the level, so the level alternates indefinitely.
pub open spec fn spec_level_after(start: bool, ticks: nat) -> bool
    decreases ticks,
{
    if ticks == 0 {
        start
    } else {
        !spec_level_after(start, (ticks - 1) as nat)
    }
}

/// The level never settles: every interval changes it. With
/// [`spec_level_after`] unfolded once this is the whole alternation law.
pub proof fn lemma_level_alternates(start: bool, ticks: nat)
    ensures
        spec_level_after(start, ticks + 1) == !spec_level_after(start, ticks),
{
}

/// After an even number of intervals the level is back where it started;
/// after an odd number it is the opposite.
pub proof fn lemma_level_by_parity(start: bool, ticks: nat)
    ensures
        spec_level_after(start, ticks) == if ticks % 2 == 0 {
            start
        } else {
            !start
        },
    decreases ticks,
{
    if ticks > 0 {
        lemma_level_by_parity(start, (ticks - 1) as nat);
    }
}

impl Blinker {
    /// The pin starts low, as the bring-up sequencer configures it.
    pub fn power_on() -> (blinker: Blinker)
        ensures
            !blinker.pin_high,
    {
        Blinker { pin_high: false }
    }

    /// One interval elapsed: flip the level.
    pub fn toggle(&mut self)
        ensures
            final(self).pin_high == !old(self).pin_high,
    {
        self.pin_high = !self.pin_high;
    }
}

} // verus!
