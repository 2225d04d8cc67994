//! The shared control state: whether the animation runs, and how fast.

use vstd::prelude::*;

verus! {

/// Lowest blink frequency, in hertz.
pub const MIN_FREQUENCY: u8 = 1;

/// Highest blink frequency, in hertz.
pub const MAX_FREQUENCY: u8 = 100;

/// Blink frequency after boot, in hertz.
pub const BOOT_FREQUENCY: u8 = 2;

/// Whether `frequency` is one the blinker can run at.
pub open spec fn frequency_in_range(frequency: int) -> bool {
    MIN_FREQUENCY <= frequency <= MAX_FREQUENCY
}

/// Tells whether `frequency` is one the blinker can run at.
pub fn in_range(frequency: u8) -> (ok: bool)
    ensures
        ok == frequency_in_range(frequency as int),
{
    MIN_FREQUENCY <= frequency && frequency <= MAX_FREQUENCY
}

/// Output toggles per second that show `frequency` full blinks per second:
/// one toggle switches the light on, the next switches it off.
pub open spec fn toggle_rate_of(frequency: int) -> int {
    2 * frequency
}

/// Computes the timer rate, in hertz, for a blink frequency.
pub fn toggle_rate(frequency: u8) -> (rate: u32)
    ensures
        rate == toggle_rate_of(frequency as int),
{
    let f: u32 = frequency as u32;
    2 * f
}

/// What both interrupt handlers share.
#[derive(Clone, Copy, Debug, PartialEq, Eq, Structural)]
pub struct ControlState {
    /// Whether the animation runs.
    pub enabled: bool,
    /// Blinks per second.
    pub frequency: u8,
}

/// A single write to the control state.
#[derive(Clone, Copy, Debug, PartialEq, Eq, Structural)]
pub enum Update {
    /// Nothing changes.
    Keep,
    /// The animation is switched on or off.
    SetEnabled(bool),
    /// The blink frequency changes, and the timer with it.
    SetFrequency(u8),
}

impl Update {
    /// Whether the update leaves a valid state valid.
    pub open spec fn valid(self) -> bool {
        self matches Update::SetFrequency(f) ==> frequency_in_range(f as int)
    }
}

impl ControlState {
    /// The invariant of the control state: the frequency is never zero and
    /// never above the maximum.
    pub open spec fn valid(self) -> bool {
        frequency_in_range(self.frequency as int)
    }

    /// The rate at which the timer fires in this state.
    pub open spec fn toggle_rate(self) -> int {
        toggle_rate_of(self.frequency as int)
    }

    /// The state after `update`. A frequency out of range is not written.
    pub open spec fn updated(self, update: Update) -> ControlState {
        match update {
            Update::Keep => self,
            Update::SetEnabled(enabled) => ControlState { enabled, frequency: self.frequency },
            Update::SetFrequency(frequency) => if frequency_in_range(frequency as int) {
                ControlState { enabled: self.enabled, frequency }
            } else {
                self
            },
        }
    }

    /// The state after boot: animation off, two blinks per second.
    pub open spec fn boot() -> ControlState {
        ControlState { enabled: false, frequency: BOOT_FREQUENCY }
    }

    /// Creates the state after boot.
    pub fn new() -> (state: ControlState)
        ensures
            state == ControlState::boot(),
            state.valid(),
    {
        ControlState { enabled: false, frequency: BOOT_FREQUENCY }
    }

    /// Builds a state from its parts, if the frequency is in range.
    pub fn from_parts(enabled: bool, frequency: u8) -> (state: Option<ControlState>)
        ensures
            frequency_in_range(frequency as int) ==> state == Some(
                ControlState { enabled, frequency },
            ),
            !frequency_in_range(frequency as int) ==> state is None,
    {
        if in_range(frequency) {
            Some(ControlState { enabled, frequency })
        } else {
            None
        }
    }

    /// Performs `update`, and tells whether the state changed.
    pub fn apply(&mut self, update: Update) -> (changed: bool)
        ensures
            *final(self) == old(self).updated(update),
            changed == (*final(self) != *old(self)),
            old(self).valid() ==> final(self).valid(),
    {
        match update {
            Update::Keep => false,
            Update::SetEnabled(enabled) => {
                let changed = self.enabled != enabled;
                self.enabled = enabled;
                changed
            },
            Update::SetFrequency(frequency) => {
                if in_range(frequency) {
                    let changed = self.frequency != frequency;
                    self.frequency = frequency;
                    changed
                } else {
                    false
                }
            },
        }
    }

    /// The timer rate, in hertz, that belongs to this state.
    pub fn timer_rate(&self) -> (rate: u32)
        ensures
            rate == self.toggle_rate(),
            self.valid() ==> 2 <= rate <= 200,
    {
        toggle_rate(self.frequency)
    }
}

} // verus!
