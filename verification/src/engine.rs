//! The animation engine: what one timer tick does to the output.

use vstd::prelude::*;

verus! {

/// How a tick drives the output.
#[derive(Clone, Copy, Debug, PartialEq, Eq, Structural)]
pub enum LedAction {
    /// The output changes level: the animation runs.
    Toggle,
    /// The output goes to the inactive level: the animation is off, and no
    /// light stays on.
    ForceLow,
}

/// What a tick does while the animation is enabled or not.
pub open spec fn led_action(enabled: bool) -> LedAction {
    if enabled {
        LedAction::Toggle
    } else {
        LedAction::ForceLow
    }
}

impl LedAction {
    /// The level of the output after the action, `true` being active.
    pub open spec fn level_after(self, level: bool) -> bool {
        match self {
            LedAction::Toggle => !level,
            LedAction::ForceLow => false,
        }
    }

    /// Computes the level of the output after the action.
    pub fn drive(self, level: bool) -> (after: bool)
        ensures
            after == self.level_after(level),
    {
        match self {
            LedAction::Toggle => !level,
            LedAction::ForceLow => false,
        }
    }
}

/// Decides what a timer tick does to the output, from the one value that
/// the tick reads of the control state.
pub fn blink_timer_tick(enabled: bool) -> (action: LedAction)
    ensures
        action == led_action(enabled),
{
    if enabled {
        LedAction::Toggle
    } else {
        LedAction::ForceLow
    }
}

} // verus!
