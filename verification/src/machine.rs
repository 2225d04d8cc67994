//! The blinker as one state object on which both handlers run: the control
//! state, the level of the output, and the timer with its rate and its
//! pending flag.

use crate::engine::{blink_timer_tick, led_action, LedAction};
use crate::shell::{command, command_outcome, control, key_action, KeyAction};
use crate::state::{
    frequency_in_range, in_range, toggle_rate, toggle_rate_of, ControlState, Update,
};
use crate::text::Reply;
use vstd::prelude::*;

verus! {

/// The whole blinker.
#[derive(Clone, Copy, Debug, PartialEq, Eq, Structural)]
pub struct Blinker {
    /// What the two handlers share.
    pub control: ControlState,
    /// Whether the output is at its active level.
    pub led_on: bool,
    /// The rate at which the timer fires, in hertz.
    pub timer_hz: u32,
    /// Whether the timer has fired and its interrupt is still pending. While
    /// it is, the tick handler is entered again.
    pub tick_pending: bool,
}

/// One event and what it carries.
pub enum Step {
    /// The timer fired.
    Tick,
    /// The line editor completed a command line.
    Line { cmd: Seq<char>, args: Seq<char> },
    /// The line editor passed a control code on.
    Key { code: u8 },
}

impl Blinker {
    /// What holds of the blinker at every moment: the control state is
    /// valid, and the timer fires twice per blink.
    pub open spec fn consistent(self) -> bool {
        &&& self.control.valid()
        &&& self.timer_hz == self.control.toggle_rate()
    }

    /// The invariant of the blinker between two runs of a handler: it is
    /// consistent, and no tick is left pending.
    pub open spec fn valid(self) -> bool {
        &&& self.consistent()
        &&& !self.tick_pending
    }

    /// The blinker after boot: animation off, output inactive, two blinks
    /// per second.
    pub open spec fn booted() -> Blinker {
        Blinker {
            control: ControlState::boot(),
            led_on: false,
            timer_hz: 4,
            tick_pending: false,
        }
    }

    /// The blinker after `update`: a new frequency sets the timer in the
    /// same step.
    pub open spec fn after_update(self, update: Update) -> Blinker {
        Blinker {
            control: self.control.updated(update),
            led_on: self.led_on,
            timer_hz: match update {
                Update::SetFrequency(frequency) => if frequency_in_range(frequency as int) {
                    toggle_rate_of(frequency as int) as u32
                } else {
                    self.timer_hz
                },
                _ => self.timer_hz,
            },
            tick_pending: self.tick_pending,
        }
    }

    /// The blinker once the timer has fired and the handler has not run yet.
    pub open spec fn timer_fired(self) -> Blinker {
        Blinker {
            control: self.control,
            led_on: self.led_on,
            timer_hz: self.timer_hz,
            tick_pending: true,
        }
    }

    /// The blinker after the tick handler has run: the pending flag is
    /// cleared and the output is driven.
    pub open spec fn after_tick(self) -> Blinker {
        Blinker {
            control: self.control,
            led_on: led_action(self.control.enabled).level_after(self.led_on),
            timer_hz: self.timer_hz,
            tick_pending: false,
        }
    }

    /// The blinker after a command line.
    pub open spec fn after_command(self, cmd: Seq<char>, args: Seq<char>) -> Blinker {
        self.after_update(command_outcome(self.control, cmd, args).update)
    }

    /// The blinker after a control key.
    pub open spec fn after_key(self, code: u8) -> Blinker {
        match key_action(self.control, code) {
            KeyAction::Apply(update) => self.after_update(update),
            _ => self,
        }
    }

    /// The blinker after one event.
    pub open spec fn after(self, step: Step) -> Blinker {
        match step {
            Step::Tick => self.timer_fired().after_tick(),
            Step::Line { cmd, args } => self.after_command(cmd, args),
            Step::Key { code } => self.after_key(code),
        }
    }

    /// The blinker after a run of events, the first of `steps` first.
    pub open spec fn run(self, steps: Seq<Step>) -> Blinker
        decreases steps.len(),
    {
        if steps.len() == 0 {
            self
        } else {
            self.run(steps.drop_last()).after(steps.last())
        }
    }

    /// Creates the blinker after boot.
    pub fn init() -> (blinker: Blinker)
        ensures
            blinker == Blinker::booted(),
            blinker.valid(),
    {
        let control = ControlState::new();
        Blinker {
            control,
            led_on: false,
            timer_hz: toggle_rate(control.frequency),
            tick_pending: false,
        }
    }

    /// Records that the timer has fired. The tick handler runs next.
    pub fn raise_tick(&mut self)
        ensures
            *final(self) == old(self).timer_fired(),
            old(self).consistent() ==> final(self).consistent(),
    {
        self.tick_pending = true;
    }

    /// Performs one write to the control state and, with a new frequency,
    /// sets the timer.
    pub fn apply(&mut self, update: Update)
        ensures
            *final(self) == old(self).after_update(update),
            old(self).valid() ==> final(self).valid(),
    {
        self.control.apply(update);
        match update {
            Update::SetFrequency(frequency) => {
                if in_range(frequency) {
                    self.timer_hz = toggle_rate(frequency);
                }
            },
            _ => {},
        }
    }

    /// Handles a timer tick: clears the pending flag, drives the output, and
    /// returns what was done to it.
    pub fn blink_timer_tick(&mut self) -> (action: LedAction)
        ensures
            *final(self) == old(self).after_tick(),
            action == led_action(old(self).control.enabled),
            !final(self).tick_pending,
            old(self).consistent() ==> final(self).valid(),
    {
        self.tick_pending = false;
        let action = blink_timer_tick(self.control.enabled);
        self.led_on = action.drive(self.led_on);
        action
    }

    /// Handles a command line, and returns the answer, which the prompt
    /// follows.
    pub fn command(&mut self, cmd: &str, args: &str) -> (reply: Reply)
        ensures
            *final(self) == old(self).after_command(cmd@, args@),
            reply == command_outcome(old(self).control, cmd@, args@).reply,
            old(self).valid() ==> final(self).valid(),
    {
        let outcome = command(&self.control, cmd, args);
        self.apply(outcome.update);
        outcome.reply
    }

    /// Handles a control key, and returns what it was bound to.
    pub fn control(&mut self, code: u8) -> (action: KeyAction)
        ensures
            *final(self) == old(self).after_key(code),
            action == key_action(old(self).control, code),
            old(self).valid() ==> final(self).valid(),
    {
        let action = control(&self.control, code);
        match action {
            KeyAction::Apply(update) => {
                self.apply(update);
            },
            _ => {},
        }
        action
    }
}

} // verus!
