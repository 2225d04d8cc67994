//! The command shell: what a command line or a control key does to the
//! control state, and what is answered.

use crate::decimal::{parse_u8, parsed_u8};
use crate::state::{
    frequency_in_range, in_range, ControlState, Update, MAX_FREQUENCY, MIN_FREQUENCY,
};
use crate::text::Reply;
use vstd::prelude::*;
use vstd::string::*;
use vstd::utf8::*;

verus! {

/// Control+C: stops the animation.
pub const CTRL_C: u8 = 0x03;

/// Control+D: starts the animation.
pub const CTRL_D: u8 = 0x04;

/// Control+K: clears the terminal.
pub const CTRL_K: u8 = 0x0b;

/// Control+S: one blink per second more.
pub const CTRL_S: u8 = 0x13;

/// Control+X: one blink per second less.
pub const CTRL_X: u8 = 0x18;

/// Longest command line that the line editor holds, in bytes.
pub const CMD_MAX_LEN: usize = 32;

/// Number of earlier command lines that the line editor recalls.
pub const HISTORY_MAX_LEN: usize = 4;

/// What one command line leads to.
#[derive(Clone, Copy, Debug, PartialEq, Eq, Structural)]
pub struct Outcome {
    /// The write to the control state.
    pub update: Update,
    /// The answer, which the prompt follows.
    pub reply: Reply,
}

/// What one control key leads to. No key is answered with a prompt.
#[derive(Clone, Copy, Debug, PartialEq, Eq, Structural)]
pub enum KeyAction {
    /// The key is not bound, or it changes nothing.
    Ignore,
    /// The terminal is cleared.
    ClearScreen,
    /// The control state is written.
    Apply(Update),
}

/// What `set` does with its argument once it has been read as a number.
pub open spec fn set_outcome(parsed: Option<u8>) -> Outcome {
    match parsed {
        Some(frequency) => if frequency_in_range(frequency as int) {
            Outcome { update: Update::SetFrequency(frequency), reply: Reply::Blank }
        } else {
            Outcome { update: Update::Keep, reply: Reply::UnsupportedFrequency }
        },
        None => Outcome { update: Update::Keep, reply: Reply::UnsupportedFrequency },
    }
}

/// The dispatch table: what the command `cmd` with the argument text `args`
/// leads to in `state`. The argument of `set` is read from its bytes.
pub open spec fn command_outcome(state: ControlState, cmd: Seq<char>, args: Seq<char>) -> Outcome {
    if cmd == "help"@ {
        Outcome { update: Update::Keep, reply: Reply::Help }
    } else if cmd == "clear"@ {
        Outcome { update: Update::Keep, reply: Reply::ClearScreen }
    } else if cmd == "on"@ {
        Outcome { update: Update::SetEnabled(true), reply: Reply::Blank }
    } else if cmd == "off"@ {
        Outcome { update: Update::SetEnabled(false), reply: Reply::Blank }
    } else if cmd == "status"@ {
        Outcome {
            update: Update::Keep,
            reply: Reply::Status { enabled: state.enabled, frequency: state.frequency },
        }
    } else if cmd == "set"@ {
        set_outcome(parsed_u8(encode_utf8(args)))
    } else if cmd == ""@ {
        Outcome { update: Update::Keep, reply: Reply::Blank }
    } else {
        Outcome { update: Update::Keep, reply: Reply::UnsupportedCommand }
    }
}

/// The nearest frequency in range.
pub open spec fn clamp_frequency(frequency: int) -> int {
    if frequency < MIN_FREQUENCY {
        MIN_FREQUENCY as int
    } else if frequency > MAX_FREQUENCY {
        MAX_FREQUENCY as int
    } else {
        frequency
    }
}

/// A step of `delta` blinks per second, which stops at the limits of the
/// range. A step that moves nothing writes nothing.
pub open spec fn frequency_step(state: ControlState, delta: int) -> KeyAction {
    let target = clamp_frequency(state.frequency + delta);
    if target == state.frequency {
        KeyAction::Ignore
    } else {
        KeyAction::Apply(Update::SetFrequency(target as u8))
    }
}

/// The key bindings: what the control code `code` leads to in `state`.
pub open spec fn key_action(state: ControlState, code: u8) -> KeyAction {
    if code == CTRL_K {
        KeyAction::ClearScreen
    } else if code == CTRL_D {
        KeyAction::Apply(Update::SetEnabled(true))
    } else if code == CTRL_C {
        KeyAction::Apply(Update::SetEnabled(false))
    } else if code == CTRL_S {
        frequency_step(state, 1)
    } else if code == CTRL_X {
        frequency_step(state, -1)
    } else {
        KeyAction::Ignore
    }
}

/// What the line editor completes on the tabulator key: the names of the
/// dispatch table, `set` with the blank that its argument follows.
pub fn completions() -> (names: [&'static str; 6])
    ensures
        names[0]@ == "clear"@,
        names[1]@ == "help"@,
        names[2]@ == "off"@,
        names[3]@ == "on"@,
        names[4]@ == "set "@,
        names[5]@ == "status"@,
{
    ["clear", "help", "off", "on", "set ", "status"]
}

/// Whether two texts are the same.
pub fn str_eq(a: &str, b: &str) -> (same: bool)
    ensures
        same == (a@ == b@),
{
    let x = a.as_bytes();
    let y = b.as_bytes();
    if x.len() != y.len() {
        return false;
    }
    let mut i: usize = 0;
    while i < x.len()
        invariant
            x@ == encode_utf8(a@),
            y@ == encode_utf8(b@),
            x.len() == y.len(),
            i <= x.len(),
            forall|j: int| 0 <= j < i ==> x@[j] == y@[j],
        decreases x.len() - i,
    {
        if x[i] != y[i] {
            return false;
        }
        i += 1;
    }
    proof {
        assert(x@ =~= y@);
        encode_utf8_decode_utf8(a@);
        encode_utf8_decode_utf8(b@);
    }
    true
}

/// Decides what `set` does with its argument once it has been read.
pub fn decide_set(parsed: Option<u8>) -> (out: Outcome)
    ensures
        out == set_outcome(parsed),
        out.update.valid(),
{
    match parsed {
        Some(frequency) => {
            if in_range(frequency) {
                Outcome { update: Update::SetFrequency(frequency), reply: Reply::Blank }
            } else {
                Outcome { update: Update::Keep, reply: Reply::UnsupportedFrequency }
            }
        },
        None => Outcome { update: Update::Keep, reply: Reply::UnsupportedFrequency },
    }
}

/// Looks a command line up in the dispatch table.
///
/// The state is only read. The caller performs the update and writes the
/// answer, followed by the prompt.
pub fn command(state: &ControlState, cmd: &str, args: &str) -> (out: Outcome)
    ensures
        out == command_outcome(*state, cmd@, args@),
        out.update.valid(),
{
    if str_eq(cmd, "help") {
        Outcome { update: Update::Keep, reply: Reply::Help }
    } else if str_eq(cmd, "clear") {
        Outcome { update: Update::Keep, reply: Reply::ClearScreen }
    } else if str_eq(cmd, "on") {
        Outcome { update: Update::SetEnabled(true), reply: Reply::Blank }
    } else if str_eq(cmd, "off") {
        Outcome { update: Update::SetEnabled(false), reply: Reply::Blank }
    } else if str_eq(cmd, "status") {
        Outcome {
            update: Update::Keep,
            reply: Reply::Status { enabled: state.enabled, frequency: state.frequency },
        }
    } else if str_eq(cmd, "set") {
        decide_set(parse_u8(args.as_bytes()))
    } else if str_eq(cmd, "") {
        Outcome { update: Update::Keep, reply: Reply::Blank }
    } else {
        Outcome { update: Update::Keep, reply: Reply::UnsupportedCommand }
    }
}

/// Moves the frequency one step up or down, within the range.
fn step_frequency(state: &ControlState, up: bool) -> (action: KeyAction)
    ensures
        action == frequency_step(*state, if up { 1int } else { -1int }),
{
    let f = state.frequency;
    let target: u8 = if up {
        if f >= MAX_FREQUENCY {
            MAX_FREQUENCY
        } else {
            f + 1
        }
    } else {
        if f <= MIN_FREQUENCY {
            MIN_FREQUENCY
        } else if f > MAX_FREQUENCY + 1 {
            MAX_FREQUENCY
        } else {
            f - 1
        }
    };
    if target == f {
        KeyAction::Ignore
    } else {
        KeyAction::Apply(Update::SetFrequency(target))
    }
}

/// Looks a control code up in the key bindings.
///
/// The state is only read. The caller performs the action; nothing is
/// answered.
pub fn control(state: &ControlState, code: u8) -> (action: KeyAction)
    ensures
        action == key_action(*state, code),
        action matches KeyAction::Apply(update) ==> update.valid(),
{
    if code == CTRL_K {
        KeyAction::ClearScreen
    } else if code == CTRL_D {
        KeyAction::Apply(Update::SetEnabled(true))
    } else if code == CTRL_C {
        KeyAction::Apply(Update::SetEnabled(false))
    } else if code == CTRL_S {
        step_frequency(state, true)
    } else if code == CTRL_X {
        step_frequency(state, false)
    } else {
        KeyAction::Ignore
    }
}

} // verus!
