//! What the shell writes back over the serial line.

use crate::decimal::{decimal_text, push_decimal};
use vstd::prelude::*;
use vstd::string::*;

verus! {

/// Line ending of every answer.
pub const CRLF: &'static str = "\r\n";

/// The prompt that ends the answer to every command line.
pub const PROMPT: &'static str = "#> ";

/// Moves the cursor home and erases the display.
pub const CLEAR_SCREEN: &'static str = "\x1b[H\x1b[2J";

/// The banner and the table of commands.
pub const HELP: &'static str = "\r\n\
\x1b[31mL\x1b[32mE\x1b[34mD \x1b[33mBlinky Shell \x1b[0mv.1\r\n\r\n\
USAGE:\r\n\
\tcommand [arg]\r\n\r\n\
COMMANDS:\r\n\
\ton        Start animation\r\n\
\toff       Stop animation\r\n\
\tstatus    Get animation status\r\n\
\tset <Hz>  Set animation frequency in Hertz [1-100]\r\n\
\tclear     Clear screen\r\n\
\thelp      Print this message\r\n\r\n\n\
CONTROL KEYS:\r\n\
\tCtrl+D    Start animation\r\n\
\tCtrl+C    Stop animation\r\n\
";

/// The answer to one command line, before it is put into words.
#[derive(Clone, Copy, Debug, PartialEq, Eq, Structural)]
pub enum Reply {
    /// The help text.
    Help,
    /// The terminal is cleared.
    ClearScreen,
    /// An empty line: the command was carried out, or there was none.
    Blank,
    /// The state of the animation, as it was when the command was read.
    Status { enabled: bool, frequency: u8 },
    /// The argument of `set` is no frequency in range.
    UnsupportedFrequency,
    /// The command is not in the table.
    UnsupportedCommand,
}

/// How the state of the animation is named.
pub open spec fn on_off(enabled: bool) -> Seq<char> {
    if enabled {
        "On"@
    } else {
        "Off"@
    }
}

/// The status report for a state.
pub open spec fn status_text(enabled: bool, frequency: u8) -> Seq<char> {
    "\r\nAnimation: "@ + on_off(enabled) + "\r\nFrequency: "@ + decimal_text(frequency as nat)
        + "Hz\r\n"@
}

impl Reply {
    /// The words of the answer.
    pub open spec fn text(self) -> Seq<char> {
        match self {
            Reply::Help => HELP@,
            Reply::ClearScreen => CLEAR_SCREEN@,
            Reply::Blank => CRLF@,
            Reply::Status { enabled, frequency } => status_text(enabled, frequency),
            Reply::UnsupportedFrequency => "\r\nunsupported frequency\r\n"@,
            Reply::UnsupportedCommand => "\r\nunsupported command\r\n"@,
        }
    }

    /// The whole answer: the words, then the prompt.
    pub open spec fn response(self) -> Seq<char> {
        self.text() + PROMPT@
    }

    /// Puts the answer into words.
    pub fn render(&self) -> (out: String)
        ensures
            out@ == self.text(),
    {
        match self {
            Reply::Help => String::from_str(HELP),
            Reply::ClearScreen => String::from_str(CLEAR_SCREEN),
            Reply::Blank => String::from_str(CRLF),
            Reply::Status { enabled, frequency } => {
                let mut out = String::from_str("\r\nAnimation: ");
                if *enabled {
                    out.append("On");
                } else {
                    out.append("Off");
                }
                out.append("\r\nFrequency: ");
                push_decimal(&mut out, *frequency);
                out.append("Hz\r\n");
                out
            },
            Reply::UnsupportedFrequency => String::from_str("\r\nunsupported frequency\r\n"),
            Reply::UnsupportedCommand => String::from_str("\r\nunsupported command\r\n"),
        }
    }

    /// Puts the answer into words and adds the prompt.
    pub fn render_response(&self) -> (out: String)
        ensures
            out@ == self.response(),
    {
        let mut out = self.render();
        out.append(PROMPT);
        out
    }
}

} // verus!
