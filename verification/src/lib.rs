//! Control core of a serial-operated LED blinker.
//!
//! An operator types commands on a serial line; a timer interrupt blinks a
//! light. This library holds what both handlers decide: the dispatch table
//! of the shell, the bindings of the control keys, the translation of a
//! blink frequency into a timer rate, and what a tick does to the output.
//! Reading bytes, editing the line and driving the peripherals is left to
//! the firmware around it.

pub mod decimal;
pub mod engine;
pub mod laws;
pub mod machine;
pub mod shell;
pub mod state;
pub mod text;

pub use crate::engine::LedAction;
pub use crate::machine::Blinker;
pub use crate::shell::{KeyAction, Outcome};
pub use crate::state::{ControlState, Update};
pub use crate::text::Reply;
