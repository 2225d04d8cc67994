//! Laws of the blinker that hold of every state and every input.

use crate::decimal::{decimal_text, lemma_decimal_round_trip, parsed_u8};
use crate::machine::{Blinker, Step};
use crate::shell::{command_outcome, CTRL_C, CTRL_D, CTRL_S, CTRL_X};
use crate::state::{frequency_in_range, ControlState, Update, MAX_FREQUENCY, MIN_FREQUENCY};
use crate::text::{status_text, Reply};
use vstd::prelude::*;
use vstd::utf8::*;

verus! {

/// The command line `set` with the decimal text of `frequency`.
pub open spec fn set_line(frequency: u8) -> Step {
    Step::Line { cmd: "set"@, args: decimal_text(frequency as nat) }
}

/// The same event `count` times over.
pub open spec fn repeated(step: Step, count: nat) -> Seq<Step> {
    Seq::new(count, |i: int| step)
}

/// The names in the dispatch table differ from one another.
proof fn lemma_command_names()
    ensures
        "help"@.len() == 4,
        "clear"@.len() == 5,
        "on"@.len() == 2,
        "off"@.len() == 3,
        "off"@[0] == 'o',
        "status"@.len() == 6,
        "set"@.len() == 3,
        "set"@[0] == 's',
        ""@.len() == 0,
{
    reveal_strlit("help");
    reveal_strlit("clear");
    reveal_strlit("on");
    reveal_strlit("off");
    reveal_strlit("status");
    reveal_strlit("set");
    reveal_strlit("");
}

/// Every event leaves a valid blinker valid: the frequency stays within
/// `1..=100`, and the timer fires twice per blink.
pub proof fn law_step_keeps_valid(m: Blinker, step: Step)
    requires
        m.valid(),
    ensures
        m.after(step).valid(),
{
}

/// Every state that a run of events reaches from a valid blinker is valid,
/// so a tick at any point of the run reads a frequency within `1..=100` and
/// finds the timer at twice that rate.
pub proof fn law_run_keeps_valid(m: Blinker, steps: Seq<Step>)
    requires
        m.valid(),
    ensures
        m.run(steps).valid(),
    decreases steps.len(),
{
    if steps.len() > 0 {
        law_run_keeps_valid(m, steps.drop_last());
        law_step_keeps_valid(m.run(steps.drop_last()), steps.last());
    }
}

/// The blinker after boot is valid: the animation is off, the frequency is
/// two blinks per second, and the timer fires four times per second.
pub proof fn law_boot_is_valid()
    ensures
        Blinker::booted().valid(),
        !Blinker::booted().control.enabled,
        Blinker::booted().control.frequency == 2,
        Blinker::booted().timer_hz == 4,
{
}

/// For every frequency within `1..=100`, `set` with its decimal text is
/// accepted in every state, and a `status` that follows reports exactly that
/// frequency, whatever its own argument, and changes nothing.
pub proof fn law_set_then_status(m: Blinker, frequency: u8, status_args: Seq<char>)
    requires
        frequency_in_range(frequency as int),
    ensures
        ({
            let args = decimal_text(frequency as nat);
            let after = m.after_command("set"@, args);
            let status = command_outcome(after.control, "status"@, status_args);
            &&& command_outcome(m.control, "set"@, args).reply == Reply::Blank
            &&& after.control.frequency == frequency
            &&& after.control.enabled == m.control.enabled
            &&& after.timer_hz == 2 * frequency
            &&& after.led_on == m.led_on
            &&& status.reply == Reply::Status { enabled: m.control.enabled, frequency }
            &&& status.reply.text() == status_text(m.control.enabled, frequency)
            &&& after.after_command("status"@, status_args) == after
        }),
{
    lemma_command_names();
    lemma_decimal_round_trip(frequency as nat);
}

/// After any run of events that ends with `set` and the decimal text of a
/// frequency within `1..=100`, a `status` that follows at once reports that
/// frequency: the last `set` wins.
pub proof fn law_last_set_wins(m: Blinker, steps: Seq<Step>, frequency: u8, status_args: Seq<char>)
    requires
        frequency_in_range(frequency as int),
    ensures
        ({
            let after = m.run(steps.push(set_line(frequency)));
            let status = command_outcome(after.control, "status"@, status_args);
            &&& after.control.frequency == frequency
            &&& after.timer_hz == 2 * frequency
            &&& status.reply == Reply::Status { enabled: after.control.enabled, frequency }
        }),
{
    let all = steps.push(set_line(frequency));
    assert(all.drop_last() =~= steps);
    assert(all.last() == set_line(frequency));
    law_set_then_status(m.run(steps), frequency, status_args);
}

/// A `set` whose argument is no numeral, or a numeral outside `1..=100`, is
/// answered with "unsupported frequency" and changes nothing.
pub proof fn law_rejected_set_changes_nothing(m: Blinker, args: Seq<char>)
    requires
        match parsed_u8(encode_utf8(args)) {
            Some(frequency) => !frequency_in_range(frequency as int),
            None => true,
        },
    ensures
        command_outcome(m.control, "set"@, args).reply == Reply::UnsupportedFrequency,
        command_outcome(m.control, "set"@, args).reply.text() == "\r\nunsupported frequency\r\n"@,
        m.after_command("set"@, args) == m,
{
    lemma_command_names();
}

/// A `set` is accepted exactly if its argument reads as a number within
/// `1..=100`; the frequency is then that number.
pub proof fn law_set_accepts_exactly_the_range(m: Blinker, args: Seq<char>)
    ensures
        ({
            let outcome = command_outcome(m.control, "set"@, args);
            let parsed = parsed_u8(encode_utf8(args));
            &&& outcome.reply == Reply::Blank || outcome.reply == Reply::UnsupportedFrequency
            &&& outcome.reply == Reply::Blank <==> (parsed matches Some(f) && frequency_in_range(
                f as int,
            ))
            &&& outcome.reply == Reply::Blank ==> outcome.update == Update::SetFrequency(
                parsed->0,
            )
        }),
{
    lemma_command_names();
}

/// Control+S adds one blink per second and Control+X takes one away, but
/// neither leaves the range: at 100 Control+S changes nothing, and at 1
/// Control+X changes nothing.
pub proof fn law_frequency_keys_stop_at_limits(m: Blinker)
    requires
        m.valid(),
    ensures
        m.control.frequency < MAX_FREQUENCY ==> m.after_key(CTRL_S).control.frequency
            == m.control.frequency + 1,
        m.control.frequency == MAX_FREQUENCY ==> m.after_key(CTRL_S) == m,
        m.control.frequency > MIN_FREQUENCY ==> m.after_key(CTRL_X).control.frequency
            == m.control.frequency - 1,
        m.control.frequency == MIN_FREQUENCY ==> m.after_key(CTRL_X) == m,
        m.after_key(CTRL_S).valid(),
        m.after_key(CTRL_X).valid(),
        m.after_key(CTRL_S).control.enabled == m.control.enabled,
        m.after_key(CTRL_X).control.enabled == m.control.enabled,
{
}

/// `on` and Control+D enable the animation, `off` and Control+C disable it,
/// and a `status` that follows says so; none of them touches the frequency.
pub proof fn law_switch_then_status(m: Blinker, args: Seq<char>, status_args: Seq<char>)
    ensures
        ({
            let on = m.after_command("on"@, args);
            let off = m.after_command("off"@, args);
            &&& on.control.enabled
            &&& !off.control.enabled
            &&& on.control.frequency == m.control.frequency
            &&& off.control.frequency == m.control.frequency
            &&& m.after_key(CTRL_D) == on
            &&& m.after_key(CTRL_C) == off
            &&& command_outcome(on.control, "status"@, status_args).reply == Reply::Status {
                enabled: true,
                frequency: m.control.frequency,
            }
            &&& command_outcome(off.control, "status"@, status_args).reply == Reply::Status {
                enabled: false,
                frequency: m.control.frequency,
            }
        }),
{
    lemma_command_names();
}

/// Repeating a command line leaves the state that one such line leaves:
/// every command is idempotent, `on` and `off` among them.
pub proof fn law_command_is_idempotent(m: Blinker, cmd: Seq<char>, args: Seq<char>, count: nat)
    requires
        count >= 1,
    ensures
        m.run(repeated(Step::Line { cmd, args }, count)) == m.after_command(cmd, args),
    decreases count,
{
    let step = Step::Line { cmd, args };
    let steps = repeated(step, count);
    assert(steps.last() == step);
    if count == 1 {
        assert(steps.drop_last() =~= Seq::<Step>::empty());
        assert(m.run(steps.drop_last()) == m);
    } else {
        assert(steps.drop_last() =~= repeated(step, (count - 1) as nat));
        law_command_is_idempotent(m, cmd, args, (count - 1) as nat);
    }
}

/// Repeating Control+D, or Control+C, leaves the state that one such key
/// leaves.
pub proof fn law_switch_key_is_idempotent(m: Blinker, code: u8, count: nat)
    requires
        code == CTRL_D || code == CTRL_C,
        count >= 1,
    ensures
        m.run(repeated(Step::Key { code }, count)) == m.after_key(code),
    decreases count,
{
    let step = Step::Key { code };
    let steps = repeated(step, count);
    assert(steps.last() == step);
    if count == 1 {
        assert(steps.drop_last() =~= Seq::<Step>::empty());
        assert(m.run(steps.drop_last()) == m);
    } else {
        assert(steps.drop_last() =~= repeated(step, (count - 1) as nat));
        law_switch_key_is_idempotent(m, code, (count - 1) as nat);
    }
}

/// Every name that the line editor completes is a name of the dispatch
/// table: none of them is answered with "unsupported command".
pub proof fn law_completions_are_commands(state: ControlState, args: Seq<char>)
    ensures
        command_outcome(state, "clear"@, args).reply == Reply::ClearScreen,
        command_outcome(state, "help"@, args).reply == Reply::Help,
        command_outcome(state, "off"@, args).reply == Reply::Blank,
        command_outcome(state, "on"@, args).reply == Reply::Blank,
        command_outcome(state, "set"@, args).reply != Reply::UnsupportedCommand,
        command_outcome(state, "status"@, args).reply == (Reply::Status {
            enabled: state.enabled,
            frequency: state.frequency,
        }),
        "set "@ == "set"@.push(' '),
{
    lemma_command_names();
    reveal_strlit("set ");
    reveal_strlit("set");
    assert("set "@ =~= "set"@.push(' '));
}

/// A tick reads the control state and never writes it, and it leaves the
/// rate of the timer alone. It toggles the output while the animation is
/// enabled and forces it inactive otherwise, and it leaves no tick pending.
pub proof fn law_tick_writes_no_control_state(m: Blinker)
    ensures
        m.after(Step::Tick).control == m.control,
        m.after(Step::Tick).timer_hz == m.timer_hz,
        m.control.enabled ==> m.after(Step::Tick).led_on == !m.led_on,
        !m.control.enabled ==> !m.after(Step::Tick).led_on,
        !m.after(Step::Tick).tick_pending,
{
}

/// A tick that falls before a write of the frequency and a tick that falls
/// after it leave the same blinker: the tick sees the old frequency or the
/// new one, both within the range in a valid blinker, and nothing between.
pub proof fn law_tick_commutes_with_frequency_write(m: Blinker, frequency: u8)
    requires
        m.valid(),
        frequency_in_range(frequency as int),
    ensures
        m.after_tick().after_update(Update::SetFrequency(frequency)) == m.after_update(
            Update::SetFrequency(frequency),
        ).after_tick(),
        m.after_tick().valid(),
        m.after_update(Update::SetFrequency(frequency)).valid(),
        m.after_update(Update::SetFrequency(frequency)).control.frequency == frequency,
        m.after_update(Update::SetFrequency(frequency)).timer_hz == 2 * frequency,
{
}

} // verus!
