use blinky_shell::engine::blink_timer_tick;
use blinky_shell::shell::{control, CTRL_C, CTRL_D, CTRL_K, CTRL_S, CTRL_X};
use blinky_shell::state::{toggle_rate, ControlState, Update};
use blinky_shell::{Blinker, KeyAction, LedAction};

fn with_frequency(frequency: u8) -> Blinker {
    let mut m = Blinker::init();
    m.apply(Update::SetFrequency(frequency));
    m
}

#[test]
fn control_d_starts_and_control_c_stops() {
    let mut m = Blinker::init();
    assert_eq!(m.control(CTRL_D), KeyAction::Apply(Update::SetEnabled(true)));
    assert!(m.control.enabled);
    assert_eq!(m.control(CTRL_D), KeyAction::Apply(Update::SetEnabled(true)));
    assert!(m.control.enabled);
    assert_eq!(m.control(CTRL_C), KeyAction::Apply(Update::SetEnabled(false)));
    assert!(!m.control.enabled);
    assert_eq!(m.control.frequency, 2);
    assert_eq!(m.timer_hz, 4);
}

#[test]
fn control_s_raises_the_frequency_by_one() {
    let mut m = Blinker::init();
    assert_eq!(m.control(CTRL_S), KeyAction::Apply(Update::SetFrequency(3)));
    assert_eq!(m.control.frequency, 3);
    assert_eq!(m.timer_hz, 6);
    let mut m = with_frequency(99);
    assert_eq!(m.control(CTRL_S), KeyAction::Apply(Update::SetFrequency(100)));
    assert_eq!(m.control.frequency, 100);
    assert_eq!(m.timer_hz, 200);
}

#[test]
fn control_s_at_the_maximum_changes_nothing() {
    let mut m = with_frequency(100);
    let before = m;
    assert_eq!(m.control(CTRL_S), KeyAction::Ignore);
    assert_eq!(m, before);
    assert_eq!(m.control.frequency, 100);
    assert_eq!(m.timer_hz, 200);
}

#[test]
fn control_x_lowers_the_frequency_by_one() {
    let mut m = Blinker::init();
    assert_eq!(m.control(CTRL_X), KeyAction::Apply(Update::SetFrequency(1)));
    assert_eq!(m.control.frequency, 1);
    assert_eq!(m.timer_hz, 2);
    let mut m = with_frequency(100);
    assert_eq!(m.control(CTRL_X), KeyAction::Apply(Update::SetFrequency(99)));
    assert_eq!(m.timer_hz, 198);
}

#[test]
fn control_x_at_the_minimum_changes_nothing() {
    let mut m = with_frequency(1);
    let before = m;
    assert_eq!(m.control(CTRL_X), KeyAction::Ignore);
    assert_eq!(m, before);
    assert_eq!(m.control.frequency, 1);
    assert_eq!(m.timer_hz, 2);
}

#[test]
fn frequency_keys_walk_the_whole_range_and_stop() {
    let mut m = with_frequency(1);
    for expected in 2..=100u8 {
        m.control(CTRL_S);
        assert_eq!(m.control.frequency, expected);
        assert_eq!(m.timer_hz, 2 * expected as u32);
    }
    m.control(CTRL_S);
    assert_eq!(m.control.frequency, 100);
    for expected in (1..=99u8).rev() {
        m.control(CTRL_X);
        assert_eq!(m.control.frequency, expected);
    }
    m.control(CTRL_X);
    assert_eq!(m.control.frequency, 1);
}

#[test]
fn control_k_clears_the_screen_and_changes_nothing() {
    let mut m = Blinker::init();
    assert_eq!(m.control(CTRL_K), KeyAction::ClearScreen);
    assert_eq!(m, Blinker::init());
}

#[test]
fn unbound_codes_are_ignored() {
    let state = ControlState::new();
    for code in 0..=255u8 {
        if [CTRL_C, CTRL_D, CTRL_K, CTRL_S, CTRL_X].contains(&code) {
            continue;
        }
        assert_eq!(control(&state, code), KeyAction::Ignore);
    }
}

#[test]
fn frequency_steps_repair_a_frequency_out_of_range() {
    let low = ControlState { enabled: false, frequency: 0 };
    assert_eq!(control(&low, CTRL_S), KeyAction::Apply(Update::SetFrequency(1)));
    assert_eq!(control(&low, CTRL_X), KeyAction::Apply(Update::SetFrequency(1)));
    let high = ControlState { enabled: false, frequency: 200 };
    assert_eq!(control(&high, CTRL_S), KeyAction::Apply(Update::SetFrequency(100)));
    assert_eq!(control(&high, CTRL_X), KeyAction::Apply(Update::SetFrequency(100)));
    let edge = ControlState { enabled: false, frequency: 101 };
    assert_eq!(control(&edge, CTRL_X), KeyAction::Apply(Update::SetFrequency(100)));
}

#[test]
fn toggle_rate_is_twice_the_frequency() {
    assert_eq!(toggle_rate(1), 2);
    assert_eq!(toggle_rate(2), 4);
    assert_eq!(toggle_rate(10), 20);
    assert_eq!(toggle_rate(100), 200);
    assert_eq!(ControlState { enabled: true, frequency: 50 }.timer_rate(), 100);
}

#[test]
fn from_parts_accepts_exactly_the_range() {
    assert_eq!(ControlState::from_parts(true, 0), None);
    assert_eq!(
        ControlState::from_parts(true, 1),
        Some(ControlState { enabled: true, frequency: 1 })
    );
    assert_eq!(
        ControlState::from_parts(false, 100),
        Some(ControlState { enabled: false, frequency: 100 })
    );
    assert_eq!(ControlState::from_parts(false, 101), None);
    assert_eq!(ControlState::from_parts(false, 255), None);
}

#[test]
fn apply_writes_one_field_and_skips_a_frequency_out_of_range() {
    let mut state = ControlState::new();
    assert!(!state.apply(Update::Keep));
    assert!(state.apply(Update::SetEnabled(true)));
    assert!(!state.apply(Update::SetEnabled(true)));
    assert_eq!(state, ControlState { enabled: true, frequency: 2 });
    assert!(state.apply(Update::SetFrequency(60)));
    assert!(!state.apply(Update::SetFrequency(60)));
    assert_eq!(state, ControlState { enabled: true, frequency: 60 });
    assert!(!state.apply(Update::SetFrequency(0)));
    assert!(!state.apply(Update::SetFrequency(101)));
    assert_eq!(state, ControlState { enabled: true, frequency: 60 });
    let mut m = Blinker::init();
    m.apply(Update::SetFrequency(0));
    m.apply(Update::SetFrequency(101));
    assert_eq!(m, Blinker::init());
}

#[test]
fn tick_toggles_while_enabled() {
    let mut m = Blinker::init();
    m.command("on", "");
    assert_eq!(m.blink_timer_tick(), LedAction::Toggle);
    assert!(m.led_on);
    assert_eq!(m.blink_timer_tick(), LedAction::Toggle);
    assert!(!m.led_on);
    assert_eq!(m.blink_timer_tick(), LedAction::Toggle);
    assert!(m.led_on);
}

#[test]
fn tick_forces_the_output_low_while_disabled() {
    let mut m = Blinker::init();
    assert_eq!(m.blink_timer_tick(), LedAction::ForceLow);
    assert!(!m.led_on);
    m.command("on", "");
    m.blink_timer_tick();
    assert!(m.led_on);
    m.command("off", "");
    assert!(m.led_on);
    assert_eq!(m.blink_timer_tick(), LedAction::ForceLow);
    assert!(!m.led_on);
    assert_eq!(m.blink_timer_tick(), LedAction::ForceLow);
    assert!(!m.led_on);
}

#[test]
fn tick_clears_the_pending_flag() {
    let mut m = Blinker::init();
    m.raise_tick();
    assert!(m.tick_pending);
    m.blink_timer_tick();
    assert!(!m.tick_pending);
    m.command("on", "");
    m.raise_tick();
    m.blink_timer_tick();
    assert!(!m.tick_pending);
}

#[test]
fn tick_reads_the_state_and_writes_none_of_it() {
    assert_eq!(blink_timer_tick(true), LedAction::Toggle);
    assert_eq!(blink_timer_tick(false), LedAction::ForceLow);
    let mut m = Blinker::init();
    m.command("set", "9");
    let control = m.control;
    m.blink_timer_tick();
    assert_eq!(m.control, control);
    assert_eq!(m.timer_hz, 18);
}

#[test]
fn led_actions_drive_the_level() {
    assert!(LedAction::Toggle.drive(false));
    assert!(!LedAction::Toggle.drive(true));
    assert!(!LedAction::ForceLow.drive(false));
    assert!(!LedAction::ForceLow.drive(true));
}

#[test]
fn a_tick_between_any_two_steps_sees_a_whole_frequency() {
    let lines: [(&str, &str); 8] = [
        ("set", "10"),
        ("on", ""),
        ("set", "100"),
        ("set", "0"),
        ("status", ""),
        ("set", "1"),
        ("off", ""),
        ("set", "55"),
    ];
    for ticks_at in 0..=lines.len() {
        let mut m = Blinker::init();
        let mut seen = vec![2u8];
        for (i, (cmd, args)) in lines.iter().enumerate() {
            if i == ticks_at {
                let before = m.control;
                m.raise_tick();
                m.blink_timer_tick();
                assert_eq!(m.control, before);
                assert!(seen.contains(&m.control.frequency));
                assert_eq!(m.timer_hz, 2 * m.control.frequency as u32);
            }
            m.command(cmd, args);
            seen.push(m.control.frequency);
            assert!((1..=100).contains(&m.control.frequency));
            assert_eq!(m.timer_hz, 2 * m.control.frequency as u32);
        }
        assert_eq!(m.control, ControlState { enabled: false, frequency: 55 });
        assert_eq!(m.timer_hz, 110);
    }
}

#[test]
fn a_tick_before_or_after_a_set_leaves_the_same_blinker() {
    for enabled in [false, true] {
        for frequency in [1u8, 2, 50, 100] {
            let mut first = Blinker::init();
            first.apply(Update::SetEnabled(enabled));
            let mut second = first;
            first.raise_tick();
            first.blink_timer_tick();
            first.command("set", &frequency.to_string());
            second.command("set", &frequency.to_string());
            second.raise_tick();
            second.blink_timer_tick();
            assert_eq!(first, second);
            assert_eq!(first.control.frequency, frequency);
            assert_eq!(first.timer_hz, 2 * frequency as u32);
        }
    }
}
