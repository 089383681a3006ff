use ticktock::control::{init, Action, Bringup, Event, InitError, Local};
use ticktock::pin::PinLevel;
use ticktock::serial::{Message, BAUD_RATE};
use ticktock::timer::PERIOD;

fn all_ok() -> Bringup {
    Bringup { clocks: true, pins: true, serial: true, timer: true }
}

fn started() -> Local {
    match init(all_ok()) {
        Ok(local) => local,
        Err(fault) => panic!("initialization failed: {:?}", fault),
    }
}

/// Runs one whole invocation of the handler and returns the text written.
fn invoke(local: &mut Local, sent: bool) -> &'static str {
    let text = match local.step(Event::TimerExpired) {
        Action::Emit { level, line } => {
            assert_eq!(level, local.led().level());
            line.as_str()
        }
        other => panic!("the handler was not entered: {:?}", other),
    };
    let report = if sent { Event::LineSent } else { Event::LineDropped };
    assert_eq!(local.step(report), Action::Acknowledge);
    text
}

#[test]
fn init_leaves_the_fixed_configuration() {
    let local = started();
    assert_eq!(local.led().level(), PinLevel::Low);
    assert!(local.led().is_low());
    assert!(!local.led().is_high());
    assert_eq!(local.uart().baud(), 115_200);
    assert_eq!(local.uart().in_flight(), None);
    assert_eq!(local.timer().period(), 500);
    assert!(local.timer().is_counting());
    assert!(local.timer().is_listening());
    assert!(!local.timer().is_pending());
    assert!(!local.in_handler());
}

#[test]
fn the_constants_are_the_documented_ones() {
    assert_eq!(PERIOD, 500);
    assert_eq!(BAUD_RATE, 115_200);
}

#[test]
fn three_expiries_from_low_give_tick_tock_tick() {
    let mut local = started();
    assert_eq!(local.led().level(), PinLevel::Low);
    let mut written = Vec::new();
    for _ in 0..3 {
        written.push(invoke(&mut local, true));
    }
    assert_eq!(written, vec!["tick\r\n", "tock\r\n", "tick\r\n"]);
    assert_eq!(local.led().level(), PinLevel::High);
    assert!(local.led().is_high());
}

#[test]
fn failed_timer_setup_halts_before_the_loop_starts() {
    let report = Bringup { clocks: true, pins: true, serial: true, timer: false };
    match init(report) {
        Err(fault) => assert_eq!(fault, InitError::Timer),
        Ok(_) => panic!("the loop started on a timer that was not configured"),
    }
}

#[test]
fn each_failed_step_is_reported() {
    let clocks = Bringup { clocks: false, ..all_ok() };
    let pins = Bringup { pins: false, ..all_ok() };
    let serial = Bringup { serial: false, ..all_ok() };
    let timer = Bringup { timer: false, ..all_ok() };
    assert_eq!(init(clocks).err(), Some(InitError::Clocks));
    assert_eq!(init(pins).err(), Some(InitError::Pins));
    assert_eq!(init(serial).err(), Some(InitError::Serial));
    assert_eq!(init(timer).err(), Some(InitError::Timer));
    assert!(init(all_ok()).is_ok());
}

#[test]
fn the_first_failed_step_wins() {
    let nothing = Bringup { clocks: false, pins: false, serial: false, timer: false };
    assert_eq!(init(nothing).err(), Some(InitError::Clocks));
    let no_pins = Bringup { clocks: true, pins: false, serial: false, timer: false };
    assert_eq!(init(no_pins).err(), Some(InitError::Pins));
    let no_serial = Bringup { clocks: true, pins: true, serial: false, timer: false };
    assert_eq!(init(no_serial).err(), Some(InitError::Serial));
}

#[test]
fn level_is_high_after_odd_and_low_after_even_counts() {
    let mut local = started();
    for k in 1..=20u32 {
        invoke(&mut local, k % 3 != 0);
        let expected = if k % 2 == 1 { PinLevel::High } else { PinLevel::Low };
        assert_eq!(local.led().level(), expected, "after invocation {}", k);
    }
}

#[test]
fn the_line_written_names_the_new_level() {
    let mut local = started();
    for _ in 0..6 {
        match local.step(Event::TimerExpired) {
            Action::Emit { level, line } => {
                assert_eq!(level, local.led().level());
                assert_eq!(line == Message::Tick, level == PinLevel::High);
                assert_eq!(line == Message::Tock, level == PinLevel::Low);
                assert_eq!(local.uart().in_flight(), Some(line));
            }
            other => panic!("the handler was not entered: {:?}", other),
        }
        assert_eq!(local.step(Event::LineSent), Action::Acknowledge);
    }
}

#[test]
fn first_step_asks_for_high_and_tick() {
    let mut local = started();
    assert_eq!(
        local.step(Event::TimerExpired),
        Action::Emit { level: PinLevel::High, line: Message::Tick }
    );
    assert!(local.in_handler());
    assert!(local.timer().is_pending());
}

#[test]
fn pending_flag_is_cleared_when_the_line_was_sent() {
    let mut local = started();
    local.step(Event::TimerExpired);
    assert!(local.timer().is_pending());
    assert_eq!(local.step(Event::LineSent), Action::Acknowledge);
    assert!(!local.timer().is_pending());
    assert!(!local.in_handler());
    assert_eq!(local.uart().in_flight(), None);
}

#[test]
fn pending_flag_is_cleared_when_the_line_was_dropped() {
    let mut local = started();
    local.step(Event::TimerExpired);
    assert!(local.timer().is_pending());
    assert_eq!(local.step(Event::LineDropped), Action::Acknowledge);
    assert!(!local.timer().is_pending());
    assert!(!local.in_handler());
    assert_eq!(local.uart().in_flight(), None);
}

#[test]
fn a_dropped_line_does_not_hold_up_the_next_toggle() {
    let mut local = started();
    assert_eq!(invoke(&mut local, false), "tick\r\n");
    assert_eq!(invoke(&mut local, false), "tock\r\n");
    assert_eq!(invoke(&mut local, true), "tick\r\n");
    assert_eq!(local.led().level(), PinLevel::High);
}

#[test]
fn an_expiry_inside_the_handler_does_not_enter_it_again() {
    let mut local = started();
    assert_eq!(
        local.step(Event::TimerExpired),
        Action::Emit { level: PinLevel::High, line: Message::Tick }
    );
    for _ in 0..4 {
        assert_eq!(local.step(Event::TimerExpired), Action::Nothing);
        assert_eq!(local.led().level(), PinLevel::High);
        assert_eq!(local.uart().in_flight(), Some(Message::Tick));
        assert!(local.in_handler());
        assert!(local.timer().is_pending());
    }
    assert_eq!(local.step(Event::LineSent), Action::Acknowledge);
    assert!(!local.timer().is_pending());
    assert_eq!(
        local.step(Event::TimerExpired),
        Action::Emit { level: PinLevel::Low, line: Message::Tock }
    );
}

#[test]
fn idle_changes_nothing_outside_the_handler() {
    let mut local = started();
    invoke(&mut local, true);
    for _ in 0..5 {
        assert_eq!(local.step(Event::IdleCycle), Action::Nothing);
        assert_eq!(local.led().level(), PinLevel::High);
        assert_eq!(local.uart().in_flight(), None);
        assert_eq!(local.uart().baud(), 115_200);
        assert_eq!(local.timer().period(), 500);
        assert!(local.timer().is_counting());
        assert!(local.timer().is_listening());
        assert!(!local.timer().is_pending());
    }
    assert_eq!(invoke(&mut local, true), "tock\r\n");
}

#[test]
fn idle_does_not_clear_a_pending_flag() {
    let mut local = started();
    local.step(Event::TimerExpired);
    assert_eq!(local.step(Event::IdleCycle), Action::Nothing);
    assert!(local.timer().is_pending());
    assert!(local.in_handler());
    assert_eq!(local.led().level(), PinLevel::High);
    assert_eq!(local.uart().in_flight(), Some(Message::Tick));
}

#[test]
fn a_report_outside_the_handler_is_ignored() {
    let mut local = started();
    assert_eq!(local.step(Event::LineSent), Action::Nothing);
    assert_eq!(local.step(Event::LineDropped), Action::Nothing);
    assert_eq!(local.led().level(), PinLevel::Low);
    assert!(!local.timer().is_pending());
    assert_eq!(invoke(&mut local, true), "tick\r\n");
}

#[test]
fn two_invocations_bring_every_peripheral_back() {
    let mut local = started();
    invoke(&mut local, true);
    invoke(&mut local, false);
    assert_eq!(local.led().level(), PinLevel::Low);
    assert_eq!(local.uart().in_flight(), None);
    assert_eq!(local.uart().baud(), 115_200);
    assert_eq!(local.timer().period(), 500);
    assert!(local.timer().is_counting());
    assert!(local.timer().is_listening());
    assert!(!local.timer().is_pending());
}

#[test]
fn in_any_order_of_events_invocations_do_not_overlap() {
    let events = [
        Event::IdleCycle,
        Event::LineSent,
        Event::TimerExpired,
        Event::TimerExpired,
        Event::IdleCycle,
        Event::LineDropped,
        Event::LineDropped,
        Event::TimerExpired,
        Event::IdleCycle,
        Event::TimerExpired,
        Event::LineSent,
        Event::TimerExpired,
    ];
    let mut local = started();
    let mut entered = 0u32;
    let mut returned = 0u32;
    let mut actions = Vec::new();
    for event in events {
        let action = local.step(event);
        match action {
            Action::Emit { .. } => entered += 1,
            Action::Acknowledge => returned += 1,
            Action::Nothing => {}
        }
        assert_eq!(entered, returned + if local.in_handler() { 1 } else { 0 });
        assert_eq!(local.timer().is_pending(), local.in_handler());
        let expected = if entered % 2 == 1 { PinLevel::High } else { PinLevel::Low };
        assert_eq!(local.led().level(), expected);
        actions.push(action);
    }
    assert_eq!(
        actions,
        vec![
            Action::Nothing,
            Action::Nothing,
            Action::Emit { level: PinLevel::High, line: Message::Tick },
            Action::Nothing,
            Action::Nothing,
            Action::Acknowledge,
            Action::Nothing,
            Action::Emit { level: PinLevel::Low, line: Message::Tock },
            Action::Nothing,
            Action::Nothing,
            Action::Acknowledge,
            Action::Emit { level: PinLevel::High, line: Message::Tick },
        ]
    );
    assert!(local.in_handler());
}
