//! The control loop: initialization, the periodic interrupt handler and the
//! idle activity, as one state machine.
//!
//! Nothing here touches hardware. The embedding program hands in an
//! [`Event`] for what the hardware did and carries out the [`Action`] that
//! comes back. One invocation of the handler is two steps:
//!
//! 1. [`Event::TimerExpired`] enters the handler. The output line is toggled
//!    and read back, the status line for the new level is chosen, and
//!    [`Action::Emit`] asks for the line to be driven and the status line to be
//!    written.
//! 2. [`Event::LineSent`] or [`Event::LineDropped`] reports what became of the
//!    write. Either way the timer's pending flag is lowered, and
//!    [`Action::Acknowledge`] asks for the same on the hardware before the
//!    handler returns.

use vstd::prelude::*;
use crate::pin::{OutputPin, PinLevel};
use crate::serial::{Message, SerialState, SerialTransmitter, BAUD_RATE};
use crate::timer::{PeriodicTimer, TimerState, PERIOD};

verus! {

/// What the hardware did.
#[derive(Clone, Copy, Debug, PartialEq, Eq, Structural)]
pub enum Event {
    /// The timer's period has run out.
    TimerExpired,
    /// The transmitter took the status line.
    LineSent,
    /// The transmitter could not take the status line. The line is lost.
    LineDropped,
    /// The idle activity has run once, with no interrupt pending.
    IdleCycle,
}

/// What to do to the hardware next.
#[derive(Clone, Copy, Debug, PartialEq, Eq, Structural)]
pub enum Action {
    /// Nothing.
    Nothing,
    /// Drive the output line to `level`, then write `line` to the
    /// transmitter and report [`Event::LineSent`] or [`Event::LineDropped`].
    Emit { level: PinLevel, line: Message },
    /// Lower the timer's interrupt-pending flag and return from the handler.
    Acknowledge,
}

/// Why initialization did not complete. Each is fatal: there is no degraded
/// mode, and the loop never starts.
#[derive(Clone, Copy, Debug, PartialEq, Eq, Structural)]
pub enum InitError {
    /// The clock tree could not be configured.
    Clocks,
    /// A pin could not be claimed for the output line or the serial lines.
    Pins,
    /// The serial peripheral did not accept its configuration.
    Serial,
    /// The timer could not be configured for the period.
    Timer,
}

/// What the platform reports of the bring-up of the hardware: for each step,
/// in the order in which they are taken, whether it succeeded.
#[derive(Clone, Copy, Debug, PartialEq, Eq, Structural)]
pub struct Bringup {
    /// The clock tree runs at the required frequencies.
    pub clocks: bool,
    /// The output line and the serial lines are bound to their pins.
    pub pins: bool,
    /// The serial peripheral runs at [`BAUD_RATE`].
    pub serial: bool,
    /// The timer counts with a period of [`PERIOD`] and raises an interrupt
    /// on expiry.
    pub timer: bool,
}

impl Bringup {
    /// The step that stopped the bring-up: the first one that failed.
    pub open spec fn fault(self) -> Option<InitError> {
        if !self.clocks {
            Some(InitError::Clocks)
        } else if !self.pins {
            Some(InitError::Pins)
        } else if !self.serial {
            Some(InitError::Serial)
        } else if !self.timer {
            Some(InitError::Timer)
        } else {
            None
        }
    }
}

/// What a [`Local`] stands for: the state of the three peripherals.
pub struct State {
    pub led: PinLevel,
    pub uart: SerialState,
    pub timer: TimerState,
}

impl State {
    /// The state that initialization leaves: the output line low, the
    /// transmitter at [`BAUD_RATE`] with nothing in flight, the timer counting
    /// with a period of [`PERIOD`], raising interrupts, nothing pending.
    pub open spec fn initial() -> State {
        State {
            led: PinLevel::Low,
            uart: SerialState { baud: BAUD_RATE, in_flight: None },
            timer: TimerState { period: PERIOD, counting: true, listening: true, pending: false },
        }
    }

    /// Whether an invocation of the handler has begun and not yet returned.
    /// That is so exactly while a status line is in flight.
    pub open spec fn in_handler(self) -> bool {
        self.uart.in_flight is Some
    }

    /// What holds of every state that the loop reaches from [`State::initial`]:
    /// the configuration is the fixed one, the timer's flag is raised exactly
    /// while the handler runs, and the line in flight names the level that
    /// the output line has.
    pub open spec fn wf(self) -> bool {
        &&& self.uart.baud == BAUD_RATE
        &&& self.timer.period == PERIOD
        &&& self.timer.counting
        &&& self.timer.listening
        &&& self.timer.pending == self.in_handler()
        &&& self.uart.in_flight matches Some(line) ==> line == Message::for_level(self.led)
    }

    /// The state in which the handler has been entered: the output line
    /// toggled, the status line for its new level in flight, the expiry
    /// flagged.
    pub open spec fn entered(self) -> State {
        let level = self.led.toggled();
        State {
            led: level,
            uart: SerialState { in_flight: Some(Message::for_level(level)), ..self.uart },
            timer: self.timer.expired(),
        }
    }

    /// The state in which the handler has returned: nothing in flight, the
    /// timer's flag lowered.
    pub open spec fn returned(self) -> State {
        State {
            led: self.led,
            uart: SerialState { in_flight: None, ..self.uart },
            timer: TimerState { pending: false, ..self.timer },
        }
    }

    /// One step of the loop: the state after `event`, and what is to be done
    /// to the hardware.
    ///
    /// - The timer expires. Its flag goes up if it counts. If the interrupt
    ///   line is then asserted and the handler is not running, the handler is
    ///   entered. Otherwise the expiry is only flagged.
    /// - The write is reported, as sent or as dropped. If the handler is
    ///   running, it returns. Otherwise the report is ignored.
    /// - The idle activity runs. Nothing changes.
    pub open spec fn step(self, event: Event) -> (State, Action) {
        match event {
            Event::TimerExpired => {
                if self.timer.expired().interrupting() && !self.in_handler() {
                    let next = self.entered();
                    (next, Action::Emit { level: next.led, line: Message::for_level(next.led) })
                } else {
                    (State { timer: self.timer.expired(), ..self }, Action::Nothing)
                }
            },
            Event::LineSent | Event::LineDropped => {
                if self.in_handler() {
                    (self.returned(), Action::Acknowledge)
                } else {
                    (self, Action::Nothing)
                }
            },
            Event::IdleCycle => (self, Action::Nothing),
        }
    }
}

/// The handler's private storage: the three peripheral handles.
///
/// [`init`] makes the one value of this type and hands it over. The handles
/// can be looked at from outside, and changed only by [`Local::step`].
#[derive(Debug)]
pub struct Local {
    led: OutputPin,
    uart: SerialTransmitter,
    timer: PeriodicTimer,
}

impl View for Local {
    type V = State;

    closed spec fn view(&self) -> State {
        State { led: self.led@, uart: self.uart@, timer: self.timer@ }
    }
}

/// Initialization: decides from the platform's report whether the loop may
/// start, and if so makes the handler's storage.
///
/// Any failed step is fatal, and the first one is reported. Otherwise the
/// handles come back in the state [`State::initial`]: output line low,
/// transmitter at [`BAUD_RATE`], timer counting with [`PERIOD`] and raising
/// interrupts.
pub fn init(bringup: Bringup) -> (started: Result<Local, InitError>)
    ensures
        match bringup.fault() {
            Some(fault) => started == Err::<Local, InitError>(fault),
            None => started matches Ok(local) && local@ == State::initial() && local@.wf(),
        },
{
    if !bringup.clocks {
        return Err(InitError::Clocks);
    }
    if !bringup.pins {
        return Err(InitError::Pins);
    }
    let led = OutputPin::new();
    if !bringup.serial {
        return Err(InitError::Serial);
    }
    let uart = SerialTransmitter::new(BAUD_RATE);
    if !bringup.timer {
        return Err(InitError::Timer);
    }
    let mut timer = PeriodicTimer::new();
    timer.start(PERIOD);
    timer.listen();
    Ok(Local { led, uart, timer })
}

impl Local {
    /// The output line.
    pub fn led(&self) -> (led: &OutputPin)
        ensures
            led@ == self@.led,
    {
        &self.led
    }

    /// The serial transmitter.
    pub fn uart(&self) -> (uart: &SerialTransmitter)
        ensures
            uart@ == self@.uart,
    {
        &self.uart
    }

    /// The periodic timer.
    pub fn timer(&self) -> (timer: &PeriodicTimer)
        ensures
            timer@ == self@.timer,
    {
        &self.timer
    }

    /// Whether an invocation of the handler has begun and not yet returned.
    pub fn in_handler(&self) -> (running: bool)
        ensures
            running == self@.in_handler(),
    {
        self.uart.in_flight().is_some()
    }

    /// Takes one event and says what to do to the hardware.
    ///
    /// The new state and the action are those of [`State::step`]. In
    /// particular:
    /// - a status line is `Tick` exactly if the output line has just gone
    ///   high, and `Tock` exactly if it has just gone low;
    /// - once the write is reported, the timer's pending flag is down,
    ///   whether the line was sent or dropped;
    /// - while the handler runs, no event enters it again;
    /// - the idle activity changes nothing.
    pub fn step(&mut self, event: Event) -> (action: Action)
        ensures
            (final(self)@, action) == old(self)@.step(event),
            old(self)@.wf() ==> final(self)@.wf(),
            action matches Action::Emit { level, line } ==> {
                &&& level == old(self)@.led.toggled()
                &&& level == final(self)@.led
                &&& line == Message::Tick <==> level == PinLevel::High
                &&& line == Message::Tock <==> level == PinLevel::Low
            },
            old(self)@.in_handler() && (event == Event::LineSent || event == Event::LineDropped)
                ==> !final(self)@.timer.pending && action == Action::Acknowledge,
            old(self)@.in_handler() ==> !(action is Emit) && final(self)@.led == old(self)@.led,
            event == Event::IdleCycle ==> final(self)@ == old(self)@ && action == Action::Nothing,
    {
        match event {
            Event::TimerExpired => {
                self.timer.expire();
                if self.timer.is_pending() && self.timer.is_listening() && !self.in_handler() {
                    self.led.toggle();
                    let line = if self.led.is_high() {
                        Message::Tick
                    } else {
                        Message::Tock
                    };
                    self.uart.write(line);
                    Action::Emit { level: self.led.level(), line }
                } else {
                    Action::Nothing
                }
            },
            Event::LineSent | Event::LineDropped => {
                match self.uart.finish() {
                    Some(_) => {
                        self.timer.clear_irq();
                        Action::Acknowledge
                    },
                    None => Action::Nothing,
                }
            },
            Event::IdleCycle => Action::Nothing,
        }
    }
}

} // verus!
