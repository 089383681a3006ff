//! The serial transmitter and the two status lines it carries.

use vstd::prelude::*;
use crate::pin::PinLevel;

verus! {

/// The fixed speed of the serial line, in bits per second.
pub const BAUD_RATE: u32 = 115_200;

/// A status line. Each names the level that the output line has just taken.
#[derive(Clone, Copy, Debug, PartialEq, Eq, Structural)]
pub enum Message {
    /// Sent when the output line has gone high.
    Tick,
    /// Sent when the output line has gone low.
    Tock,
}

impl Message {
    /// The status line that belongs to a level: `Tick` for high, `Tock` for low.
    pub open spec fn spec_for_level(level: PinLevel) -> Message {
        match level {
            PinLevel::High => Message::Tick,
            PinLevel::Low => Message::Tock,
        }
    }

    /// The status line that belongs to a level: `Tick` for high, `Tock` for low.
    #[verifier::when_used_as_spec(spec_for_level)]
    pub fn for_level(level: PinLevel) -> (line: Message)
        ensures
            line == Message::spec_for_level(level),
    {
        match level {
            PinLevel::High => Message::Tick,
            PinLevel::Low => Message::Tock,
        }
    }

    /// The characters of the line as they go out: four letters, a carriage
    /// return and a line feed.
    pub open spec fn text(self) -> Seq<char> {
        match self {
            Message::Tick => seq!['t', 'i', 'c', 'k', '\r', '\n'],
            Message::Tock => seq!['t', 'o', 'c', 'k', '\r', '\n'],
        }
    }

    /// The line as a string, ready to be written to the transmitter.
    pub fn as_str(self) -> (line: &'static str)
        ensures
            line@ == self.text(),
            line.is_ascii(),
    {
        proof {
            reveal_strlit("tick\r\n");
            reveal_strlit("tock\r\n");
        }
        match self {
            Message::Tick => {
                let line = "tick\r\n";
                assert(line@ =~= Message::Tick.text());
                line
            },
            Message::Tock => {
                let line = "tock\r\n";
                assert(line@ =~= Message::Tock.text());
                line
            },
        }
    }
}

/// What a [`SerialTransmitter`] stands for: its speed, and the line that it
/// has been given and has not yet reported on.
pub struct SerialState {
    pub baud: u32,
    pub in_flight: Option<Message>,
}

/// Exclusive handle on the serial transmitter, a sink that only takes data.
///
/// The handle never touches the wire. It records the line that was handed to
/// the driver, until the driver reports what became of it.
#[derive(Debug)]
pub struct SerialTransmitter {
    baud: u32,
    in_flight: Option<Message>,
}

impl View for SerialTransmitter {
    type V = SerialState;

    closed spec fn view(&self) -> SerialState {
        SerialState { baud: self.baud, in_flight: self.in_flight }
    }
}

impl SerialTransmitter {
    /// A new handle at the given speed, with nothing in flight.
    pub fn new(baud: u32) -> (uart: SerialTransmitter)
        ensures
            uart@ == (SerialState { baud, in_flight: None }),
    {
        SerialTransmitter { baud, in_flight: None }
    }

    /// The speed that the transmitter was set up with.
    pub fn baud(&self) -> (baud: u32)
        ensures
            baud == self@.baud,
    {
        self.baud
    }

    /// The line that is in flight, if there is one.
    pub fn in_flight(&self) -> (line: Option<Message>)
        ensures
            line == self@.in_flight,
    {
        self.in_flight
    }

    /// Hands a line to the driver. A line that was still in flight is
    /// forgotten: the transmitter does not queue.
    pub fn write(&mut self, line: Message)
        ensures
            final(self)@ == (SerialState { in_flight: Some(line), ..old(self)@ }),
    {
        self.in_flight = Some(line);
    }

    /// Takes note that the driver is done with the line in flight, whether it
    /// went out or was dropped. Returns that line.
    pub fn finish(&mut self) -> (line: Option<Message>)
        ensures
            line == old(self)@.in_flight,
            final(self)@ == (SerialState { in_flight: None, ..old(self)@ }),
    {
        let line = self.in_flight;
        self.in_flight = None;
        line
    }
}

} // verus!
