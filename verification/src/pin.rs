//! The digital output line.

use vstd::prelude::*;

verus! {

/// The level of a digital line.
#[derive(Clone, Copy, Debug, PartialEq, Eq, Structural)]
pub enum PinLevel {
    Low,
    High,
}

impl PinLevel {
    /// The other level.
    pub open spec fn spec_toggled(self) -> PinLevel {
        match self {
            PinLevel::Low => PinLevel::High,
            PinLevel::High => PinLevel::Low,
        }
    }

    /// The other level.
    #[verifier::when_used_as_spec(spec_toggled)]
    pub fn toggled(self) -> (other: PinLevel)
        ensures
            other == self.spec_toggled(),
    {
        match self {
            PinLevel::Low => PinLevel::High,
            PinLevel::High => PinLevel::Low,
        }
    }
}

/// Exclusive handle on one output line.
///
/// The handle records the level that the line drives. It is neither `Clone`
/// nor `Copy`: whoever holds it is the only one who can change the line.
#[derive(Debug)]
pub struct OutputPin {
    level: PinLevel,
}

impl View for OutputPin {
    type V = PinLevel;

    closed spec fn view(&self) -> PinLevel {
        self.level
    }
}

impl OutputPin {
    /// A new handle. The line starts low.
    pub fn new() -> (pin: OutputPin)
        ensures
            pin@ == PinLevel::Low,
    {
        OutputPin { level: PinLevel::Low }
    }

    /// Drives the line to the other level.
    pub fn toggle(&mut self)
        ensures
            final(self)@ == old(self)@.toggled(),
    {
        self.level = self.level.toggled();
    }

    /// The level that the line drives now.
    pub fn level(&self) -> (level: PinLevel)
        ensures
            level == self@,
    {
        self.level
    }

    /// Whether the line drives high.
    pub fn is_high(&self) -> (high: bool)
        ensures
            high <==> self@ == PinLevel::High,
    {
        match self.level {
            PinLevel::High => true,
            PinLevel::Low => false,
        }
    }

    /// Whether the line drives low.
    pub fn is_low(&self) -> (low: bool)
        ensures
            low <==> self@ == PinLevel::Low,
    {
        match self.level {
            PinLevel::High => false,
            PinLevel::Low => true,
        }
    }
}

} // verus!
