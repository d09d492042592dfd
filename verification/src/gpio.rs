//! One GPIO line claimed for input: the steps by which it is claimed, and
//! the level last sampled on it.

use crate::error::{InitFault, SensorError};
use vstd::prelude::*;

verus! {

/// The pull resistor of an input line.
#[derive(Clone, Copy, Debug, PartialEq, Eq, Structural)]
pub enum Pull {
    Up,
    Down,
}

/// The logic level of a line.
#[derive(Clone, Copy, Debug, PartialEq, Eq, Structural)]
pub enum Level {
    Low,
    High,
}

/// A line claimed for input. `sample` is what the last read of the line gave:
/// a level, or nothing where the read failed or none was made yet.
#[derive(Clone, Copy, Debug, PartialEq, Eq, Structural)]
pub struct Esp32GPIOPin {
    pub pin: i32,
    pub pull: Option<Pull>,
    pub sample: Option<Level>,
}

/// What the hardware is asked to do next while a line is claimed.
#[derive(Clone, Copy, Debug, PartialEq, Eq, Structural)]
pub enum HardwareAction {
    /// Open line `pin` in input mode.
    OpenInput { pin: i32 },
    /// Set the pull resistor of line `pin`, which is open.
    SetPull { pin: i32, pull: Pull },
}

/// How far the claim of a line has come. The caller performs the action that
/// the claim names, reports with `step` whether the hardware did it, and
/// goes on until no action is left.
#[derive(Clone, Copy, Debug, PartialEq, Eq, Structural)]
pub enum PinClaim {
    /// The line is still to be opened.
    Opening { pin: i32, pull: Option<Pull> },
    /// The line is open and its pull resistor is still to be set.
    Pulling { pin: i32, resistor: Pull },
    /// The line is claimed.
    Claimed(Esp32GPIOPin),
    /// The hardware refused; the line is not claimed.
    Refused(SensorError),
}

impl PinClaim {
    /// The action that the claim waits for; none once it is over.
    pub open spec fn spec_action(self) -> Option<HardwareAction> {
        match self {
            PinClaim::Opening { pin, .. } => Some(HardwareAction::OpenInput { pin }),
            PinClaim::Pulling { pin, resistor } => Some(HardwareAction::SetPull { pin, pull: resistor }),
            PinClaim::Claimed(_) => None,
            PinClaim::Refused(_) => None,
        }
    }

    /// The claim after the hardware has answered the action it waited for.
    /// A refusal ends the claim with the fault of that step. An opened line
    /// goes on to its pull resistor where one is asked for, and is claimed
    /// otherwise. A claim that is over stays as it is.
    pub open spec fn spec_step(self, succeeded: bool) -> PinClaim {
        match self {
            PinClaim::Opening { pin, pull } => if !succeeded {
                PinClaim::Refused(SensorError::HardwareInitError(InitFault::PinDriver))
            } else {
                match pull {
                    Some(resistor) => PinClaim::Pulling { pin, resistor },
                    None => PinClaim::Claimed(Esp32GPIOPin { pin, pull: None, sample: None }),
                }
            },
            PinClaim::Pulling { pin, resistor } => if succeeded {
                PinClaim::Claimed(Esp32GPIOPin { pin, pull: Some(resistor), sample: None })
            } else {
                PinClaim::Refused(SensorError::HardwareInitError(InitFault::Pull))
            },
            PinClaim::Claimed(_) => self,
            PinClaim::Refused(_) => self,
        }
    }

    /// How the claim ended; nothing while an action is left.
    pub open spec fn spec_outcome(self) -> Option<Result<Esp32GPIOPin, SensorError>> {
        match self {
            PinClaim::Claimed(line) => Some(Ok(line)),
            PinClaim::Refused(error) => Some(Err(error)),
            _ => None,
        }
    }

    /// The action that the claim waits for; none once it is over.
    #[verifier::when_used_as_spec(spec_action)]
    pub fn action(self) -> (action: Option<HardwareAction>)
        ensures
            action == self.spec_action(),
    {
        match self {
            PinClaim::Opening { pin, .. } => Some(HardwareAction::OpenInput { pin }),
            PinClaim::Pulling { pin, resistor } => Some(HardwareAction::SetPull { pin, pull: resistor }),
            PinClaim::Claimed(_) => None,
            PinClaim::Refused(_) => None,
        }
    }

    /// Takes the hardware's answer to the action that the claim waited for.
    #[verifier::when_used_as_spec(spec_step)]
    pub fn step(self, succeeded: bool) -> (next: PinClaim)
        ensures
            next == self.spec_step(succeeded),
    {
        match self {
            PinClaim::Opening { pin, pull } => {
                if !succeeded {
                    PinClaim::Refused(SensorError::HardwareInitError(InitFault::PinDriver))
                } else {
                    match pull {
                        Some(resistor) => PinClaim::Pulling { pin, resistor },
                        None => PinClaim::Claimed(Esp32GPIOPin { pin, pull: None, sample: None }),
                    }
                }
            },
            PinClaim::Pulling { pin, resistor } => {
                if succeeded {
                    PinClaim::Claimed(Esp32GPIOPin { pin, pull: Some(resistor), sample: None })
                } else {
                    PinClaim::Refused(SensorError::HardwareInitError(InitFault::Pull))
                }
            },
            PinClaim::Claimed(line) => PinClaim::Claimed(line),
            PinClaim::Refused(error) => PinClaim::Refused(error),
        }
    }

    /// How the claim ended; nothing while an action is left.
    #[verifier::when_used_as_spec(spec_outcome)]
    pub fn outcome(self) -> (outcome: Option<Result<Esp32GPIOPin, SensorError>>)
        ensures
            outcome == self.spec_outcome(),
    {
        match self {
            PinClaim::Claimed(line) => Some(Ok(line)),
            PinClaim::Refused(error) => Some(Err(error)),
            _ => None,
        }
    }
}

impl Esp32GPIOPin {
    /// Begins the claim of line `pin` for input, with the pull resistor
    /// `pull` where one is given.
    pub fn new(pin: i32, pull: Option<Pull>) -> (claim: PinClaim)
        ensures
            claim == (PinClaim::Opening { pin, pull }),
    {
        PinClaim::Opening { pin, pull }
    }

    /// The number of the line.
    pub fn pin(&self) -> (pin: i32)
        ensures
            pin == self.pin,
    {
        self.pin
    }

    /// Whether the line was last sampled low.
    pub open spec fn spec_is_low(&self) -> bool {
        self.sample == Some(Level::Low)
    }

    /// Whether the line was last sampled high.
    pub open spec fn spec_is_high(&self) -> bool {
        self.sample == Some(Level::High)
    }

    /// Whether the line was last sampled low.
    #[verifier::when_used_as_spec(spec_is_low)]
    pub fn is_low(&self) -> (low: bool)
        ensures
            low == self.spec_is_low(),
    {
        match self.sample {
            Some(Level::Low) => true,
            _ => false,
        }
    }

    /// Whether the line was last sampled high.
    #[verifier::when_used_as_spec(spec_is_high)]
    pub fn is_high(&self) -> (high: bool)
        ensures
            high == self.spec_is_high(),
    {
        match self.sample {
            Some(Level::High) => true,
            _ => false,
        }
    }

    /// Records what a read of the line gave: its level, or nothing where the
    /// read failed. Number and pull resistor stay.
    pub fn observe(&mut self, sample: Option<Level>)
        ensures
            *final(self) == (Esp32GPIOPin { sample, ..*old(self) }),
    {
        self.sample = sample;
    }

    /// The level last sampled, or the read fault where there is none.
    pub fn level(&self) -> (level: Result<Level, SensorError>)
        ensures
            level == (match self.sample {
                Some(l) => Ok::<Level, SensorError>(l),
                None => Err::<Level, SensorError>(SensorError::HardwareReadError),
            }),
    {
        match self.sample {
            Some(l) => Ok(l),
            None => Err(SensorError::HardwareReadError),
        }
    }
}

} // verus!
