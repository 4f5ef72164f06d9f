//! Activity-indicator commands, as plain data; the hardware drive
//! lives outside the library.

use vstd::prelude::*;

verus! {

/// Which indicator a command addresses.
#[derive(Clone, Copy, Debug, PartialEq, Eq, Structural)]
pub enum Led {
    Led1,
    Led2,
    Led3,
}

/// What to do with an indicator.
#[derive(Clone, Copy, Debug, PartialEq, Eq, Structural)]
pub enum LedCommand {
    On(Led),
    Off(Led),
    Blink(Led),
    Toggle(Led),
}

impl LedCommand {
    /// The indicator the command addresses.
    pub fn led(&self) -> (r: &Led)
        ensures
            r == (match *self {
                LedCommand::On(l) => l,
                LedCommand::Off(l) => l,
                LedCommand::Blink(l) => l,
                LedCommand::Toggle(l) => l,
            }),
    {
        match self {
            LedCommand::On(l) => l,
            LedCommand::Off(l) => l,
            LedCommand::Blink(l) => l,
            LedCommand::Toggle(l) => l,
        }
    }
}

} // verus!
