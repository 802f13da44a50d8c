//! A frame-stepped game core: simulation state driven by directional input, a
//! gradient renderer, and the synchronisation of generated audio with a
//! hardware ring buffer.
//!
//! Everything here works on plain values. Windows, devices and the sine
//! oscillator live with the caller, which hands their results in and carries
//! the library's decisions out.

use vstd::prelude::*;

pub mod game;
pub mod win32;

verus! {

/// Why a step could not be completed.
#[derive(Clone, Copy, Debug, PartialEq, Eq, Structural)]
pub enum Error {
    /// The audio device rejected the requested format during setup.
    Config,
    /// The audio device failed while being queried, locked or unlocked.
    Device,
    /// A tone of zero hertz has no wave period.
    DivisionByZero,
}

impl Error {
    /// Only a configuration failure ends the run; the others cost one frame.
    pub open spec fn fatal(self) -> bool {
        self == Error::Config
    }

    pub fn is_fatal(&self) -> (fatal: bool)
        ensures
            fatal == self.fatal(),
    {
        match self {
            Error::Config => true,
            Error::Device => false,
            Error::DivisionByZero => false,
        }
    }
}

/// A condition that was repaired on the spot and is reported for diagnosis.
#[derive(Clone, Copy, Debug, PartialEq, Eq, Structural)]
pub enum Warning {
    /// The write cursor lay so far outside the ring that the distance to the
    /// target could not be measured; the window was set to one full buffer.
    BufferOverrun,
}

} // verus!
