//! GPIO lines as the driver sees them: how a line is requested, and what the
//! outcome of a request means.

use vstd::prelude::*;
use crate::error::{Error, EPROBE_DEFER};

verus! {

/// How a line is configured when it is requested.
#[derive(Debug, Clone, Copy, PartialEq, Eq, Structural)]
pub enum Flags {
    /// Don't change anything.
    AsIs,
    /// Set the line to input mode.
    In,
    /// Set the line to output and drive it low.
    OutLow,
    /// Set the line to output and drive it high.
    OutHigh,
    /// Set the line to open-drain output and drive it low.
    OutLowOpenDrain,
    /// Set the line to open-drain output and drive it high.
    OutHighOpenDrain,
}

impl Flags {
    /// The flag word of the configuration: bit 0 says that the direction is
    /// set, bit 1 output, bit 2 high, bit 3 open drain.
    pub open spec fn spec_bits(self) -> u32 {
        match self {
            Flags::AsIs => 0,
            Flags::In => 1,
            Flags::OutLow => 3,
            Flags::OutHigh => 7,
            Flags::OutLowOpenDrain => 11,
            Flags::OutHighOpenDrain => 15,
        }
    }

    /// Returns the flag word of the configuration.
    pub fn bits(self) -> (r: u32)
        ensures
            r == self.spec_bits(),
    {
        match self {
            Flags::AsIs => 0,
            Flags::In => 1,
            Flags::OutLow => 3,
            Flags::OutHigh => 7,
            Flags::OutLowOpenDrain => 11,
            Flags::OutHighOpenDrain => 15,
        }
    }
}

/// What a request for an optional line means: the line is there, it is
/// absent, or the probe has to be retried later.
pub open spec fn line_present(lookup: Result<(), i32>) -> Result<bool, Error> {
    match lookup {
        Ok(()) => Ok(true),
        Err(errno) => if errno == EPROBE_DEFER {
            Err(Error::DeferredProbe)
        } else {
            Ok(false)
        },
    }
}

/// Judges the outcome of requesting an optional line. `lookup` is `Ok` if
/// the platform handed the line out, else the error number of the request.
/// Only a deferred probe is an error; any other failure means that the
/// line is not wired.
pub fn try_get_gpio(lookup: Result<(), i32>) -> (r: Result<bool, Error>)
    ensures
        r == line_present(lookup),
        r is Err <==> lookup == Err::<(), i32>(EPROBE_DEFER),
{
    match lookup {
        Ok(()) => Ok(true),
        Err(errno) => if errno == EPROBE_DEFER {
            Err(Error::DeferredProbe)
        } else {
            Ok(false)
        },
    }
}

} // verus!
