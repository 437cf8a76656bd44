//! Errors reported by the register, property and bring-up layers.

use vstd::prelude::*;

verus! {

/// `EIO`: input/output error.
pub const EIO: i32 = 5;

/// `ENODEV`: no such device.
pub const ENODEV: i32 = 19;

/// `EINVAL`: invalid argument.
pub const EINVAL: i32 = 22;

/// `ENODATA`: no data available.
pub const ENODATA: i32 = 61;

/// `EOVERFLOW`: value too large for the receiving buffer.
pub const EOVERFLOW: i32 = 75;

/// `EPROBE_DEFER`: a resource is not available yet, probe again later.
pub const EPROBE_DEFER: i32 = 517;

/// `ENOTSUPP`: operation is not supported.
pub const ENOTSUPP: i32 = 524;

/// Why a single bus transaction failed, as the transport reported it.
#[derive(Debug, Clone, Copy, PartialEq, Eq, Structural)]
pub struct BusFault {
    /// Positive error number of the transport.
    pub errno: i32,
}

/// What the caller hands back after carrying out a bus access or a delay:
/// the value read (ignored for a write or a delay), or the transport's fault.
pub type Outcome = Result<u32, BusFault>;

/// Errors of the library.
#[derive(Debug, Clone, Copy, PartialEq, Eq, Structural)]
pub enum Error {
    /// A bus read or write of `register` failed with `errno`.
    Transport { register: u32, errno: i32 },
    /// The bits read from an enumerated field name none of its variants.
    InvalidFieldValue,
    /// Not all of the tested bits of a field are set.
    BitsNotSet,
    /// A required property is absent and no default was given.
    PropertyMissing,
    /// A property is present but holds no data of the kind asked for, or a
    /// list of strings does not hold the string looked for.
    PropertyNoData,
    /// A property holds fewer integers than were asked for.
    PropertyTooShort,
    /// A resource is not available yet; the whole probe is to be retried.
    DeferredProbe,
    /// The back-channel of a receive port did not come up in time.
    BackchannelTimeout,
    /// The device identifies itself as another chip. Bring-up records the
    /// identification and never fails with this.
    DeviceIdMismatch,
    /// The device matched no entry of the driver's identifier tables.
    NoDevice,
    /// An index or argument is out of range.
    InvalidArgument,
    /// The operation is not supported for the given argument.
    NotSupported,
}

impl Error {
    /// The positive error number that stands for this error.
    pub open spec fn spec_errno(self) -> i32 {
        match self {
            Error::Transport { register, errno } => errno,
            Error::InvalidFieldValue => EINVAL,
            Error::BitsNotSet => EINVAL,
            Error::PropertyMissing => EINVAL,
            Error::PropertyNoData => ENODATA,
            Error::PropertyTooShort => EOVERFLOW,
            Error::DeferredProbe => EPROBE_DEFER,
            Error::BackchannelTimeout => EIO,
            Error::DeviceIdMismatch => ENODEV,
            Error::NoDevice => ENODEV,
            Error::InvalidArgument => EINVAL,
            Error::NotSupported => ENOTSUPP,
        }
    }

    /// Returns the positive error number that stands for this error.
    pub fn to_errno(&self) -> (r: i32)
        ensures
            r == self.spec_errno(),
    {
        match self {
            Error::Transport { register: _, errno } => *errno,
            Error::InvalidFieldValue => EINVAL,
            Error::BitsNotSet => EINVAL,
            Error::PropertyMissing => EINVAL,
            Error::PropertyNoData => ENODATA,
            Error::PropertyTooShort => EOVERFLOW,
            Error::DeferredProbe => EPROBE_DEFER,
            Error::BackchannelTimeout => EIO,
            Error::DeviceIdMismatch => ENODEV,
            Error::NoDevice => ENODEV,
            Error::InvalidArgument => EINVAL,
            Error::NotSupported => ENOTSUPP,
        }
    }

    /// The error for a failed bus access of `register`.
    pub open spec fn transport(register: u32, fault: BusFault) -> Error {
        Error::Transport { register, errno: fault.errno }
    }

    /// Annotates a transport fault with the register that was accessed.
    pub fn from_fault(register: u32, fault: BusFault) -> (r: Error)
        ensures
            r == Error::transport(register, fault),
    {
        Error::Transport { register, errno: fault.errno }
    }
}

} // verus!
