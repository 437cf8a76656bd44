//! Definitions describing how registers can be accessed.

use vstd::prelude::*;

verus! {

/// Register can be read from.
pub const READ: u32 = 0b000001;

/// Register can be written to.
pub const WRITE: u32 = 0b000010;

/// Register should not be read outside of a call from the driver.
pub const PRECIOUS: u32 = 0b000100;

/// Register value can't be cached.
pub const VOLATILE: u32 = 0b001000;

/// Register can be read from and written to.
pub const RW: u32 = 0b000011;

} // verus!
