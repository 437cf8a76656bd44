//! Identification of devices on the I2C bus.

use vstd::prelude::*;
use vstd::string::StringSliceAdditionalSpecFns;
use crate::error::Error;

verus! {

/// Size of the name of an I2C device, with the zero byte that ends it.
pub const I2C_NAME_SIZE: usize = 20;

/// An entry of a driver's table of I2C device names.
#[derive(Debug, Clone, Copy)]
pub struct DeviceId {
    name: [u8; I2C_NAME_SIZE],
    driver_data: usize,
}

impl DeviceId {
    /// The name of the device: the bytes of the name, then zeros.
    pub closed spec fn name(&self) -> Seq<u8> {
        self.name@
    }

    /// The place of the driver's information about the device.
    pub closed spec fn spec_index(&self) -> usize {
        self.driver_data
    }

    /// Whether `name` fits into an entry, with the zero byte that ends it.
    pub open spec fn fits(name: Seq<u8>) -> bool {
        name.len() < I2C_NAME_SIZE
    }

    /// The bytes of an entry for `name`.
    pub open spec fn padded(name: Seq<u8>) -> Seq<u8> {
        Seq::new(
            I2C_NAME_SIZE as nat,
            |i: int|
                if i < name.len() {
                    name[i]
                } else {
                    0u8
                },
        )
    }

    /// Create a new device id from an I2C name. A name that does not fit
    /// into an entry is an invalid argument.
    pub fn new(name: &str) -> (r: Result<DeviceId, Error>)
        ensures
            DeviceId::fits(name.spec_bytes()) ==> r is Ok && r->Ok_0.name() == DeviceId::padded(
                name.spec_bytes(),
            ) && r->Ok_0.spec_index() == 0,
            !DeviceId::fits(name.spec_bytes()) ==> r is Err && r->Err_0 == Error::InvalidArgument,
    {
        let src = name.as_bytes();
        if src.len() >= I2C_NAME_SIZE {
            return Err(Error::InvalidArgument);
        }
        let mut bytes = [0u8;I2C_NAME_SIZE];
        let mut i: usize = 0;
        while i < src.len()
            invariant
                i <= src@.len() < I2C_NAME_SIZE,
                forall|k: int| 0 <= k < i ==> bytes@[k] == src@[k],
                forall|k: int| i <= k < I2C_NAME_SIZE ==> bytes@[k] == 0,
            decreases src@.len() - i,
        {
            bytes[i] = src[i];
            i += 1;
        }
        assert(bytes@ =~= DeviceId::padded(name.spec_bytes()));
        Ok(DeviceId { name: bytes, driver_data: 0 })
    }

    /// Returns the entry with the place of the driver's information set to
    /// `index`.
    pub fn with_index(self, index: usize) -> (r: DeviceId)
        ensures
            r.name() == self.name(),
            r.spec_index() == index,
    {
        DeviceId { name: self.name, driver_data: index }
    }

    /// Returns the place of the driver's information about the device.
    pub fn index(&self) -> (r: usize)
        ensures
            r == self.spec_index(),
    {
        self.driver_data
    }

    /// Returns the bytes of the name, with the zeros that fill the entry.
    pub fn name_bytes(&self) -> (r: [u8; I2C_NAME_SIZE])
        ensures
            r@ == self.name(),
    {
        self.name
    }
}

} // verus!
