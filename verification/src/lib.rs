//! Verified core of a DS90UB954 FPD-Link III deserializer driver, with the
//! register-field, firmware-property and regulator helpers that it shares
//! with its sibling drivers.
//!
//! Everything here is free of I/O. The library decides and computes; the
//! caller owns the bus, the GPIO lines and the clock.
//!
//! * [`regmap`] and [`register_map`] describe fields of registers. Reading
//!   a field turns the register as it was read into the value of the
//!   field; writing it gives a masked update that leaves all other fields
//!   as they are. [`field_laws`] proves the round trips.
//! * [`fwnode`] holds firmware nodes as plain data, with typed reads and
//!   defaults; [`config`] reads the configuration of the deserializer and
//!   of its serializers from them.
//! * [`bringup`] is the bring-up sequence as a state machine: it names the
//!   next register access, delay or change of the power-down line and takes
//!   its outcome back. [`deserializer`] wraps it into the handle of a
//!   device. [`invariants`] proves that every run ends, that a failing port
//!   is deactivated without failing the others, and when the handshake with
//!   a serializer succeeds.
//! * [`rx_port`] caches which receive port is selected, so that a run of
//!   accesses to one port selects it once.
//!
//! Bringing a device up takes a loop of this shape:
//!
//! ```ignore
//! let mut dev = Ds90ub954::probe(id_info, &node, &serializers, pass, lock, pdb)?;
//! let mut action = dev.pending();
//! loop {
//!     let outcome = match action {
//!         Action::Done => break Ok(()),
//!         Action::Abort { error } => break Err(error),
//!         Action::SetPowerDown { high } => { pdb_line.set(high); Ok(0) }
//!         Action::Delay { ms } => { sleep(ms); Ok(0) }
//!         Action::Read { addr } => bus.read(addr),
//!         Action::Write { addr, value } => bus.write(addr, value).map(|()| 0),
//!     };
//!     action = dev.advance(outcome);
//! }
//! ```

pub mod arrayvec;
pub mod bits;
pub mod bringup;
pub mod config;
pub mod deserializer;
pub mod error;
pub mod field_laws;
pub mod fwnode;
pub mod gpio;
pub mod i2c;
pub mod indirect;
pub mod invariants;
pub mod ncv6336;
pub mod register_map;
pub mod regmap;
pub mod regulator;
pub mod rx_port;
pub mod ti954;
