//! Register fields and mode control of the NCV6336 buck converter.

use vstd::prelude::*;
use vstd::pervasive::unreached;
use crate::error::{Error, Outcome};
use crate::regmap::{
    bit_is_set, field_mask, field_write, BitField, BitFieldReadOps, BitFieldWriteOps, FieldAccess,
    FieldCommonOps, RawField, RawFieldWriteOps, RegField, RegUpdate,
};
use crate::regulator::{Desc, Mode, Status, Type};

verus! {

/// Address of the register that selects the output voltage in suspend.
pub const PROGVSEL1: u32 = 0x10;

/// Address of the register that selects the output voltage.
pub const PROGVSEL0: u32 = 0x11;

/// Address of the power good register.
pub const PGOOD: u32 = 0x12;

/// Address of the command register.
pub const COMMAND: u32 = 0x14;

/// Address of the limits configuration register.
pub const LIMCONF: u32 = 0x16;

/// Highest register address of the device.
pub const MAX_REGISTER: u32 = 0x16;

/// Output voltage of selector 0 in microvolts.
pub const MIN_UV: u32 = 600_000;

/// Output voltage between two selectors in microvolts.
pub const UV_STEP: u32 = 6250;

/// Number of voltage selectors.
pub const N_VOLTAGES: u32 = 128;

/// The selector of the lowest output voltage that is not below `uv`
/// microvolts.
pub open spec fn spec_voltage_selector(uv: i32) -> int
    recommends
        uv >= MIN_UV,
{
    (uv - MIN_UV + UV_STEP - 1) / (UV_STEP as int)
}

/// The place of the read-write bit `pos` of register `reg`.
pub open spec fn bit_at(reg: u32, pos: u32) -> RegField {
    RegField { reg, lsb: pos, msb: pos }
}

fn rw_bit(reg: u32, pos: u32) -> (r: BitField)
    requires
        pos < 32,
    ensures
        r.reg_field() == bit_at(reg, pos),
{
    match BitField::new(reg, pos, FieldAccess::ReadWrite) {
        Ok(field) => field,
        Err(_) => unreached(),
    }
}

fn rw_raw(reg: u32, msb: u32, lsb: u32) -> (r: RawField)
    requires
        lsb <= msb < 32,
    ensures
        r.reg_field() == (RegField { reg, lsb, msb }),
{
    match RawField::new(reg, msb, lsb, FieldAccess::ReadWrite) {
        Ok(field) => field,
        Err(_) => unreached(),
    }
}

/// The fields of an NCV6336 that its mode and suspend control use.
#[derive(Debug, Clone, Copy)]
pub struct Ncv6336 {
    voutvsel1: RawField,
    envsel1: BitField,
    voutvsel0: RawField,
    envsel0: BitField,
    dischg: BitField,
    vselgt: BitField,
    pwmvsel1: BitField,
    pwmvsel0: BitField,
}

impl Ncv6336 {
    /// Whether each field lies where the device has it.
    #[verifier::type_invariant]
    pub closed spec fn fields_in_place(&self) -> bool {
        &&& self.voutvsel1.reg_field() == (RegField { reg: PROGVSEL1, lsb: 0, msb: 6 })
        &&& self.envsel1.reg_field() == bit_at(PROGVSEL1, 7)
        &&& self.voutvsel0.reg_field() == (RegField { reg: PROGVSEL0, lsb: 0, msb: 6 })
        &&& self.envsel0.reg_field() == bit_at(PROGVSEL0, 7)
        &&& self.dischg.reg_field() == bit_at(PGOOD, 4)
        &&& self.vselgt.reg_field() == bit_at(COMMAND, 0)
        &&& self.pwmvsel1.reg_field() == bit_at(COMMAND, 6)
        &&& self.pwmvsel0.reg_field() == bit_at(COMMAND, 7)
    }

    /// Makes the fields of the device.
    pub fn new() -> (r: Ncv6336)
        ensures
            r.fields_in_place(),
    {
        Ncv6336 {
            voutvsel1: rw_raw(PROGVSEL1, 6, 0),
            envsel1: rw_bit(PROGVSEL1, 7),
            voutvsel0: rw_raw(PROGVSEL0, 6, 0),
            envsel0: rw_bit(PROGVSEL0, 7),
            dischg: rw_bit(PGOOD, 4),
            vselgt: rw_bit(COMMAND, 0),
            pwmvsel1: rw_bit(COMMAND, 6),
            pwmvsel0: rw_bit(COMMAND, 7),
        }
    }

    /// Returns the description of the regulator: enabled by bit 7 of the
    /// voltage register, discharged by bit 4 of the power good register,
    /// with 128 voltages from 600 mV in steps of 6.25 mV, and with the
    /// current limit in bits 6 and 7 of the limits register.
    pub fn desc(&self) -> (r: Desc)
        ensures
            r == (Desc {
                name: "ncv6336",
                of_match: Some("buck"),
                reg_type: Type::Voltage,
                enable_reg: PROGVSEL0,
                enable_mask: field_mask(bit_at(PROGVSEL0, 7)),
                enable_val: field_mask(bit_at(PROGVSEL0, 7)),
                disable_val: 0,
                enable_is_inverted: false,
                active_discharge_reg: PGOOD,
                active_discharge_mask: field_mask(bit_at(PGOOD, 4)),
                active_discharge_on: field_mask(bit_at(PGOOD, 4)),
                active_discharge_off: 0,
                csel_reg: LIMCONF,
                csel_mask: 0xc0,
                vsel_reg: PROGVSEL0,
                vsel_mask: field_mask(RegField { reg: PROGVSEL0, lsb: 0, msb: 6 }),
                n_voltages: N_VOLTAGES,
                min_uv: MIN_UV,
                uv_step: UV_STEP,
                linear_min_sel: 0,
            }),
    {
        proof {
            use_type_invariant(self);
        }
        Desc::new("ncv6336", Type::Voltage).with_of_match("buck").with_active_discharge(
            PGOOD,
            self.dischg.mask(),
            self.dischg.mask(),
            0,
        ).with_csel(LIMCONF, 0xc0).with_enable(
            PROGVSEL0,
            self.envsel0.mask(),
            self.envsel0.mask(),
            0,
        ).with_linear_mapping(PROGVSEL0, self.voutvsel0.mask(), MIN_UV, UV_STEP, N_VOLTAGES, 0)
    }

    /// Returns the update that sets the mode: bit 7 of the command register
    /// is clear in normal mode and set in fast mode. No other mode is
    /// supported.
    pub fn set_mode(&self, mode: Mode) -> (r: Result<RegUpdate, Error>)
        ensures
            mode == Mode::Normal ==> r == Ok::<RegUpdate, Error>(
                field_write(bit_at(COMMAND, 7), 0, false),
            ),
            mode == Mode::Fast ==> r == Ok::<RegUpdate, Error>(
                field_write(bit_at(COMMAND, 7), 1, false),
            ),
            mode != Mode::Normal && mode != Mode::Fast ==> r == Err::<RegUpdate, Error>(
                Error::NotSupported,
            ),
    {
        proof {
            use_type_invariant(self);
        }
        match mode {
            Mode::Normal => Ok(self.pwmvsel0.clear()),
            Mode::Fast => Ok(self.pwmvsel0.set()),
            _ => Err(Error::NotSupported),
        }
    }

    /// Returns the mode, given the outcome of reading the command
    /// register: fast if bit 7 is set, normal if it is clear, and invalid
    /// if the register could not be read.
    pub fn get_mode(&self, outcome: Outcome) -> (r: Mode)
        ensures
            r == (match bit_is_set(bit_at(COMMAND, 7), outcome) {
                Ok(true) => Mode::Fast,
                Ok(false) => Mode::Normal,
                Err(_) => Mode::Invalid,
            }),
    {
        proof {
            use_type_invariant(self);
        }
        match self.pwmvsel0.is_set(outcome) {
            Ok(true) => Mode::Fast,
            Ok(false) => Mode::Normal,
            Err(_) => Mode::Invalid,
        }
    }

    /// Returns whether the status depends on the mode, so that the mode has
    /// to be read: it does only for a regulator that is known to be
    /// enabled.
    pub fn status_needs_mode(&self, enabled: &Result<bool, Error>) -> (r: bool)
        ensures
            r == (*enabled == Ok::<bool, Error>(true)),
    {
        match enabled {
            Ok(true) => true,
            _ => false,
        }
    }

    /// Returns the status of a regulator that is enabled or not and runs
    /// in mode `mode`: off if it is not enabled, else the status of its
    /// mode. Not knowing whether it is enabled is an error.
    pub fn get_status(&self, enabled: Result<bool, Error>, mode: Mode) -> (r: Result<Status, Error>)
        ensures
            r == (match enabled {
                Ok(true) => Ok(Status::spec_from(mode)),
                Ok(false) => Ok(Status::Off),
                Err(e) => Err(e),
            }),
    {
        if !enabled? {
            return Ok(Status::Off);
        }
        Ok(Status::from(mode))
    }

    /// Returns the update that sets the output voltage in suspend to the
    /// lowest voltage that is not below `uv` microvolts. A voltage that the
    /// device does not offer is an invalid argument.
    pub fn set_suspend_voltage(&self, uv: i32) -> (r: Result<RegUpdate, Error>)
        ensures
            uv >= MIN_UV && spec_voltage_selector(uv) < N_VOLTAGES ==> r == Ok::<RegUpdate, Error>(
                field_write(
                    RegField { reg: PROGVSEL1, lsb: 0, msb: 6 },
                    spec_voltage_selector(uv) as u32,
                    false,
                ),
            ),
            !(uv >= MIN_UV && spec_voltage_selector(uv) < N_VOLTAGES) ==> r == Err::<
                RegUpdate,
                Error,
            >(Error::InvalidArgument),
    {
        proof {
            use_type_invariant(self);
        }
        if uv < 600_000 {
            return Err(Error::InvalidArgument);
        }
        let above: u32 = (uv - 600_000) as u32;
        let quot = above / UV_STEP;
        let rem = above % UV_STEP;
        let selector = if rem > 0 {
            quot + 1
        } else {
            quot
        };
        if selector >= N_VOLTAGES {
            return Err(Error::InvalidArgument);
        }
        Ok(self.voutvsel1.write(selector))
    }

    /// Returns the updates that enable the suspend voltage, in the order
    /// in which they are to be carried out; the second only if the first
    /// has succeeded.
    pub fn set_suspend_enable(&self) -> (r: [RegUpdate; 2])
        ensures
            r[0] == field_write(bit_at(PROGVSEL1, 7), 1, false),
            r[1] == field_write(bit_at(COMMAND, 0), 0, false),
    {
        proof {
            use_type_invariant(self);
        }
        [self.envsel1.set(), self.vselgt.clear()]
    }

    /// Returns the updates that disable the suspend voltage, in the order
    /// in which they are to be carried out; the second only if the first
    /// has succeeded.
    pub fn set_suspend_disable(&self) -> (r: [RegUpdate; 2])
        ensures
            r[0] == field_write(bit_at(PROGVSEL1, 7), 0, false),
            r[1] == field_write(bit_at(COMMAND, 0), 1, false),
    {
        proof {
            use_type_invariant(self);
        }
        [self.envsel1.clear(), self.vselgt.set()]
    }

    /// Returns the update that sets the mode in suspend: bit 6 of the
    /// command register is clear in normal mode and set in fast mode. No
    /// other mode is supported.
    pub fn set_suspend_mode(&self, mode: Mode) -> (r: Result<RegUpdate, Error>)
        ensures
            mode == Mode::Normal ==> r == Ok::<RegUpdate, Error>(
                field_write(bit_at(COMMAND, 6), 0, false),
            ),
            mode == Mode::Fast ==> r == Ok::<RegUpdate, Error>(
                field_write(bit_at(COMMAND, 6), 1, false),
            ),
            mode != Mode::Normal && mode != Mode::Fast ==> r == Err::<RegUpdate, Error>(
                Error::NotSupported,
            ),
    {
        proof {
            use_type_invariant(self);
        }
        match mode {
            Mode::Normal => Ok(self.pwmvsel1.clear()),
            Mode::Fast => Ok(self.pwmvsel1.set()),
            _ => Err(Error::NotSupported),
        }
    }
}

} // verus!
