//! Modes, status and types of voltage and current regulators.

use vstd::prelude::*;
use crate::error::Error;

verus! {

/// Number of the mode in which the regulator can handle fast changes in
/// its load.
pub const REGULATOR_MODE_FAST: u32 = 0x1;

/// Number of the normal power supply mode.
pub const REGULATOR_MODE_NORMAL: u32 = 0x2;

/// Number of the more efficient mode for light loads.
pub const REGULATOR_MODE_IDLE: u32 = 0x4;

/// Number of the most efficient mode for very light loads.
pub const REGULATOR_MODE_STANDBY: u32 = 0x8;

/// Number that stands for no mode.
pub const REGULATOR_MODE_INVALID: u32 = 0x0;

/// Operating modes of a regulator.
#[derive(Debug, Clone, Copy, PartialEq, Eq, Structural)]
pub enum Mode {
    /// Invalid mode.
    Invalid,
    /// Regulator can handle fast changes in its load.
    Fast,
    /// Normal regulator power supply mode.
    Normal,
    /// Regulator runs in a more efficient mode for light loads.
    Idle,
    /// Regulator runs in the most efficient mode for very light loads.
    Standby,
}

/// Status of a regulator.
#[derive(Debug, Clone, Copy, PartialEq, Eq, Structural)]
pub enum Status {
    /// Device is off.
    Off,
    /// Device is on.
    On,
    /// Device is in an error state.
    Error,
    /// Device is on and in Fast mode.
    Fast,
    /// Device is on and in Normal mode.
    Normal,
    /// Device is on and in Idle mode.
    Idle,
    /// Device is on and in Standby mode.
    Standby,
    /// Device is enabled but not regulating.
    Bypass,
    /// Device is any other status.
    Undefined,
}

/// What a regulator regulates.
#[derive(Debug, Clone, Copy, PartialEq, Eq, Structural)]
pub enum Type {
    /// Voltage regulator.
    Voltage,
    /// Current regulator.
    Current,
}

impl Mode {
    /// The number of the mode.
    pub open spec fn spec_to_raw(self) -> u32 {
        match self {
            Mode::Invalid => REGULATOR_MODE_INVALID,
            Mode::Fast => REGULATOR_MODE_FAST,
            Mode::Normal => REGULATOR_MODE_NORMAL,
            Mode::Idle => REGULATOR_MODE_IDLE,
            Mode::Standby => REGULATOR_MODE_STANDBY,
        }
    }

    /// The mode with the number `mode`, if there is one.
    pub open spec fn spec_try_from(mode: u32) -> Result<Mode, Error> {
        if mode == REGULATOR_MODE_FAST {
            Ok(Mode::Fast)
        } else if mode == REGULATOR_MODE_NORMAL {
            Ok(Mode::Normal)
        } else if mode == REGULATOR_MODE_IDLE {
            Ok(Mode::Idle)
        } else if mode == REGULATOR_MODE_STANDBY {
            Ok(Mode::Standby)
        } else if mode == REGULATOR_MODE_INVALID {
            Ok(Mode::Invalid)
        } else {
            Err(Error::InvalidArgument)
        }
    }

    /// Returns the number of the mode.
    pub fn to_raw(self) -> (r: u32)
        ensures
            r == self.spec_to_raw(),
    {
        match self {
            Mode::Invalid => REGULATOR_MODE_INVALID,
            Mode::Fast => REGULATOR_MODE_FAST,
            Mode::Normal => REGULATOR_MODE_NORMAL,
            Mode::Idle => REGULATOR_MODE_IDLE,
            Mode::Standby => REGULATOR_MODE_STANDBY,
        }
    }

    /// Convert a mode represented as an unsigned integer into its enum
    /// equivalent. If the integer does not match any of the modes, then
    /// `InvalidArgument` is returned.
    pub fn try_from(mode: u32) -> (r: Result<Mode, Error>)
        ensures
            r == Mode::spec_try_from(mode),
            r is Ok <==> (mode == 0 || mode == 1 || mode == 2 || mode == 4 || mode == 8),
            r is Ok ==> r->Ok_0.spec_to_raw() == mode,
    {
        match mode {
            REGULATOR_MODE_FAST => Ok(Mode::Fast),
            REGULATOR_MODE_NORMAL => Ok(Mode::Normal),
            REGULATOR_MODE_IDLE => Ok(Mode::Idle),
            REGULATOR_MODE_STANDBY => Ok(Mode::Standby),
            REGULATOR_MODE_INVALID => Ok(Mode::Invalid),
            _ => Err(Error::InvalidArgument),
        }
    }
}

impl Status {
    /// The number of the status.
    pub open spec fn spec_to_raw(self) -> u32 {
        match self {
            Status::Off => 0,
            Status::On => 1,
            Status::Error => 2,
            Status::Fast => 3,
            Status::Normal => 4,
            Status::Idle => 5,
            Status::Standby => 6,
            Status::Bypass => 7,
            Status::Undefined => 8,
        }
    }

    /// The status that a regulator has when it is on in mode `mode`.
    pub open spec fn spec_from(mode: Mode) -> Status {
        match mode {
            Mode::Fast => Status::Fast,
            Mode::Normal => Status::Normal,
            Mode::Idle => Status::Idle,
            Mode::Standby => Status::Standby,
            Mode::Invalid => Status::Undefined,
        }
    }

    /// Returns the number of the status.
    pub fn to_raw(self) -> (r: u32)
        ensures
            r == self.spec_to_raw(),
    {
        match self {
            Status::Off => 0,
            Status::On => 1,
            Status::Error => 2,
            Status::Fast => 3,
            Status::Normal => 4,
            Status::Idle => 5,
            Status::Standby => 6,
            Status::Bypass => 7,
            Status::Undefined => 8,
        }
    }

    /// Convert a status represented as an unsigned integer into its enum
    /// equivalent. If the integer does not match any status, then
    /// `InvalidArgument` is returned.
    pub fn try_from(status: u32) -> (r: Result<Status, Error>)
        ensures
            r is Ok <==> status <= 8,
            r is Ok ==> r->Ok_0.spec_to_raw() == status,
            r is Err ==> r->Err_0 == Error::InvalidArgument,
    {
        match status {
            0 => Ok(Status::Off),
            1 => Ok(Status::On),
            2 => Ok(Status::Error),
            3 => Ok(Status::Fast),
            4 => Ok(Status::Normal),
            5 => Ok(Status::Idle),
            6 => Ok(Status::Standby),
            7 => Ok(Status::Bypass),
            8 => Ok(Status::Undefined),
            _ => Err(Error::InvalidArgument),
        }
    }

    /// Returns the status that a regulator has when it is on in mode
    /// `mode`: that of the mode, and undefined for no mode.
    pub fn from(mode: Mode) -> (r: Status)
        ensures
            r == Status::spec_from(mode),
    {
        match mode {
            Mode::Fast => Status::Fast,
            Mode::Normal => Status::Normal,
            Mode::Idle => Status::Idle,
            Mode::Standby => Status::Standby,
            Mode::Invalid => Status::Undefined,
        }
    }
}

/// Describes a regulator to the regulator framework: what it regulates,
/// and the registers, masks and values by which it is enabled, discharged
/// and set.
#[derive(Debug, Clone, Copy)]
pub struct Desc {
    /// The name of the regulator.
    pub name: &'static str,
    /// The name by which the regulator is found in the device tree, if it
    /// has one.
    pub of_match: Option<&'static str>,
    /// What the regulator regulates.
    pub reg_type: Type,
    /// Register that enables the regulator.
    pub enable_reg: u32,
    /// Bits of `enable_reg` that enable the regulator.
    pub enable_mask: u32,
    /// Value of these bits when the regulator is enabled.
    pub enable_val: u32,
    /// Value of these bits when the regulator is disabled.
    pub disable_val: u32,
    /// Whether the two values are used the other way round.
    pub enable_is_inverted: bool,
    /// Register that controls active discharge.
    pub active_discharge_reg: u32,
    /// Bits of `active_discharge_reg` that control active discharge.
    pub active_discharge_mask: u32,
    /// Value of these bits when active discharge is on.
    pub active_discharge_on: u32,
    /// Value of these bits when active discharge is off.
    pub active_discharge_off: u32,
    /// Register that selects the current limit.
    pub csel_reg: u32,
    /// Bits of `csel_reg` that select the current limit.
    pub csel_mask: u32,
    /// Register that selects the voltage.
    pub vsel_reg: u32,
    /// Bits of `vsel_reg` that select the voltage.
    pub vsel_mask: u32,
    /// Number of selectors.
    pub n_voltages: u32,
    /// Voltage of the lowest selector in microvolts.
    pub min_uv: u32,
    /// Voltage between two selectors in microvolts.
    pub uv_step: u32,
    /// The lowest selector of the linear mapping.
    pub linear_min_sel: u32,
}

impl Desc {
    /// Create a new regulator descriptor: everything but the name and the
    /// type is zero.
    pub fn new(name: &'static str, reg_type: Type) -> (r: Desc)
        ensures
            r == (Desc {
                name,
                of_match: None,
                reg_type,
                enable_reg: 0,
                enable_mask: 0,
                enable_val: 0,
                disable_val: 0,
                enable_is_inverted: false,
                active_discharge_reg: 0,
                active_discharge_mask: 0,
                active_discharge_on: 0,
                active_discharge_off: 0,
                csel_reg: 0,
                csel_mask: 0,
                vsel_reg: 0,
                vsel_mask: 0,
                n_voltages: 0,
                min_uv: 0,
                uv_step: 0,
                linear_min_sel: 0,
            }),
    {
        Desc {
            name,
            of_match: None,
            reg_type,
            enable_reg: 0,
            enable_mask: 0,
            enable_val: 0,
            disable_val: 0,
            enable_is_inverted: false,
            active_discharge_reg: 0,
            active_discharge_mask: 0,
            active_discharge_on: 0,
            active_discharge_off: 0,
            csel_reg: 0,
            csel_mask: 0,
            vsel_reg: 0,
            vsel_mask: 0,
            n_voltages: 0,
            min_uv: 0,
            uv_step: 0,
            linear_min_sel: 0,
        }
    }

    /// Setup the register address, mask, and {en,dis}able values.
    pub fn with_enable(self, reg: u32, mask: u32, en_val: u32, dis_val: u32) -> (r: Desc)
        ensures
            r == (Desc {
                enable_reg: reg,
                enable_mask: mask,
                enable_val: en_val,
                disable_val: dis_val,
                ..self
            }),
    {
        Desc { enable_reg: reg, enable_mask: mask, enable_val: en_val, disable_val: dis_val, ..self }
    }

    /// Setup the register address, mask, and {en,dis}able values.
    /// {En,Dis}able values are inverted, i.e. `dis_val` will be used to
    /// enable the regulator while `en_val` will be used to disable it.
    pub fn with_inverted_enable(self, reg: u32, mask: u32, en_val: u32, dis_val: u32) -> (r: Desc)
        ensures
            r == (Desc {
                enable_reg: reg,
                enable_mask: mask,
                enable_val: en_val,
                disable_val: dis_val,
                enable_is_inverted: true,
                ..self
            }),
    {
        let inverted = Desc { enable_is_inverted: true, ..self };
        inverted.with_enable(reg, mask, en_val, dis_val)
    }

    /// Setup the active discharge register address, mask, on/off values.
    pub fn with_active_discharge(self, reg: u32, mask: u32, on: u32, off: u32) -> (r: Desc)
        ensures
            r == (Desc {
                active_discharge_reg: reg,
                active_discharge_mask: mask,
                active_discharge_on: on,
                active_discharge_off: off,
                ..self
            }),
    {
        Desc {
            active_discharge_reg: reg,
            active_discharge_mask: mask,
            active_discharge_on: on,
            active_discharge_off: off,
            ..self
        }
    }

    /// Setup the current selection register address and mask.
    pub fn with_csel(self, reg: u32, mask: u32) -> (r: Desc)
        ensures
            r == (Desc { csel_reg: reg, csel_mask: mask, ..self }),
    {
        Desc { csel_reg: reg, csel_mask: mask, ..self }
    }

    /// Set the name used to identify the regulator in the device tree.
    pub fn with_of_match(self, of_match: &'static str) -> (r: Desc)
        ensures
            r == (Desc { of_match: Some(of_match), ..self }),
    {
        Desc { of_match: Some(of_match), ..self }
    }

    /// Voltages are a linear mapping.
    pub fn with_linear_mapping(
        self,
        reg: u32,
        mask: u32,
        min_uv: u32,
        uv_step: u32,
        n_voltages: u32,
        linear_min_sel: u32,
    ) -> (r: Desc)
        ensures
            r == (Desc {
                vsel_reg: reg,
                vsel_mask: mask,
                n_voltages,
                min_uv,
                uv_step,
                linear_min_sel,
                ..self
            }),
    {
        Desc { vsel_reg: reg, vsel_mask: mask, n_voltages, min_uv, uv_step, linear_min_sel, ..self }
    }
}

} // verus!
