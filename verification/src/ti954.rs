//! Register map of the DS90UB954 deserializer, as far as bring-up uses it.

use vstd::prelude::*;

verus! {

/// I2C device identifier register.
pub const REG_I2C_DEV_ID: u32 = 0x00;

/// Mask revision register.
pub const REG_REVISION: u32 = 0x03;

/// Device status register.
pub const REG_DEVICE_STS: u32 = 0x04;

/// Receiver port control register.
pub const REG_RX_PORT_CTL: u32 = 0x0c;

/// Position of the enable bit of receive port 0 in `REG_RX_PORT_CTL`; the
/// bit of port `n` is `n` places higher.
pub const PORT0_EN: u32 = 0;

/// GPIO input enable register.
pub const REG_GPIO_INPUT_CTL: u32 = 0x0f;

/// Pin control register of GPIO 0; that of GPIO `n` is `n` addresses higher.
pub const REG_GPIO0_PIN_CTL: u32 = 0x10;

/// Number of general-purpose pins.
pub const NUM_GPIO: u32 = 7;

/// CSI PLL control register.
pub const REG_CSI_PLL_CTL: u32 = 0x1f;

/// Forwarding control register.
pub const REG_FWD_CTL1: u32 = 0x20;

/// Position of the forwarding-disable bit of receive port 0 in
/// `REG_FWD_CTL1`; the bit of port `n` is `n` places higher.
pub const FWD_PORT0_DIS: u32 = 4;

/// CSI control register.
pub const REG_CSI_CTL: u32 = 0x33;

/// Position of the CSI output enable bit in `REG_CSI_CTL`.
pub const CSI_ENABLE: u32 = 0;

/// Position of the continuous-clock bit in `REG_CSI_CTL`.
pub const CSI_CONTS_CLOCK: u32 = 1;

/// Position of the lane count field in `REG_CSI_CTL`.
pub const CSI_LANE_COUNT: u32 = 4;

/// Position of the lane calibration enable bit in `REG_CSI_CTL`.
pub const CSI_CAL_EN: u32 = 6;

/// Lane count code for four lanes.
pub const CSI_4_LANE: u32 = 0;

/// Lane count code for three lanes.
pub const CSI_3_LANE: u32 = 1;

/// Lane count code for two lanes.
pub const CSI_2_LANE: u32 = 2;

/// Lane count code for one lane.
pub const CSI_1_LANE: u32 = 3;

/// Transmit speed code for 1.6 Gbps.
pub const CSI_SPEED_1600: u32 = 0;

/// Transmit speed code for 800 Mbps.
pub const CSI_SPEED_800: u32 = 2;

/// Transmit speed code for 400 Mbps.
pub const CSI_SPEED_400: u32 = 3;

/// Port select register for the port-scoped registers.
pub const REG_FPD3_PORT_SEL: u32 = 0x4c;

/// Position of the read port field in `REG_FPD3_PORT_SEL`.
pub const RX_READ_PORT: u32 = 4;

/// Back-channel configuration register (port-scoped).
pub const REG_BCC_CONFIG: u32 = 0x58;

/// Position of the back-channel frequency field in `REG_BCC_CONFIG`.
pub const BC_FREQ_SELECT: u32 = 0;

/// Position of the CRC generator enable bit in `REG_BCC_CONFIG`.
pub const BC_CRC_GENERATOR_ENABLE: u32 = 3;

/// Position of the always-on bit in `REG_BCC_CONFIG`.
pub const BC_ALWAYS_ON: u32 = 4;

/// Position of the I2C pass-through bit in `REG_BCC_CONFIG`.
pub const I2C_PASS_THROUGH: u32 = 6;

/// Position of the I2C pass-through-all bit in `REG_BCC_CONFIG`.
pub const I2C_PASS_THROUGH_ALL: u32 = 7;

/// Back-channel frequency code for 50 Mbps.
pub const BC_FREQ_50M: u32 = 6;

/// Serializer alias register (port-scoped).
pub const REG_SER_ALIAS_ID: u32 = 0x5c;

/// Position of the alias address in `REG_SER_ALIAS_ID`.
pub const SER_ALIAS_ID: u32 = 1;

/// Back-channel GPIO control register for GPIO 0 and 1 (port-scoped).
pub const REG_BC_GPIO_CTL0: u32 = 0x6e;

/// Position of the select field of the lower pin in a back-channel GPIO
/// control register.
pub const BC_GPIO0_SEL: u32 = 0;

/// Position of the select field of the higher pin in a back-channel GPIO
/// control register.
pub const BC_GPIO1_SEL: u32 = 4;

/// Back-channel GPIO control register for GPIO 2 and 3 (port-scoped).
pub const REG_BC_GPIO_CTL1: u32 = 0x6f;

/// Indirect access control register: selects the page.
pub const REG_IND_ACC_CTL: u32 = 0xb0;

/// Indirect access address register: selects the register within the page.
pub const REG_IND_ACC_ADDR: u32 = 0xb1;

/// Indirect access data register.
pub const REG_IND_ACC_DATA: u32 = 0xb2;

/// Built-in self test control register.
pub const REG_BIST_CONTROL: u32 = 0xb3;

/// First of the identification code registers.
pub const REG_FPD3_RX_ID0: u32 = 0xf0;

/// Number of identification code registers.
pub const RX_ID_LENGTH: usize = 6;

/// Pattern generator control (indirect page 0).
pub const REG_IA_PGEN_CTL: u32 = 0x01;

/// Pattern generator configuration (indirect page 0).
pub const REG_IA_PGEN_CFG: u32 = 0x02;

/// Pattern generator CSI data identifier (indirect page 0).
pub const REG_IA_PGEN_CSI_DI: u32 = 0x03;

/// Pattern generator line size, high byte (indirect page 0).
pub const REG_IA_PGEN_LINE_SIZE1: u32 = 0x04;

/// Pattern generator line size, low byte (indirect page 0).
pub const REG_IA_PGEN_LINE_SIZE0: u32 = 0x05;

/// Pattern generator bar size, high byte (indirect page 0).
pub const REG_IA_PGEN_BAR_SIZE1: u32 = 0x06;

/// Pattern generator bar size, low byte (indirect page 0).
pub const REG_IA_PGEN_BAR_SIZE0: u32 = 0x07;

/// Pattern generator active lines per frame, high byte (indirect page 0).
pub const REG_IA_PGEN_ACT_LPF1: u32 = 0x08;

/// Pattern generator active lines per frame, low byte (indirect page 0).
pub const REG_IA_PGEN_ACT_LPF0: u32 = 0x09;

/// Pattern generator total lines per frame, high byte (indirect page 0).
pub const REG_IA_PGEN_TOT_LPF1: u32 = 0x0a;

/// Pattern generator total lines per frame, low byte (indirect page 0).
pub const REG_IA_PGEN_TOT_LPF0: u32 = 0x0b;

/// Pattern generator line period, high byte (indirect page 0).
pub const REG_IA_PGEN_LINE_PD1: u32 = 0x0c;

/// Pattern generator line period, low byte (indirect page 0).
pub const REG_IA_PGEN_LINE_PD0: u32 = 0x0d;

/// Pattern generator vertical back porch (indirect page 0).
pub const REG_IA_PGEN_VBP: u32 = 0x0e;

/// Pattern generator vertical front porch (indirect page 0).
pub const REG_IA_PGEN_VFP: u32 = 0x0f;

} // verus!
