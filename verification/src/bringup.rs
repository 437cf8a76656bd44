//! The bring-up sequence of the deserializer as a state machine.
//!
//! The machine names one action at a time: drive the power-down line, wait,
//! read or write a register. The caller carries the action out and hands
//! its outcome back, and the machine moves on. A failure before the
//! serializers' ports are brought up ends the sequence; a failure while one
//! port is brought up deactivates that port and the sequence goes on.

use vstd::prelude::*;
use crate::config::{SerializerConfig, NUM_SERIALIZER};
use crate::error::{Error, Outcome};
use crate::indirect::{sequence_write, spec_sequence_write};
use crate::rx_port::{PortSelectionCache, RxPort};
use crate::ti954;

verus! {

/// Time in ms that the device needs after power-up before its registers
/// can be accessed.
pub const POWER_SETTLE_MS: u32 = 6;

/// Time in ms that the PLL and the lanes need to lock.
pub const LANE_SETTLE_MS: u32 = 500;

/// Time in ms that a receive port needs to calibrate its link.
pub const CALIBRATE_MS: u32 = 400;

/// Time in ms to wait after forwarding was enabled for a port.
pub const FORWARD_SETTLE_MS: u32 = 500;

/// Time in ms between two polls of the device status.
pub const POLL_INTERVAL_MS: u32 = 10;

/// Number of times the device status is polled for one port.
pub const POLL_ATTEMPTS: u32 = 50;

/// Time in ms to wait after the registers are set up.
pub const FINAL_SETTLE_MS: u32 = 500;

/// The low byte of the device status when the back-channel is up: lock,
/// pass, valid reference clock, initialisation done and checksum in order.
pub const BACKCHANNEL_READY: u32 = 0xdf;

/// Value of the receiver port control register that routes PASS and LOCK
/// of all enabled receive ports to the status pins.
pub const PASS_LOCK_ALL_PORTS: u32 = 0b00111100;

/// Value of the GPIO input enable register that makes every pin an input.
pub const ALL_GPIO_INPUT: u32 = 0x7f;

/// Value of the indirect access control register that selects the block
/// of the pattern generator.
pub const PATTERN_BLOCK: u32 = 0x00;

/// Number of registers of the pattern generator that are set to arm it.
pub const PATTERN_LEN: usize = 15;

/// The registers of the pattern generator in the order in which they are
/// set.
pub const PATTERN_REGISTERS: [u32; PATTERN_LEN] = [
    ti954::REG_IA_PGEN_CTL,
    ti954::REG_IA_PGEN_CFG,
    ti954::REG_IA_PGEN_CSI_DI,
    ti954::REG_IA_PGEN_LINE_SIZE1,
    ti954::REG_IA_PGEN_LINE_SIZE0,
    ti954::REG_IA_PGEN_BAR_SIZE1,
    ti954::REG_IA_PGEN_BAR_SIZE0,
    ti954::REG_IA_PGEN_ACT_LPF1,
    ti954::REG_IA_PGEN_ACT_LPF0,
    ti954::REG_IA_PGEN_TOT_LPF1,
    ti954::REG_IA_PGEN_TOT_LPF0,
    ti954::REG_IA_PGEN_LINE_PD1,
    ti954::REG_IA_PGEN_LINE_PD0,
    ti954::REG_IA_PGEN_VBP,
    ti954::REG_IA_PGEN_VFP,
];

/// The values that the registers of the pattern generator are given, in
/// the same order. The first enables the generator.
pub const PATTERN_VALUES: [u32; PATTERN_LEN] = [
    0x01,
    0x35,
    0x2b,
    0x14,
    0x00,
    0x02,
    0x80,
    0x08,
    0x70,
    0x08,
    0x70,
    0x0b,
    0x93,
    0x21,
    0x0a,
];

/// Number of register writes that arm the pattern generator: one that
/// selects its block, and two for each of its registers.
pub const TEST_PATTERN_WRITES: usize = 1 + 2 * PATTERN_LEN;

/// Write number `index` of those that arm the pattern generator, as the
/// register written and its value.
pub open spec fn spec_test_pattern_write(index: int) -> (u32, u32) {
    spec_sequence_write(PATTERN_BLOCK, PATTERN_REGISTERS@, PATTERN_VALUES@, index)
}

/// What the caller is to do next.
#[derive(Debug, Clone, Copy, PartialEq, Eq, Structural)]
pub enum Action {
    /// Drive the power-down line high (device on) or low (device off).
    SetPowerDown { high: bool },
    /// Wait for `ms` milliseconds.
    Delay { ms: u32 },
    /// Read the register at `addr`.
    Read { addr: u32 },
    /// Write `value` to the register at `addr`.
    Write { addr: u32, value: u32 },
    /// Bring-up is complete: nothing is left to do.
    Done,
    /// Bring-up has failed with `error`: nothing is left to do.
    Abort { error: Error },
}

/// The port-scoped registers that are written for a serializer.
#[derive(Debug, Clone, Copy, PartialEq, Eq, Structural)]
pub enum PortWrite {
    /// The back-channel configuration.
    BackChannel,
    /// The I2C alias of the serializer.
    Alias,
    /// The control of the serializer's pins 0 and 1.
    GpioControl0,
    /// The control of the serializer's pins 2 and 3.
    GpioControl1,
}

/// The steps by which one receive port is brought up, and those by which it
/// is shut off again if that fails. Each names the action that is pending.
#[derive(Debug, Clone, Copy, PartialEq, Eq, Structural)]
pub enum PortStep {
    /// Read the receiver port control register.
    ReadPortControl,
    /// Write it back as `value`, with the port's enable bit set.
    EnablePort { value: u32 },
    /// Wait for the receiver to calibrate the link.
    Calibrate,
    /// Read the forwarding control register.
    ReadForwarding,
    /// Write it back as `value`, with the port's disable bit cleared.
    EnableForwarding { value: u32 },
    /// Wait after forwarding was enabled.
    ForwardSettle,
    /// Select the port for the write to `next`.
    Select { next: PortWrite },
    /// Write the port-scoped register `which`.
    Write { which: PortWrite },
    /// Wait before poll number `attempt` of the device status.
    PollWait { attempt: u32 },
    /// Read the device status for poll number `attempt`.
    PollStatus { attempt: u32 },
    /// Shutting off: read the receiver port control register.
    CleanupReadPortControl,
    /// Shutting off: write it back as `value`, with the enable bit cleared.
    CleanupDisablePort { value: u32 },
    /// Shutting off: read the forwarding control register.
    CleanupReadForwarding,
    /// Shutting off: write it back as `value`, with the disable bit set.
    CleanupDisableForwarding { value: u32 },
}

/// Where the sequence stands. Each stage names the action that is pending.
#[derive(Debug, Clone, Copy)]
pub enum Stage {
    /// Drive the power-down line high, if there is one, else wait at once.
    PowerUp,
    /// Wait for the device to start.
    PowerSettle,
    /// Read the device identifier.
    ReadDeviceId,
    /// Read the revision.
    ReadRevision,
    /// Read byte `index` of the identification code.
    ReadIdCode { index: usize },
    /// Switch the built-in self test off.
    DisableSelfTest,
    /// Set the CSI lane speed.
    SetLaneSpeed,
    /// Set lane count, clock mode, calibration and output enable at once.
    SetCsiControl,
    /// Wait for PLL and lanes to lock.
    LaneSettle,
    /// Make write number `index` of the test pattern sequence.
    TestPattern { index: usize },
    /// Route PASS and LOCK of all receive ports to the status pins.
    EnablePassLock,
    /// Bring up the port of serializer `index`, whose configuration is
    /// `config`.
    Port { index: usize, config: SerializerConfig, step: PortStep },
    /// Make all general-purpose pins inputs.
    GpioInputEnable,
    /// Clear the pin control register of pin `pin`.
    GpioPinControl { pin: u32 },
    /// Wait after the registers are set up.
    FinalSettle,
    /// Bring-up is complete.
    Ready,
    /// Bring-up has failed.
    Failed { error: Error },
}

/// The states that bring-up passes through, in this order; only the armed
/// test pattern and the ports may be skipped, and failure ends any of them.
#[derive(Debug, Clone, Copy, PartialEq, Eq, Structural)]
pub enum Phase {
    /// Nothing has been done yet.
    Created,
    /// The device is powered.
    PowerEnabled,
    /// The identification has been read.
    Identified,
    /// Lane speed and lane count are set.
    LaneConfigured,
    /// The pattern generator is armed.
    TestPatternArmed,
    /// The ports of the serializers are being brought up.
    PortsInitializing,
    /// All ports have been brought up or deactivated.
    PortsFinalized,
    /// Bring-up is complete.
    Ready,
    /// Bring-up has failed.
    ProbeFailed,
}

/// The code of the transmit speed field for a lane speed in Mbps: 400 and
/// 800 have their codes, any other speed runs at 1.6 Gbps.
pub open spec fn spec_lane_speed_code(speed: u32) -> u32 {
    if speed == 400 {
        0b11
    } else if speed == 800 {
        0b10
    } else {
        0b00
    }
}

/// The code of the lane count field for a number of lanes: 1, 2 and 3 have
/// their codes, any other number means four lanes.
pub open spec fn spec_lane_count_code(count: u32) -> u32 {
    if count == 1 {
        3
    } else if count == 2 {
        2
    } else if count == 3 {
        1
    } else {
        0
    }
}

/// The value of the CSI control register: output enabled (bit 0), the
/// clock mode (bit 1), the lane count code (bits 4 and 5) and lane
/// calibration enabled (bit 6).
pub open spec fn spec_csi_control(count: u32, continuous_clock: bool) -> u32 {
    (0x41 + (if continuous_clock {
        2int
    } else {
        0int
    }) + 16 * spec_lane_count_code(count)) as u32
}

/// The value of the back-channel configuration register: 50 Mbps (bits 0
/// to 2), CRC generator (bit 3), always on (bit 4), I2C pass-through (bit
/// 6), and pass-through of all traffic (bit 7) where that is configured.
pub open spec fn spec_back_channel_config(pass_through_all: bool) -> u32 {
    if pass_through_all {
        0xde
    } else {
        0x5e
    }
}

/// The value of the alias register for a serializer at `i2c_address`.
pub open spec fn spec_alias(i2c_address: u32) -> u32 {
    i2c_address << ti954::SER_ALIAS_ID
}

/// The value of a back-channel GPIO control register for the control codes
/// of its two pins.
pub open spec fn spec_gpio_control(low: u32, high: u32) -> u32 {
    low | (high << 4u32)
}

/// `value` with the enable bit of `port` set.
pub open spec fn with_port_enabled(value: u32, port: RxPort) -> u32 {
    value | (1u32 << (ti954::PORT0_EN + port.spec_to_u32()) as u32)
}

/// The low byte of `value` with the enable bit of `port` cleared.
pub open spec fn with_port_disabled(value: u32, port: RxPort) -> u32 {
    value & (0xffu32 ^ (1u32 << (ti954::PORT0_EN + port.spec_to_u32()) as u32))
}

/// `value` with the forwarding-disable bit of `port` cleared.
pub open spec fn with_forwarding_enabled(value: u32, port: RxPort) -> u32 {
    value & !(1u32 << (ti954::FWD_PORT0_DIS + port.spec_to_u32()) as u32)
}

/// `value` with the forwarding-disable bit of `port` set.
pub open spec fn with_forwarding_disabled(value: u32, port: RxPort) -> u32 {
    value | (1u32 << (ti954::FWD_PORT0_DIS + port.spec_to_u32()) as u32)
}

/// Whether a device status says that the back-channel is up.
pub open spec fn spec_backchannel_ready(status: u32) -> bool {
    status & 0xff == BACKCHANNEL_READY
}

/// The register that holds `which`.
pub open spec fn port_write_register(which: PortWrite) -> u32 {
    match which {
        PortWrite::BackChannel => ti954::REG_BCC_CONFIG,
        PortWrite::Alias => ti954::REG_SER_ALIAS_ID,
        PortWrite::GpioControl0 => ti954::REG_BC_GPIO_CTL0,
        PortWrite::GpioControl1 => ti954::REG_BC_GPIO_CTL1,
    }
}

/// The value that `which` is given for a serializer configured as `config`.
pub open spec fn port_write_value(which: PortWrite, config: SerializerConfig) -> u32 {
    match which {
        PortWrite::BackChannel => spec_back_channel_config(config.i2c_pass_through_all),
        PortWrite::Alias => spec_alias(config.i2c_address),
        PortWrite::GpioControl0 => spec_gpio_control(config.gpio[0].control, config.gpio[1].control),
        PortWrite::GpioControl1 => spec_gpio_control(config.gpio[2].control, config.gpio[3].control),
    }
}

/// The action that step `step` of the port of `config` is waiting for.
pub open spec fn port_pending(config: SerializerConfig, step: PortStep) -> Action {
    match step {
        PortStep::ReadPortControl => Action::Read { addr: ti954::REG_RX_PORT_CTL },
        PortStep::EnablePort { value } => Action::Write { addr: ti954::REG_RX_PORT_CTL, value },
        PortStep::Calibrate => Action::Delay { ms: CALIBRATE_MS },
        PortStep::ReadForwarding => Action::Read { addr: ti954::REG_FWD_CTL1 },
        PortStep::EnableForwarding { value } => Action::Write { addr: ti954::REG_FWD_CTL1, value },
        PortStep::ForwardSettle => Action::Delay { ms: FORWARD_SETTLE_MS },
        PortStep::Select { next } => Action::Write {
            addr: ti954::REG_FPD3_PORT_SEL,
            value: config.rx_channel.write_select(),
        },
        PortStep::Write { which } => Action::Write {
            addr: port_write_register(which),
            value: port_write_value(which, config),
        },
        PortStep::PollWait { attempt } => Action::Delay { ms: POLL_INTERVAL_MS },
        PortStep::PollStatus { attempt } => Action::Read { addr: ti954::REG_DEVICE_STS },
        PortStep::CleanupReadPortControl => Action::Read { addr: ti954::REG_RX_PORT_CTL },
        PortStep::CleanupDisablePort { value } => Action::Write {
            addr: ti954::REG_RX_PORT_CTL,
            value,
        },
        PortStep::CleanupReadForwarding => Action::Read { addr: ti954::REG_FWD_CTL1 },
        PortStep::CleanupDisableForwarding { value } => Action::Write {
            addr: ti954::REG_FWD_CTL1,
            value,
        },
    }
}

/// `serializers` without entry `index`.
pub open spec fn without_serializer(
    serializers: [Option<SerializerConfig>; NUM_SERIALIZER],
    index: int,
) -> [Option<SerializerConfig>; NUM_SERIALIZER] {
    if index == 0 {
        [None, serializers[1]]
    } else if index == 1 {
        [serializers[0], None]
    } else {
        serializers
    }
}

/// `errors` with `error` as entry `index`.
pub open spec fn with_port_error(errors: [Option<Error>; NUM_SERIALIZER], index: int, error: Error)
    -> [Option<Error>; NUM_SERIALIZER] {
    if index == 0 {
        [Some(error), errors[1]]
    } else if index == 1 {
        [errors[0], Some(error)]
    } else {
        errors
    }
}

/// `code` with `byte` as entry `index`.
pub open spec fn with_id_byte(code: [u8; 6], index: int, byte: u8) -> [u8; 6] {
    [
        if index == 0 { byte } else { code[0] },
        if index == 1 { byte } else { code[1] },
        if index == 2 { byte } else { code[2] },
        if index == 3 { byte } else { code[3] },
        if index == 4 { byte } else { code[4] },
        if index == 5 { byte } else { code[5] },
    ]
}

/// The state of a deserializer during and after bring-up.
#[derive(Debug, Clone, Copy)]
pub struct DeviceState {
    /// Whether the line that reports PASS is wired.
    pub pass_gpio: bool,
    /// Whether the line that reports LOCK is wired.
    pub lock_gpio: bool,
    /// Whether the power-down line is wired.
    pub pdb_gpio: bool,
    /// The serializers that are configured and have not been deactivated.
    pub serializers: [Option<SerializerConfig>; NUM_SERIALIZER],
    /// For each serializer that was deactivated, why.
    pub port_errors: [Option<Error>; NUM_SERIALIZER],
    /// The receive port that is selected for port-scoped accesses.
    pub selected_rx_port: PortSelectionCache,
    /// Number of CSI lanes.
    pub csi_lane_count: u32,
    /// CSI lane speed in Mbps.
    pub csi_lane_speed: u32,
    /// Whether the test pattern is to be armed.
    pub test_pattern: bool,
    /// Continuous (true) or discontinuous (false) CSI clock.
    pub continuous_clock: bool,
    /// Whether the test pattern has been armed.
    pub test_pattern_armed: bool,
    /// The device identifier as read.
    pub device_id: u32,
    /// The revision as read.
    pub revision: u32,
    /// The identification code as read.
    pub id_code: [u8; 6],
    /// Where the sequence stands.
    pub stage: Stage,
}

impl DeviceState {
    /// Whether the counters of the stage are within their ranges.
    pub open spec fn wf(self) -> bool {
        match self.stage {
            Stage::ReadIdCode { index } => index < ti954::RX_ID_LENGTH,
            Stage::TestPattern { index } => index < TEST_PATTERN_WRITES,
            Stage::Port { index, config, step } => index < NUM_SERIALIZER && match step {
                PortStep::PollWait { attempt } => attempt < POLL_ATTEMPTS,
                PortStep::PollStatus { attempt } => attempt < POLL_ATTEMPTS,
                _ => true,
            },
            Stage::GpioPinControl { pin } => pin < ti954::NUM_GPIO,
            _ => true,
        }
    }

    /// Whether nothing is left to do.
    pub open spec fn is_terminal(self) -> bool {
        self.stage is Ready || self.stage is Failed
    }

    /// The phase that the stage belongs to.
    pub open spec fn phase(self) -> Phase {
        match self.stage {
            Stage::PowerUp => Phase::Created,
            Stage::PowerSettle => Phase::PowerEnabled,
            Stage::ReadDeviceId => Phase::PowerEnabled,
            Stage::ReadRevision => Phase::PowerEnabled,
            Stage::ReadIdCode { index } => Phase::PowerEnabled,
            Stage::DisableSelfTest => Phase::Identified,
            Stage::SetLaneSpeed => Phase::Identified,
            Stage::SetCsiControl => Phase::Identified,
            Stage::LaneSettle => Phase::LaneConfigured,
            Stage::TestPattern { index } => Phase::LaneConfigured,
            Stage::EnablePassLock => if self.test_pattern_armed {
                Phase::TestPatternArmed
            } else {
                Phase::LaneConfigured
            },
            Stage::Port { index, config, step } => Phase::PortsInitializing,
            Stage::GpioInputEnable => Phase::PortsFinalized,
            Stage::GpioPinControl { pin } => Phase::PortsFinalized,
            Stage::FinalSettle => Phase::PortsFinalized,
            Stage::Ready => Phase::Ready,
            Stage::Failed { error } => Phase::ProbeFailed,
        }
    }

    /// The action that the state is waiting for.
    pub open spec fn pending(self) -> Action {
        match self.stage {
            Stage::PowerUp => if self.pdb_gpio {
                Action::SetPowerDown { high: true }
            } else {
                Action::Delay { ms: POWER_SETTLE_MS }
            },
            Stage::PowerSettle => Action::Delay { ms: POWER_SETTLE_MS },
            Stage::ReadDeviceId => Action::Read { addr: ti954::REG_I2C_DEV_ID },
            Stage::ReadRevision => Action::Read { addr: ti954::REG_REVISION },
            Stage::ReadIdCode { index } => Action::Read {
                addr: (ti954::REG_FPD3_RX_ID0 + index) as u32,
            },
            Stage::DisableSelfTest => Action::Write { addr: ti954::REG_BIST_CONTROL, value: 0 },
            Stage::SetLaneSpeed => Action::Write {
                addr: ti954::REG_CSI_PLL_CTL,
                value: spec_lane_speed_code(self.csi_lane_speed),
            },
            Stage::SetCsiControl => Action::Write {
                addr: ti954::REG_CSI_CTL,
                value: spec_csi_control(self.csi_lane_count, self.continuous_clock),
            },
            Stage::LaneSettle => Action::Delay { ms: LANE_SETTLE_MS },
            Stage::TestPattern { index } => Action::Write {
                addr: spec_test_pattern_write(index as int).0,
                value: spec_test_pattern_write(index as int).1,
            },
            Stage::EnablePassLock => Action::Write {
                addr: ti954::REG_RX_PORT_CTL,
                value: PASS_LOCK_ALL_PORTS,
            },
            Stage::Port { index, config, step } => port_pending(config, step),
            Stage::GpioInputEnable => Action::Write {
                addr: ti954::REG_GPIO_INPUT_CTL,
                value: ALL_GPIO_INPUT,
            },
            Stage::GpioPinControl { pin } => Action::Write {
                addr: (ti954::REG_GPIO0_PIN_CTL + pin) as u32,
                value: 0,
            },
            Stage::FinalSettle => Action::Delay { ms: FINAL_SETTLE_MS },
            Stage::Ready => Action::Done,
            Stage::Failed { error } => Action::Abort { error },
        }
    }

    /// The state at another stage.
    pub open spec fn at(self, stage: Stage) -> DeviceState {
        DeviceState { stage, ..self }
    }

    /// The state after the access to `register` failed and ended bring-up.
    pub open spec fn aborted(self, register: u32, outcome: Outcome) -> DeviceState {
        self.at(Stage::Failed { error: Error::transport(register, outcome->Err_0) })
    }

    /// The state at `stage` if `outcome` is a success, else the state after
    /// the access to `register` failed and ended bring-up.
    pub open spec fn at_or_aborted(self, stage: Stage, register: u32, outcome: Outcome)
        -> DeviceState {
        if outcome is Ok {
            self.at(stage)
        } else {
            self.aborted(register, outcome)
        }
    }

    /// The state at the start of the first configured serializer from
    /// `from` on, or at the start of the pin setup if there is none.
    pub open spec fn at_port_from(self, from: int) -> DeviceState {
        if from <= 0 && self.serializers[0] is Some {
            self.at_port(0, self.serializers[0]->Some_0, PortStep::ReadPortControl)
        } else if from <= 1 && self.serializers[1] is Some {
            self.at_port(1, self.serializers[1]->Some_0, PortStep::ReadPortControl)
        } else {
            self.at(Stage::GpioInputEnable)
        }
    }

    /// The state at step `step` of serializer `index`.
    pub open spec fn at_port(self, index: usize, config: SerializerConfig, step: PortStep)
        -> DeviceState {
        self.at(Stage::Port { index, config, step })
    }

    /// The state before the write of `which` for serializer `index`: at the
    /// write if the port is selected already, else at its selection.
    pub open spec fn at_port_write(self, index: usize, config: SerializerConfig, which: PortWrite)
        -> DeviceState {
        if self.selected_rx_port@ == Some(config.rx_channel) {
            self.at_port(index, config, PortStep::Write { which })
        } else {
            self.at_port(index, config, PortStep::Select { next: which })
        }
    }

    /// The state after bringing up serializer `index` failed with `error`:
    /// the serializer is no longer active, the reason is recorded, and the
    /// port is about to be shut off.
    pub open spec fn port_failed(self, index: usize, config: SerializerConfig, error: Error)
        -> DeviceState {
        DeviceState {
            serializers: without_serializer(self.serializers, index as int),
            port_errors: with_port_error(self.port_errors, index as int, error),
            stage: Stage::Port { index, config, step: PortStep::CleanupReadPortControl },
            ..self
        }
    }

    /// The state at step `step` if `outcome` is a success, else the state
    /// after the access to `register` failed for serializer `index`.
    pub open spec fn at_port_or_failed(
        self,
        index: usize,
        config: SerializerConfig,
        step: PortStep,
        register: u32,
        outcome: Outcome,
    ) -> DeviceState {
        if outcome is Ok {
            self.at_port(index, config, step)
        } else {
            self.port_failed(index, config, Error::transport(register, outcome->Err_0))
        }
    }

    /// The state after step `step` of serializer `index` ended in `outcome`.
    pub open spec fn port_advanced(
        self,
        index: usize,
        config: SerializerConfig,
        step: PortStep,
        outcome: Outcome,
    ) -> DeviceState {
        let port = config.rx_channel;
        match step {
            PortStep::ReadPortControl => self.at_port_or_failed(
                index,
                config,
                PortStep::EnablePort { value: with_port_enabled(outcome->Ok_0, port) },
                ti954::REG_RX_PORT_CTL,
                outcome,
            ),
            PortStep::EnablePort { value } => self.at_port_or_failed(
                index,
                config,
                PortStep::Calibrate,
                ti954::REG_RX_PORT_CTL,
                outcome,
            ),
            PortStep::Calibrate => self.at_port(index, config, PortStep::ReadForwarding),
            PortStep::ReadForwarding => self.at_port_or_failed(
                index,
                config,
                PortStep::EnableForwarding { value: with_forwarding_enabled(outcome->Ok_0, port) },
                ti954::REG_FWD_CTL1,
                outcome,
            ),
            PortStep::EnableForwarding { value } => self.at_port_or_failed(
                index,
                config,
                PortStep::ForwardSettle,
                ti954::REG_FWD_CTL1,
                outcome,
            ),
            PortStep::ForwardSettle => self.at_port_write(index, config, PortWrite::BackChannel),
            PortStep::Select { next } => if outcome is Ok {
                DeviceState {
                    selected_rx_port: PortSelectionCache { selected: Some(port) },
                    stage: Stage::Port { index, config, step: PortStep::Write { which: next } },
                    ..self
                }
            } else {
                self.port_write_skipped(index, config, next, ti954::REG_FPD3_PORT_SEL, outcome)
            },
            PortStep::Write { which } => if outcome is Ok {
                match which {
                    PortWrite::BackChannel => self.at_port(
                        index,
                        config,
                        PortStep::PollWait { attempt: 0 },
                    ),
                    PortWrite::Alias => self.at_port_write(index, config, PortWrite::GpioControl0),
                    PortWrite::GpioControl0 => self.at_port_write(
                        index,
                        config,
                        PortWrite::GpioControl1,
                    ),
                    PortWrite::GpioControl1 => self.at_port_from(index + 1),
                }
            } else {
                self.port_write_skipped(index, config, which, port_write_register(which), outcome)
            },
            PortStep::PollWait { attempt } => self.at_port(
                index,
                config,
                PortStep::PollStatus { attempt },
            ),
            PortStep::PollStatus { attempt } => match outcome {
                Ok(status) => if spec_backchannel_ready(status) {
                    self.at_port_write(index, config, PortWrite::Alias)
                } else if attempt + 1 < POLL_ATTEMPTS {
                    self.at_port(
                        index,
                        config,
                        PortStep::PollWait { attempt: (attempt + 1) as u32 },
                    )
                } else {
                    self.port_failed(index, config, Error::BackchannelTimeout)
                },
                Err(fault) => self.port_failed(
                    index,
                    config,
                    Error::transport(ti954::REG_DEVICE_STS, fault),
                ),
            },
            PortStep::CleanupReadPortControl => match outcome {
                Ok(value) => self.at_port(
                    index,
                    config,
                    PortStep::CleanupDisablePort { value: with_port_disabled(value, port) },
                ),
                Err(_) => self.at_port(index, config, PortStep::CleanupReadForwarding),
            },
            PortStep::CleanupDisablePort { value } => self.at_port(
                index,
                config,
                PortStep::CleanupReadForwarding,
            ),
            PortStep::CleanupReadForwarding => match outcome {
                Ok(value) => self.at_port(
                    index,
                    config,
                    PortStep::CleanupDisableForwarding {
                        value: with_forwarding_disabled(value, port),
                    },
                ),
                Err(_) => self.at_port_from(index + 1),
            },
            PortStep::CleanupDisableForwarding { value } => self.at_port_from(index + 1),
        }
    }

    /// The state after the write of `which` for serializer `index`, or the
    /// selection before it, failed at `register`. The back-channel
    /// configuration and the alias are needed: without them the port has
    /// failed. The pin controls are not: the sequence goes on without them.
    pub open spec fn port_write_skipped(
        self,
        index: usize,
        config: SerializerConfig,
        which: PortWrite,
        register: u32,
        outcome: Outcome,
    ) -> DeviceState {
        match which {
            PortWrite::BackChannel => self.port_failed(
                index,
                config,
                Error::transport(register, outcome->Err_0),
            ),
            PortWrite::Alias => self.port_failed(
                index,
                config,
                Error::transport(register, outcome->Err_0),
            ),
            PortWrite::GpioControl0 => self.at_port_write(index, config, PortWrite::GpioControl1),
            PortWrite::GpioControl1 => self.at_port_from(index + 1),
        }
    }

    /// The state after the pending action ended in `outcome`. The value of
    /// a write, a delay or a change of the power-down line is ignored, and
    /// the latter two cannot fail.
    pub open spec fn advanced(self, outcome: Outcome) -> DeviceState {
        match self.stage {
            Stage::PowerUp => if self.pdb_gpio {
                self.at(Stage::PowerSettle)
            } else {
                self.at(Stage::ReadDeviceId)
            },
            Stage::PowerSettle => self.at(Stage::ReadDeviceId),
            Stage::ReadDeviceId => match outcome {
                Ok(value) => DeviceState { device_id: value, stage: Stage::ReadRevision, ..self },
                Err(_) => self.aborted(ti954::REG_I2C_DEV_ID, outcome),
            },
            Stage::ReadRevision => match outcome {
                Ok(value) => DeviceState {
                    revision: value,
                    stage: Stage::ReadIdCode { index: 0 },
                    ..self
                },
                Err(_) => self.aborted(ti954::REG_REVISION, outcome),
            },
            Stage::ReadIdCode { index } => match outcome {
                Ok(value) => DeviceState {
                    id_code: with_id_byte(self.id_code, index as int, (value % 256) as u8),
                    stage: if index + 1 < ti954::RX_ID_LENGTH {
                        Stage::ReadIdCode { index: (index + 1) as usize }
                    } else {
                        Stage::DisableSelfTest
                    },
                    ..self
                },
                Err(_) => self.aborted((ti954::REG_FPD3_RX_ID0 + index) as u32, outcome),
            },
            Stage::DisableSelfTest => self.at_or_aborted(
                Stage::SetLaneSpeed,
                ti954::REG_BIST_CONTROL,
                outcome,
            ),
            Stage::SetLaneSpeed => self.at_or_aborted(
                Stage::SetCsiControl,
                ti954::REG_CSI_PLL_CTL,
                outcome,
            ),
            Stage::SetCsiControl => self.at_or_aborted(
                Stage::LaneSettle,
                ti954::REG_CSI_CTL,
                outcome,
            ),
            Stage::LaneSettle => if self.test_pattern {
                self.at(Stage::TestPattern { index: 0 })
            } else {
                self.at(Stage::EnablePassLock)
            },
            Stage::TestPattern { index } => if outcome is Err {
                self.at(Stage::EnablePassLock)
            } else if index + 1 < TEST_PATTERN_WRITES {
                self.at(Stage::TestPattern { index: (index + 1) as usize })
            } else {
                DeviceState { test_pattern_armed: true, stage: Stage::EnablePassLock, ..self }
            },
            Stage::EnablePassLock => if outcome is Ok {
                self.at_port_from(0)
            } else {
                self.aborted(ti954::REG_RX_PORT_CTL, outcome)
            },
            Stage::Port { index, config, step } => self.port_advanced(index, config, step, outcome),
            Stage::GpioInputEnable => self.at_or_aborted(
                Stage::GpioPinControl { pin: 0 },
                ti954::REG_GPIO_INPUT_CTL,
                outcome,
            ),
            Stage::GpioPinControl { pin } => self.at_or_aborted(
                if pin + 1 < ti954::NUM_GPIO {
                    Stage::GpioPinControl { pin: (pin + 1) as u32 }
                } else {
                    Stage::FinalSettle
                },
                (ti954::REG_GPIO0_PIN_CTL + pin) as u32,
                outcome,
            ),
            Stage::FinalSettle => self.at(Stage::Ready),
            Stage::Ready => self,
            Stage::Failed { error } => self,
        }
    }
}

/// Returns the code of the transmit speed field for a lane speed in Mbps.
/// A speed that the device does not offer runs at 1.6 Gbps.
pub fn lane_speed_code(speed: u32) -> (r: u32)
    ensures
        r == spec_lane_speed_code(speed),
        speed == 400 ==> r == 0b11,
        speed == 800 ==> r == 0b10,
        speed != 400 && speed != 800 ==> r == 0b00,
{
    match speed {
        400 => ti954::CSI_SPEED_400,
        800 => ti954::CSI_SPEED_800,
        _ => ti954::CSI_SPEED_1600,
    }
}

/// Returns the code of the lane count field for a number of lanes. A
/// number that is not 1, 2 or 3 means four lanes.
pub fn lane_count_code(count: u32) -> (r: u32)
    ensures
        r == spec_lane_count_code(count),
        count == 1 ==> r == ti954::CSI_1_LANE,
        count == 2 ==> r == ti954::CSI_2_LANE,
        count == 3 ==> r == ti954::CSI_3_LANE,
        !(1 <= count <= 3) ==> r == ti954::CSI_4_LANE,
{
    match count {
        1 => ti954::CSI_1_LANE,
        2 => ti954::CSI_2_LANE,
        3 => ti954::CSI_3_LANE,
        _ => ti954::CSI_4_LANE,
    }
}

/// Returns the value of the CSI control register for a lane count and a
/// clock mode.
pub fn csi_control(count: u32, continuous_clock: bool) -> (r: u32)
    ensures
        r == spec_csi_control(count, continuous_clock),
{
    let code = lane_count_code(count);
    let clock: u32 = if continuous_clock {
        1
    } else {
        0
    };
    assert((1u32 << 0u32) | (clock << 1u32) | (code << 4u32) | (1u32 << 6u32) == 0x41 + 2 * clock
        + 16 * code) by (bit_vector)
        requires
            clock <= 1,
            code <= 3,
    ;
    (1u32 << ti954::CSI_ENABLE) | (clock << ti954::CSI_CONTS_CLOCK) | (code
        << ti954::CSI_LANE_COUNT) | (1u32 << ti954::CSI_CAL_EN)
}

/// Returns the value of the back-channel configuration register.
pub fn back_channel_config(pass_through_all: bool) -> (r: u32)
    ensures
        r == spec_back_channel_config(pass_through_all),
{
    let all: u32 = if pass_through_all {
        1
    } else {
        0
    };
    assert((6u32 << 0u32) | (1u32 << 3u32) | (1u32 << 4u32) | (all << 7u32) | (1u32 << 6u32) == 0x5e
        + 0x80 * all) by (bit_vector)
        requires
            all <= 1,
    ;
    (ti954::BC_FREQ_50M << ti954::BC_FREQ_SELECT) | (1u32 << ti954::BC_CRC_GENERATOR_ENABLE) | (1u32
        << ti954::BC_ALWAYS_ON) | (all << ti954::I2C_PASS_THROUGH_ALL) | (1u32
        << ti954::I2C_PASS_THROUGH)
}

/// Returns whether a device status says that the back-channel is up.
pub fn backchannel_ready(status: u32) -> (r: bool)
    ensures
        r == spec_backchannel_ready(status),
{
    (status & 0xff) == BACKCHANNEL_READY
}

/// Returns the value of a back-channel GPIO control register for the
/// control codes of its two pins.
pub fn gpio_control(low: u32, high: u32) -> (r: u32)
    ensures
        r == spec_gpio_control(low, high),
{
    assert((low << 0u32) | (high << 4u32) == low | (high << 4u32)) by (bit_vector);
    (low << ti954::BC_GPIO0_SEL) | (high << ti954::BC_GPIO1_SEL)
}

/// Returns the register that holds `which` and the value that it is given
/// for a serializer configured as `config`.
pub fn port_write(which: PortWrite, config: &SerializerConfig) -> (r: (u32, u32))
    ensures
        r.0 == port_write_register(which),
        r.1 == port_write_value(which, *config),
{
    match which {
        PortWrite::BackChannel => (
            ti954::REG_BCC_CONFIG,
            back_channel_config(config.i2c_pass_through_all),
        ),
        PortWrite::Alias => (ti954::REG_SER_ALIAS_ID, config.i2c_address << ti954::SER_ALIAS_ID),
        PortWrite::GpioControl0 => (
            ti954::REG_BC_GPIO_CTL0,
            gpio_control(config.gpio[0].control, config.gpio[1].control),
        ),
        PortWrite::GpioControl1 => (
            ti954::REG_BC_GPIO_CTL1,
            gpio_control(config.gpio[2].control, config.gpio[3].control),
        ),
    }
}

/// Returns write number `index` of those that arm the pattern generator,
/// as the register written and its value.
pub fn test_pattern_write(index: usize) -> (r: (u32, u32))
    requires
        index < TEST_PATTERN_WRITES,
    ensures
        r == spec_test_pattern_write(index as int),
{
    sequence_write(PATTERN_BLOCK, &PATTERN_REGISTERS, &PATTERN_VALUES, index)
}

/// Returns the action that step `step` of the port of `config` is waiting
/// for.
pub fn port_action(config: &SerializerConfig, step: PortStep) -> (r: Action)
    ensures
        r == port_pending(*config, step),
{
    match step {
        PortStep::ReadPortControl => Action::Read { addr: ti954::REG_RX_PORT_CTL },
        PortStep::EnablePort { value } => Action::Write { addr: ti954::REG_RX_PORT_CTL, value },
        PortStep::Calibrate => Action::Delay { ms: CALIBRATE_MS },
        PortStep::ReadForwarding => Action::Read { addr: ti954::REG_FWD_CTL1 },
        PortStep::EnableForwarding { value } => Action::Write { addr: ti954::REG_FWD_CTL1, value },
        PortStep::ForwardSettle => Action::Delay { ms: FORWARD_SETTLE_MS },
        PortStep::Select { next: _ } => {
            let value = match config.rx_channel {
                RxPort::Zero => 0b01,
                RxPort::One => 0b10,
                RxPort::Both => 0b11,
            };
            Action::Write { addr: ti954::REG_FPD3_PORT_SEL, value }
        },
        PortStep::Write { which } => {
            let (addr, value) = port_write(which, config);
            Action::Write { addr, value }
        },
        PortStep::PollWait { attempt: _ } => Action::Delay { ms: POLL_INTERVAL_MS },
        PortStep::PollStatus { attempt: _ } => Action::Read { addr: ti954::REG_DEVICE_STS },
        PortStep::CleanupReadPortControl => Action::Read { addr: ti954::REG_RX_PORT_CTL },
        PortStep::CleanupDisablePort { value } => Action::Write {
            addr: ti954::REG_RX_PORT_CTL,
            value,
        },
        PortStep::CleanupReadForwarding => Action::Read { addr: ti954::REG_FWD_CTL1 },
        PortStep::CleanupDisableForwarding { value } => Action::Write {
            addr: ti954::REG_FWD_CTL1,
            value,
        },
    }
}

impl DeviceState {
    /// Returns the action that the state is waiting for.
    pub fn next_action(&self) -> (r: Action)
        requires
            self.wf(),
        ensures
            r == self.pending(),
    {
        match self.stage {
            Stage::PowerUp => if self.pdb_gpio {
                Action::SetPowerDown { high: true }
            } else {
                Action::Delay { ms: POWER_SETTLE_MS }
            },
            Stage::PowerSettle => Action::Delay { ms: POWER_SETTLE_MS },
            Stage::ReadDeviceId => Action::Read { addr: ti954::REG_I2C_DEV_ID },
            Stage::ReadRevision => Action::Read { addr: ti954::REG_REVISION },
            Stage::ReadIdCode { index } => Action::Read {
                addr: ti954::REG_FPD3_RX_ID0 + index as u32,
            },
            Stage::DisableSelfTest => Action::Write { addr: ti954::REG_BIST_CONTROL, value: 0 },
            Stage::SetLaneSpeed => Action::Write {
                addr: ti954::REG_CSI_PLL_CTL,
                value: lane_speed_code(self.csi_lane_speed),
            },
            Stage::SetCsiControl => Action::Write {
                addr: ti954::REG_CSI_CTL,
                value: csi_control(self.csi_lane_count, self.continuous_clock),
            },
            Stage::LaneSettle => Action::Delay { ms: LANE_SETTLE_MS },
            Stage::TestPattern { index } => {
                let (addr, value) = test_pattern_write(index);
                Action::Write { addr, value }
            },
            Stage::EnablePassLock => Action::Write {
                addr: ti954::REG_RX_PORT_CTL,
                value: PASS_LOCK_ALL_PORTS,
            },
            Stage::Port { index: _, config, step } => port_action(&config, step),
            Stage::GpioInputEnable => Action::Write {
                addr: ti954::REG_GPIO_INPUT_CTL,
                value: ALL_GPIO_INPUT,
            },
            Stage::GpioPinControl { pin } => Action::Write {
                addr: ti954::REG_GPIO0_PIN_CTL + pin,
                value: 0,
            },
            Stage::FinalSettle => Action::Delay { ms: FINAL_SETTLE_MS },
            Stage::Ready => Action::Done,
            Stage::Failed { error } => Action::Abort { error },
        }
    }

    fn goto(self, stage: Stage) -> (r: DeviceState)
        ensures
            r == self.at(stage),
    {
        DeviceState { stage, ..self }
    }

    fn goto_or_abort(self, stage: Stage, register: u32, outcome: Outcome) -> (r: DeviceState)
        ensures
            r == self.at_or_aborted(stage, register, outcome),
    {
        match outcome {
            Ok(_) => self.goto(stage),
            Err(fault) => self.goto(Stage::Failed { error: Error::from_fault(register, fault) }),
        }
    }

    fn goto_port(self, index: usize, config: SerializerConfig, step: PortStep) -> (r: DeviceState)
        ensures
            r == self.at_port(index, config, step),
    {
        self.goto(Stage::Port { index, config, step })
    }

    fn enter_ports(self, from: usize) -> (r: DeviceState)
        requires
            from <= NUM_SERIALIZER,
        ensures
            r == self.at_port_from(from as int),
    {
        let mut i = from;
        while i < NUM_SERIALIZER
            invariant
                from <= i <= NUM_SERIALIZER,
                forall|j: int| from <= j < i ==> self.serializers[j] is None,
            decreases NUM_SERIALIZER - i,
        {
            if let Some(config) = self.serializers[i] {
                return self.goto_port(i, config, PortStep::ReadPortControl);
            }
            i += 1;
        }
        self.goto(Stage::GpioInputEnable)
    }

    fn enter_port_write(self, index: usize, config: SerializerConfig, which: PortWrite) -> (r:
        DeviceState)
        ensures
            r == self.at_port_write(index, config, which),
    {
        match self.selected_rx_port.ensure_selected_for_write(config.rx_channel) {
            None => self.goto_port(index, config, PortStep::Write { which }),
            Some(_) => self.goto_port(index, config, PortStep::Select { next: which }),
        }
    }

    fn fail_port(self, index: usize, config: SerializerConfig, error: Error) -> (r: DeviceState)
        requires
            index < NUM_SERIALIZER,
        ensures
            r == self.port_failed(index, config, error),
    {
        let mut next = self;
        next.serializers[index] = None;
        next.port_errors[index] = Some(error);
        next.stage = Stage::Port { index, config, step: PortStep::CleanupReadPortControl };
        assert(next.serializers =~= without_serializer(self.serializers, index as int));
        assert(next.port_errors =~= with_port_error(self.port_errors, index as int, error));
        next
    }

    fn goto_port_or_fail(
        self,
        index: usize,
        config: SerializerConfig,
        step: PortStep,
        register: u32,
        outcome: Outcome,
    ) -> (r: DeviceState)
        requires
            index < NUM_SERIALIZER,
        ensures
            r == self.at_port_or_failed(index, config, step, register, outcome),
    {
        match outcome {
            Ok(_) => self.goto_port(index, config, step),
            Err(fault) => self.fail_port(index, config, Error::from_fault(register, fault)),
        }
    }

    fn skip_port_write(
        self,
        index: usize,
        config: SerializerConfig,
        which: PortWrite,
        register: u32,
        outcome: Outcome,
    ) -> (r: DeviceState)
        requires
            index < NUM_SERIALIZER,
            outcome is Err,
        ensures
            r == self.port_write_skipped(index, config, which, register, outcome),
    {
        match (which, outcome) {
            (PortWrite::GpioControl0, _) => self.enter_port_write(
                index,
                config,
                PortWrite::GpioControl1,
            ),
            (PortWrite::GpioControl1, _) => self.enter_ports(index + 1),
            (_, Err(fault)) => self.fail_port(index, config, Error::from_fault(register, fault)),
            (_, Ok(_)) => self,
        }
    }

    fn port_step(self, index: usize, config: SerializerConfig, step: PortStep, outcome: Outcome)
        -> (r: DeviceState)
        requires
            self.wf(),
            self.stage == (Stage::Port { index, config, step }),
        ensures
            r == self.port_advanced(index, config, step, outcome),
            r.wf(),
    {
        let port = config.rx_channel.to_u32();
        match step {
            PortStep::ReadPortControl => match outcome {
                Ok(value) => self.goto_port(
                    index,
                    config,
                    PortStep::EnablePort { value: value | (1u32 << (ti954::PORT0_EN + port)) },
                ),
                Err(fault) => self.fail_port(
                    index,
                    config,
                    Error::from_fault(ti954::REG_RX_PORT_CTL, fault),
                ),
            },
            PortStep::EnablePort { value: _ } => self.goto_port_or_fail(
                index,
                config,
                PortStep::Calibrate,
                ti954::REG_RX_PORT_CTL,
                outcome,
            ),
            PortStep::Calibrate => self.goto_port(index, config, PortStep::ReadForwarding),
            PortStep::ReadForwarding => match outcome {
                Ok(value) => self.goto_port(
                    index,
                    config,
                    PortStep::EnableForwarding {
                        value: value & !(1u32 << (ti954::FWD_PORT0_DIS + port)),
                    },
                ),
                Err(fault) => self.fail_port(
                    index,
                    config,
                    Error::from_fault(ti954::REG_FWD_CTL1, fault),
                ),
            },
            PortStep::EnableForwarding { value: _ } => self.goto_port_or_fail(
                index,
                config,
                PortStep::ForwardSettle,
                ti954::REG_FWD_CTL1,
                outcome,
            ),
            PortStep::ForwardSettle => self.enter_port_write(index, config, PortWrite::BackChannel),
            PortStep::Select { next } => match outcome {
                Ok(_) => {
                    let mut selected = self;
                    selected.selected_rx_port.record(config.rx_channel, outcome);
                    selected.goto_port(index, config, PortStep::Write { which: next })
                },
                Err(_) => self.skip_port_write(
                    index,
                    config,
                    next,
                    ti954::REG_FPD3_PORT_SEL,
                    outcome,
                ),
            },
            PortStep::Write { which } => match outcome {
                Ok(_) => match which {
                    PortWrite::BackChannel => self.goto_port(
                        index,
                        config,
                        PortStep::PollWait { attempt: 0 },
                    ),
                    PortWrite::Alias => self.enter_port_write(
                        index,
                        config,
                        PortWrite::GpioControl0,
                    ),
                    PortWrite::GpioControl0 => self.enter_port_write(
                        index,
                        config,
                        PortWrite::GpioControl1,
                    ),
                    PortWrite::GpioControl1 => self.enter_ports(index + 1),
                },
                Err(_) => {
                    let (register, _) = port_write(which, &config);
                    self.skip_port_write(index, config, which, register, outcome)
                },
            },
            PortStep::PollWait { attempt } => self.goto_port(
                index,
                config,
                PortStep::PollStatus { attempt },
            ),
            PortStep::PollStatus { attempt } => match outcome {
                Ok(status) => if backchannel_ready(status) {
                    self.enter_port_write(index, config, PortWrite::Alias)
                } else if attempt + 1 < POLL_ATTEMPTS {
                    self.goto_port(index, config, PortStep::PollWait { attempt: attempt + 1 })
                } else {
                    self.fail_port(index, config, Error::BackchannelTimeout)
                },
                Err(fault) => self.fail_port(
                    index,
                    config,
                    Error::from_fault(ti954::REG_DEVICE_STS, fault),
                ),
            },
            PortStep::CleanupReadPortControl => match outcome {
                Ok(value) => self.goto_port(
                    index,
                    config,
                    PortStep::CleanupDisablePort {
                        value: value & (0xffu32 ^ (1u32 << (ti954::PORT0_EN + port))),
                    },
                ),
                Err(_) => self.goto_port(index, config, PortStep::CleanupReadForwarding),
            },
            PortStep::CleanupDisablePort { value: _ } => self.goto_port(
                index,
                config,
                PortStep::CleanupReadForwarding,
            ),
            PortStep::CleanupReadForwarding => match outcome {
                Ok(value) => self.goto_port(
                    index,
                    config,
                    PortStep::CleanupDisableForwarding {
                        value: value | (1u32 << (ti954::FWD_PORT0_DIS + port)),
                    },
                ),
                Err(_) => self.enter_ports(index + 1),
            },
            PortStep::CleanupDisableForwarding { value: _ } => self.enter_ports(index + 1),
        }
    }

    /// Returns the state after the pending action ended in `outcome`: the
    /// value read, or the transport's fault. For a write, a delay or a
    /// change of the power-down line only a fault counts, and of these only
    /// that of a write.
    pub fn step(self, outcome: Outcome) -> (r: DeviceState)
        requires
            self.wf(),
        ensures
            r == self.advanced(outcome),
            r.wf(),
    {
        match self.stage {
            Stage::PowerUp => if self.pdb_gpio {
                self.goto(Stage::PowerSettle)
            } else {
                self.goto(Stage::ReadDeviceId)
            },
            Stage::PowerSettle => self.goto(Stage::ReadDeviceId),
            Stage::ReadDeviceId => match outcome {
                Ok(value) => DeviceState { device_id: value, stage: Stage::ReadRevision, ..self },
                Err(_) => self.goto_or_abort(Stage::Ready, ti954::REG_I2C_DEV_ID, outcome),
            },
            Stage::ReadRevision => match outcome {
                Ok(value) => DeviceState {
                    revision: value,
                    stage: Stage::ReadIdCode { index: 0 },
                    ..self
                },
                Err(_) => self.goto_or_abort(Stage::Ready, ti954::REG_REVISION, outcome),
            },
            Stage::ReadIdCode { index } => match outcome {
                Ok(value) => {
                    let mut next = self;
                    next.id_code[index] = (value % 256) as u8;
                    next.stage = if index + 1 < ti954::RX_ID_LENGTH {
                        Stage::ReadIdCode { index: index + 1 }
                    } else {
                        Stage::DisableSelfTest
                    };
                    assert(next.id_code =~= with_id_byte(
                        self.id_code,
                        index as int,
                        (value % 256) as u8,
                    ));
                    next
                },
                Err(_) => self.goto_or_abort(
                    Stage::Ready,
                    ti954::REG_FPD3_RX_ID0 + index as u32,
                    outcome,
                ),
            },
            Stage::DisableSelfTest => self.goto_or_abort(
                Stage::SetLaneSpeed,
                ti954::REG_BIST_CONTROL,
                outcome,
            ),
            Stage::SetLaneSpeed => self.goto_or_abort(
                Stage::SetCsiControl,
                ti954::REG_CSI_PLL_CTL,
                outcome,
            ),
            Stage::SetCsiControl => self.goto_or_abort(
                Stage::LaneSettle,
                ti954::REG_CSI_CTL,
                outcome,
            ),
            Stage::LaneSettle => if self.test_pattern {
                self.goto(Stage::TestPattern { index: 0 })
            } else {
                self.goto(Stage::EnablePassLock)
            },
            Stage::TestPattern { index } => if outcome.is_err() {
                self.goto(Stage::EnablePassLock)
            } else if index + 1 < TEST_PATTERN_WRITES {
                self.goto(Stage::TestPattern { index: index + 1 })
            } else {
                DeviceState { test_pattern_armed: true, stage: Stage::EnablePassLock, ..self }
            },
            Stage::EnablePassLock => match outcome {
                Ok(_) => self.enter_ports(0),
                Err(_) => self.goto_or_abort(Stage::Ready, ti954::REG_RX_PORT_CTL, outcome),
            },
            Stage::Port { index, config, step } => self.port_step(index, config, step, outcome),
            Stage::GpioInputEnable => self.goto_or_abort(
                Stage::GpioPinControl { pin: 0 },
                ti954::REG_GPIO_INPUT_CTL,
                outcome,
            ),
            Stage::GpioPinControl { pin } => self.goto_or_abort(
                if pin + 1 < ti954::NUM_GPIO {
                    Stage::GpioPinControl { pin: pin + 1 }
                } else {
                    Stage::FinalSettle
                },
                ti954::REG_GPIO0_PIN_CTL + pin,
                outcome,
            ),
            Stage::FinalSettle => self.goto(Stage::Ready),
            Stage::Ready => self,
            Stage::Failed { error: _ } => self,
        }
    }
}

} // verus!
