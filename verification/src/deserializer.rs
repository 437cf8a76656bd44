//! The handle of a DS90UB954 deserializer: created from the firmware
//! description, brought up action by action, and used afterwards for the
//! accesses to its port-scoped registers.

use vstd::prelude::*;
use crate::bringup::{Action, DeviceState, Phase, PortStep, Stage};
use crate::config::{
    are_parsed_serializers, ds90ub953_parse_dt, ds90ub954_parse_dt, parsed_deserializer,
    Ds90ub954ParseDtReturn, SerializerConfig, NUM_SERIALIZER,
};
use crate::error::{Error, Outcome};
use crate::fwnode::FwNode;
use crate::gpio::line_present;
use crate::rx_port::{
    read_rx_port, select_needed, selection_after, write_rx_port, BusOp, Direction, PortAccess,
    PortSelectionCache, RxPort,
};

verus! {

/// The state of a deserializer that was just created from `config`: no
/// action has been taken, no port is selected, nothing has been read.
pub open spec fn created(
    config: Ds90ub954ParseDtReturn,
    serializers: [Option<SerializerConfig>; NUM_SERIALIZER],
) -> DeviceState {
    DeviceState {
        pass_gpio: config.pass_gpio,
        lock_gpio: config.lock_gpio,
        pdb_gpio: config.pdb_gpio,
        serializers,
        port_errors: [None, None],
        selected_rx_port: PortSelectionCache { selected: None },
        csi_lane_count: config.csi_lane_count,
        csi_lane_speed: config.csi_lane_speed,
        test_pattern: config.test_pattern,
        continuous_clock: config.continuous_clock,
        test_pattern_armed: false,
        device_id: 0,
        revision: 0,
        id_code: [0u8, 0u8, 0u8, 0u8, 0u8, 0u8],
        stage: Stage::PowerUp,
    }
}

/// A DS90UB954 deserializer with the serializers behind it.
#[derive(Debug)]
pub struct Ds90ub954 {
    state: DeviceState,
}

impl View for Ds90ub954 {
    type V = DeviceState;

    closed spec fn view(&self) -> DeviceState {
        self.state
    }
}

impl Ds90ub954 {
    #[verifier::type_invariant]
    spec fn stage_in_range(&self) -> bool {
        self.state.wf()
    }

    /// Creates the handle of a device that matched the driver.
    ///
    /// `id_info` is the entry of the driver's identifier tables that the
    /// device matched, `node` the firmware node of the deserializer and
    /// `serializers` those of its serializers. `pass`, `lock` and `pdb` are
    /// the outcomes of requesting the three optional lines. Without a match
    /// there is no device; a deferred line defers the probe. Otherwise the
    /// handle stands at the start of bring-up.
    pub fn probe(
        id_info: Option<()>,
        node: &FwNode,
        serializers: &Vec<FwNode>,
        pass: Result<(), i32>,
        lock: Result<(), i32>,
        pdb: Result<(), i32>,
    ) -> (r: Result<Ds90ub954, Error>)
        ensures
            id_info is None ==> r is Err && r->Err_0 == Error::NoDevice,
            id_info is Some && (line_present(pass) is Err || line_present(lock) is Err
                || line_present(pdb) is Err) ==> r is Err && r->Err_0 == Error::DeferredProbe,
            id_info is Some && line_present(pass) is Ok && line_present(lock) is Ok && line_present(
                pdb,
            ) is Ok ==> r is Ok && r->Ok_0@ == created(
                parsed_deserializer(
                    node.properties(),
                    line_present(pass)->Ok_0,
                    line_present(lock)->Ok_0,
                    line_present(pdb)->Ok_0,
                ),
                r->Ok_0@.serializers,
            ) && are_parsed_serializers(serializers@, r->Ok_0@.serializers),
    {
        if id_info.is_none() {
            return Err(Error::NoDevice);
        }
        let config = ds90ub954_parse_dt(node, pass, lock, pdb)?;
        let serializers = ds90ub953_parse_dt(serializers);
        let port_errors: [Option<Error>; NUM_SERIALIZER] = [None, None];
        let id_code: [u8; 6] = [0, 0, 0, 0, 0, 0];
        let state = DeviceState {
            pass_gpio: config.pass_gpio,
            lock_gpio: config.lock_gpio,
            pdb_gpio: config.pdb_gpio,
            serializers,
            port_errors,
            selected_rx_port: PortSelectionCache::new(),
            csi_lane_count: config.csi_lane_count,
            csi_lane_speed: config.csi_lane_speed,
            test_pattern: config.test_pattern,
            continuous_clock: config.continuous_clock,
            test_pattern_armed: false,
            device_id: 0,
            revision: 0,
            id_code,
            stage: Stage::PowerUp,
        };
        assert(state.port_errors =~= [None, None]);
        assert(state.id_code =~= [0u8, 0u8, 0u8, 0u8, 0u8, 0u8]);
        Ok(Ds90ub954 { state })
    }

    /// Returns the action that bring-up is waiting for. Once bring-up has
    /// ended, that is `Done` or `Abort` for good.
    pub fn pending(&self) -> (r: Action)
        ensures
            r == self@.pending(),
    {
        proof {
            use_type_invariant(self);
        }
        self.state.next_action()
    }

    /// Takes the outcome of the pending action and moves on: `Ok` with the
    /// value read, or the fault of the transport. Returns the action that
    /// is pending then.
    pub fn advance(&mut self, outcome: Outcome) -> (r: Action)
        ensures
            final(self)@ == old(self)@.advanced(outcome),
            r == final(self)@.pending(),
    {
        proof {
            use_type_invariant(&*self);
        }
        self.state = self.state.step(outcome);
        self.state.next_action()
    }

    /// Returns the state of the device.
    pub fn state(&self) -> (r: DeviceState)
        ensures
            r == self@,
            r.wf(),
    {
        proof {
            use_type_invariant(self);
        }
        self.state
    }

    /// Returns the phase that bring-up has reached.
    pub fn phase(&self) -> (r: Phase)
        ensures
            r == self@.phase(),
    {
        match self.state.stage {
            Stage::PowerUp => Phase::Created,
            Stage::PowerSettle => Phase::PowerEnabled,
            Stage::ReadDeviceId => Phase::PowerEnabled,
            Stage::ReadRevision => Phase::PowerEnabled,
            Stage::ReadIdCode { index: _ } => Phase::PowerEnabled,
            Stage::DisableSelfTest => Phase::Identified,
            Stage::SetLaneSpeed => Phase::Identified,
            Stage::SetCsiControl => Phase::Identified,
            Stage::LaneSettle => Phase::LaneConfigured,
            Stage::TestPattern { index: _ } => Phase::LaneConfigured,
            Stage::EnablePassLock => if self.state.test_pattern_armed {
                Phase::TestPatternArmed
            } else {
                Phase::LaneConfigured
            },
            Stage::Port { index: _, config: _, step: _ } => Phase::PortsInitializing,
            Stage::GpioInputEnable => Phase::PortsFinalized,
            Stage::GpioPinControl { pin: _ } => Phase::PortsFinalized,
            Stage::FinalSettle => Phase::PortsFinalized,
            Stage::Ready => Phase::Ready,
            Stage::Failed { error: _ } => Phase::ProbeFailed,
        }
    }

    /// Returns how bring-up has ended: `Some(Ok)` once the device is ready,
    /// `Some(Err)` with the error once it has failed, `None` before that.
    pub fn result(&self) -> (r: Option<Result<(), Error>>)
        ensures
            r is Some <==> self@.is_terminal(),
            self@.stage is Ready ==> r == Some(Ok::<(), Error>(())),
            self@.stage matches Stage::Failed { error } ==> r == Some(Err::<(), Error>(error)),
    {
        match self.state.stage {
            Stage::Ready => Some(Ok(())),
            Stage::Failed { error } => Some(Err(error)),
            _ => None,
        }
    }

    /// Returns the device identifier that was read during bring-up; 0
    /// before that.
    pub fn device_id(&self) -> (r: u32)
        ensures
            r == self@.device_id,
    {
        self.state.device_id
    }

    /// Returns the revision that was read during bring-up; 0 before that.
    pub fn revision(&self) -> (r: u32)
        ensures
            r == self@.revision,
    {
        self.state.revision
    }

    /// Returns the identification code that was read during bring-up; zeros
    /// before that.
    pub fn id_code(&self) -> (r: [u8; 6])
        ensures
            r == self@.id_code,
    {
        self.state.id_code
    }

    /// Holds the identification code that was read against the code that
    /// the caller expects of the chip. Bring-up itself accepts any code.
    pub fn check_id_code(&self, expected: &[u8; 6]) -> (r: Result<(), Error>)
        ensures
            self@.id_code@ == expected@ ==> r == Ok::<(), Error>(()),
            self@.id_code@ != expected@ ==> r == Err::<(), Error>(Error::DeviceIdMismatch),
    {
        let mut i: usize = 0;
        while i < 6
            invariant
                i <= 6,
                forall|k: int| 0 <= k < i ==> self.state.id_code@[k] == expected@[k],
            decreases 6 - i,
        {
            if self.state.id_code[i] != expected[i] {
                return Err(Error::DeviceIdMismatch);
            }
            i += 1;
        }
        assert(self.state.id_code@ =~= expected@);
        Ok(())
    }

    /// Returns the serializers that are configured and active.
    pub fn serializers(&self) -> (r: [Option<SerializerConfig>; NUM_SERIALIZER])
        ensures
            r == self@.serializers,
    {
        self.state.serializers
    }

    /// Returns why serializer `index` was deactivated, if it was.
    pub fn port_error(&self, index: usize) -> (r: Option<Error>)
        requires
            index < NUM_SERIALIZER,
        ensures
            r == self@.port_errors[index as int],
    {
        self.state.port_errors[index]
    }

    /// Returns the receive port that is selected for port-scoped accesses,
    /// as far as that is known.
    pub fn selected_rx_port(&self) -> (r: Option<RxPort>)
        ensures
            r == self@.selected_rx_port@,
    {
        self.state.selected_rx_port.selected()
    }

    /// Plans a read of the port-scoped register `addr` of `rx_port`: the
    /// select write that has to come first, if any, and the read.
    pub fn read_rx_port(&self, rx_port: RxPort, addr: u32) -> (r: PortAccess)
        ensures
            r.select == select_needed(self@.selected_rx_port@, rx_port, Direction::Read),
            r.access == (BusOp::Read { addr }),
    {
        read_rx_port(&self.state.selected_rx_port, rx_port, addr)
    }

    /// Plans a write of `value` to the port-scoped register `addr` of
    /// `rx_port`: the select write that has to come first, if any, and the
    /// write.
    pub fn write_rx_port(&self, rx_port: RxPort, addr: u32, value: u32) -> (r: PortAccess)
        ensures
            r.select == select_needed(self@.selected_rx_port@, rx_port, Direction::Write),
            r.access == (BusOp::Write { addr, value }),
    {
        write_rx_port(&self.state.selected_rx_port, rx_port, addr, value)
    }

    /// Records how the select write of a planned access to `rx_port` ended.
    /// A failed write leaves the selection as it was, so that the next
    /// access selects again.
    pub fn port_selected(&mut self, rx_port: RxPort, outcome: Outcome)
        ensures
            final(self)@ == (DeviceState {
                selected_rx_port: PortSelectionCache {
                    selected: selection_after(old(self)@.selected_rx_port@, rx_port, outcome),
                },
                ..old(self)@
            }),
    {
        proof {
            use_type_invariant(&*self);
        }
        let mut state = self.state;
        state.selected_rx_port.record(rx_port, outcome);
        self.state = state;
    }

    /// Returns what switches the device on: driving the power-down line
    /// high, if that line is wired.
    pub fn pwr_enable(&self) -> (r: Option<Action>)
        ensures
            r == (if self@.pdb_gpio {
                Some(Action::SetPowerDown { high: true })
            } else {
                None
            }),
    {
        if self.state.pdb_gpio {
            Some(Action::SetPowerDown { high: true })
        } else {
            None
        }
    }

    /// Returns what switches the device off when the driver lets go of it:
    /// driving the power-down line low, if that line is wired. No register
    /// is accessed on the way out.
    pub fn pwr_disable(&self) -> (r: Option<Action>)
        ensures
            r == (if self@.pdb_gpio {
                Some(Action::SetPowerDown { high: false })
            } else {
                None
            }),
    {
        if self.state.pdb_gpio {
            Some(Action::SetPowerDown { high: false })
        } else {
            None
        }
    }
}

} // verus!
