//! What holds of every run of the bring-up sequence, whatever the bus
//! answers: it ends, it moves through its phases in order, a port that
//! fails takes no other part of the sequence with it, and a serializer that
//! was deactivated stays so.

use vstd::prelude::*;
use crate::bits::spec_genmask32;
use crate::bringup::{
    spec_backchannel_ready, with_forwarding_disabled, with_forwarding_enabled, with_port_disabled,
    with_port_enabled, Action, DeviceState, Phase, PortStep, PortWrite, Stage, POLL_ATTEMPTS,
    TEST_PATTERN_WRITES,
};
use crate::config::{Ds90ub954ParseDtReturn, SerializerConfig, NUM_SERIALIZER};
use crate::deserializer::created;
use crate::error::{Error, Outcome};
use crate::regmap::{field_write, RegField};
use crate::rx_port::{selection_after, RxPort};
use crate::ti954;

verus! {

/// The most outcomes that it takes to finish with one serializer.
pub const PORT_STEPS: u32 = 114;

/// The most outcomes that it takes to finish bring-up.
pub const BRINGUP_STEPS: u32 = 283;

/// The most outcomes that a port standing at `step` still takes.
pub open spec fn port_steps_left(step: PortStep) -> nat {
    match step {
        PortStep::ReadPortControl => 114,
        PortStep::EnablePort { value } => 113,
        PortStep::Calibrate => 112,
        PortStep::ReadForwarding => 111,
        PortStep::EnableForwarding { value } => 110,
        PortStep::ForwardSettle => 109,
        PortStep::Select { next } => match next {
            PortWrite::BackChannel => 108,
            PortWrite::Alias => 6,
            PortWrite::GpioControl0 => 4,
            PortWrite::GpioControl1 => 2,
        },
        PortStep::Write { which } => match which {
            PortWrite::BackChannel => 107,
            PortWrite::Alias => 5,
            PortWrite::GpioControl0 => 3,
            PortWrite::GpioControl1 => 1,
        },
        PortStep::PollWait { attempt } => (8 + 2 * (POLL_ATTEMPTS - 1 - attempt)) as nat,
        PortStep::PollStatus { attempt } => (7 + 2 * (POLL_ATTEMPTS - 1 - attempt)) as nat,
        PortStep::CleanupReadPortControl => 4,
        PortStep::CleanupDisablePort { value } => 3,
        PortStep::CleanupReadForwarding => 2,
        PortStep::CleanupDisableForwarding { value } => 1,
    }
}

/// The most outcomes that bring-up still takes from `state` on.
pub open spec fn steps_left(state: DeviceState) -> nat {
    match state.stage {
        Stage::PowerUp => 283,
        Stage::PowerSettle => 282,
        Stage::ReadDeviceId => 281,
        Stage::ReadRevision => 280,
        Stage::ReadIdCode { index } => (273 + ti954::RX_ID_LENGTH - index) as nat,
        Stage::DisableSelfTest => 273,
        Stage::SetLaneSpeed => 272,
        Stage::SetCsiControl => 271,
        Stage::LaneSettle => 270,
        Stage::TestPattern { index } => (238 + TEST_PATTERN_WRITES - index) as nat,
        Stage::EnablePassLock => 238,
        Stage::Port { index, config, step } => (9 + PORT_STEPS * (NUM_SERIALIZER - 1 - index)
            + port_steps_left(step)) as nat,
        Stage::GpioInputEnable => 9,
        Stage::GpioPinControl { pin } => (1 + ti954::NUM_GPIO - pin) as nat,
        Stage::FinalSettle => 1,
        Stage::Ready => 0,
        Stage::Failed { error } => 0,
    }
}

/// The place of a phase in the order of the phases.
pub open spec fn phase_rank(phase: Phase) -> nat {
    match phase {
        Phase::Created => 0,
        Phase::PowerEnabled => 1,
        Phase::Identified => 2,
        Phase::LaneConfigured => 3,
        Phase::TestPatternArmed => 4,
        Phase::PortsInitializing => 5,
        Phase::PortsFinalized => 6,
        Phase::Ready => 7,
        Phase::ProbeFailed => 8,
    }
}

/// The state after the pending actions ended in `outcomes`, one after the
/// other.
pub open spec fn advanced_by(state: DeviceState, outcomes: Seq<Outcome>) -> DeviceState
    decreases outcomes.len(),
{
    if outcomes.len() == 0 {
        state
    } else {
        advanced_by(state.advanced(outcomes.first()), outcomes.drop_first())
    }
}

/// The outcomes of polling the device status once for each of `statuses`:
/// a wait that has passed, then the status read.
pub open spec fn poll_outcomes(statuses: Seq<u32>) -> Seq<Outcome> {
    Seq::new(
        2 * statuses.len(),
        |i: int|
            if i % 2 == 0 {
                Ok(0u32)
            } else {
                Ok(statuses[i / 2])
            },
    )
}

/// Every outcome keeps the counters of the state within their ranges.
pub proof fn lemma_advanced_is_well_formed(state: DeviceState, outcome: Outcome)
    requires
        state.wf(),
    ensures
        state.advanced(outcome).wf(),
{
}

/// Entering the ports from serializer `from` on leaves at most the steps of
/// the serializers from `from` on and of the pin setup.
proof fn lemma_steps_left_at_port_from(state: DeviceState, from: int)
    requires
        0 <= from <= NUM_SERIALIZER,
    ensures
        steps_left(state.at_port_from(from)) <= 9 + PORT_STEPS * (NUM_SERIALIZER - from),
{
}

/// Standing before a port-scoped write leaves at most the steps from its
/// selection on.
proof fn lemma_steps_left_at_port_write(
    state: DeviceState,
    index: usize,
    config: SerializerConfig,
    which: PortWrite,
)
    requires
        index < NUM_SERIALIZER,
    ensures
        steps_left(state.at_port_write(index, config, which)) <= 9 + PORT_STEPS * (NUM_SERIALIZER
            - 1 - index) + port_steps_left(PortStep::Select { next: which }),
{
}

/// Every outcome brings a port closer to its end.
proof fn lemma_port_step_ends(
    state: DeviceState,
    index: usize,
    config: SerializerConfig,
    step: PortStep,
    outcome: Outcome,
)
    requires
        state.wf(),
        state.stage == (Stage::Port { index, config, step }),
    ensures
        steps_left(state.port_advanced(index, config, step, outcome)) < steps_left(state),
{
    let base = 9 + PORT_STEPS * (NUM_SERIALIZER - 1 - index);
    assert(steps_left(state) == base + port_steps_left(step));
    assert(steps_left(state.port_failed(index, config, Error::BackchannelTimeout)) == base + 4);
    lemma_steps_left_at_port_from(state, index + 1);
    lemma_steps_left_at_port_write(state, index, config, PortWrite::BackChannel);
    lemma_steps_left_at_port_write(state, index, config, PortWrite::Alias);
    lemma_steps_left_at_port_write(state, index, config, PortWrite::GpioControl0);
    lemma_steps_left_at_port_write(state, index, config, PortWrite::GpioControl1);
    match step {
        PortStep::Select { next } => {
            if outcome is Err {
                assert(steps_left(
                    state.port_write_skipped(
                        index,
                        config,
                        next,
                        ti954::REG_FPD3_PORT_SEL,
                        outcome,
                    ),
                ) < steps_left(state));
            }
        },
        PortStep::Write { which } => {
            if outcome is Err {
                assert(steps_left(
                    state.port_write_skipped(
                        index,
                        config,
                        which,
                        crate::bringup::port_write_register(which),
                        outcome,
                    ),
                ) < steps_left(state));
            }
        },
        _ => {},
    }
}

/// Every outcome brings a state that is not final closer to its end, and no
/// state is further from its end than `BRINGUP_STEPS` outcomes. So
/// bring-up ends after at most that many actions, whatever their outcomes.
pub proof fn lemma_bringup_ends(state: DeviceState, outcome: Outcome)
    requires
        state.wf(),
    ensures
        steps_left(state) <= BRINGUP_STEPS,
        state.is_terminal() <==> steps_left(state) == 0,
        !state.is_terminal() ==> steps_left(state.advanced(outcome)) < steps_left(state),
        state.is_terminal() ==> state.advanced(outcome) == state,
{
    match state.stage {
        Stage::Port { index, config, step } => {
            lemma_port_step_ends(state, index, config, step, outcome);
        },
        Stage::EnablePassLock => {
            lemma_steps_left_at_port_from(state, 0);
        },
        _ => {},
    }
}

/// No outcome takes the sequence back to an earlier phase.
pub proof fn lemma_phases_in_order(state: DeviceState, outcome: Outcome)
    requires
        state.wf(),
    ensures
        phase_rank(state.phase()) <= phase_rank(state.advanced(outcome).phase()),
{
}

/// No register is accessed before the device has had its time to start.
pub proof fn lemma_no_access_before_settle(state: DeviceState)
    requires
        state.stage is PowerUp || state.stage is PowerSettle,
    ensures
        !(state.pending() is Read),
        !(state.pending() is Write),
{
}

/// Whether bring-up cannot go on if the pending action fails: it is a
/// register access that belongs neither to the test pattern nor to the
/// bring-up of a port.
pub open spec fn is_fatal_stage(state: DeviceState) -> bool {
    match state.stage {
        Stage::ReadDeviceId => true,
        Stage::ReadRevision => true,
        Stage::ReadIdCode { index } => true,
        Stage::DisableSelfTest => true,
        Stage::SetLaneSpeed => true,
        Stage::SetCsiControl => true,
        Stage::EnablePassLock => true,
        Stage::GpioInputEnable => true,
        Stage::GpioPinControl { pin } => true,
        _ => false,
    }
}

/// Whether no outcome of the run fails an action whose failure is fatal.
pub open spec fn survives(state: DeviceState, outcomes: Seq<Outcome>) -> bool
    decreases outcomes.len(),
{
    outcomes.len() == 0 || ((outcomes.first() is Ok || !is_fatal_stage(state)) && survives(
        state.advanced(outcomes.first()),
        outcomes.drop_first(),
    ))
}

/// Bring-up fails exactly when a register access fails whose failure is
/// fatal, and then with the error of that access. While the test pattern
/// is written or a port is brought up, no outcome fails bring-up.
pub proof fn lemma_port_failure_is_isolated(state: DeviceState, outcome: Outcome)
    requires
        state.wf(),
        !(state.stage is Failed),
    ensures
        state.advanced(outcome).stage is Failed <==> is_fatal_stage(state) && outcome is Err,
        state.stage is Port || state.stage is TestPattern ==> !is_fatal_stage(state),
        state.advanced(outcome).stage is Failed ==> match state.pending() {
            Action::Read { addr } => state.advanced(outcome).stage->error == Error::transport(
                addr,
                outcome->Err_0,
            ),
            Action::Write { addr, value } => state.advanced(outcome).stage->error
                == Error::transport(addr, outcome->Err_0),
            _ => false,
        },
{
}

/// An outcome leaves each serializer as it is or deactivates it; it never
/// activates one. It deactivates none but the one whose port is being
/// brought up, and records why.
pub proof fn lemma_serializers_only_deactivated(state: DeviceState, outcome: Outcome, i: int)
    requires
        state.wf(),
        0 <= i < NUM_SERIALIZER,
    ensures
        state.advanced(outcome).serializers[i] == state.serializers[i] || (state.advanced(
            outcome,
        ).serializers[i] is None && state.advanced(outcome).port_errors[i] is Some && state.stage
            is Port && state.stage->Port_index == i),
{
}

/// The port that is taken to be selected changes only when a select write
/// has succeeded, and then to the port of that write.
pub proof fn lemma_selection_follows_select_writes(state: DeviceState, outcome: Outcome)
    requires
        state.wf(),
    ensures
        state.advanced(outcome).selected_rx_port@ == (match state.stage {
            Stage::Port { index, config, step: PortStep::Select { next } } => selection_after(
                state.selected_rx_port@,
                config.rx_channel,
                outcome,
            ),
            _ => state.selected_rx_port@,
        }),
{
}

/// A serializer that is not active is not active after any run of
/// outcomes: within one bring-up no port is tried again.
pub proof fn lemma_deactivated_stays_deactivated(
    state: DeviceState,
    outcomes: Seq<Outcome>,
    i: int,
)
    requires
        state.wf(),
        0 <= i < NUM_SERIALIZER,
        state.serializers[i] is None,
    ensures
        advanced_by(state, outcomes).serializers[i] is None,
    decreases outcomes.len(),
{
    if outcomes.len() > 0 {
        lemma_serializers_only_deactivated(state, outcomes.first(), i);
        lemma_advanced_is_well_formed(state, outcomes.first());
        lemma_deactivated_stays_deactivated(
            state.advanced(outcomes.first()),
            outcomes.drop_first(),
            i,
        );
    }
}

/// A run without a fatal failure that is as long as the steps that the
/// state has left ends with the device ready, whatever the registers read
/// and however many ports fail on the way.
pub proof fn lemma_bringup_succeeds_unless_fatal(state: DeviceState, outcomes: Seq<Outcome>)
    requires
        state.wf(),
        !(state.stage is Failed),
        survives(state, outcomes),
        outcomes.len() >= steps_left(state),
    ensures
        advanced_by(state, outcomes).stage is Ready,
    decreases outcomes.len(),
{
    lemma_bringup_ends(state, Ok(0));
    if outcomes.len() > 0 {
        let next = state.advanced(outcomes.first());
        lemma_bringup_ends(state, outcomes.first());
        lemma_advanced_is_well_formed(state, outcomes.first());
        lemma_port_failure_is_isolated(state, outcomes.first());
        lemma_bringup_succeeds_unless_fatal(next, outcomes.drop_first());
    }
}

/// On a bus on which every access succeeds, no run has a fatal failure.
pub proof fn lemma_working_bus_survives(state: DeviceState, outcomes: Seq<Outcome>)
    requires
        forall|k: int| 0 <= k < outcomes.len() ==> (#[trigger] outcomes[k]) is Ok,
    ensures
        survives(state, outcomes),
    decreases outcomes.len(),
{
    if outcomes.len() > 0 {
        assert(outcomes.first() is Ok);
        assert forall|k: int| 0 <= k < outcomes.drop_first().len() implies (
        #[trigger] outcomes.drop_first()[k]) is Ok by {
            assert(outcomes.drop_first()[k] == outcomes[k + 1]);
        }
        lemma_working_bus_survives(state.advanced(outcomes.first()), outcomes.drop_first());
    }
}

/// The handshake with a serializer, from the wait before poll number
/// `attempt` on, when the device status reads `statuses` one after the
/// other. If the last of them is the first that says that the back-channel
/// is up, the sequence goes on to the serializer's alias. If none of them
/// says so and they use up the polls that are left, the port has failed
/// with a timeout: the serializer is deactivated and its port about to be
/// shut off.
pub proof fn lemma_handshake(
    state: DeviceState,
    index: usize,
    config: SerializerConfig,
    attempt: u32,
    statuses: Seq<u32>,
)
    requires
        state.wf(),
        state.stage == (Stage::Port { index, config, step: PortStep::PollWait { attempt } }),
        attempt + statuses.len() <= POLL_ATTEMPTS,
    ensures
        statuses.len() > 0 && spec_backchannel_ready(statuses.last()) && (forall|i: int|
            0 <= i < statuses.len() - 1 ==> !spec_backchannel_ready(#[trigger] statuses[i]))
            ==> advanced_by(state, poll_outcomes(statuses)) == state.at_port_write(
            index,
            config,
            PortWrite::Alias,
        ),
        attempt + statuses.len() == POLL_ATTEMPTS && (forall|i: int|
            0 <= i < statuses.len() ==> !spec_backchannel_ready(#[trigger] statuses[i]))
            ==> advanced_by(state, poll_outcomes(statuses)) == state.port_failed(
            index,
            config,
            Error::BackchannelTimeout,
        ),
    decreases statuses.len(),
{
    let outcomes = poll_outcomes(statuses);
    if statuses.len() > 0 {
        let waited = state.advanced(outcomes[0]);
        let polled = waited.advanced(outcomes[1]);
        let rest = statuses.drop_first();
        assert(outcomes.drop_first().drop_first() =~= poll_outcomes(rest));
        assert(outcomes.drop_first().first() == outcomes[1]);
        assert(advanced_by(state, outcomes) == advanced_by(polled, poll_outcomes(rest))) by {
            assert(advanced_by(state, outcomes) == advanced_by(waited, outcomes.drop_first()));
        }
        assert(outcomes[1] == Ok::<u32, crate::error::BusFault>(statuses[0]));
        if spec_backchannel_ready(statuses[0]) {
            assert(polled == state.at_port_write(index, config, PortWrite::Alias));
            if statuses.len() == 1 {
                assert(advanced_by(polled, poll_outcomes(rest)) == polled);
            }
        } else if attempt + 1 < POLL_ATTEMPTS {
            assert(polled == state.at_port(
                index,
                config,
                PortStep::PollWait { attempt: (attempt + 1) as u32 },
            ));
            lemma_handshake(polled, index, config, (attempt + 1) as u32, rest);
            assert(forall|i: int| 0 <= i < rest.len() ==> rest[i] == statuses[i + 1]);
            if rest.len() > 0 {
                assert(rest.last() == statuses.last());
            }
            assert(polled.at_port_write(index, config, PortWrite::Alias) == state.at_port_write(
                index,
                config,
                PortWrite::Alias,
            ));
            assert(polled.port_failed(index, config, Error::BackchannelTimeout)
                == state.port_failed(index, config, Error::BackchannelTimeout));
        } else {
            assert(statuses.len() == 1);
            assert(polled == state.port_failed(index, config, Error::BackchannelTimeout));
            assert(advanced_by(polled, poll_outcomes(rest)) == polled);
        }
    }
}

/// Whether a pending write to a port-scoped register finds its port
/// selected.
pub open spec fn port_is_selected(state: DeviceState) -> bool {
    state.stage matches Stage::Port { index, config, step: PortStep::Write { which } }
        ==> state.selected_rx_port@ == Some(config.rx_channel)
}

/// No write to a port-scoped register is asked for before its port is
/// selected: this holds of a device that was just created, and every
/// outcome keeps it.
pub proof fn lemma_port_writes_are_selected(
    config: Ds90ub954ParseDtReturn,
    serializers: [Option<SerializerConfig>; NUM_SERIALIZER],
    state: DeviceState,
    outcome: Outcome,
)
    ensures
        created(config, serializers).wf(),
        port_is_selected(created(config, serializers)),
        state.wf() && port_is_selected(state) ==> port_is_selected(state.advanced(outcome)),
{
}

/// The place of the enable bit of `port` in the receiver port control
/// register.
pub open spec fn port_enable_bit(port: RxPort) -> RegField {
    RegField {
        reg: ti954::REG_RX_PORT_CTL,
        lsb: (ti954::PORT0_EN + port.spec_to_u32()) as u32,
        msb: (ti954::PORT0_EN + port.spec_to_u32()) as u32,
    }
}

/// The place of the forwarding-disable bit of `port` in the forwarding
/// control register.
pub open spec fn forward_disable_bit(port: RxPort) -> RegField {
    RegField {
        reg: ti954::REG_FWD_CTL1,
        lsb: (ti954::FWD_PORT0_DIS + port.spec_to_u32()) as u32,
        msb: (ti954::FWD_PORT0_DIS + port.spec_to_u32()) as u32,
    }
}

proof fn lemma_bit_merges(value: u32, pos: u32)
    by (bit_vector)
    requires
        pos < 8,
    ensures
        value | (1u32 << pos) == (value & !spec_genmask32(pos, pos)) | ((1u32 << pos)
            & spec_genmask32(pos, pos)),
        value & !(1u32 << pos) == (value & !spec_genmask32(pos, pos)) | ((0u32 << pos)
            & spec_genmask32(pos, pos)),
        value & (0xffu32 ^ (1u32 << pos)) == ((value & !spec_genmask32(pos, pos)) | ((0u32 << pos)
            & spec_genmask32(pos, pos))) & 0xffu32,
{
}

/// What bring-up writes back to the two control registers is the register
/// as it was read with one field written: the enable bit or the
/// forwarding-disable bit of the port at hand. So the bits of the other
/// port, and all other bits of the two registers, stay as they were read;
/// only shutting a port off also drops what was read above the low byte.
pub proof fn lemma_port_bits_are_field_writes(value: u32, port: RxPort)
    ensures
        port_enable_bit(port).valid(),
        forward_disable_bit(port).valid(),
        with_port_enabled(value, port) == field_write(port_enable_bit(port), 1, false).merged(
            value,
        ),
        with_port_disabled(value, port) == field_write(port_enable_bit(port), 0, false).merged(
            value,
        ) & 0xff,
        with_forwarding_enabled(value, port) == field_write(
            forward_disable_bit(port),
            0,
            false,
        ).merged(value),
        with_forwarding_disabled(value, port) == field_write(
            forward_disable_bit(port),
            1,
            false,
        ).merged(value),
{
    let p = port.spec_to_u32();
    lemma_bit_merges(value, p);
    lemma_bit_merges(value, (ti954::FWD_PORT0_DIS + p) as u32);
}

} // verus!
