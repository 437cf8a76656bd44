use std::collections::HashMap;

use ds90ub954::bringup::{
    back_channel_config, backchannel_ready, csi_control, gpio_control, lane_count_code,
    lane_speed_code, port_action, port_write, test_pattern_write, Action, Phase, PortStep,
    PortWrite, Stage, PATTERN_REGISTERS, PATTERN_VALUES, TEST_PATTERN_WRITES,
};
use ds90ub954::config::parse_serializer;
use ds90ub954::indirect::{sequence_len, sequence_write};
use ds90ub954::deserializer::Ds90ub954;
use ds90ub954::error::{BusFault, Error, Outcome, EIO};
use ds90ub954::fwnode::{FwNode, PropertyValue};
use ds90ub954::invariants::BRINGUP_STEPS;
use ds90ub954::rx_port::RxPort;

/// What the caller did for the machine, in order.
#[derive(Debug, Clone, Copy, PartialEq, Eq)]
enum Done {
    Power(bool),
    Delay(u32),
    Read(u32),
    Write(u32, u32),
}

/// A bus that stores what is written, answers the device status from a
/// script, and fails the accesses it is told to fail.
struct StubBus {
    regs: HashMap<u32, u32>,
    log: Vec<Done>,
    status: Vec<u32>,
    status_reads: usize,
    fail_reads: Vec<u32>,
    fail_writes: Vec<u32>,
}

impl StubBus {
    fn new() -> StubBus {
        StubBus {
            regs: HashMap::new(),
            log: Vec::new(),
            status: Vec::new(),
            status_reads: 0,
            fail_reads: Vec::new(),
            fail_writes: Vec::new(),
        }
    }

    fn ready() -> StubBus {
        let mut bus = StubBus::new();
        bus.status = vec![0xdf; 8];
        bus
    }

    fn perform(&mut self, action: Action) -> Outcome {
        match action {
            Action::SetPowerDown { high } => {
                self.log.push(Done::Power(high));
                Ok(0)
            }
            Action::Delay { ms } => {
                self.log.push(Done::Delay(ms));
                Ok(0)
            }
            Action::Read { addr } => {
                self.log.push(Done::Read(addr));
                if self.fail_reads.contains(&addr) {
                    return Err(BusFault { errno: EIO });
                }
                if addr == 0x04 {
                    let value = self.status.get(self.status_reads).copied().unwrap_or(0);
                    self.status_reads += 1;
                    return Ok(value);
                }
                Ok(self.regs.get(&addr).copied().unwrap_or(0))
            }
            Action::Write { addr, value } => {
                self.log.push(Done::Write(addr, value));
                if self.fail_writes.contains(&addr) {
                    return Err(BusFault { errno: EIO });
                }
                self.regs.insert(addr, value);
                Ok(0)
            }
            Action::Done | Action::Abort { .. } => unreachable!(),
        }
    }

    fn writes_to(&self, addr: u32) -> Vec<u32> {
        self.log
            .iter()
            .filter_map(|d| match d {
                Done::Write(a, v) if *a == addr => Some(*v),
                _ => None,
            })
            .collect()
    }

    fn reads_of(&self, addr: u32) -> usize {
        self.log.iter().filter(|d| **d == Done::Read(addr)).count()
    }

    fn delays(&self, ms: u32) -> usize {
        self.log.iter().filter(|d| **d == Done::Delay(ms)).count()
    }
}

/// Runs bring-up to its end and returns how it ended, with the number of
/// actions that it took.
fn run(dev: &mut Ds90ub954, bus: &mut StubBus) -> (Result<(), Error>, u32) {
    let mut steps = 0;
    let mut action = dev.pending();
    loop {
        match action {
            Action::Done => return (Ok(()), steps),
            Action::Abort { error } => return (Err(error), steps),
            other => {
                let outcome = bus.perform(other);
                action = dev.advance(outcome);
                steps += 1;
                assert!(steps <= BRINGUP_STEPS);
            }
        }
    }
}

/// The writes that arm the pattern generator: register, value, and so on.
const TEST_PATTERN: [u32; 62] = [
    0xb0, 0x00, 0xb1, 0x01, 0xb2, 0x01, 0xb1, 0x02, 0xb2, 0x35, 0xb1, 0x03, 0xb2, 0x2b, 0xb1, 0x04,
    0xb2, 0x14, 0xb1, 0x05, 0xb2, 0x00, 0xb1, 0x06, 0xb2, 0x02, 0xb1, 0x07, 0xb2, 0x80, 0xb1, 0x08,
    0xb2, 0x08, 0xb1, 0x09, 0xb2, 0x70, 0xb1, 0x0a, 0xb2, 0x08, 0xb1, 0x0b, 0xb2, 0x70, 0xb1, 0x0c,
    0xb2, 0x0b, 0xb1, 0x0d, 0xb2, 0x93, 0xb1, 0x0e, 0xb2, 0x21, 0xb1, 0x0f, 0xb2, 0x0a,
];

fn serializer_node(channel: u32) -> FwNode {
    let mut node = FwNode::new("serializer");
    node.set_property("rx-channel", PropertyValue::Integers(vec![channel]));
    node
}

fn device(node: &FwNode, serializers: &Vec<FwNode>) -> Ds90ub954 {
    Ds90ub954::probe(Some(()), node, serializers, Ok(()), Ok(()), Ok(())).unwrap()
}

#[test]
fn lane_speed_codes() {
    assert_eq!(lane_speed_code(400), 0b11);
    assert_eq!(lane_speed_code(800), 0b10);
    assert_eq!(lane_speed_code(1600), 0b00);
    assert_eq!(lane_speed_code(0), 0b00);
    assert_eq!(lane_speed_code(401), 0b00);
    assert_eq!(lane_speed_code(u32::MAX), 0b00);
}

#[test]
fn lane_count_codes() {
    assert_eq!(lane_count_code(1), 3);
    assert_eq!(lane_count_code(2), 2);
    assert_eq!(lane_count_code(3), 1);
    assert_eq!(lane_count_code(4), 0);
    assert_eq!(lane_count_code(0), 0);
    assert_eq!(lane_count_code(5), 0);
    assert_eq!(lane_count_code(u32::MAX), 0);
}

#[test]
fn csi_control_values() {
    assert_eq!(csi_control(4, false), 0x41);
    assert_eq!(csi_control(4, true), 0x43);
    assert_eq!(csi_control(1, false), 0x71);
    assert_eq!(csi_control(2, true), 0x63);
    assert_eq!(csi_control(3, false), 0x51);
    assert_eq!(csi_control(9, false), 0x41);
}

#[test]
fn back_channel_values() {
    assert_eq!(back_channel_config(false), 0x5e);
    assert_eq!(back_channel_config(true), 0xde);
    assert_eq!(gpio_control(0b1000, 0b1000), 0x88);
    assert_eq!(gpio_control(0x3, 0x5), 0x53);
    assert!(backchannel_ready(0xdf));
    assert!(backchannel_ready(0x1df));
    assert!(!backchannel_ready(0xff));
    assert!(!backchannel_ready(0xde));
    assert!(!backchannel_ready(0));
}

#[test]
fn probe_without_match_finds_no_device() {
    let node = FwNode::new("deserializer");
    let r = Ds90ub954::probe(None, &node, &vec![], Ok(()), Ok(()), Ok(()));
    assert_eq!(r.err(), Some(Error::NoDevice));
    let r = Ds90ub954::probe(None, &node, &vec![], Err(517), Ok(()), Ok(()));
    assert_eq!(r.err(), Some(Error::NoDevice));
}

#[test]
fn probe_defers_on_a_deferred_line() {
    let node = FwNode::new("deserializer");
    for lines in [
        (Err(517), Ok(()), Ok(())),
        (Ok(()), Err(517), Ok(())),
        (Ok(()), Ok(()), Err(517)),
        (Err(2), Err(517), Err(517)),
    ] {
        let r = Ds90ub954::probe(Some(()), &node, &vec![], lines.0, lines.1, lines.2);
        assert_eq!(r.err(), Some(Error::DeferredProbe));
    }
}

#[test]
fn probe_takes_absent_lines_as_not_wired() {
    let node = FwNode::new("deserializer");
    let dev = Ds90ub954::probe(Some(()), &node, &vec![], Err(2), Ok(()), Err(22)).unwrap();
    let state = dev.state();
    assert!(!state.pass_gpio);
    assert!(state.lock_gpio);
    assert!(!state.pdb_gpio);
    assert_eq!(dev.phase(), Phase::Created);
    assert_eq!(dev.pending(), Action::Delay { ms: 6 });
    assert_eq!(dev.pwr_enable(), None);
    assert_eq!(dev.pwr_disable(), None);
}

#[test]
fn bringup_without_serializers() {
    let node = FwNode::new("deserializer");
    let mut dev = device(&node, &vec![]);
    assert_eq!(dev.pending(), Action::SetPowerDown { high: true });
    assert_eq!(dev.result(), None);
    let mut bus = StubBus::ready();
    bus.regs.insert(0x00, 0x7a);
    bus.regs.insert(0x03, 0x20);
    for (i, b) in b"_UB954".iter().enumerate() {
        bus.regs.insert(0xf0 + i as u32, *b as u32);
    }
    let (result, steps) = run(&mut dev, &mut bus);
    assert_eq!(result, Ok(()));
    assert_eq!(dev.result(), Some(Ok(())));
    assert_eq!(dev.phase(), Phase::Ready);
    assert_eq!(dev.pending(), Action::Done);
    assert_eq!(dev.advance(Ok(7)), Action::Done);
    let state = dev.state();
    assert_eq!(state.device_id, 0x7a);
    assert_eq!(state.revision, 0x20);
    assert_eq!(&state.id_code, b"_UB954");
    assert!(!state.test_pattern_armed);
    assert_eq!(
        bus.log,
        vec![
            Done::Power(true),
            Done::Delay(6),
            Done::Read(0x00),
            Done::Read(0x03),
            Done::Read(0xf0),
            Done::Read(0xf1),
            Done::Read(0xf2),
            Done::Read(0xf3),
            Done::Read(0xf4),
            Done::Read(0xf5),
            Done::Write(0xb3, 0),
            Done::Write(0x1f, 0),
            Done::Write(0x33, 0x41),
            Done::Delay(500),
            Done::Write(0x0c, 0x3c),
            Done::Write(0x0f, 0x7f),
            Done::Write(0x10, 0),
            Done::Write(0x11, 0),
            Done::Write(0x12, 0),
            Done::Write(0x13, 0),
            Done::Write(0x14, 0),
            Done::Write(0x15, 0),
            Done::Write(0x16, 0),
            Done::Delay(500),
        ]
    );
    assert_eq!(steps, 24);
}

#[test]
fn id_code_keeps_the_low_byte() {
    let node = FwNode::new("deserializer");
    let mut dev = device(&node, &vec![]);
    let mut bus = StubBus::ready();
    bus.regs.insert(0xf0, 0x1234);
    assert_eq!(run(&mut dev, &mut bus).0, Ok(()));
    assert_eq!(dev.state().id_code[0], 0x34);
}

#[test]
fn lane_configuration_follows_the_properties() {
    let mut node = FwNode::new("deserializer");
    node.set_property("csi-lane-count", PropertyValue::Integers(vec![2]));
    node.set_property("csi-lane-speed", PropertyValue::Integers(vec![800]));
    node.set_property("continuous-clock", PropertyValue::Empty);
    let mut dev = device(&node, &vec![]);
    let mut bus = StubBus::ready();
    assert_eq!(run(&mut dev, &mut bus).0, Ok(()));
    assert_eq!(bus.writes_to(0x1f), vec![0b10]);
    assert_eq!(bus.writes_to(0x33), vec![0x63]);
}

#[test]
fn failure_before_the_ports_aborts() {
    let node = FwNode::new("deserializer");
    let stages: Vec<(bool, u32)> = vec![
        (true, 0x00),
        (true, 0x03),
        (true, 0xf0),
        (true, 0xf5),
        (false, 0xb3),
        (false, 0x1f),
        (false, 0x33),
        (false, 0x0c),
    ];
    for (is_read, addr) in stages {
        let mut dev = device(&node, &vec![serializer_node(0)]);
        let mut bus = StubBus::ready();
        if is_read {
            bus.fail_reads.push(addr);
        } else {
            bus.fail_writes.push(addr);
        }
        let (result, _) = run(&mut dev, &mut bus);
        assert_eq!(result, Err(Error::Transport { register: addr, errno: EIO }));
        assert_eq!(dev.phase(), Phase::ProbeFailed);
        assert_eq!(dev.pending(), Action::Abort { error: result.unwrap_err() });
        assert_eq!(dev.result(), Some(result));
        // nothing happens after the failed access
        let last = *bus.log.last().unwrap();
        assert!(last == Done::Read(addr) || last == Done::Write(addr, bus.writes_to(addr)[0]));
        // and the state does not move any more
        assert_eq!(dev.advance(Ok(0)), Action::Abort { error: result.unwrap_err() });
    }
}

#[test]
fn failure_of_the_pin_setup_aborts() {
    let node = FwNode::new("deserializer");
    for addr in [0x0f, 0x10, 0x13, 0x16] {
        let mut dev = device(&node, &vec![serializer_node(0)]);
        let mut bus = StubBus::ready();
        bus.fail_writes.push(addr);
        let (result, _) = run(&mut dev, &mut bus);
        assert_eq!(result, Err(Error::Transport { register: addr, errno: EIO }));
        // the serializer that came up stays active
        assert!(dev.serializers()[0].is_some());
    }
}

#[test]
fn test_pattern_is_written_in_order() {
    let mut node = FwNode::new("deserializer");
    node.set_property("test-pattern", PropertyValue::Empty);
    let mut dev = device(&node, &vec![]);
    let mut bus = StubBus::ready();
    assert_eq!(run(&mut dev, &mut bus).0, Ok(()));
    assert!(dev.state().test_pattern_armed);
    let start = bus.log.iter().position(|d| *d == Done::Delay(500)).unwrap() + 1;
    for i in 0..31 {
        assert_eq!(bus.log[start + i], Done::Write(TEST_PATTERN[2 * i], TEST_PATTERN[2 * i + 1]));
        assert_eq!(test_pattern_write(i), (TEST_PATTERN[2 * i], TEST_PATTERN[2 * i + 1]));
    }
    assert_eq!(bus.log[start], Done::Write(0xb0, 0x00));
    assert_eq!(bus.log[start + 1], Done::Write(0xb1, 0x01));
    assert_eq!(bus.log[start + 2], Done::Write(0xb2, 0x01));
    assert_eq!(bus.log[start + 30], Done::Write(0xb2, 0x0a));
    assert_eq!(bus.log[start + 31], Done::Write(0x0c, 0x3c));
}

#[test]
fn test_pattern_failure_is_not_fatal() {
    let mut node = FwNode::new("deserializer");
    node.set_property("test-pattern", PropertyValue::Empty);
    let mut dev = device(&node, &vec![]);
    let mut bus = StubBus::ready();
    bus.fail_writes.push(0xb2);
    assert_eq!(run(&mut dev, &mut bus).0, Ok(()));
    assert!(!dev.state().test_pattern_armed);
    // the sequence is given up at the first write that fails
    assert_eq!(bus.writes_to(0xb0).len(), 1);
    assert_eq!(bus.writes_to(0xb1).len(), 1);
    assert_eq!(bus.writes_to(0xb2).len(), 1);
    assert_eq!(bus.writes_to(0x0c), vec![0x3c]);
}

#[test]
fn one_port_comes_up() {
    let node = FwNode::new("deserializer");
    let mut ser = serializer_node(0);
    ser.set_property("i2c-address", PropertyValue::Integers(vec![0x19]));
    ser.set_property("gpio1-control", PropertyValue::Integers(vec![0x3]));
    let mut dev = device(&node, &vec![ser]);
    let mut bus = StubBus::ready();
    bus.regs.insert(0x20, 0x30);
    assert_eq!(run(&mut dev, &mut bus).0, Ok(()));
    assert!(dev.serializers()[0].is_some());
    assert!(dev.serializers()[1].is_none());
    assert_eq!(dev.port_error(0), None);
    assert_eq!(dev.selected_rx_port(), Some(RxPort::Zero));
    let from = bus.log.iter().position(|d| *d == Done::Write(0x0c, 0x3c)).unwrap();
    assert_eq!(
        bus.log[from..from + 17].to_vec(),
        vec![
            Done::Write(0x0c, 0x3c),
            Done::Read(0x0c),
            Done::Write(0x0c, 0x3d),
            Done::Delay(400),
            Done::Read(0x20),
            Done::Write(0x20, 0x20),
            Done::Delay(500),
            Done::Write(0x4c, 0x01),
            Done::Write(0x58, 0x5e),
            Done::Delay(10),
            Done::Read(0x04),
            Done::Write(0x5c, 0x32),
            Done::Write(0x6e, 0x38),
            Done::Write(0x6f, 0x88),
            Done::Write(0x0f, 0x7f),
            Done::Write(0x10, 0),
            Done::Write(0x11, 0),
        ]
    );
}

#[test]
fn handshake_succeeds_on_the_last_poll() {
    let node = FwNode::new("deserializer");
    let mut dev = device(&node, &vec![serializer_node(0)]);
    let mut bus = StubBus::new();
    bus.status = vec![0x00; 49];
    bus.status.push(0xdf);
    assert_eq!(run(&mut dev, &mut bus).0, Ok(()));
    assert!(dev.serializers()[0].is_some());
    assert_eq!(dev.port_error(0), None);
    assert_eq!(bus.reads_of(0x04), 50);
    assert_eq!(bus.delays(10), 50);
    assert_eq!(bus.writes_to(0x5c), vec![0x30]);
}

#[test]
fn handshake_times_out_after_fifty_polls() {
    let node = FwNode::new("deserializer");
    let mut dev = device(&node, &vec![serializer_node(0)]);
    let mut bus = StubBus::new();
    bus.status = vec![0x5f; 60];
    bus.regs.insert(0x20, 0x00);
    let (result, _) = run(&mut dev, &mut bus);
    assert_eq!(result, Ok(()));
    assert_eq!(dev.phase(), Phase::Ready);
    assert!(dev.serializers()[0].is_none());
    assert_eq!(dev.port_error(0), Some(Error::BackchannelTimeout));
    assert_eq!(bus.reads_of(0x04), 50);
    assert_eq!(bus.delays(10), 50);
    assert_eq!(bus.writes_to(0x5c), Vec::<u32>::new());
    // shut off again: enable bit cleared, forwarding disabled
    assert_eq!(bus.writes_to(0x0c), vec![0x3c, 0x3d, 0x3c]);
    assert_eq!(bus.writes_to(0x20), vec![0x00, 0x10]);
}

#[test]
fn one_port_fails_and_the_other_comes_up() {
    let node = FwNode::new("deserializer");
    let mut dev = device(&node, &vec![serializer_node(0), serializer_node(1)]);
    let mut bus = StubBus::new();
    bus.status = vec![0xdf];
    bus.regs.insert(0x20, 0x30);
    let (result, _) = run(&mut dev, &mut bus);
    assert_eq!(result, Ok(()));
    let active = dev.serializers();
    assert_eq!(active[0].map(|s| s.rx_channel), Some(RxPort::Zero));
    assert!(active[1].is_none());
    assert_eq!(dev.port_error(0), None);
    assert_eq!(dev.port_error(1), Some(Error::BackchannelTimeout));
    assert_eq!(bus.reads_of(0x04), 51);
    // port 1 was enabled, then its enable bit was cleared again
    assert_eq!(bus.writes_to(0x0c), vec![0x3c, 0x3d, 0x3f, 0x3d]);
    // forwarding was enabled for both ports, then disabled again for port 1
    assert_eq!(bus.writes_to(0x20), vec![0x20, 0x00, 0x20]);
    // each port was selected once
    assert_eq!(bus.writes_to(0x4c), vec![0x01, 0x02]);
    assert_eq!(dev.selected_rx_port(), Some(RxPort::One));
}

#[test]
fn every_port_failure_is_survived() {
    let node = FwNode::new("deserializer");
    let cases: Vec<(bool, u32)> =
        vec![(true, 0x0c), (true, 0x20), (false, 0x20), (false, 0x4c), (false, 0x58), (true, 0x04), (false, 0x5c)];
    for (is_read, addr) in cases {
        let mut dev = device(&node, &vec![serializer_node(0), serializer_node(1)]);
        let mut bus = StubBus::ready();
        if is_read {
            bus.fail_reads.push(addr);
        } else {
            bus.fail_writes.push(addr);
        }
        let (result, _) = run(&mut dev, &mut bus);
        assert_eq!(result, Ok(()), "failing {addr:#x}");
        assert_eq!(dev.serializers().iter().filter(|s| s.is_some()).count(), 0);
        let expected = Some(Error::Transport { register: addr, errno: EIO });
        assert_eq!(dev.port_error(0), expected);
        assert_eq!(dev.port_error(1), expected);
        assert_eq!(bus.writes_to(0x0f), vec![0x7f]);
    }
}

#[test]
fn cleanup_goes_on_after_a_failed_step() {
    let node = FwNode::new("deserializer");
    let mut dev = device(&node, &vec![serializer_node(1)]);
    let mut bus = StubBus::ready();
    // the port control register cannot be read at all: enabling the port
    // fails, and so does the first step of shutting it off
    bus.fail_reads.push(0x0c);
    bus.regs.insert(0x20, 0x01);
    assert_eq!(run(&mut dev, &mut bus).0, Ok(()));
    assert_eq!(dev.port_error(0), Some(Error::Transport { register: 0x0c, errno: EIO }));
    assert_eq!(bus.reads_of(0x0c), 2);
    // forwarding is disabled all the same
    assert_eq!(bus.writes_to(0x20), vec![0x21]);
}

#[test]
fn pin_control_failures_are_ignored() {
    let node = FwNode::new("deserializer");
    let mut dev = device(&node, &vec![serializer_node(0)]);
    let mut bus = StubBus::ready();
    bus.fail_writes.push(0x6e);
    bus.fail_writes.push(0x6f);
    assert_eq!(run(&mut dev, &mut bus).0, Ok(()));
    assert!(dev.serializers()[0].is_some());
    assert_eq!(dev.port_error(0), None);
    assert_eq!(bus.writes_to(0x6e).len(), 1);
    assert_eq!(bus.writes_to(0x6f).len(), 1);
}

#[test]
fn pass_through_all_and_both_ports() {
    let node = FwNode::new("deserializer");
    let mut ser = serializer_node(2);
    ser.set_property("i2c-pass-through-all", PropertyValue::Empty);
    let mut dev = device(&node, &vec![ser]);
    let mut bus = StubBus::ready();
    assert_eq!(run(&mut dev, &mut bus).0, Ok(()));
    assert_eq!(bus.writes_to(0x58), vec![0xde]);
    assert_eq!(bus.writes_to(0x4c), vec![0x03]);
    assert_eq!(bus.writes_to(0x0c), vec![0x3c, 0x3c | 0x04]);
    assert_eq!(dev.selected_rx_port(), Some(RxPort::Both));
}

#[test]
fn phases_are_passed_in_order() {
    let mut node = FwNode::new("deserializer");
    node.set_property("test-pattern", PropertyValue::Empty);
    let mut dev = device(&node, &vec![serializer_node(0)]);
    let mut bus = StubBus::ready();
    let mut seen = vec![dev.phase()];
    let mut action = dev.pending();
    while action != Action::Done {
        // no register is touched before the device had its time to start
        if let Action::Read { .. } | Action::Write { .. } = action {
            assert!(bus.log.contains(&Done::Delay(6)));
        }
        let outcome = bus.perform(action);
        action = dev.advance(outcome);
        if *seen.last().unwrap() != dev.phase() {
            seen.push(dev.phase());
        }
    }
    assert_eq!(
        seen,
        vec![
            Phase::Created,
            Phase::PowerEnabled,
            Phase::Identified,
            Phase::LaneConfigured,
            Phase::TestPatternArmed,
            Phase::PortsInitializing,
            Phase::PortsFinalized,
            Phase::Ready,
        ]
    );
}

#[test]
fn longest_run_stays_within_the_bound() {
    let mut node = FwNode::new("deserializer");
    node.set_property("test-pattern", PropertyValue::Empty);
    let mut dev = device(&node, &vec![serializer_node(0), serializer_node(1)]);
    let mut bus = StubBus::new();
    let (result, steps) = run(&mut dev, &mut bus);
    assert_eq!(result, Ok(()));
    // power, settle, 8 reads, 3 writes, settle, 31 pattern writes, pass and
    // lock, two ports of 6 + 2 + 100 + 4 actions each, 8 pin writes, settle
    assert_eq!(steps, 2 + 8 + 3 + 1 + 31 + 1 + 2 * 112 + 8 + 1);
    assert!(steps <= BRINGUP_STEPS);
}

#[test]
fn stage_is_visible_in_the_state() {
    let node = FwNode::new("deserializer");
    let mut dev = device(&node, &vec![serializer_node(1)]);
    let mut bus = StubBus::new();
    let mut action = dev.pending();
    let mut polls = 0;
    while action != Action::Done {
        if let Stage::Port { index, config, step: PortStep::PollStatus { attempt } } = dev.state().stage {
            assert_eq!(index, 0);
            assert_eq!(config.rx_channel, RxPort::One);
            assert_eq!(attempt, polls);
            polls += 1;
        }
        let outcome = bus.perform(action);
        action = dev.advance(outcome);
    }
    assert_eq!(polls, 50);
}

#[test]
fn indirect_sequences() {
    assert_eq!(sequence_len(0), Some(1));
    assert_eq!(sequence_len(15), Some(31));
    assert_eq!(sequence_len(PATTERN_REGISTERS.len()), Some(TEST_PATTERN_WRITES));
    assert_eq!(sequence_len(usize::MAX / 2), Some(usize::MAX));
    assert_eq!(sequence_len(usize::MAX / 2 + 1), None);
    assert_eq!(sequence_len(usize::MAX), None);
    let registers = [0x41, 0x42];
    let values = [0x85, 0x9a];
    let writes: Vec<(u32, u32)> =
        (0..5).map(|i| sequence_write(0x04, &registers, &values, i)).collect();
    assert_eq!(writes, vec![(0xb0, 0x04), (0xb1, 0x41), (0xb2, 0x85), (0xb1, 0x42), (0xb2, 0x9a)]);
    assert_eq!(sequence_write::<0>(0x08, &[], &[], 0), (0xb0, 0x08));
    assert_eq!(PATTERN_REGISTERS.len(), PATTERN_VALUES.len());
}

#[test]
fn port_actions() {
    let mut node = serializer_node(1);
    node.set_property("i2c-address", PropertyValue::Integers(vec![0x8000_0018]));
    node.set_property("gpio0-control", PropertyValue::Integers(vec![0x1]));
    node.set_property("gpio1-control", PropertyValue::Integers(vec![0x1000_0002]));
    node.set_property("gpio2-control", PropertyValue::Integers(vec![0x3]));
    node.set_property("gpio3-control", PropertyValue::Integers(vec![0x4]));
    let config = parse_serializer(&node);
    assert_eq!(port_write(PortWrite::BackChannel, &config), (0x58, 0x5e));
    // bits that are shifted out of the register are lost
    assert_eq!(port_write(PortWrite::Alias, &config), (0x5c, 0x30));
    assert_eq!(port_write(PortWrite::GpioControl0, &config), (0x6e, 0x21));
    assert_eq!(port_write(PortWrite::GpioControl1, &config), (0x6f, 0x43));
    assert_eq!(port_action(&config, PortStep::ReadPortControl), Action::Read { addr: 0x0c });
    assert_eq!(
        port_action(&config, PortStep::EnablePort { value: 7 }),
        Action::Write { addr: 0x0c, value: 7 }
    );
    assert_eq!(port_action(&config, PortStep::Calibrate), Action::Delay { ms: 400 });
    assert_eq!(port_action(&config, PortStep::ForwardSettle), Action::Delay { ms: 500 });
    assert_eq!(
        port_action(&config, PortStep::Select { next: PortWrite::Alias }),
        Action::Write { addr: 0x4c, value: 0x02 }
    );
    assert_eq!(port_action(&config, PortStep::PollWait { attempt: 3 }), Action::Delay { ms: 10 });
    assert_eq!(port_action(&config, PortStep::PollStatus { attempt: 3 }), Action::Read { addr: 0x04 });
    assert_eq!(
        port_action(&config, PortStep::CleanupDisableForwarding { value: 0x20 }),
        Action::Write { addr: 0x20, value: 0x20 }
    );
}
