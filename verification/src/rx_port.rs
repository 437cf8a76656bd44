//! Receive ports and the one-entry cache of the port that is selected for
//! access to the port-scoped registers.

use vstd::prelude::*;
use crate::error::Outcome;
use crate::ti954;

verus! {

/// A receive port of the deserializer, or both of them.
#[derive(Debug, Clone, Copy, PartialEq, Eq, Structural)]
pub enum RxPort {
    /// Receive port 0.
    Zero,
    /// Receive port 1.
    One,
    /// Both receive ports at once; meaningful for writes only.
    Both,
}

impl RxPort {
    /// The number of the port: 0, 1, or 2 for both.
    pub open spec fn spec_to_u32(self) -> u32 {
        match self {
            RxPort::Zero => 0,
            RxPort::One => 1,
            RxPort::Both => 2,
        }
    }

    /// The port that a configured channel number names; any number above 2
    /// names port 0.
    pub open spec fn spec_from(value: u32) -> RxPort {
        if value == 1 {
            RxPort::One
        } else if value == 2 {
            RxPort::Both
        } else {
            RxPort::Zero
        }
    }

    /// Returns the port for a configured channel number, falling back to
    /// port 0 for a number that names no port.
    pub fn from(value: u32) -> (r: RxPort)
        ensures
            r == RxPort::spec_from(value),
            r.spec_to_u32() == value <==> value <= 2,
    {
        match value {
            0 => RxPort::Zero,
            1 => RxPort::One,
            2 => RxPort::Both,
            _ => RxPort::Zero,
        }
    }

    /// Returns the number of the port, which is also the distance of its
    /// bits from those of port 0 in the per-port control registers.
    pub fn to_u32(self) -> (r: u32)
        ensures
            r == self.spec_to_u32(),
            r <= 2,
    {
        match self {
            RxPort::Zero => 0,
            RxPort::One => 1,
            RxPort::Both => 2,
        }
    }

    /// Returns the number of the port as text, for messages.
    pub fn to_string(self) -> (r: String)
        ensures
            r@ == (match self {
                RxPort::Zero => "0"@,
                RxPort::One => "1"@,
                RxPort::Both => "2"@,
            }),
    {
        match self {
            RxPort::Zero => "0".to_owned(),
            RxPort::One => "1".to_owned(),
            RxPort::Both => "2".to_owned(),
        }
    }

    /// The value of the port select register that routes reads to this port.
    /// Reads cannot address both ports: for `Both` it is the value of port 0.
    pub open spec fn read_select(self) -> u32 {
        match self {
            RxPort::Zero => 0x01,
            RxPort::One => 0x12,
            RxPort::Both => 0x01,
        }
    }

    /// The value of the port select register that routes writes to this
    /// port: one write-enable bit per port, both bits for `Both`.
    pub open spec fn write_select(self) -> u32 {
        match self {
            RxPort::Zero => 0x01,
            RxPort::One => 0x02,
            RxPort::Both => 0x03,
        }
    }
}

/// An access to the register bus.
#[derive(Debug, Clone, Copy, PartialEq, Eq, Structural)]
pub enum BusOp {
    /// Read the register at `addr`.
    Read { addr: u32 },
    /// Write `value` to the register at `addr`.
    Write { addr: u32, value: u32 },
}

/// Direction of an access to a port-scoped register.
#[derive(Debug, Clone, Copy, PartialEq, Eq, Structural)]
pub enum Direction {
    /// The register is read.
    Read,
    /// The register is written.
    Write,
}

/// A write to the port select register.
#[derive(Debug, Clone, Copy, PartialEq, Eq, Structural)]
pub struct Selection {
    /// The value to write to the port select register.
    pub value: u32,
    /// The value selects port 0 in place of the ports asked for, because
    /// both ports were named for a read. The caller is to report that.
    pub fallback: bool,
}

/// What has to happen on the bus for one access to a port-scoped register.
#[derive(Debug, Clone, Copy, PartialEq, Eq, Structural)]
pub struct PortAccess {
    /// The select write to make before the access, or `None` if the port
    /// is selected already.
    pub select: Option<Selection>,
    /// The access itself, to be made once the port is selected.
    pub access: BusOp,
}

/// The value that selects `port` for an access in direction `dir`.
pub open spec fn select_value(port: RxPort, dir: Direction) -> u32 {
    match dir {
        Direction::Read => port.read_select(),
        Direction::Write => port.write_select(),
    }
}

/// Whether the selection of `port` for an access in direction `dir` falls
/// back to port 0: reads cannot address both ports.
pub open spec fn select_falls_back(port: RxPort, dir: Direction) -> bool {
    dir == Direction::Read && port == RxPort::Both
}

/// The select write that an access of `port` needs when `cached` is the
/// port selected last: none if it is the same port.
pub open spec fn select_needed(cached: Option<RxPort>, port: RxPort, dir: Direction) -> Option<
    Selection,
> {
    if cached == Some(port) {
        None
    } else {
        Some(Selection { value: select_value(port, dir), fallback: select_falls_back(port, dir) })
    }
}

/// The cached selection after a select write for `port` ended in `outcome`:
/// a failed write leaves the cache as it was.
pub open spec fn selection_after(cached: Option<RxPort>, port: RxPort, outcome: Outcome) -> Option<
    RxPort,
> {
    if outcome is Ok {
        Some(port)
    } else {
        cached
    }
}

/// Remembers which receive port the port select register was last
/// successfully set to, so that a run of accesses to one port selects it once.
#[derive(Debug, Clone, Copy, PartialEq, Eq, Structural)]
pub struct PortSelectionCache {
    /// The port that the register was last set to, if that is known.
    pub selected: Option<RxPort>,
}

impl View for PortSelectionCache {
    type V = Option<RxPort>;

    open spec fn view(&self) -> Option<RxPort> {
        self.selected
    }
}

impl PortSelectionCache {
    /// A cache that knows of no selection: the first access selects.
    pub fn new() -> (r: Self)
        ensures
            r@ is None,
    {
        PortSelectionCache { selected: None }
    }

    /// Returns the port that was selected last, if any.
    pub fn selected(&self) -> (r: Option<RxPort>)
        ensures
            r == self@,
    {
        self.selected
    }

    /// Returns the select write to make before a read from a register of
    /// `port`, or `None` if `port` is selected already. A read of both
    /// ports selects port 0 and says so.
    pub fn ensure_selected_for_read(&self, port: RxPort) -> (r: Option<Selection>)
        ensures
            r == select_needed(self@, port, Direction::Read),
    {
        if self.hit(port) {
            None
        } else {
            match port {
                RxPort::Zero => Some(Selection { value: 0b1, fallback: false }),
                RxPort::One => {
                    let value: u32 = 0b10 | (1u32 << ti954::RX_READ_PORT);
                    assert(0b10u32 | (1u32 << 4u32) == 0x12u32) by (bit_vector);
                    Some(Selection { value, fallback: false })
                },
                RxPort::Both => Some(Selection { value: 0b1, fallback: true }),
            }
        }
    }

    /// Returns the select write to make before a write to a register of
    /// `port`, or `None` if `port` is selected already.
    pub fn ensure_selected_for_write(&self, port: RxPort) -> (r: Option<Selection>)
        ensures
            r == select_needed(self@, port, Direction::Write),
    {
        if self.hit(port) {
            None
        } else {
            let value = match port {
                RxPort::Zero => 0b01,
                RxPort::One => 0b10,
                RxPort::Both => 0b11,
            };
            Some(Selection { value, fallback: false })
        }
    }

    /// Records how the select write for `port` ended. Only a write that
    /// succeeded changes the cache, so that the next access after a failure
    /// selects again.
    pub fn record(&mut self, port: RxPort, outcome: Outcome)
        ensures
            final(self)@ == selection_after(old(self)@, port, outcome),
    {
        if outcome.is_ok() {
            self.selected = Some(port);
        }
    }

    fn hit(&self, port: RxPort) -> (r: bool)
        ensures
            r == (self@ == Some(port)),
    {
        match self.selected {
            Some(p) => p == port,
            None => false,
        }
    }
}

/// Plans a read of the port-scoped register `addr` of `rx_port`.
pub fn read_rx_port(cache: &PortSelectionCache, rx_port: RxPort, addr: u32) -> (r: PortAccess)
    ensures
        r.select == select_needed(cache@, rx_port, Direction::Read),
        r.access == (BusOp::Read { addr }),
{
    PortAccess { select: cache.ensure_selected_for_read(rx_port), access: BusOp::Read { addr } }
}

/// Plans a write of `value` to the port-scoped register `addr` of `rx_port`.
pub fn write_rx_port(cache: &PortSelectionCache, rx_port: RxPort, addr: u32, value: u32) -> (r:
    PortAccess)
    ensures
        r.select == select_needed(cache@, rx_port, Direction::Write),
        r.access == (BusOp::Write { addr, value }),
{
    PortAccess {
        select: cache.ensure_selected_for_write(rx_port),
        access: BusOp::Write { addr, value },
    }
}

/// The number of select writes that a run of accesses issues, one access
/// after the other, when the cache starts at `cached` and every select write
/// succeeds.
pub open spec fn select_writes(cached: Option<RxPort>, accesses: Seq<(RxPort, Direction)>) -> nat
    decreases accesses.len(),
{
    if accesses.len() == 0 {
        0
    } else {
        let (port, dir) = accesses.first();
        let issued: nat = if select_needed(cached, port, dir) is Some {
            1
        } else {
            0
        };
        issued + select_writes(selection_after(cached, port, Ok(0)), accesses.drop_first())
    }
}

/// The port addressed just before access `i` of a run that starts with
/// `initial` selected.
pub open spec fn port_before(initial: Option<RxPort>, accesses: Seq<(RxPort, Direction)>, i: int)
    -> Option<RxPort> {
    if i == 0 {
        initial
    } else {
        Some(accesses[i - 1].0)
    }
}

/// The number of accesses in a run that address another port than the
/// access before them; the first is held against `initial`.
pub open spec fn port_changes(initial: Option<RxPort>, accesses: Seq<(RxPort, Direction)>) -> nat
    decreases accesses.len(),
{
    if accesses.len() == 0 {
        0
    } else {
        let i = accesses.len() - 1;
        let changed: nat = if port_before(initial, accesses, i) != Some(accesses[i].0) {
            1
        } else {
            0
        };
        port_changes(initial, accesses.drop_last()) + changed
    }
}

/// Counting the port changes of a run from its first access gives the same
/// number as counting them from its last.
proof fn lemma_port_changes_from_front(initial: Option<RxPort>, accesses: Seq<(RxPort, Direction)>)
    requires
        accesses.len() > 0,
    ensures
        port_changes(initial, accesses) == port_changes(
            Some(accesses.first().0),
            accesses.drop_first(),
        ) + (if initial != Some(accesses.first().0) {
            1nat
        } else {
            0nat
        }),
    decreases accesses.len(),
{
    let rest = accesses.drop_first();
    let first = Some(accesses.first().0);
    let shorter = accesses.drop_last();
    let i = accesses.len() - 1;
    if accesses.len() == 1 {
        assert(port_changes(initial, shorter) == 0);
        assert(port_changes(first, rest) == 0);
    } else {
        lemma_port_changes_from_front(initial, shorter);
        assert(shorter.drop_first() =~= rest.drop_last());
        assert(shorter.first() == accesses.first());
        assert(rest[i - 1] == accesses[i]);
        assert(port_before(initial, accesses, i) == port_before(first, rest, i - 1)) by {
            if i > 1 {
                assert(rest[i - 2] == accesses[i - 1]);
            }
        }
        assert(port_changes(first, rest) == port_changes(first, rest.drop_last()) + (if port_before(
            first,
            rest,
            i - 1,
        ) != Some(rest[i - 1].0) {
            1nat
        } else {
            0nat
        }));
    }
}

/// A run of accesses issues exactly as many select writes as it has port
/// changes, however many accesses it makes and in whichever directions,
/// provided every select write succeeds.
pub proof fn lemma_select_writes_equal_port_changes(
    cached: Option<RxPort>,
    accesses: Seq<(RxPort, Direction)>,
)
    ensures
        select_writes(cached, accesses) == port_changes(cached, accesses),
    decreases accesses.len(),
{
    if accesses.len() > 0 {
        let (port, dir) = accesses.first();
        lemma_port_changes_from_front(cached, accesses);
        lemma_select_writes_equal_port_changes(Some(port), accesses.drop_first());
    }
}

} // verus!
