use std::collections::HashMap;

use ds90ub954::bits::{bit, genmask};
use ds90ub954::error::{BusFault, Error, Outcome, EIO};
use ds90ub954::regmap::{
    check_variants, BitField, BitFieldReadOps, BitFieldWriteOps, CacheType, EnumField,
    EnumFieldReadOps, EnumFieldWriteOps, Field, FieldAccess, FieldCommonOps, FieldDescs, Fields,
    RawField, RawFieldReadOps, RawFieldWriteOps, RegField, RegUpdate,
};
use ds90ub954::regmap::access::{PRECIOUS, READ, RW, VOLATILE, WRITE};
use ds90ub954::bits::genmask32;
use ds90ub954::register_map::{
    access_of, Config, ConfigOps, FieldKind, RegisterField, RegisterMap, Regmap,
};

/// A bus that stores what is written to it and counts the writes.
struct Store {
    regs: HashMap<u32, u32>,
    writes: usize,
    broken: bool,
}

impl Store {
    fn new() -> Store {
        Store { regs: HashMap::new(), writes: 0, broken: false }
    }

    fn read(&self, addr: u32) -> Outcome {
        if self.broken {
            Err(BusFault { errno: EIO })
        } else {
            Ok(self.regs.get(&addr).copied().unwrap_or(0))
        }
    }

    fn write(&mut self, addr: u32, value: u32) -> Outcome {
        if self.broken {
            return Err(BusFault { errno: EIO });
        }
        self.regs.insert(addr, value);
        self.writes += 1;
        Ok(0)
    }

    /// Carries an update out: read, merge, write if needed.
    fn apply(&mut self, update: RegUpdate) -> Result<(), Error> {
        match update.plan(self.read(update.reg))? {
            Some(value) => {
                let outcome = self.write(update.reg, value);
                update.finish(outcome)
            }
            None => Ok(()),
        }
    }
}

fn rw_bit(reg: u32, pos: u32) -> BitField {
    BitField::new(reg, pos, FieldAccess::ReadWrite).unwrap()
}

#[test]
fn bit_and_genmask_values() {
    assert_eq!(bit(0), 1);
    assert_eq!(bit(7), 0x80);
    assert_eq!(bit(31), 0x8000_0000);
    assert_eq!(genmask(39, 21), 0x000000ffffe00000);
    assert_eq!(genmask(0, 0), 1);
    assert_eq!(genmask(63, 0), u64::MAX);
    assert_eq!(genmask(63, 63), 0x8000_0000_0000_0000);
    assert_eq!(genmask(7, 4), 0xf0);
}

#[test]
fn field_masks() {
    assert_eq!(rw_bit(0x14, 7).mask(), 0x80);
    assert_eq!(rw_bit(0x14, 0).mask(), 0x01);
    assert_eq!(rw_bit(0x14, 31).mask(), 0x8000_0000);
    assert_eq!(RawField::new(0x10, 6, 0, FieldAccess::ReadWrite).unwrap().mask(), 0x7f);
    assert_eq!(RawField::new(0x10, 31, 0, FieldAccess::ReadWrite).unwrap().mask(), u32::MAX);
    assert_eq!(RawField::new(0x10, 5, 4, FieldAccess::ReadOnly).unwrap().mask(), 0x30);
    assert_eq!(rw_bit(0x14, 7).addr(), 0x14);
}

#[test]
fn fields_must_lie_within_the_register() {
    assert_eq!(BitField::new(0, 32, FieldAccess::ReadWrite).err(), Some(Error::InvalidArgument));
    assert_eq!(
        RawField::new(0, 32, 0, FieldAccess::ReadWrite).err(),
        Some(Error::InvalidArgument)
    );
    assert_eq!(RawField::new(0, 3, 4, FieldAccess::ReadWrite).err(), Some(Error::InvalidArgument));
    assert_eq!(
        Field::new(RegField { reg: 0, lsb: 5, msb: 4 }).err(),
        Some(Error::InvalidArgument)
    );
    assert!(Field::new(RegField { reg: 0, lsb: 31, msb: 31 }).is_ok());
}

#[test]
fn bit_set_then_is_set() {
    for pos in [0, 1, 6, 7, 31] {
        for before in [0u32, 0xffff_ffff, 0x5555_5555, 0xaaaa_aaaa] {
            let field = rw_bit(0x14, pos);
            let mut bus = Store::new();
            bus.regs.insert(0x14, before);
            bus.apply(field.set()).unwrap();
            assert_eq!(field.is_set(bus.read(0x14)), Ok(true));
            assert_eq!(bus.regs[&0x14], before | (1 << pos));
            bus.apply(field.clear()).unwrap();
            assert_eq!(field.is_set(bus.read(0x14)), Ok(false));
            assert_eq!(bus.regs[&0x14], before & !(1 << pos));
        }
    }
}

#[test]
fn forced_writes_always_write() {
    let field = rw_bit(0x14, 6);
    let mut bus = Store::new();
    bus.regs.insert(0x14, 0x40);
    bus.apply(field.set()).unwrap();
    assert_eq!(bus.writes, 0);
    bus.apply(field.force_set()).unwrap();
    assert_eq!(bus.writes, 1);
    assert_eq!(bus.regs[&0x14], 0x40);
    bus.apply(field.force_clear()).unwrap();
    assert_eq!(bus.writes, 2);
    assert_eq!(bus.regs[&0x14], 0x00);
    bus.apply(field.clear()).unwrap();
    assert_eq!(bus.writes, 2);
    assert!(field.force_set().force);
    assert!(!field.set().force);
    assert_eq!(field.set(), RegUpdate { reg: 0x14, mask: 0x40, value: 0x40, force: false });
    assert_eq!(field.clear(), RegUpdate { reg: 0x14, mask: 0x40, value: 0x00, force: false });
}

#[test]
fn transport_errors_name_the_register() {
    let field = rw_bit(0x14, 6);
    let raw = RawField::new(0x10, 6, 0, FieldAccess::ReadWrite).unwrap();
    let tpwth = EnumField::new(0x16, 5, 4, FieldAccess::ReadWrite, vec![0, 1, 2, 3]).unwrap();
    let mut bus = Store::new();
    bus.broken = true;
    let fault = Err(BusFault { errno: 121 });
    assert_eq!(field.is_set(fault), Err(Error::Transport { register: 0x14, errno: 121 }));
    assert_eq!(raw.read(fault), Err(Error::Transport { register: 0x10, errno: 121 }));
    assert_eq!(raw.test_bits(fault, 1), Err(Error::Transport { register: 0x10, errno: 121 }));
    assert_eq!(tpwth.read(fault), Err(Error::Transport { register: 0x16, errno: 121 }));
    assert_eq!(bus.apply(field.set()), Err(Error::Transport { register: 0x14, errno: EIO }));
    assert_eq!(
        field.set().finish(Err(BusFault { errno: 6 })),
        Err(Error::Transport { register: 0x14, errno: 6 })
    );
    assert_eq!(ds90ub954::regmap::read(0x33, Ok(9)), Ok(9));
    assert_eq!(
        ds90ub954::regmap::read(0x33, fault),
        Err(Error::Transport { register: 0x33, errno: 121 })
    );
    assert_eq!(ds90ub954::regmap::write(0x33, Ok(9)), Ok(()));
    assert_eq!(
        ds90ub954::regmap::write(0x33, fault),
        Err(Error::Transport { register: 0x33, errno: 121 })
    );
}

#[test]
fn raw_write_then_read() {
    let field = RawField::new(0x10, 6, 0, FieldAccess::ReadWrite).unwrap();
    let mut bus = Store::new();
    bus.regs.insert(0x10, 0x80);
    bus.apply(field.write(0x42)).unwrap();
    assert_eq!(field.read(bus.read(0x10)), Ok(0x42));
    assert_eq!(bus.regs[&0x10], 0xc2);
    // bits that do not fit into the field are dropped
    bus.apply(field.write(0x1ff)).unwrap();
    assert_eq!(field.read(bus.read(0x10)), Ok(0x7f));
    assert_eq!(bus.regs[&0x10], 0xff);
    bus.apply(field.force_write(0)).unwrap();
    assert_eq!(field.read(bus.read(0x10)), Ok(0));
    assert_eq!(bus.regs[&0x10], 0x80);
}

#[test]
fn raw_field_in_the_middle() {
    let field = RawField::new(0x20, 11, 4, FieldAccess::ReadWrite).unwrap();
    let mut bus = Store::new();
    bus.regs.insert(0x20, 0xffff_ffff);
    bus.apply(field.write(0xa5)).unwrap();
    assert_eq!(bus.regs[&0x20], 0xffff_fa5f);
    assert_eq!(field.read(bus.read(0x20)), Ok(0xa5));
    assert_eq!(field.write(0xa5), RegUpdate { reg: 0x20, mask: 0xff0, value: 0xa50, force: false });
}

#[test]
fn set_and_clear_bits() {
    let field = RawField::new(0x20, 11, 4, FieldAccess::ReadWrite).unwrap();
    let mut bus = Store::new();
    bus.regs.insert(0x20, 0x0000_0103);
    bus.apply(field.set_bits(0x0c)).unwrap();
    let value = field.read(bus.read(0x20)).unwrap();
    assert_eq!(value & 0x0c, 0x0c);
    assert_eq!(value, 0x1c);
    assert_eq!(bus.regs[&0x20], 0x0000_01c3);
    bus.apply(field.clear_bits(0x14)).unwrap();
    assert_eq!(field.read(bus.read(0x20)), Ok(0x08));
    assert_eq!(bus.regs[&0x20], 0x0000_0083);
    bus.apply(field.update_bits(0x0f, 0x05)).unwrap();
    assert_eq!(field.read(bus.read(0x20)), Ok(0x05));
    bus.apply(field.force_update_bits(0xf0, 0x35)).unwrap();
    assert_eq!(field.read(bus.read(0x20)), Ok(0x35));
    // bits beyond the field are not set
    bus.apply(field.set_bits(0x100)).unwrap();
    assert_eq!(field.read(bus.read(0x20)), Ok(0x35));
    assert_eq!(bus.regs[&0x20], 0x0000_0353);
}

#[test]
fn test_bits_needs_all_bits() {
    let field = RawField::new(0x20, 7, 4, FieldAccess::ReadOnly).unwrap();
    assert_eq!(field.test_bits(Ok(0x50), 0x5), Ok(()));
    assert_eq!(field.test_bits(Ok(0x50), 0x4), Ok(()));
    assert_eq!(field.test_bits(Ok(0x50), 0x0), Ok(()));
    assert_eq!(field.test_bits(Ok(0x50), 0x7), Err(Error::BitsNotSet));
    assert_eq!(field.test_bits(Ok(0x0f), 0x1), Err(Error::BitsNotSet));
    assert_eq!(field.test_bits(Ok(0xff), 0x10), Err(Error::BitsNotSet));
}

#[test]
fn siblings_are_unaffected() {
    let rearm = rw_bit(0x16, 0);
    let rststatus = rw_bit(0x16, 1);
    let tpwth = EnumField::new(0x16, 5, 4, FieldAccess::ReadWrite, vec![0, 1, 2, 3]).unwrap();
    let ipeak = EnumField::new(0x16, 7, 6, FieldAccess::ReadWrite, vec![0, 1, 2, 3]).unwrap();
    let mut bus = Store::new();
    bus.regs.insert(0x16, 0b1001_0010);
    bus.apply(tpwth.write(2).unwrap()).unwrap();
    assert_eq!(tpwth.read(bus.read(0x16)), Ok(2));
    assert_eq!(ipeak.read(bus.read(0x16)), Ok(2));
    assert_eq!(rearm.is_set(bus.read(0x16)), Ok(false));
    assert_eq!(rststatus.is_set(bus.read(0x16)), Ok(true));
    assert_eq!(bus.regs[&0x16], 0b1010_0010);
    bus.apply(rearm.set()).unwrap();
    assert_eq!(tpwth.read(bus.read(0x16)), Ok(2));
    assert_eq!(ipeak.read(bus.read(0x16)), Ok(2));
    assert_eq!(rststatus.is_set(bus.read(0x16)), Ok(true));
    assert_eq!(bus.regs[&0x16], 0b1010_0011);
    // a field of another register
    let other = RawField::new(0x17, 7, 0, FieldAccess::ReadWrite).unwrap();
    bus.apply(other.write(0xff)).unwrap();
    assert_eq!(bus.regs[&0x16], 0b1010_0011);
}

#[test]
fn enum_write_then_read() {
    let ipeak = EnumField::new(0x16, 7, 6, FieldAccess::ReadWrite, vec![0, 1, 2, 3]).unwrap();
    for variant in 0..4 {
        let mut bus = Store::new();
        bus.regs.insert(0x16, 0x3f);
        bus.apply(ipeak.write(variant).unwrap()).unwrap();
        assert_eq!(ipeak.read(bus.read(0x16)), Ok(variant));
        assert_eq!(bus.regs[&0x16], 0x3f | ((variant as u32) << 6));
        bus.apply(ipeak.force_write(variant).unwrap()).unwrap();
        assert_eq!(ipeak.read(bus.read(0x16)), Ok(variant));
    }
    assert_eq!(ipeak.len(), 4);
    assert_eq!(ipeak.value(3), Some(3));
    assert_eq!(ipeak.value(4), None);
}

#[test]
fn enum_variants_are_numbered_by_the_table() {
    let field = EnumField::new(0x30, 3, 1, FieldAccess::ReadWrite, vec![5, 0, 7]).unwrap();
    assert_eq!(field.write(0), Ok(RegUpdate { reg: 0x30, mask: 0x0e, value: 0x0a, force: false }));
    assert_eq!(field.write(2), Ok(RegUpdate { reg: 0x30, mask: 0x0e, value: 0x0e, force: false }));
    assert_eq!(field.force_write(1), Ok(RegUpdate { reg: 0x30, mask: 0x0e, value: 0, force: true }));
    assert_eq!(field.read(Ok(0x0a)), Ok(0));
    assert_eq!(field.read(Ok(0xf1)), Ok(1));
    assert_eq!(field.read(Ok(0x0f)), Ok(2));
    assert_eq!(field.write(3), Err(Error::InvalidArgument));
    assert_eq!(field.force_write(usize::MAX), Err(Error::InvalidArgument));
}

#[test]
fn enum_read_rejects_other_values() {
    let field = EnumField::new(0x30, 3, 1, FieldAccess::ReadWrite, vec![5, 0, 7]).unwrap();
    let raw = RawField::new(0x30, 3, 1, FieldAccess::ReadWrite).unwrap();
    for value in [1, 2, 3, 4, 6] {
        let mut bus = Store::new();
        bus.apply(raw.write(value)).unwrap();
        assert_eq!(field.read(bus.read(0x30)), Err(Error::InvalidFieldValue));
    }
}

#[test]
fn enum_tables_are_checked() {
    let make = |values: Vec<u32>| EnumField::new(0x16, 5, 4, FieldAccess::ReadWrite, values);
    assert!(make(vec![]).is_ok());
    assert!(make(vec![3, 2, 1, 0]).is_ok());
    assert_eq!(make(vec![0, 4]).err(), Some(Error::InvalidArgument));
    assert_eq!(make(vec![1, 2, 1]).err(), Some(Error::InvalidArgument));
    assert_eq!(
        EnumField::new(0x16, 4, 5, FieldAccess::ReadWrite, vec![0]).err(),
        Some(Error::InvalidArgument)
    );
    let field = Field::new(RegField { reg: 0, lsb: 4, msb: 5 }).unwrap();
    assert!(check_variants(&field, &vec![0, 1, 2, 3]));
    assert!(!check_variants(&field, &vec![0, 1, 2, 3, 0]));
    assert!(!check_variants(&field, &vec![16]));
}

#[test]
fn update_plans() {
    let update = RegUpdate { reg: 0x10, mask: 0x0f, value: 0xa5, force: false };
    assert_eq!(update.merge(0xf0), 0xf5);
    assert_eq!(update.merge(0x00), 0x05);
    assert_eq!(update.plan(Ok(0xf0)), Ok(Some(0xf5)));
    assert_eq!(update.plan(Ok(0xf5)), Ok(None));
    let forced = RegUpdate { force: true, ..update };
    assert_eq!(forced.plan(Ok(0xf5)), Ok(Some(0xf5)));
    assert_eq!(
        forced.plan(Err(BusFault { errno: 5 })),
        Err(Error::Transport { register: 0x10, errno: 5 })
    );
    assert_eq!(update.finish(Ok(0)), Ok(()));
}

#[test]
fn field_tables() {
    let descs = FieldDescs::new([
        RegField { reg: 0x03, lsb: 0, msb: 7 },
        RegField { reg: 0x10, lsb: 0, msb: 6 },
        RegField { reg: 0x10, lsb: 7, msb: 7 },
    ]);
    assert_eq!(descs.len(), 3);
    assert_eq!(descs.get(1), RegField { reg: 0x10, lsb: 0, msb: 6 });
    let fields = Fields::new(&descs).unwrap();
    assert_eq!(fields.index(2).desc(), RegField { reg: 0x10, lsb: 7, msb: 7 });
    assert_eq!(fields.index(1).reg(), 0x10);
    assert_eq!(fields.index(1).mask(), 0x7f);
    assert_eq!(fields.read(0, Ok(0x1a5)), Ok(0xa5));
    assert_eq!(fields.read(1, Ok(0xc2)), Ok(0x42));
    assert_eq!(fields.read(2, Ok(0xc2)), Ok(1));
    assert_eq!(
        fields.read(2, Err(BusFault { errno: 5 })),
        Err(Error::Transport { register: 0x10, errno: 5 })
    );
    assert_eq!(fields.read(3, Ok(0xc2)), Err(Error::InvalidArgument));
    assert_eq!(fields.read(usize::MAX, Err(BusFault { errno: 5 })), Err(Error::InvalidArgument));
    let empty: FieldDescs<0> = FieldDescs::new([]);
    assert_eq!(empty.len(), 0);
    assert!(Fields::new(&empty).is_ok());
}

#[test]
fn field_tables_are_checked() {
    let descs = FieldDescs::new([
        RegField { reg: 0x03, lsb: 0, msb: 7 },
        RegField { reg: 0x10, lsb: 7, msb: 6 },
    ]);
    assert_eq!(Fields::new(&descs).err(), Some(Error::InvalidArgument));
    let descs = FieldDescs::new([RegField { reg: 0x03, lsb: 0, msb: 32 }]);
    assert_eq!(Fields::new(&descs).err(), Some(Error::InvalidArgument));
}

#[test]
fn direct_field_operations() {
    let field = Field::new(RegField { reg: 0x40, lsb: 8, msb: 15 }).unwrap();
    assert_eq!(field.get(0x12_34_56), 0x34);
    assert_eq!(field.write(0x7e), RegUpdate { reg: 0x40, mask: 0xff00, value: 0x7e00, force: false });
    assert_eq!(
        field.force_write(0x7e),
        RegUpdate { reg: 0x40, mask: 0xff00, value: 0x7e00, force: true }
    );
    assert_eq!(
        field.update_bits(0x0f, 0xff),
        RegUpdate { reg: 0x40, mask: 0x0f00, value: 0xff00, force: false }
    );
    assert_eq!(
        field.set_bits(0x81),
        RegUpdate { reg: 0x40, mask: 0x8100, value: 0x8100, force: false }
    );
    assert_eq!(field.clear_bits(0x81), RegUpdate { reg: 0x40, mask: 0x8100, value: 0, force: false });
    assert!(field.test_bits(0x8100, 0x81));
    assert!(!field.test_bits(0x8000, 0x81));
}

fn named(name: &str, reg: u32, high: u8, low: u8, access: FieldAccess, kind: FieldKind) -> RegisterField {
    RegisterField {
        name: name.to_string(),
        register_address: reg,
        bit_low: low,
        bit_high: high,
        access,
        kind,
        aliased: false,
    }
}

fn sample_map() -> RegisterMap {
    RegisterMap::new(
        vec![
            named("pid", 0x03, 7, 0, FieldAccess::ReadOnly, FieldKind::Raw),
            named("voutvsel1", 0x10, 6, 0, FieldAccess::ReadWrite, FieldKind::Raw),
            named("envsel1", 0x10, 7, 7, FieldAccess::ReadWrite, FieldKind::Bit),
            named("trigger", 0x15, 0, 0, FieldAccess::WriteOnly, FieldKind::Bit),
            named("tpwth", 0x16, 5, 4, FieldAccess::ReadWrite, FieldKind::Enum(vec![0, 1, 2, 3])),
        ],
        vec![0x03],
        vec![0x15],
    )
    .unwrap()
}

#[test]
fn register_map_access_policy() {
    let map = sample_map();
    assert!(map.is_readable_reg(0x03));
    assert!(!map.is_writeable_reg(0x03));
    assert!(map.is_readable_reg(0x10));
    assert!(map.is_writeable_reg(0x10));
    assert!(!map.is_readable_reg(0x15));
    assert!(map.is_writeable_reg(0x15));
    assert!(!map.is_readable_reg(0x11));
    assert!(!map.is_writeable_reg(0x11));
    assert!(map.is_volatile_reg(0x03));
    assert!(!map.is_volatile_reg(0x10));
    assert!(map.is_precious_reg(0x15));
    assert!(!map.is_precious_reg(0x03));
}

#[test]
fn register_map_lookup() {
    let map = sample_map();
    assert_eq!(map.len(), 5);
    assert_eq!(map.find("envsel1"), Some(2));
    assert_eq!(map.find("pid"), Some(0));
    assert_eq!(map.find("nothing"), None);
    assert_eq!(map.field(2).unwrap().register_address, 0x10);
    assert!(map.field(5).is_none());
    assert_eq!(
        map.field_descs(),
        vec![
            RegField { reg: 0x03, lsb: 0, msb: 7 },
            RegField { reg: 0x10, lsb: 0, msb: 6 },
            RegField { reg: 0x10, lsb: 7, msb: 7 },
            RegField { reg: 0x15, lsb: 0, msb: 0 },
            RegField { reg: 0x16, lsb: 4, msb: 5 },
        ]
    );
    let envsel1 = map.field(2).unwrap().bit().unwrap();
    assert_eq!(envsel1.mask(), 0x80);
    assert_eq!(envsel1.access(), FieldAccess::ReadWrite);
    assert_eq!(envsel1.desc(), RegField { reg: 0x10, lsb: 7, msb: 7 });
    let pid = map.field(0).unwrap().raw().unwrap();
    assert_eq!(pid.access(), FieldAccess::ReadOnly);
    assert!(pid.access().readable());
    assert!(!pid.access().writeable());
    assert_eq!(pid.desc(), RegField { reg: 0x03, lsb: 0, msb: 7 });
    let tpwth = map.field(4).unwrap().enumerated().unwrap();
    assert_eq!(tpwth.read(Ok(0x20)), Ok(2));
    assert_eq!(tpwth.access(), FieldAccess::ReadWrite);
    assert_eq!(tpwth.desc(), RegField { reg: 0x16, lsb: 4, msb: 5 });
    // a field has the accessor of its own kind only
    assert_eq!(map.field(0).unwrap().bit().err(), Some(Error::InvalidArgument));
    assert_eq!(map.field(2).unwrap().raw().err(), Some(Error::InvalidArgument));
    assert_eq!(map.field(2).unwrap().enumerated().err(), Some(Error::InvalidArgument));
}

#[test]
fn register_map_rejects_bad_tables() {
    let overlap = vec![
        named("a", 0x10, 6, 0, FieldAccess::ReadWrite, FieldKind::Raw),
        named("b", 0x10, 7, 6, FieldAccess::ReadWrite, FieldKind::Raw),
    ];
    assert_eq!(RegisterMap::new(overlap.clone(), vec![], vec![]).err(), Some(Error::InvalidArgument));
    // an alias may overlap
    let mut aliased = overlap.clone();
    aliased[1].aliased = true;
    assert!(RegisterMap::new(aliased, vec![], vec![]).is_ok());
    // the same bits in another register do not overlap
    let mut apart = overlap;
    apart[1].register_address = 0x11;
    assert!(RegisterMap::new(apart, vec![], vec![]).is_ok());
    let wide_bit = vec![named("a", 0x10, 1, 0, FieldAccess::ReadWrite, FieldKind::Bit)];
    assert_eq!(RegisterMap::new(wide_bit, vec![], vec![]).err(), Some(Error::InvalidArgument));
    let reversed = vec![named("a", 0x10, 0, 1, FieldAccess::ReadWrite, FieldKind::Raw)];
    assert_eq!(RegisterMap::new(reversed, vec![], vec![]).err(), Some(Error::InvalidArgument));
    let outside = vec![named("a", 0x10, 32, 0, FieldAccess::ReadWrite, FieldKind::Raw)];
    assert_eq!(RegisterMap::new(outside, vec![], vec![]).err(), Some(Error::InvalidArgument));
    let bad_enum =
        vec![named("a", 0x10, 1, 0, FieldAccess::ReadWrite, FieldKind::Enum(vec![0, 4]))];
    assert_eq!(RegisterMap::new(bad_enum, vec![], vec![]).err(), Some(Error::InvalidArgument));
    assert!(RegisterMap::new(vec![], vec![], vec![]).is_ok());
}

#[test]
fn regmap_configuration() {
    let config = Config::new(8, 8, sample_map())
        .with_max_register(0x16)
        .with_cache_type(CacheType::RbTree);
    assert_eq!(config.reg_bits(), 8);
    assert_eq!(config.val_bits(), 8);
    assert_eq!(config.max_register(), 0x16);
    assert_eq!(config.cache_type(), CacheType::RbTree);
    assert!(config.readable_reg_callback(0x03));
    assert!(!config.writeable_reg_callback(0x03));
    assert!(config.volatile_reg_callback(0x03));
    assert!(config.precious_reg_callback(0x15));
    let plain = Config::new(16, 32, sample_map());
    assert_eq!(plain.max_register(), 0);
    assert_eq!(plain.cache_type(), CacheType::Uncached);
    let regmap = Regmap::init(config);
    assert_eq!(regmap.config().max_register(), 0x16);
    assert_eq!(regmap.read(0x03, Ok(0x5a)), Ok(0x5a));
    assert_eq!(
        regmap.read(0x03, Err(BusFault { errno: 5 })),
        Err(Error::Transport { register: 0x03, errno: 5 })
    );
    assert_eq!(regmap.write(0x10, Ok(0)), Ok(()));
    assert_eq!(
        regmap.write(0x10, Err(BusFault { errno: 5 })),
        Err(Error::Transport { register: 0x10, errno: 5 })
    );
}

#[test]
fn access_definitions() {
    assert_eq!((READ, WRITE, PRECIOUS, VOLATILE, RW), (1, 2, 4, 8, 3));
    assert_eq!(FieldAccess::ReadOnly.flags(), READ);
    assert_eq!(FieldAccess::WriteOnly.flags(), WRITE);
    assert_eq!(FieldAccess::ReadWrite.flags(), RW);
    let map = sample_map();
    assert_eq!(access_of(&map, 0x03), READ | VOLATILE);
    assert_eq!(access_of(&map, 0x10), RW);
    assert_eq!(access_of(&map, 0x15), WRITE | PRECIOUS);
    assert_eq!(access_of(&map, 0x16), RW);
    assert_eq!(access_of(&map, 0x17), 0);
}

#[test]
fn genmask32_values() {
    assert_eq!(genmask32(0, 0), 1);
    assert_eq!(genmask32(31, 0), u32::MAX);
    assert_eq!(genmask32(31, 31), 0x8000_0000);
    assert_eq!(genmask32(7, 6), 0xc0);
    assert_eq!(genmask32(15, 8), 0xff00);
}
