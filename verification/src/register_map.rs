//! The register map of a chip as a table: its named fields, which of its
//! registers can be read, written or cached, and the configuration of the
//! access to it.

use vstd::prelude::*;
use crate::error::{Error, Outcome};
use crate::field_laws::disjoint;
use crate::regmap::access;
use crate::regmap::{
    check_variants, read_result, variants_fit, write_result, BitField, CacheType, EnumField, Field,
    FieldAccess, FieldCommonOps, RawField, RegField,
};

verus! {

/// What the bits of a field mean.
#[derive(Debug, Clone)]
pub enum FieldKind {
    /// A single bit.
    Bit,
    /// One of the enumerated values; variant `i` has the value at place `i`.
    Enum(Vec<u32>),
    /// Bits without further meaning.
    Raw,
}

/// A named range of bits within a register.
#[derive(Debug, Clone)]
pub struct RegisterField {
    /// The name by which the field is found.
    pub name: String,
    /// Address of the register that holds the field.
    pub register_address: u32,
    /// Position of the lowest bit of the field.
    pub bit_low: u8,
    /// Position of the highest bit of the field; it is part of the field.
    pub bit_high: u8,
    /// How the field may be used.
    pub access: FieldAccess,
    /// What the bits of the field mean.
    pub kind: FieldKind,
    /// Whether the field is another view of bits that other fields name.
    /// Only such a field may overlap with others.
    pub aliased: bool,
}

impl RegisterField {
    /// The description of the field's place.
    pub open spec fn spec_reg_field(&self) -> RegField {
        RegField {
            reg: self.register_address,
            lsb: self.bit_low as u32,
            msb: self.bit_high as u32,
        }
    }

    /// Whether the field is well formed: its bits are in order and within
    /// the register, a bit field has one bit, and the values of an
    /// enumerated field fit into it and differ from each other.
    pub open spec fn wf(&self) -> bool {
        &&& self.spec_reg_field().valid()
        &&& self.kind is Bit ==> self.bit_low == self.bit_high
        &&& self.kind matches FieldKind::Enum(values) ==> variants_fit(
            self.spec_reg_field(),
            values@,
        )
    }

    /// Returns the description of the field's place.
    pub fn reg_field(&self) -> (r: RegField)
        ensures
            r == self.spec_reg_field(),
    {
        RegField {
            reg: self.register_address,
            lsb: self.bit_low as u32,
            msb: self.bit_high as u32,
        }
    }

    /// Returns the typed accessor of a bit field. A field of another kind,
    /// or one whose bits are not one bit of the register, has none.
    pub fn bit(&self) -> (r: Result<BitField, Error>)
        ensures
            self.kind is Bit && self.bit_low == self.bit_high && self.bit_low < 32 ==> r is Ok
                && r->Ok_0.reg_field() == self.spec_reg_field() && r->Ok_0.access_mode()
                == self.access,
            !(self.kind is Bit && self.bit_low == self.bit_high && self.bit_low < 32) ==> r is Err
                && r->Err_0 == Error::InvalidArgument,
    {
        match self.kind {
            FieldKind::Bit => if self.bit_low == self.bit_high {
                BitField::new(self.register_address, self.bit_low as u32, self.access)
            } else {
                Err(Error::InvalidArgument)
            },
            _ => Err(Error::InvalidArgument),
        }
    }

    /// Returns the typed accessor of a raw field. A field of another kind,
    /// or one whose bits are not in order and within the register, has none.
    pub fn raw(&self) -> (r: Result<RawField, Error>)
        ensures
            self.kind is Raw && self.spec_reg_field().valid() ==> r is Ok && r->Ok_0.reg_field()
                == self.spec_reg_field() && r->Ok_0.access_mode() == self.access,
            !(self.kind is Raw && self.spec_reg_field().valid()) ==> r is Err && r->Err_0
                == Error::InvalidArgument,
    {
        match self.kind {
            FieldKind::Raw => RawField::new(
                self.register_address,
                self.bit_high as u32,
                self.bit_low as u32,
                self.access,
            ),
            _ => Err(Error::InvalidArgument),
        }
    }

    /// Returns the typed accessor of an enumerated field. A field of
    /// another kind, or one that is not well formed, has none.
    pub fn enumerated(&self) -> (r: Result<EnumField, Error>)
        ensures
            self.kind is Enum && self.wf() ==> r is Ok && r->Ok_0.reg_field()
                == self.spec_reg_field() && r->Ok_0.access_mode() == self.access
                && r->Ok_0.variants() == self.kind->Enum_0@,
            !(self.kind is Enum && self.wf()) ==> r is Err && r->Err_0 == Error::InvalidArgument,
    {
        match &self.kind {
            FieldKind::Enum(values) => {
                let mut table: Vec<u32> = Vec::new();
                let mut i: usize = 0;
                while i < values.len()
                    invariant
                        i <= values@.len(),
                        table@ == values@.subrange(0, i as int),
                    decreases values@.len() - i,
                {
                    table.push(values[i]);
                    assert(table@ =~= values@.subrange(0, i + 1));
                    i += 1;
                }
                assert(table@ =~= values@);
                EnumField::new(
                    self.register_address,
                    self.bit_high as u32,
                    self.bit_low as u32,
                    self.access,
                    table,
                )
            },
            _ => Err(Error::InvalidArgument),
        }
    }
}

/// Whether two fields name a bit in common.
pub open spec fn overlapping(a: RegisterField, b: RegisterField) -> bool {
    a.register_address == b.register_address && a.bit_low <= b.bit_high && b.bit_low
        <= a.bit_high
}

/// Whether the fields can make up a register map: each is well formed, and
/// no two of them overlap unless one of them is an alias.
pub open spec fn fields_valid(fields: Seq<RegisterField>) -> bool {
    &&& forall|i: int| 0 <= i < fields.len() ==> (#[trigger] fields[i]).wf()
    &&& forall|i: int, j: int|
        0 <= i < j < fields.len() && overlapping(#[trigger] fields[i], #[trigger] fields[j])
            ==> fields[i].aliased || fields[j].aliased
}

/// Whether `i` is the first position of `fields` whose field is called
/// `name`.
pub open spec fn is_first_field(fields: Seq<RegisterField>, name: Seq<char>, i: int) -> bool {
    &&& 0 <= i < fields.len()
    &&& fields[i].name@ == name
    &&& forall|j: int| 0 <= j < i ==> (#[trigger] fields[j]).name@ != name
}

/// Whether one of the fields lies in the register `reg` and is read.
pub open spec fn any_field_readable(fields: Seq<RegisterField>, reg: u32) -> bool {
    exists|i: int|
        0 <= i < fields.len() && (#[trigger] fields[i]).register_address == reg
            && fields[i].access.spec_readable()
}

/// Whether one of the fields lies in the register `reg` and is written.
pub open spec fn any_field_writeable(fields: Seq<RegisterField>, reg: u32) -> bool {
    exists|i: int|
        0 <= i < fields.len() && (#[trigger] fields[i]).register_address == reg
            && fields[i].access.spec_writeable()
}

/// How the registers of a device can be accessed.
pub trait ConfigOps {
    /// Whether the register `reg` can be read.
    spec fn readable(&self, reg: u32) -> bool;

    /// Whether the register `reg` can be written.
    spec fn writeable(&self, reg: u32) -> bool;

    /// Whether the value of the register `reg` can change by itself, so
    /// that it cannot be cached.
    spec fn volatile(&self, reg: u32) -> bool;

    /// Whether reading the register `reg` has an effect, so that it should
    /// not be read outside of a call from the driver.
    spec fn precious(&self, reg: u32) -> bool;

    /// Returns whether the register `reg` can be read.
    fn is_readable_reg(&self, reg: u32) -> (r: bool)
        ensures
            r == self.readable(reg),
    ;

    /// Returns whether the register `reg` can be written.
    fn is_writeable_reg(&self, reg: u32) -> (r: bool)
        ensures
            r == self.writeable(reg),
    ;

    /// Returns whether the register `reg` cannot be cached.
    fn is_volatile_reg(&self, reg: u32) -> (r: bool)
        ensures
            r == self.volatile(reg),
    ;

    /// Returns whether the register `reg` should not be read outside of a
    /// call from the driver.
    fn is_precious_reg(&self, reg: u32) -> (r: bool)
        ensures
            r == self.precious(reg),
    ;
}

/// The full set of fields of one chip.
#[derive(Debug)]
pub struct RegisterMap {
    fields: Vec<RegisterField>,
    volatile: Vec<u32>,
    precious: Vec<u32>,
}

fn contains(list: &Vec<u32>, reg: u32) -> (r: bool)
    ensures
        r == list@.contains(reg),
{
    let mut i: usize = 0;
    while i < list.len()
        invariant
            i <= list@.len(),
            forall|k: int| 0 <= k < i ==> list@[k] != reg,
        decreases list@.len() - i,
    {
        if list[i] == reg {
            return true;
        }
        i += 1;
    }
    false
}

fn field_wf(field: &RegisterField) -> (r: bool)
    ensures
        r == field.wf(),
{
    if !(field.bit_low <= field.bit_high && field.bit_high < 32) {
        return false;
    }
    match &field.kind {
        FieldKind::Bit => field.bit_low == field.bit_high,
        FieldKind::Enum(values) => match Field::new(field.reg_field()) {
            Ok(place) => check_variants(&place, values),
            Err(_) => false,
        },
        FieldKind::Raw => true,
    }
}

fn fields_overlap(a: &RegisterField, b: &RegisterField) -> (r: bool)
    ensures
        r == overlapping(*a, *b),
{
    a.register_address == b.register_address && a.bit_low <= b.bit_high && b.bit_low <= a.bit_high
}

impl RegisterMap {
    #[verifier::type_invariant]
    spec fn valid(&self) -> bool {
        fields_valid(self.fields@)
    }

    /// The fields of the map in the order of their numbers.
    pub closed spec fn fields(&self) -> Seq<RegisterField> {
        self.fields@
    }

    /// The registers that cannot be cached.
    pub closed spec fn volatile_regs(&self) -> Seq<u32> {
        self.volatile@
    }

    /// The registers that should not be read outside of a call from the
    /// driver.
    pub closed spec fn precious_regs(&self) -> Seq<u32> {
        self.precious@
    }

    /// Makes the register map of the fields `fields`; `volatile` and
    /// `precious` list the registers that are so. This fails if, and only
    /// if, a field is not well formed or two fields overlap of which none
    /// is an alias.
    pub fn new(fields: Vec<RegisterField>, volatile: Vec<u32>, precious: Vec<u32>) -> (r: Result<
        RegisterMap,
        Error,
    >)
        ensures
            fields_valid(fields@) ==> r is Ok && r->Ok_0.fields() == fields@
                && r->Ok_0.volatile_regs() == volatile@ && r->Ok_0.precious_regs() == precious@,
            !fields_valid(fields@) ==> r is Err && r->Err_0 == Error::InvalidArgument,
    {
        let mut i: usize = 0;
        while i < fields.len()
            invariant
                i <= fields@.len(),
                forall|k: int| 0 <= k < i ==> (#[trigger] fields@[k]).wf(),
                forall|k: int, j: int|
                    0 <= k < j < i && overlapping(#[trigger] fields@[k], #[trigger] fields@[j])
                        ==> fields@[k].aliased || fields@[j].aliased,
            decreases fields@.len() - i,
        {
            if !field_wf(&fields[i]) {
                return Err(Error::InvalidArgument);
            }
            let mut k: usize = 0;
            while k < i
                invariant
                    k <= i < fields@.len(),
                    forall|j: int|
                        0 <= j < k && overlapping(#[trigger] fields@[j], fields@[i as int])
                            ==> fields@[j].aliased || fields@[i as int].aliased,
                decreases i - k,
            {
                if fields_overlap(&fields[k], &fields[i]) && !fields[k].aliased
                    && !fields[i].aliased {
                    return Err(Error::InvalidArgument);
                }
                k += 1;
            }
            i += 1;
        }
        Ok(RegisterMap { fields, volatile, precious })
    }

    /// Returns the number of fields.
    pub fn len(&self) -> (r: usize)
        ensures
            r == self.fields().len(),
    {
        self.fields.len()
    }

    /// Returns field number `index`, if there is such a field.
    pub fn field(&self, index: usize) -> (r: Option<&RegisterField>)
        ensures
            index < self.fields().len() ==> r is Some && *r->Some_0 == self.fields()[index as int]
                && r->Some_0.wf(),
            index >= self.fields().len() ==> r is None,
    {
        proof {
            use_type_invariant(self);
        }
        if index < self.fields.len() {
            Some(&self.fields[index])
        } else {
            None
        }
    }

    /// Returns the number of the first field called `name`, if there is
    /// such a field.
    pub fn find(&self, name: &str) -> (r: Option<usize>)
        ensures
            match r {
                Some(i) => is_first_field(self.fields(), name@, i as int),
                None => forall|j: int|
                    0 <= j < self.fields().len() ==> (#[trigger] self.fields()[j]).name@ != name@,
            },
    {
        let key = name.to_owned();
        let mut i: usize = 0;
        while i < self.fields.len()
            invariant
                i <= self.fields@.len(),
                key@ == name@,
                forall|j: int| 0 <= j < i ==> (#[trigger] self.fields@[j]).name@ != name@,
            decreases self.fields@.len() - i,
        {
            if self.fields[i].name == key {
                return Some(i);
            }
            i += 1;
        }
        None
    }

    /// Returns the descriptions of the fields' places, in the order of the
    /// fields.
    pub fn field_descs(&self) -> (r: Vec<RegField>)
        ensures
            r@.len() == self.fields().len(),
            forall|i: int|
                0 <= i < r@.len() ==> #[trigger] r@[i] == self.fields()[i].spec_reg_field(),
            forall|i: int| 0 <= i < r@.len() ==> (#[trigger] r@[i]).valid(),
    {
        proof {
            use_type_invariant(self);
        }
        let mut out: Vec<RegField> = Vec::new();
        let mut i: usize = 0;
        while i < self.fields.len()
            invariant
                i <= self.fields@.len(),
                out@.len() == i,
                fields_valid(self.fields@),
                forall|k: int|
                    0 <= k < i ==> #[trigger] out@[k] == self.fields@[k].spec_reg_field(),
                forall|k: int| 0 <= k < i ==> (#[trigger] out@[k]).valid(),
            decreases self.fields@.len() - i,
        {
            assert(self.fields@[i as int].wf());
            out.push(self.fields[i].reg_field());
            i += 1;
        }
        out
    }
}

impl ConfigOps for RegisterMap {
    open spec fn readable(&self, reg: u32) -> bool {
        any_field_readable(self.fields(), reg)
    }

    open spec fn writeable(&self, reg: u32) -> bool {
        any_field_writeable(self.fields(), reg)
    }

    open spec fn volatile(&self, reg: u32) -> bool {
        self.volatile_regs().contains(reg)
    }

    open spec fn precious(&self, reg: u32) -> bool {
        self.precious_regs().contains(reg)
    }

    fn is_readable_reg(&self, reg: u32) -> (r: bool) {
        let mut i: usize = 0;
        while i < self.fields.len()
            invariant
                i <= self.fields@.len(),
                forall|k: int|
                    0 <= k < i ==> !((#[trigger] self.fields@[k]).register_address == reg
                        && self.fields@[k].access.spec_readable()),
            decreases self.fields@.len() - i,
        {
            if self.fields[i].register_address == reg && self.fields[i].access.readable() {
                return true;
            }
            i += 1;
        }
        false
    }

    fn is_writeable_reg(&self, reg: u32) -> (r: bool) {
        let mut i: usize = 0;
        while i < self.fields.len()
            invariant
                i <= self.fields@.len(),
                forall|k: int|
                    0 <= k < i ==> !((#[trigger] self.fields@[k]).register_address == reg
                        && self.fields@[k].access.spec_writeable()),
            decreases self.fields@.len() - i,
        {
            if self.fields[i].register_address == reg && self.fields[i].access.writeable() {
                return true;
            }
            i += 1;
        }
        false
    }

    fn is_volatile_reg(&self, reg: u32) -> (r: bool) {
        contains(&self.volatile, reg)
    }

    fn is_precious_reg(&self, reg: u32) -> (r: bool) {
        contains(&self.precious, reg)
    }
}

/// The access definitions of the register `reg` as `ops` has them: one bit
/// for each of read, write, precious and volatile.
pub open spec fn spec_access_of<T: ConfigOps>(ops: &T, reg: u32) -> u32 {
    ((if ops.readable(reg) {
        access::READ
    } else {
        0u32
    }) + (if ops.writeable(reg) {
        access::WRITE
    } else {
        0u32
    }) + (if ops.precious(reg) {
        access::PRECIOUS
    } else {
        0u32
    }) + (if ops.volatile(reg) {
        access::VOLATILE
    } else {
        0u32
    })) as u32
}

/// Returns the access definitions of the register `reg` as `ops` has them.
pub fn access_of<T: ConfigOps>(ops: &T, reg: u32) -> (r: u32)
    ensures
        r == spec_access_of(ops, reg),
{
    let mut flags: u32 = 0;
    if ops.is_readable_reg(reg) {
        flags = flags + access::READ;
    }
    if ops.is_writeable_reg(reg) {
        flags = flags + access::WRITE;
    }
    if ops.is_precious_reg(reg) {
        flags = flags + access::PRECIOUS;
    }
    if ops.is_volatile_reg(reg) {
        flags = flags + access::VOLATILE;
    }
    flags
}

/// In a register map, two fields of which none is an alias have no bit in
/// common, so that a write to one of them leaves the other as it is.
pub proof fn lemma_fields_of_a_map_are_disjoint(fields: Seq<RegisterField>, i: int, j: int)
    requires
        fields_valid(fields),
        0 <= i < fields.len(),
        0 <= j < fields.len(),
        i != j,
        !fields[i].aliased,
        !fields[j].aliased,
    ensures
        fields[i].spec_reg_field().valid(),
        fields[j].spec_reg_field().valid(),
        disjoint(fields[i].spec_reg_field(), fields[j].spec_reg_field()),
{
    assert(fields[i].wf() && fields[j].wf());
    if i < j {
        assert(!overlapping(fields[i], fields[j]));
    } else {
        assert(!overlapping(fields[j], fields[i]));
    }
}

/// Regmap configuration: the widths of addresses and values, the highest
/// register, the type of caching, and how the registers can be accessed.
#[derive(Debug)]
pub struct Config<T: ConfigOps> {
    reg_bits: i32,
    val_bits: i32,
    max_register: u32,
    cache_type: CacheType,
    ops: T,
}

impl<T: ConfigOps> Config<T> {
    /// The number of bits of a register address.
    pub closed spec fn spec_reg_bits(&self) -> i32 {
        self.reg_bits
    }

    /// The number of bits of a register value.
    pub closed spec fn spec_val_bits(&self) -> i32 {
        self.val_bits
    }

    /// The maximum valid register address; 0 if none was given.
    pub closed spec fn spec_max_register(&self) -> u32 {
        self.max_register
    }

    /// The type of caching being performed.
    pub closed spec fn spec_cache_type(&self) -> CacheType {
        self.cache_type
    }

    /// How the registers can be accessed.
    pub closed spec fn spec_ops(&self) -> T {
        self.ops
    }

    /// Create a new regmap configuration without caching and without a
    /// highest register.
    pub fn new(reg_bits: i32, val_bits: i32, ops: T) -> (r: Self)
        ensures
            r.spec_reg_bits() == reg_bits,
            r.spec_val_bits() == val_bits,
            r.spec_max_register() == 0,
            r.spec_cache_type() == CacheType::Uncached,
            r.spec_ops() == ops,
    {
        Config { reg_bits, val_bits, max_register: 0, cache_type: CacheType::Uncached, ops }
    }

    /// Specifies the maximum valid register address.
    pub fn with_max_register(self, max_register: u32) -> (r: Self)
        ensures
            r.spec_reg_bits() == self.spec_reg_bits(),
            r.spec_val_bits() == self.spec_val_bits(),
            r.spec_max_register() == max_register,
            r.spec_cache_type() == self.spec_cache_type(),
            r.spec_ops() == self.spec_ops(),
    {
        Config {
            reg_bits: self.reg_bits,
            val_bits: self.val_bits,
            max_register,
            cache_type: self.cache_type,
            ops: self.ops,
        }
    }

    /// Type of caching being performed.
    pub fn with_cache_type(self, cache_type: CacheType) -> (r: Self)
        ensures
            r.spec_reg_bits() == self.spec_reg_bits(),
            r.spec_val_bits() == self.spec_val_bits(),
            r.spec_max_register() == self.spec_max_register(),
            r.spec_cache_type() == cache_type,
            r.spec_ops() == self.spec_ops(),
    {
        Config {
            reg_bits: self.reg_bits,
            val_bits: self.val_bits,
            max_register: self.max_register,
            cache_type,
            ops: self.ops,
        }
    }

    /// Returns the number of bits of a register address.
    pub fn reg_bits(&self) -> (r: i32)
        ensures
            r == self.spec_reg_bits(),
    {
        self.reg_bits
    }

    /// Returns the number of bits of a register value.
    pub fn val_bits(&self) -> (r: i32)
        ensures
            r == self.spec_val_bits(),
    {
        self.val_bits
    }

    /// Returns the maximum valid register address; 0 if none was given.
    pub fn max_register(&self) -> (r: u32)
        ensures
            r == self.spec_max_register(),
    {
        self.max_register
    }

    /// Returns the type of caching being performed.
    pub fn cache_type(&self) -> (r: CacheType)
        ensures
            r == self.spec_cache_type(),
    {
        self.cache_type
    }

    /// Tells the access layer whether the register `reg` can be written.
    pub fn writeable_reg_callback(&self, reg: u32) -> (r: bool)
        ensures
            r == self.spec_ops().writeable(reg),
    {
        self.ops.is_writeable_reg(reg)
    }

    /// Tells the access layer whether the register `reg` can be read.
    pub fn readable_reg_callback(&self, reg: u32) -> (r: bool)
        ensures
            r == self.spec_ops().readable(reg),
    {
        self.ops.is_readable_reg(reg)
    }

    /// Tells the access layer whether the register `reg` cannot be cached.
    pub fn volatile_reg_callback(&self, reg: u32) -> (r: bool)
        ensures
            r == self.spec_ops().volatile(reg),
    {
        self.ops.is_volatile_reg(reg)
    }

    /// Tells the access layer whether the register `reg` should not be
    /// read outside of a call from the driver.
    pub fn precious_reg_callback(&self, reg: u32) -> (r: bool)
        ensures
            r == self.spec_ops().precious(reg),
    {
        self.ops.is_precious_reg(reg)
    }
}

/// Register map: the way to the registers of one device. It judges the
/// outcomes of the accesses that the transport made.
#[derive(Debug)]
pub struct Regmap<T: ConfigOps> {
    config: Config<T>,
}

impl<T: ConfigOps> Regmap<T> {
    /// The configuration that the register map was made with.
    pub closed spec fn spec_config(&self) -> Config<T> {
        self.config
    }

    /// Initialize a `Regmap` instance with the configuration `config`.
    pub fn init(config: Config<T>) -> (r: Self)
        ensures
            r.spec_config() == config,
    {
        Regmap { config }
    }

    /// Returns the configuration that the register map was made with.
    pub fn config(&self) -> (r: &Config<T>)
        ensures
            *r == self.spec_config(),
    {
        &self.config
    }

    /// Judges the outcome of a read of `register`: the value read, or the
    /// error of the transport with the address of the register.
    pub fn read(&self, register: u32, outcome: Outcome) -> (r: Result<u32, Error>)
        ensures
            r == read_result(register, outcome),
    {
        crate::regmap::read(register, outcome)
    }

    /// Judges the outcome of a write to `register`: nothing, or the error
    /// of the transport with the address of the register.
    pub fn write(&self, register: u32, outcome: Outcome) -> (r: Result<(), Error>)
        ensures
            r == write_result(register, outcome),
    {
        crate::regmap::write(register, outcome)
    }
}

} // verus!
