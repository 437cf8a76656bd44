//! Register map access: fields of registers and the typed operations on
//! them.
//!
//! A field is a run of bits of one register. Reading a field turns the
//! register as it was read into the value of the field; writing it gives a
//! masked update of the register, which leaves the bits of all other fields
//! as they are. None of this touches the bus: the caller reads and writes
//! the registers.

use vstd::prelude::*;
use crate::bits::{genmask32, spec_genmask32};
use crate::error::{Error, Outcome};

pub mod access;

verus! {

/// Type of caching.
#[derive(Debug, Clone, Copy, PartialEq, Eq, Structural)]
pub enum CacheType {
    /// Don't cache anything.
    Uncached,
    /// Use RbTree caching.
    RbTree,
    /// Use Flat caching.
    Flat,
    /// Use Maple caching.
    Maple,
}

/// Describes a field: the register that holds it and its first and last
/// bit, both counted from bit 0 and both part of the field.
#[derive(Debug, Clone, Copy, PartialEq, Eq, Structural)]
pub struct RegField {
    /// Address of the register.
    pub reg: u32,
    /// Position of the least significant bit of the field.
    pub lsb: u32,
    /// Position of the most significant bit of the field.
    pub msb: u32,
}

impl RegField {
    /// Whether the bits of the field are in order and within the register.
    pub open spec fn valid(self) -> bool {
        self.lsb <= self.msb < 32
    }
}

/// A masked write to one register: the bits of `mask` take the bits of
/// `value` at the same positions, all others stay as they are.
#[derive(Debug, Clone, Copy, PartialEq, Eq, Structural)]
pub struct RegUpdate {
    /// Address of the register.
    pub reg: u32,
    /// The bits that are written.
    pub mask: u32,
    /// The bits that they are given.
    pub value: u32,
    /// Whether the register is written even if that changes nothing.
    pub force: bool,
}

/// The bits of the register that belong to the field.
pub open spec fn field_mask(d: RegField) -> u32 {
    spec_genmask32(d.msb, d.lsb)
}

/// The largest value that the field can hold: all of its bits set.
pub open spec fn field_max(d: RegField) -> u32 {
    field_mask(d) >> d.lsb
}

/// The value of the field in a register that reads `register`.
pub open spec fn field_get(d: RegField, register: u32) -> u32 {
    (register & field_mask(d)) >> d.lsb
}

/// The update that gives the field the value `val`. Bits of `val` beyond
/// the field are dropped.
pub open spec fn field_write(d: RegField, val: u32, force: bool) -> RegUpdate {
    RegUpdate { reg: d.reg, mask: field_mask(d), value: val << d.lsb, force }
}

/// The update that gives the bits `bits` of the field the bits of `val` at
/// the same positions, counted from the first bit of the field.
pub open spec fn field_update_bits(d: RegField, bits: u32, val: u32, force: bool) -> RegUpdate {
    RegUpdate { reg: d.reg, mask: (bits << d.lsb) & field_mask(d), value: val << d.lsb, force }
}

/// What a read of `register` gives: the value read, or the error of the
/// transport with the address of the register.
pub open spec fn read_result(register: u32, outcome: Outcome) -> Result<u32, Error> {
    match outcome {
        Ok(value) => Ok(value),
        Err(fault) => Err(Error::transport(register, fault)),
    }
}

/// What a write to `register` gives: nothing, or the error of the
/// transport with the address of the register.
pub open spec fn write_result(register: u32, outcome: Outcome) -> Result<(), Error> {
    match outcome {
        Ok(_) => Ok(()),
        Err(fault) => Err(Error::transport(register, fault)),
    }
}

/// Judges the outcome of a read of `register`.
pub fn read(register: u32, outcome: Outcome) -> (r: Result<u32, Error>)
    ensures
        r == read_result(register, outcome),
{
    match outcome {
        Ok(value) => Ok(value),
        Err(fault) => Err(Error::from_fault(register, fault)),
    }
}

/// Judges the outcome of a write to `register`.
pub fn write(register: u32, outcome: Outcome) -> (r: Result<(), Error>)
    ensures
        r == write_result(register, outcome),
{
    match outcome {
        Ok(_) => Ok(()),
        Err(fault) => Err(Error::from_fault(register, fault)),
    }
}

impl RegUpdate {
    /// The register after the update, if it read `current` before.
    pub open spec fn merged(self, current: u32) -> u32 {
        (current & !self.mask) | (self.value & self.mask)
    }

    /// What is to be written for the update when the read of the register
    /// ended in `outcome`: nothing if the register holds the bits already
    /// and the update is not forced, else the merged register.
    pub open spec fn planned(self, outcome: Outcome) -> Result<Option<u32>, Error> {
        match outcome {
            Ok(current) => if self.force || self.merged(current) != current {
                Ok(Some(self.merged(current)))
            } else {
                Ok(None)
            },
            Err(fault) => Err(Error::transport(self.reg, fault)),
        }
    }

    /// Returns the register after the update, if it read `current` before.
    pub fn merge(&self, current: u32) -> (r: u32)
        ensures
            r == self.merged(current),
    {
        (current & !self.mask) | (self.value & self.mask)
    }

    /// Decides what is to be written once the register has been read with
    /// `outcome`. A failed read fails the update. A register that holds the
    /// bits already is not written, unless the update is forced.
    pub fn plan(&self, outcome: Outcome) -> (r: Result<Option<u32>, Error>)
        ensures
            r == self.planned(outcome),
    {
        match outcome {
            Ok(current) => {
                let merged = self.merge(current);
                if self.force || merged != current {
                    Ok(Some(merged))
                } else {
                    Ok(None)
                }
            },
            Err(fault) => Err(Error::from_fault(self.reg, fault)),
        }
    }

    /// Judges the outcome of the write that the update planned.
    pub fn finish(&self, outcome: Outcome) -> (r: Result<(), Error>)
        ensures
            r == write_result(self.reg, outcome),
    {
        write(self.reg, outcome)
    }
}

/// A field of a register whose bits are known to be in order and within
/// the register.
#[derive(Debug, Clone, Copy)]
pub struct Field {
    desc: RegField,
}

impl Field {
    #[verifier::type_invariant]
    spec fn bits_in_order(&self) -> bool {
        self.desc.valid()
    }

    /// The description that the field was made from.
    pub closed spec fn descriptor(&self) -> RegField {
        self.desc
    }

    /// Makes a field from its description, if the bits that it names are in
    /// order and within the register.
    pub fn new(desc: RegField) -> (r: Result<Field, Error>)
        ensures
            desc.valid() ==> r is Ok && r->Ok_0.descriptor() == desc,
            !desc.valid() ==> r is Err && r->Err_0 == Error::InvalidArgument,
    {
        if desc.lsb <= desc.msb && desc.msb < 32 {
            Ok(Field { desc })
        } else {
            Err(Error::InvalidArgument)
        }
    }

    /// Returns the description that the field was made from.
    pub fn desc(&self) -> (r: RegField)
        ensures
            r == self.descriptor(),
            r.valid(),
    {
        proof {
            use_type_invariant(self);
        }
        self.desc
    }

    /// Returns the address of the register that holds the field.
    pub fn reg(&self) -> (r: u32)
        ensures
            r == self.descriptor().reg,
    {
        self.desc.reg
    }

    /// Returns the bits of the register that belong to the field.
    pub fn mask(&self) -> (r: u32)
        ensures
            r == field_mask(self.descriptor()),
    {
        proof {
            use_type_invariant(self);
        }
        genmask32(self.desc.msb, self.desc.lsb)
    }

    /// Returns the value of the field in a register that reads `register`.
    pub fn get(&self, register: u32) -> (r: u32)
        ensures
            r == field_get(self.descriptor(), register),
            r <= field_max(self.descriptor()),
    {
        proof {
            use_type_invariant(self);
            lemma_field_get_bounded(self.desc.msb, self.desc.lsb, register);
        }
        (register & self.mask()) >> self.desc.lsb
    }

    /// Returns the update that gives the field the value `val`.
    pub fn write(&self, val: u32) -> (r: RegUpdate)
        ensures
            r == field_write(self.descriptor(), val, false),
    {
        proof {
            use_type_invariant(self);
        }
        RegUpdate { reg: self.desc.reg, mask: self.mask(), value: val << self.desc.lsb, force: false }
    }

    /// Returns the update that gives the field the value `val` and writes
    /// the register even if it holds that value already.
    pub fn force_write(&self, val: u32) -> (r: RegUpdate)
        ensures
            r == field_write(self.descriptor(), val, true),
    {
        proof {
            use_type_invariant(self);
        }
        RegUpdate { reg: self.desc.reg, mask: self.mask(), value: val << self.desc.lsb, force: true }
    }

    /// Returns the update that gives the bits `mask` of the field the bits
    /// of `val`.
    pub fn update_bits(&self, mask: u32, val: u32) -> (r: RegUpdate)
        ensures
            r == field_update_bits(self.descriptor(), mask, val, false),
    {
        proof {
            use_type_invariant(self);
        }
        RegUpdate {
            reg: self.desc.reg,
            mask: (mask << self.desc.lsb) & self.mask(),
            value: val << self.desc.lsb,
            force: false,
        }
    }

    /// Returns the update that gives the bits `mask` of the field the bits
    /// of `val` and writes the register even if that changes nothing.
    pub fn force_update_bits(&self, mask: u32, val: u32) -> (r: RegUpdate)
        ensures
            r == field_update_bits(self.descriptor(), mask, val, true),
    {
        proof {
            use_type_invariant(self);
        }
        RegUpdate {
            reg: self.desc.reg,
            mask: (mask << self.desc.lsb) & self.mask(),
            value: val << self.desc.lsb,
            force: true,
        }
    }

    /// Returns the update that sets the bits `bits` of the field.
    pub fn set_bits(&self, bits: u32) -> (r: RegUpdate)
        ensures
            r == field_update_bits(self.descriptor(), bits, bits, false),
    {
        self.update_bits(bits, bits)
    }

    /// Returns the update that clears the bits `bits` of the field.
    pub fn clear_bits(&self, bits: u32) -> (r: RegUpdate)
        ensures
            r == field_update_bits(self.descriptor(), bits, 0, false),
    {
        self.update_bits(bits, 0)
    }

    /// Returns whether all of the bits `bits` of the field are set in a
    /// register that reads `register`.
    pub fn test_bits(&self, register: u32, bits: u32) -> (r: bool)
        ensures
            r == (field_get(self.descriptor(), register) & bits == bits),
    {
        (self.get(register) & bits) == bits
    }
}

/// Field descriptors: the descriptions of the fields of a device, in the
/// order by which the fields are numbered.
#[derive(Debug, Clone, Copy)]
pub struct FieldDescs<const N: usize>([RegField; N]);

impl<const N: usize> View for FieldDescs<N> {
    type V = Seq<RegField>;

    closed spec fn view(&self) -> Seq<RegField> {
        self.0@
    }
}

impl<const N: usize> FieldDescs<N> {
    /// Collects the descriptions of `N` fields.
    pub fn new(fields: [RegField; N]) -> (r: Self)
        ensures
            r@ == fields@,
    {
        Self(fields)
    }

    /// Number of fields being held by `FieldDescs<N>`.
    pub fn len(&self) -> (r: usize)
        ensures
            r == N,
            r == self@.len(),
    {
        N
    }

    /// Returns the description of field `index`.
    pub fn get(&self, index: usize) -> (r: RegField)
        requires
            index < N,
        ensures
            r == self@[index as int],
    {
        self.0[index]
    }
}

/// Regmap fields: the fields of a device, made from descriptions that are
/// all valid, and numbered as their descriptions are.
#[derive(Debug, Clone, Copy)]
pub struct Fields<const N: usize> {
    fields: [Field; N],
}

impl<const N: usize> View for Fields<N> {
    type V = Seq<RegField>;

    closed spec fn view(&self) -> Seq<RegField> {
        Seq::new(N as nat, |i: int| self.fields[i].descriptor())
    }
}

/// What reading field `index` of the fields `fields` gives when the read
/// of its register ended in `outcome`. A number that names no field is an
/// invalid argument.
pub open spec fn fields_read(fields: Seq<RegField>, index: usize, outcome: Outcome) -> Result<
    u32,
    Error,
> {
    if index < fields.len() {
        field_read(fields[index as int], outcome)
    } else {
        Err(Error::InvalidArgument)
    }
}

impl<const N: usize> Fields<N> {
    /// Allocate regmap `Fields` from the field descriptors. This fails
    /// if, and only if, one of the descriptions is not valid.
    pub fn new(descs: &FieldDescs<N>) -> (r: Result<Self, Error>)
        ensures
            (forall|i: int| 0 <= i < N ==> (#[trigger] descs@[i]).valid()) ==> r is Ok && r->Ok_0@
                == descs@,
            !(forall|i: int| 0 <= i < N ==> (#[trigger] descs@[i]).valid()) ==> r is Err
                && r->Err_0 == Error::InvalidArgument,
    {
        let blank = match Field::new(RegField { reg: 0, lsb: 0, msb: 0 }) {
            Ok(field) => field,
            Err(e) => {
                return Err(e);
            },
        };
        let mut fields = [blank;N];
        let mut i: usize = 0;
        while i < N
            invariant
                i <= N,
                descs@.len() == N,
                forall|k: int| 0 <= k < i ==> (#[trigger] descs@[k]).valid(),
                forall|k: int| 0 <= k < i ==> (#[trigger] fields[k]).descriptor() == descs@[k],
            decreases N - i,
        {
            let field = match Field::new(descs.get(i)) {
                Ok(field) => field,
                Err(e) => {
                    return Err(e);
                },
            };
            fields[i] = field;
            i += 1;
        }
        let r = Fields { fields };
        assert(r@ =~= descs@);
        Ok(r)
    }

    /// Get field `index`.
    pub fn index(&self, index: usize) -> (r: Field)
        requires
            index < N,
        ensures
            r.descriptor() == self@[index as int],
    {
        self.fields[index]
    }

    /// Returns the value of field `index`, given the outcome of reading the
    /// register that holds it.
    pub fn read(&self, index: usize, outcome: Outcome) -> (r: Result<u32, Error>)
        ensures
            r == fields_read(self@, index, outcome),
    {
        // Make sure we don't panic if the index is out of bound.
        if index >= N {
            return Err(Error::InvalidArgument);
        }
        let field = self.fields[index];
        match outcome {
            Ok(register) => Ok(field.get(register)),
            Err(fault) => Err(Error::from_fault(field.reg(), fault)),
        }
    }
}

/// How the operations of a field may be used.
#[derive(Debug, Clone, Copy, PartialEq, Eq, Structural)]
pub enum FieldAccess {
    /// The field is only read.
    ReadOnly,
    /// The field is only written.
    WriteOnly,
    /// The field is read and written.
    ReadWrite,
}

impl FieldAccess {
    /// Whether the field is read.
    pub open spec fn spec_readable(self) -> bool {
        self != FieldAccess::WriteOnly
    }

    /// Whether the field is written.
    pub open spec fn spec_writeable(self) -> bool {
        self != FieldAccess::ReadOnly
    }

    /// The access definitions that stand for the mode.
    pub open spec fn spec_flags(self) -> u32 {
        match self {
            FieldAccess::ReadOnly => access::READ,
            FieldAccess::WriteOnly => access::WRITE,
            FieldAccess::ReadWrite => access::RW,
        }
    }

    /// Returns the access definitions that stand for the mode.
    pub fn flags(self) -> (r: u32)
        ensures
            r == self.spec_flags(),
    {
        match self {
            FieldAccess::ReadOnly => access::READ,
            FieldAccess::WriteOnly => access::WRITE,
            FieldAccess::ReadWrite => access::RW,
        }
    }

    /// Returns whether the field is read.
    pub fn readable(self) -> (r: bool)
        ensures
            r == self.spec_readable(),
    {
        match self {
            FieldAccess::WriteOnly => false,
            _ => true,
        }
    }

    /// Returns whether the field is written.
    pub fn writeable(self) -> (r: bool)
        ensures
            r == self.spec_writeable(),
    {
        match self {
            FieldAccess::ReadOnly => false,
            _ => true,
        }
    }
}

/// Whether the bit of a one-bit field is set, from the outcome of reading
/// its register.
pub open spec fn bit_is_set(d: RegField, outcome: Outcome) -> Result<bool, Error> {
    match outcome {
        Ok(register) => Ok(field_get(d, register) == 1),
        Err(fault) => Err(Error::transport(d.reg, fault)),
    }
}

/// The value of a field, from the outcome of reading its register.
pub open spec fn field_read(d: RegField, outcome: Outcome) -> Result<u32, Error> {
    match outcome {
        Ok(register) => Ok(field_get(d, register)),
        Err(fault) => Err(Error::transport(d.reg, fault)),
    }
}

/// Whether all of the bits `bits` of a field are set, from the outcome of
/// reading its register: an error if they are not.
pub open spec fn field_test_bits(d: RegField, outcome: Outcome, bits: u32) -> Result<(), Error> {
    match outcome {
        Ok(register) => if field_get(d, register) & bits == bits {
            Ok(())
        } else {
            Err(Error::BitsNotSet)
        },
        Err(fault) => Err(Error::transport(d.reg, fault)),
    }
}

/// Whether `i` is a variant of the table `values` and has the value `value`.
pub open spec fn is_variant(values: Seq<u32>, value: u32, i: int) -> bool {
    0 <= i < values.len() && values[i] == value
}

/// The variant of the table `values` that has the value `value`, if there
/// is one.
pub open spec fn variant_with_value(values: Seq<u32>, value: u32) -> Option<usize> {
    if exists|i: int| is_variant(values, value, i) {
        Some((choose|i: int| is_variant(values, value, i)) as usize)
    } else {
        None
    }
}

/// Whether the table `values` can be the variants of the field `d`: every
/// value fits into the field, and no two variants have the same value.
pub open spec fn variants_fit(d: RegField, values: Seq<u32>) -> bool {
    &&& values.len() <= usize::MAX
    &&& forall|i: int| 0 <= i < values.len() ==> #[trigger] values[i] <= field_max(d)
    &&& forall|i: int, j: int|
        0 <= i < j < values.len() ==> #[trigger] values[i] != #[trigger] values[j]
}

/// The variant that an enumerated field holds, from the outcome of reading
/// its register: an error if the bits read are the value of no variant.
pub open spec fn enum_read(d: RegField, values: Seq<u32>, outcome: Outcome) -> Result<
    usize,
    Error,
> {
    match outcome {
        Ok(register) => match variant_with_value(values, field_get(d, register)) {
            Some(variant) => Ok(variant),
            None => Err(Error::InvalidFieldValue),
        },
        Err(fault) => Err(Error::transport(d.reg, fault)),
    }
}

/// The update that gives an enumerated field the variant `variant`: an
/// error if the table has no such variant.
pub open spec fn enum_write(d: RegField, values: Seq<u32>, variant: usize, force: bool) -> Result<
    RegUpdate,
    Error,
> {
    if variant < values.len() {
        Ok(field_write(d, values[variant as int], force))
    } else {
        Err(Error::InvalidArgument)
    }
}

/// Returns whether the table `values` can be the variants of `field`:
/// every value fits into the field, and no two variants have the same
/// value.
pub fn check_variants(field: &Field, values: &Vec<u32>) -> (r: bool)
    ensures
        r == variants_fit(field.descriptor(), values@),
{
    let d = field.desc();
    let max = field.mask() >> d.lsb;
    let mut i: usize = 0;
    while i < values.len()
        invariant
            i <= values@.len(),
            d == field.descriptor(),
            max == field_max(d),
            forall|k: int| 0 <= k < i ==> #[trigger] values@[k] <= max,
            forall|k: int, j: int|
                0 <= k < j < i ==> #[trigger] values@[k] != #[trigger] values@[j],
        decreases values@.len() - i,
    {
        if values[i] > max {
            return false;
        }
        let mut k: usize = 0;
        while k < i
            invariant
                k <= i < values@.len(),
                forall|j: int| 0 <= j < k ==> #[trigger] values@[j] != values@[i as int],
            decreases i - k,
        {
            if values[k] == values[i] {
                assert(values@[k as int] == values@[i as int]);
                return false;
            }
            k += 1;
        }
        i += 1;
    }
    true
}

/// Common operations for all field types.
pub trait FieldCommonOps {
    /// The description of the field.
    spec fn reg_field(&self) -> RegField;

    /// Get the mask for the field.
    fn mask(&self) -> (r: u32)
        ensures
            r == field_mask(self.reg_field()),
    ;

    /// Get the address of the register that holds the field.
    fn addr(&self) -> (r: u32)
        ensures
            r == self.reg_field().reg,
    ;
}

/// Read operations for fields with `bit` type.
pub trait BitFieldReadOps: FieldCommonOps {
    /// Returns whether the bit is set, given the outcome of reading the
    /// register of the field.
    fn is_set(&self, outcome: Outcome) -> (r: Result<bool, Error>)
        ensures
            r == bit_is_set(self.reg_field(), outcome),
    ;
}

/// Write operations for fields with `bit` type.
pub trait BitFieldWriteOps: FieldCommonOps {
    /// Set the bit.
    fn set(&self) -> (r: RegUpdate)
        ensures
            r == field_write(self.reg_field(), 1, false),
    ;

    /// Force set the bit.
    fn force_set(&self) -> (r: RegUpdate)
        ensures
            r == field_write(self.reg_field(), 1, true),
    ;

    /// Clear the bit.
    fn clear(&self) -> (r: RegUpdate)
        ensures
            r == field_write(self.reg_field(), 0, false),
    ;

    /// Force clear the bit.
    fn force_clear(&self) -> (r: RegUpdate)
        ensures
            r == field_write(self.reg_field(), 0, true),
    ;
}

/// Read operations for fields with `enum` type.
pub trait EnumFieldReadOps: FieldCommonOps {
    /// Underlying type representing the field values.
    type EnumType;

    /// The variant that the field holds when its register was read with
    /// `outcome`.
    spec fn decoded(&self, outcome: Outcome) -> Result<Self::EnumType, Error>;

    /// Read the field, given the outcome of reading its register.
    fn read(&self, outcome: Outcome) -> (r: Result<Self::EnumType, Error>)
        ensures
            r == self.decoded(outcome),
    ;
}

/// Write operations for fields with `enum` type.
pub trait EnumFieldWriteOps: FieldCommonOps {
    /// Underlying type representing the field values.
    type EnumType;

    /// The update that gives the field the variant `val`.
    spec fn encoded(&self, val: Self::EnumType, force: bool) -> Result<RegUpdate, Error>;

    /// Write the field.
    fn write(&self, val: Self::EnumType) -> (r: Result<RegUpdate, Error>)
        ensures
            r == self.encoded(val, false),
    ;

    /// Force write the field.
    fn force_write(&self, val: Self::EnumType) -> (r: Result<RegUpdate, Error>)
        ensures
            r == self.encoded(val, true),
    ;
}

/// Read operations for fields with `raw` type.
pub trait RawFieldReadOps: FieldCommonOps {
    /// Read the field, given the outcome of reading its register.
    fn read(&self, outcome: Outcome) -> (r: Result<u32, Error>)
        ensures
            r == field_read(self.reg_field(), outcome),
    ;

    /// Test the field bits, given the outcome of reading its register.
    fn test_bits(&self, outcome: Outcome, bits: u32) -> (r: Result<(), Error>)
        ensures
            r == field_test_bits(self.reg_field(), outcome, bits),
    ;
}

/// Write operations for fields with `raw` type.
pub trait RawFieldWriteOps: FieldCommonOps {
    /// Write the field.
    fn write(&self, val: u32) -> (r: RegUpdate)
        ensures
            r == field_write(self.reg_field(), val, false),
    ;

    /// Force write the field.
    fn force_write(&self, val: u32) -> (r: RegUpdate)
        ensures
            r == field_write(self.reg_field(), val, true),
    ;

    /// Update the field using a mask.
    fn update_bits(&self, mask: u32, val: u32) -> (r: RegUpdate)
        ensures
            r == field_update_bits(self.reg_field(), mask, val, false),
    ;

    /// Force update the field using a mask.
    fn force_update_bits(&self, mask: u32, val: u32) -> (r: RegUpdate)
        ensures
            r == field_update_bits(self.reg_field(), mask, val, true),
    ;

    /// Set field bits.
    fn set_bits(&self, bits: u32) -> (r: RegUpdate)
        ensures
            r == field_update_bits(self.reg_field(), bits, bits, false),
    ;

    /// Clear the field bits.
    fn clear_bits(&self, bits: u32) -> (r: RegUpdate)
        ensures
            r == field_update_bits(self.reg_field(), bits, 0, false),
    ;
}

/// Bit field: a feature that is read or written as a single bit of a
/// register.
#[derive(Debug, Clone, Copy)]
pub struct BitField {
    field: Field,
    access: FieldAccess,
}

impl BitField {
    #[verifier::type_invariant]
    spec fn one_bit(&self) -> bool {
        self.field.descriptor().lsb == self.field.descriptor().msb && self.field.descriptor().valid()
    }

    /// How the field may be used.
    pub closed spec fn access_mode(&self) -> FieldAccess {
        self.access
    }

    /// Makes the field of bit `pos` of the register `reg`, if the register
    /// has such a bit.
    pub fn new(reg: u32, pos: u32, access: FieldAccess) -> (r: Result<BitField, Error>)
        ensures
            pos < 32 ==> r is Ok && r->Ok_0.reg_field() == (RegField { reg, lsb: pos, msb: pos })
                && r->Ok_0.access_mode() == access,
            pos >= 32 ==> r is Err && r->Err_0 == Error::InvalidArgument,
    {
        let field = Field::new(RegField { reg, lsb: pos, msb: pos })?;
        Ok(BitField { field, access })
    }

    /// Returns how the field may be used.
    pub fn access(&self) -> (r: FieldAccess)
        ensures
            r == self.access_mode(),
    {
        self.access
    }

    /// Returns the description of the field.
    pub fn desc(&self) -> (r: RegField)
        ensures
            r == self.reg_field(),
            r.valid(),
            r.lsb == r.msb,
    {
        proof {
            use_type_invariant(self);
        }
        self.field.desc()
    }
}

impl FieldCommonOps for BitField {
    closed spec fn reg_field(&self) -> RegField {
        self.field.descriptor()
    }

    fn mask(&self) -> (r: u32) {
        self.field.mask()
    }

    fn addr(&self) -> (r: u32) {
        self.field.reg()
    }
}

impl BitFieldReadOps for BitField {
    fn is_set(&self, outcome: Outcome) -> (r: Result<bool, Error>) {
        match outcome {
            Ok(register) => Ok(self.field.get(register) == 1),
            Err(fault) => Err(Error::from_fault(self.field.reg(), fault)),
        }
    }
}

impl BitFieldWriteOps for BitField {
    fn set(&self) -> (r: RegUpdate) {
        self.field.write(1)
    }

    fn force_set(&self) -> (r: RegUpdate) {
        self.field.force_write(1)
    }

    fn clear(&self) -> (r: RegUpdate) {
        self.field.write(0)
    }

    fn force_clear(&self) -> (r: RegUpdate) {
        self.field.force_write(0)
    }
}

/// Raw field: bits that no other field type describes, read and written as
/// they are.
#[derive(Debug, Clone, Copy)]
pub struct RawField {
    field: Field,
    access: FieldAccess,
}

impl RawField {
    /// How the field may be used.
    pub closed spec fn access_mode(&self) -> FieldAccess {
        self.access
    }

    /// Makes the field of the bits `lsb` to `msb` of the register `reg`, if
    /// these are in order and within the register.
    pub fn new(reg: u32, msb: u32, lsb: u32, access: FieldAccess) -> (r: Result<RawField, Error>)
        ensures
            lsb <= msb < 32 ==> r is Ok && r->Ok_0.reg_field() == (RegField { reg, lsb, msb })
                && r->Ok_0.access_mode() == access,
            !(lsb <= msb < 32) ==> r is Err && r->Err_0 == Error::InvalidArgument,
    {
        let field = Field::new(RegField { reg, lsb, msb })?;
        Ok(RawField { field, access })
    }

    /// Returns how the field may be used.
    pub fn access(&self) -> (r: FieldAccess)
        ensures
            r == self.access_mode(),
    {
        self.access
    }

    /// Returns the description of the field.
    pub fn desc(&self) -> (r: RegField)
        ensures
            r == self.reg_field(),
            r.valid(),
    {
        self.field.desc()
    }
}

impl FieldCommonOps for RawField {
    closed spec fn reg_field(&self) -> RegField {
        self.field.descriptor()
    }

    fn mask(&self) -> (r: u32) {
        self.field.mask()
    }

    fn addr(&self) -> (r: u32) {
        self.field.reg()
    }
}

impl RawFieldReadOps for RawField {
    fn read(&self, outcome: Outcome) -> (r: Result<u32, Error>) {
        match outcome {
            Ok(register) => Ok(self.field.get(register)),
            Err(fault) => Err(Error::from_fault(self.field.reg(), fault)),
        }
    }

    fn test_bits(&self, outcome: Outcome, bits: u32) -> (r: Result<(), Error>) {
        match outcome {
            Ok(register) => if self.field.test_bits(register, bits) {
                Ok(())
            } else {
                Err(Error::BitsNotSet)
            },
            Err(fault) => Err(Error::from_fault(self.field.reg(), fault)),
        }
    }
}

impl RawFieldWriteOps for RawField {
    fn write(&self, val: u32) -> (r: RegUpdate) {
        self.field.write(val)
    }

    fn force_write(&self, val: u32) -> (r: RegUpdate) {
        self.field.force_write(val)
    }

    fn update_bits(&self, mask: u32, val: u32) -> (r: RegUpdate) {
        self.field.update_bits(mask, val)
    }

    fn force_update_bits(&self, mask: u32, val: u32) -> (r: RegUpdate) {
        self.field.force_update_bits(mask, val)
    }

    fn set_bits(&self, bits: u32) -> (r: RegUpdate) {
        self.field.set_bits(bits)
    }

    fn clear_bits(&self, bits: u32) -> (r: RegUpdate) {
        self.field.clear_bits(bits)
    }
}

/// Enum field: a run of bits whose values are enumerated. The variants
/// are numbered in the order of the table; only their values are written
/// to the field, and only their values are read from it.
#[derive(Debug)]
pub struct EnumField {
    field: Field,
    access: FieldAccess,
    values: Vec<u32>,
}

impl EnumField {
    #[verifier::type_invariant]
    spec fn table_fits(&self) -> bool {
        self.field.descriptor().valid() && variants_fit(self.field.descriptor(), self.values@)
    }

    /// How the field may be used.
    pub closed spec fn access_mode(&self) -> FieldAccess {
        self.access
    }

    /// The values of the variants, in the order of their numbers.
    pub closed spec fn variants(&self) -> Seq<u32> {
        self.values@
    }

    /// Makes the field of the bits `lsb` to `msb` of the register `reg` with
    /// the variants `values`. The bits must be in order and within the
    /// register, each value must fit into the field, and no two variants
    /// may have the same value.
    pub fn new(reg: u32, msb: u32, lsb: u32, access: FieldAccess, values: Vec<u32>) -> (r: Result<
        EnumField,
        Error,
    >)
        ensures
            lsb <= msb < 32 && variants_fit(RegField { reg, lsb, msb }, values@) ==> r is Ok
                && r->Ok_0.reg_field() == (RegField { reg, lsb, msb }) && r->Ok_0.access_mode()
                == access && r->Ok_0.variants() == values@,
            !(lsb <= msb < 32 && variants_fit(RegField { reg, lsb, msb }, values@)) ==> r is Err
                && r->Err_0 == Error::InvalidArgument,
    {
        let field = Field::new(RegField { reg, lsb, msb })?;
        if !check_variants(&field, &values) {
            return Err(Error::InvalidArgument);
        }
        Ok(EnumField { field, access, values })
    }

    /// Returns how the field may be used.
    pub fn access(&self) -> (r: FieldAccess)
        ensures
            r == self.access_mode(),
    {
        self.access
    }

    /// Returns the description of the field.
    pub fn desc(&self) -> (r: RegField)
        ensures
            r == self.reg_field(),
            r.valid(),
            variants_fit(r, self.variants()),
    {
        proof {
            use_type_invariant(self);
        }
        self.field.desc()
    }

    /// Returns the number of variants.
    pub fn len(&self) -> (r: usize)
        ensures
            r == self.variants().len(),
    {
        self.values.len()
    }

    /// Returns the value of variant `variant`, if there is such a variant.
    pub fn value(&self, variant: usize) -> (r: Option<u32>)
        ensures
            r == (if variant < self.variants().len() {
                Some(self.variants()[variant as int])
            } else {
                None
            }),
    {
        if variant < self.values.len() {
            Some(self.values[variant])
        } else {
            None
        }
    }

    fn find(&self, value: u32) -> (r: Option<usize>)
        ensures
            r == variant_with_value(self.variants(), value),
    {
        proof {
            use_type_invariant(self);
        }
        let mut i: usize = 0;
        while i < self.values.len()
            invariant
                i <= self.values@.len(),
                forall|k: int| 0 <= k < i ==> #[trigger] self.values@[k] != value,
                variants_fit(self.field.descriptor(), self.values@),
            decreases self.values@.len() - i,
        {
            if self.values[i] == value {
                proof {
                    assert(is_variant(self.values@, value, i as int));
                    let c = choose|c: int| is_variant(self.values@, value, c);
                    if c < i {
                        assert(self.values@[c] != self.values@[i as int]);
                    } else if i < c {
                        assert(self.values@[i as int] != self.values@[c]);
                    }
                }
                return Some(i);
            }
            i += 1;
        }
        None
    }
}

impl FieldCommonOps for EnumField {
    closed spec fn reg_field(&self) -> RegField {
        self.field.descriptor()
    }

    fn mask(&self) -> (r: u32) {
        self.field.mask()
    }

    fn addr(&self) -> (r: u32) {
        self.field.reg()
    }
}

impl EnumFieldReadOps for EnumField {
    type EnumType = usize;

    open spec fn decoded(&self, outcome: Outcome) -> Result<usize, Error> {
        enum_read(self.reg_field(), self.variants(), outcome)
    }

    fn read(&self, outcome: Outcome) -> (r: Result<usize, Error>) {
        match outcome {
            Ok(register) => match self.find(self.field.get(register)) {
                Some(variant) => Ok(variant),
                None => Err(Error::InvalidFieldValue),
            },
            Err(fault) => Err(Error::from_fault(self.field.reg(), fault)),
        }
    }
}

impl EnumFieldWriteOps for EnumField {
    type EnumType = usize;

    open spec fn encoded(&self, val: usize, force: bool) -> Result<RegUpdate, Error> {
        enum_write(self.reg_field(), self.variants(), val, force)
    }

    fn write(&self, val: usize) -> (r: Result<RegUpdate, Error>) {
        match self.value(val) {
            Some(value) => Ok(self.field.write(value)),
            None => Err(Error::InvalidArgument),
        }
    }

    fn force_write(&self, val: usize) -> (r: Result<RegUpdate, Error>) {
        match self.value(val) {
            Some(value) => Ok(self.field.force_write(value)),
            None => Err(Error::InvalidArgument),
        }
    }
}

/// A field never reads more than all of its bits set.
pub proof fn lemma_field_get_bounded(h: u32, l: u32, register: u32)
    by (bit_vector)
    requires
        l <= h < 32,
    ensures
        (register & spec_genmask32(h, l)) >> l <= spec_genmask32(h, l) >> l,
{
}

} // verus!
