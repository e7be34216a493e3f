//! Logical data types of the query schema.

use vstd::prelude::*;

verus! {

use crate::errors::EbqlError;
use crate::field::{Field, FieldV, Fields, seq_field_view, lemma_seq_field_view_index};
use crate::types::Type;

/// Unit of time in a timestamp.
#[derive(Debug, Clone, Copy, PartialEq, Eq, Structural)]
pub enum TimeUnit {
    /// Time in seconds.
    Second,
    /// Time in milliseconds.
    Millisecond,
    /// Time in microseconds.
    Microsecond,
    /// Time in nanoseconds.
    Nanosecond,
}

/// Supported data types in the query schema. Floating-point and timestamp
/// types are logical only: the kernel plan rejects floats, and timestamps
/// travel as 64-bit nanosecond counts.
#[derive(Debug, Default)]
pub enum DataType {
    #[default]
    Boolean,
    UInt8,
    UInt16,
    UInt32,
    UInt64,
    Int8,
    Int16,
    Int32,
    Int64,
    Float32,
    Float64,
    /// Fixed-length string with the given storage size in bytes.
    String(usize),
    Timestamp(TimeUnit),
    /// A named struct of nested fields.
    Struct(String, Fields),
}

/// Mathematical model of a `DataType`.
pub enum DataTypeV {
    Boolean,
    UInt8,
    UInt16,
    UInt32,
    UInt64,
    Int8,
    Int16,
    Int32,
    Int64,
    Float32,
    Float64,
    String(nat),
    Timestamp(TimeUnit),
    Struct(Seq<char>, Seq<FieldV>),
}

pub open spec fn data_type_view(t: DataType) -> DataTypeV
    decreases t,
{
    match t {
        DataType::Boolean => DataTypeV::Boolean,
        DataType::UInt8 => DataTypeV::UInt8,
        DataType::UInt16 => DataTypeV::UInt16,
        DataType::UInt32 => DataTypeV::UInt32,
        DataType::UInt64 => DataTypeV::UInt64,
        DataType::Int8 => DataTypeV::Int8,
        DataType::Int16 => DataTypeV::Int16,
        DataType::Int32 => DataTypeV::Int32,
        DataType::Int64 => DataTypeV::Int64,
        DataType::Float32 => DataTypeV::Float32,
        DataType::Float64 => DataTypeV::Float64,
        DataType::String(n) => DataTypeV::String(n as nat),
        DataType::Timestamp(u) => DataTypeV::Timestamp(u),
        DataType::Struct(n, fs) => DataTypeV::Struct(n@, seq_field_view(fs.0@)),
    }
}

impl View for DataType {
    type V = DataTypeV;

    open spec fn view(&self) -> DataTypeV {
        data_type_view(*self)
    }
}

/// Byte width of a logical type: a string is its storage size, a timestamp
/// travels as 8 bytes, a struct is the sum of its component widths.
pub open spec fn dt_width(t: DataTypeV) -> nat
    decreases t,
{
    match t {
        DataTypeV::Boolean => 1,
        DataTypeV::UInt8 => 1,
        DataTypeV::UInt16 => 2,
        DataTypeV::UInt32 => 4,
        DataTypeV::UInt64 => 8,
        DataTypeV::Int8 => 1,
        DataTypeV::Int16 => 2,
        DataTypeV::Int32 => 4,
        DataTypeV::Int64 => 8,
        DataTypeV::Float32 => 4,
        DataTypeV::Float64 => 8,
        DataTypeV::String(len) => len,
        DataTypeV::Timestamp(_) => 8,
        DataTypeV::Struct(_, fs) => fields_width_sum(fs),
    }
}

/// Sum of the widths of a sequence of schema fields.
pub open spec fn fields_width_sum(fs: Seq<FieldV>) -> nat
    decreases fs,
{
    if fs.len() == 0 {
        0
    } else {
        fields_width_sum(fs.drop_last()) + dt_width(fs.last().dt)
    }
}

/// Extending a prefix of the sequence by one element adds that width.
pub proof fn lemma_fields_width_sum_take_step(fs: Seq<FieldV>, i: int)
    requires
        0 <= i < fs.len(),
    ensures
        fields_width_sum(fs.take(i + 1)) == fields_width_sum(fs.take(i)) + dt_width(fs[i].dt),
{
    assert(fs.take(i + 1).drop_last() =~= fs.take(i));
}

/// The total width dominates the width of any prefix.
pub proof fn lemma_fields_width_sum_prefix_bound(fs: Seq<FieldV>, i: int)
    requires
        0 <= i <= fs.len(),
    ensures
        fields_width_sum(fs.take(i)) <= fields_width_sum(fs),
    decreases fs.len() - i,
{
    if i == fs.len() {
        assert(fs.take(i) =~= fs);
    } else {
        lemma_fields_width_sum_take_step(fs, i);
        lemma_fields_width_sum_prefix_bound(fs, i + 1);
    }
}

/// Equality of data types as the catalog compares them, ignoring the names
/// of nested struct fields: struct types match when their names, arities and
/// component types match.
pub open spec fn spec_equals_datatype(a: DataTypeV, b: DataTypeV) -> bool
    decreases a,
{
    match (a, b) {
        (DataTypeV::Struct(n1, f1), DataTypeV::Struct(n2, f2)) => n1 == n2 && f1.len() == f2.len()
            && (forall|i: int|
            0 <= i < f1.len() ==> spec_equals_datatype(f1[i].dt, f2[i].dt)),
        _ => a == b,
    }
}

impl DataType {
    /// Returns true if the type is numeric.
    pub fn is_numeric(&self) -> (r: bool)
        ensures
            r == (self@ is UInt8 || self@ is UInt16 || self@ is UInt32 || self@ is UInt64
                || self@ is Int8 || self@ is Int16 || self@ is Int32 || self@ is Int64
                || self@ is Float32 || self@ is Float64),
    {
        match self {
            DataType::UInt8
            | DataType::UInt16
            | DataType::UInt32
            | DataType::UInt64
            | DataType::Int8
            | DataType::Int16
            | DataType::Int32
            | DataType::Int64
            | DataType::Float32
            | DataType::Float64 => true,
            _ => false,
        }
    }

    /// Returns true if this type is floating.
    pub fn is_floating(&self) -> (r: bool)
        ensures
            r == (self@ is Float32 || self@ is Float64),
    {
        match self {
            DataType::Float32 | DataType::Float64 => true,
            _ => false,
        }
    }

    /// Returns true if this type is a signed integer.
    pub fn is_signed_integer(&self) -> (r: bool)
        ensures
            r == (self@ is Int8 || self@ is Int16 || self@ is Int32 || self@ is Int64),
    {
        match self {
            DataType::Int8 | DataType::Int16 | DataType::Int32 | DataType::Int64 => true,
            _ => false,
        }
    }

    /// Returns true if this type is an unsigned integer.
    pub fn is_unsigned_integer(&self) -> (r: bool)
        ensures
            r == (self@ is UInt8 || self@ is UInt16 || self@ is UInt32 || self@ is UInt64),
    {
        match self {
            DataType::UInt8 | DataType::UInt16 | DataType::UInt32 | DataType::UInt64 => true,
            _ => false,
        }
    }

    /// Returns true if this type is an integer, signed or unsigned.
    pub fn is_integer(&self) -> (r: bool)
        ensures
            r == (self@ is Int8 || self@ is Int16 || self@ is Int32 || self@ is Int64
                || self@ is UInt8 || self@ is UInt16 || self@ is UInt32 || self@ is UInt64),
    {
        self.is_signed_integer() || self.is_unsigned_integer()
    }

    /// Returns true if this type is valid as a dictionary key.
    pub fn is_dictionary_key_type(&self) -> (r: bool)
        ensures
            r == (self@ is Int8 || self@ is Int16 || self@ is Int32 || self@ is Int64
                || self@ is UInt8 || self@ is UInt16 || self@ is UInt32 || self@ is UInt64),
    {
        self.is_integer()
    }

    /// Returns the size of the data type in bytes.
    pub fn size(&self) -> (r: usize)
        requires
            dt_width(self@) <= usize::MAX,
        ensures
            r == dt_width(self@),
        decreases *self,
    {
        match self {
            DataType::Boolean => 1,
            DataType::UInt8 => 1,
            DataType::UInt16 => 2,
            DataType::UInt32 => 4,
            DataType::UInt64 => 8,
            DataType::Int8 => 1,
            DataType::Int16 => 2,
            DataType::Int32 => 4,
            DataType::Int64 => 8,
            DataType::Float32 => 4,
            DataType::Float64 => 8,
            DataType::String(len) => *len,
            DataType::Timestamp(_) => 8,
            DataType::Struct(_, fs) => {
                proof {
                    lemma_seq_field_view_index(fs.0@);
                }
                let flds = &fs.0;
                let mut total: usize = 0;
                let mut i: usize = 0;
                while i < flds.len()
                    invariant
                        i <= flds.len(),
                        total == fields_width_sum(seq_field_view(flds@).take(i as int)),
                        fields_width_sum(seq_field_view(flds@)) <= usize::MAX,
                        seq_field_view(flds@).len() == flds@.len(),
                        forall|j: int|
                            0 <= j < flds@.len() ==> seq_field_view(flds@)[j] == flds@[j]@,
                        decreases_to!(*self => flds@),
                    decreases flds.len() - i,
                {
                    proof {
                        assert(decreases_to!(flds@ => flds@[i as int]));
                        lemma_fields_width_sum_take_step(seq_field_view(flds@), i as int);
                        lemma_fields_width_sum_prefix_bound(seq_field_view(flds@), i as int + 1);
                    }
                    total = total + flds[i].data_type.size();
                    i = i + 1;
                }
                proof {
                    assert(seq_field_view(flds@).take(flds@.len() as int) =~= seq_field_view(
                        flds@,
                    ));
                }
                total
            },
        }
    }

    /// Decides structural equality of two data types.
    pub fn same_data_type(&self, other: &DataType) -> (r: bool)
        ensures
            r == (self@ == other@),
        decreases *self,
    {
        match (self, other) {
            (DataType::Boolean, DataType::Boolean) => true,
            (DataType::UInt8, DataType::UInt8) => true,
            (DataType::UInt16, DataType::UInt16) => true,
            (DataType::UInt32, DataType::UInt32) => true,
            (DataType::UInt64, DataType::UInt64) => true,
            (DataType::Int8, DataType::Int8) => true,
            (DataType::Int16, DataType::Int16) => true,
            (DataType::Int32, DataType::Int32) => true,
            (DataType::Int64, DataType::Int64) => true,
            (DataType::Float32, DataType::Float32) => true,
            (DataType::Float64, DataType::Float64) => true,
            (DataType::String(a), DataType::String(b)) => a == b,
            (DataType::Timestamp(a), DataType::Timestamp(b)) => *a == *b,
            (DataType::Struct(n1, f1), DataType::Struct(n2, f2)) => {
                let names_eq = *n1 == *n2;
                let flds1 = &f1.0;
                let flds2 = &f2.0;
                proof {
                    lemma_seq_field_view_index(flds1@);
                    lemma_seq_field_view_index(flds2@);
                }
                if flds1.len() != flds2.len() {
                    false
                } else {
                    let mut i: usize = 0;
                    let mut all_eq = true;
                    while i < flds1.len()
                        invariant
                            i <= flds1.len(),
                            flds1@.len() == flds2@.len(),
                            seq_field_view(flds1@).len() == flds1@.len(),
                            seq_field_view(flds2@).len() == flds2@.len(),
                            forall|j: int|
                                0 <= j < flds1@.len() ==> seq_field_view(flds1@)[j] == flds1@[j]@,
                            forall|j: int|
                                0 <= j < flds2@.len() ==> seq_field_view(flds2@)[j] == flds2@[j]@,
                            all_eq == (forall|j: int| 0 <= j < i ==> flds1@[j]@ == flds2@[j]@),
                            decreases_to!(*self => flds1@),
                        decreases flds1.len() - i,
                    {
                        proof {
                            assert(decreases_to!(flds1@ => flds1@[i as int]));
                        }
                        let names = flds1[i].name == flds2[i].name;
                        let dts = flds1[i].data_type.same_data_type(&flds2[i].data_type);
                        all_eq = all_eq && names && dts;
                        i = i + 1;
                    }
                    proof {
                        if all_eq {
                            assert(seq_field_view(flds1@) =~= seq_field_view(flds2@));
                        } else if seq_field_view(flds1@) == seq_field_view(flds2@) {
                            assert forall|j: int| 0 <= j < flds1@.len() implies flds1@[j]@
                                == flds2@[j]@ by {
                                assert(seq_field_view(flds1@)[j] == seq_field_view(flds2@)[j]);
                            }
                        }
                    }
                    names_eq && all_eq
                }
            },
            _ => false,
        }
    }

    /// Compares the data type with another, ignoring nested field names.
    pub fn equals_datatype(&self, other: &DataType) -> (r: bool)
        ensures
            r == spec_equals_datatype(self@, other@),
        decreases *self,
    {
        match (self, other) {
            (DataType::Struct(n1, f1), DataType::Struct(n2, f2)) => {
                let names_eq = *n1 == *n2;
                let flds1 = &f1.0;
                let flds2 = &f2.0;
                proof {
                    lemma_seq_field_view_index(flds1@);
                    lemma_seq_field_view_index(flds2@);
                }
                if flds1.len() != flds2.len() {
                    false
                } else {
                    let mut i: usize = 0;
                    let mut all_eq = true;
                    while i < flds1.len()
                        invariant
                            i <= flds1.len(),
                            flds1@.len() == flds2@.len(),
                            seq_field_view(flds1@).len() == flds1@.len(),
                            seq_field_view(flds2@).len() == flds2@.len(),
                            forall|j: int|
                                0 <= j < flds1@.len() ==> seq_field_view(flds1@)[j] == flds1@[j]@,
                            forall|j: int|
                                0 <= j < flds2@.len() ==> seq_field_view(flds2@)[j] == flds2@[j]@,
                            all_eq == (forall|j: int|
                                0 <= j < i ==> spec_equals_datatype(flds1@[j]@.dt, flds2@[j]@.dt)),
                            decreases_to!(*self => flds1@),
                        decreases flds1.len() - i,
                    {
                        proof {
                            assert(decreases_to!(flds1@ => flds1@[i as int]));
                        }
                        let dts = flds1[i].data_type.equals_datatype(&flds2[i].data_type);
                        all_eq = all_eq && dts;
                        i = i + 1;
                    }
                    proof {
                        let v1 = seq_field_view(flds1@);
                        let v2 = seq_field_view(flds2@);
                        assert(self@ == DataTypeV::Struct(n1@, v1));
                        assert(other@ == DataTypeV::Struct(n2@, v2));
                        if all_eq {
                            assert forall|j: int| 0 <= j < v1.len() implies spec_equals_datatype(
                                v1[j].dt,
                                v2[j].dt,
                            ) by {
                                assert(v1[j] == flds1@[j]@);
                                assert(v2[j] == flds2@[j]@);
                            }
                        } else if forall|j: int|
                            0 <= j < v1.len() ==> spec_equals_datatype(v1[j].dt, v2[j].dt) {
                            assert forall|j: int| 0 <= j < flds1@.len() implies spec_equals_datatype(
                                flds1@[j]@.dt,
                                flds2@[j]@.dt,
                            ) by {
                                assert(v1[j] == flds1@[j]@);
                                assert(v2[j] == flds2@[j]@);
                                assert(spec_equals_datatype(v1[j].dt, v2[j].dt));
                            }
                        }
                    }
                    names_eq && all_eq
                }
            },
            _ => self.same_data_type(other),
        }
    }

    /// Lowers the logical type to its BPF (C) representation. Floating-point
    /// columns have no kernel representation and are rejected; a struct
    /// lowers its components in order.
    pub fn to_bpf_type(&self) -> (r: Result<Type, EbqlError>)
        ensures
            r is Err <==> dt_has_float(self@),
            r matches Err(e) ==> e is Unsupported,
            r matches Ok(t) ==> t@ == spec_to_bpf_type(self@),
        decreases *self,
    {
        match self {
            DataType::Boolean => Ok(Type::Bool),
            DataType::UInt8 => Ok(Type::U8),
            DataType::UInt16 => Ok(Type::U16),
            DataType::UInt32 => Ok(Type::U32),
            DataType::UInt64 => Ok(Type::U64),
            DataType::Int8 => Ok(Type::S8),
            DataType::Int16 => Ok(Type::S16),
            DataType::Int32 => Ok(Type::S32),
            DataType::Int64 => Ok(Type::S64),
            DataType::Float32 => Err(
                EbqlError::Unsupported(String::from_str("floating point columns")),
            ),
            DataType::Float64 => Err(
                EbqlError::Unsupported(String::from_str("floating point columns")),
            ),
            DataType::String(l) => Ok(Type::String(*l)),
            DataType::Timestamp(_) => Ok(Type::U64),
            DataType::Struct(name, fields) => {
                let flds = &fields.0;
                proof {
                    lemma_seq_field_view_index(flds@);
                }
                let mut ts: Vec<Type> = Vec::new();
                let mut i: usize = 0;
                while i < flds.len()
                    invariant
                        i <= flds.len(),
                        seq_field_view(flds@).len() == flds@.len(),
                        forall|j: int|
                            0 <= j < flds@.len() ==> seq_field_view(flds@)[j] == flds@[j]@,
                        !seq_has_float(seq_field_view(flds@).take(i as int)),
                        crate::types::seq_type_view(ts@) == seq_to_bpf_types(
                            seq_field_view(flds@).take(i as int),
                        ),
                        data_type_view(*self) == DataTypeV::Struct(name@, seq_field_view(flds@)),
                        decreases_to!(*self => flds@),
                    decreases flds.len() - i,
                {
                    proof {
                        assert(decreases_to!(flds@ => flds@[i as int]));
                        let v = seq_field_view(flds@);
                        assert(v.take(i + 1).drop_last() =~= v.take(i as int));
                        assert(v.take(i + 1).last() == v[i as int]);
                        assert(v[i as int].dt == flds@[i as int]@.dt);
                    }
                    let ghost prev = ts@;
                    match flds[i].data_type.to_bpf_type() {
                        Ok(t) => {
                            ts.push(t);
                            proof {
                                crate::types::lemma_seq_type_view_push(prev, t);
                                let v = seq_field_view(flds@);
                                assert(seq_to_bpf_types(v.take(i + 1)) == seq_to_bpf_types(
                                    v.take(i as int),
                                ).push(spec_to_bpf_type(v[i as int].dt)));
                            }
                        },
                        Err(e) => {
                            proof {
                                let v = seq_field_view(flds@);
                                assert(dt_has_float(flds@[i as int]@.dt));
                                assert(seq_has_float(v.take(i + 1)));
                                lemma_seq_has_float_prefix(v, i as int + 1);
                                assert(dt_has_float(data_type_view(*self)));
                            }
                            return Err(e);
                        },
                    }
                    i = i + 1;
                }
                proof {
                    assert(seq_field_view(flds@).take(flds@.len() as int) =~= seq_field_view(
                        flds@,
                    ));
                }
                Ok(Type::Struct(name.clone(), Some(ts)))
            },
        }
    }

    /// Lifts a BPF (C) type to its logical representation. A pointer
    /// travels as an opaque 8-byte word (decoding it stays a runtime
    /// error); a struct carries no logical value and is rejected.
    pub fn from_bpf_type(t: &Type) -> (r: Result<DataType, EbqlError>)
        ensures
            r matches Ok(dt) ==> dt@ == spec_from_bpf_type(t@),
            r is Err <==> t@ is Struct,
            r matches Err(e) ==> e is Unsupported,
    {
        match t {
            Type::Bool => Ok(DataType::Boolean),
            Type::U8 => Ok(DataType::UInt8),
            Type::U16 => Ok(DataType::UInt16),
            Type::U32 => Ok(DataType::UInt32),
            Type::U64 => Ok(DataType::UInt64),
            Type::S8 => Ok(DataType::Int8),
            Type::S16 => Ok(DataType::Int16),
            Type::S32 => Ok(DataType::Int32),
            Type::S64 => Ok(DataType::Int64),
            Type::UChar => Ok(DataType::UInt8),
            Type::SChar => Ok(DataType::Int8),
            Type::String(l) => Ok(DataType::String(*l)),
            Type::Pointer(_) => Ok(DataType::UInt64),
            Type::Struct(_, _) => Err(
                EbqlError::Unsupported(String::from_str("struct-typed columns")),
            ),
        }
    }
}

/// The logical type corresponding to a decodable BPF type. Pointers and
/// structs are mapped to Boolean only as a placeholder; `from_bpf_type`
/// rejects them before this is ever relied upon.
pub open spec fn spec_from_bpf_type(t: crate::types::TypeV) -> DataTypeV {
    match t {
        crate::types::TypeV::Bool => DataTypeV::Boolean,
        crate::types::TypeV::U8 => DataTypeV::UInt8,
        crate::types::TypeV::U16 => DataTypeV::UInt16,
        crate::types::TypeV::U32 => DataTypeV::UInt32,
        crate::types::TypeV::U64 => DataTypeV::UInt64,
        crate::types::TypeV::S8 => DataTypeV::Int8,
        crate::types::TypeV::S16 => DataTypeV::Int16,
        crate::types::TypeV::S32 => DataTypeV::Int32,
        crate::types::TypeV::S64 => DataTypeV::Int64,
        crate::types::TypeV::UChar => DataTypeV::UInt8,
        crate::types::TypeV::SChar => DataTypeV::Int8,
        crate::types::TypeV::String(l) => DataTypeV::String(l),
        crate::types::TypeV::Pointer(_) => DataTypeV::UInt64,
        crate::types::TypeV::Struct(_, _) => DataTypeV::Boolean,
    }
}

/// True when a floating-point type occurs anywhere in the type.
pub open spec fn dt_has_float(t: DataTypeV) -> bool
    decreases t,
{
    match t {
        DataTypeV::Float32 => true,
        DataTypeV::Float64 => true,
        DataTypeV::Struct(_, fs) => seq_has_float(fs),
        _ => false,
    }
}

/// True when a floating-point type occurs in any of the fields.
pub open spec fn seq_has_float(fs: Seq<FieldV>) -> bool
    decreases fs,
{
    if fs.len() == 0 {
        false
    } else {
        seq_has_float(fs.drop_last()) || dt_has_float(fs.last().dt)
    }
}

/// A float in a prefix is a float in the whole sequence.
pub proof fn lemma_seq_has_float_prefix(fs: Seq<FieldV>, i: int)
    requires
        0 <= i <= fs.len(),
        seq_has_float(fs.take(i)),
    ensures
        seq_has_float(fs),
    decreases fs.len() - i,
{
    if i == fs.len() {
        assert(fs.take(i) =~= fs);
    } else {
        assert(fs.take(i + 1).drop_last() =~= fs.take(i));
        lemma_seq_has_float_prefix(fs, i + 1);
    }
}

/// The BPF type a float-free logical type lowers to.
pub open spec fn spec_to_bpf_type(t: DataTypeV) -> crate::types::TypeV
    decreases t,
{
    match t {
        DataTypeV::Boolean => crate::types::TypeV::Bool,
        DataTypeV::UInt8 => crate::types::TypeV::U8,
        DataTypeV::UInt16 => crate::types::TypeV::U16,
        DataTypeV::UInt32 => crate::types::TypeV::U32,
        DataTypeV::UInt64 => crate::types::TypeV::U64,
        DataTypeV::Int8 => crate::types::TypeV::S8,
        DataTypeV::Int16 => crate::types::TypeV::S16,
        DataTypeV::Int32 => crate::types::TypeV::S32,
        DataTypeV::Int64 => crate::types::TypeV::S64,
        DataTypeV::Float32 => crate::types::TypeV::Bool,
        DataTypeV::Float64 => crate::types::TypeV::Bool,
        DataTypeV::String(l) => crate::types::TypeV::String(l),
        DataTypeV::Timestamp(_) => crate::types::TypeV::U64,
        DataTypeV::Struct(n, fs) => crate::types::TypeV::Struct(n, Some(seq_to_bpf_types(fs))),
    }
}

/// The BPF types a sequence of float-free fields lowers to.
pub open spec fn seq_to_bpf_types(fs: Seq<FieldV>) -> Seq<crate::types::TypeV>
    decreases fs,
{
    if fs.len() == 0 {
        Seq::empty()
    } else {
        seq_to_bpf_types(fs.drop_last()).push(spec_to_bpf_type(fs.last().dt))
    }
}

impl Clone for DataType {
    fn clone(&self) -> (r: Self)
        ensures
            r@ == self@,
        decreases *self,
    {
        match self {
            DataType::Boolean => DataType::Boolean,
            DataType::UInt8 => DataType::UInt8,
            DataType::UInt16 => DataType::UInt16,
            DataType::UInt32 => DataType::UInt32,
            DataType::UInt64 => DataType::UInt64,
            DataType::Int8 => DataType::Int8,
            DataType::Int16 => DataType::Int16,
            DataType::Int32 => DataType::Int32,
            DataType::Int64 => DataType::Int64,
            DataType::Float32 => DataType::Float32,
            DataType::Float64 => DataType::Float64,
            DataType::String(n) => DataType::String(*n),
            DataType::Timestamp(u) => DataType::Timestamp(*u),
            DataType::Struct(n, fs) => {
                let flds = &fs.0;
                let mut out: Vec<Field> = Vec::new();
                let mut i: usize = 0;
                while i < flds.len()
                    invariant
                        i <= flds.len(),
                        out@.len() == i,
                        seq_field_view(out@) == seq_field_view(flds@.take(i as int)),
                        decreases_to!(*self => flds@),
                    decreases flds.len() - i,
                {
                    proof {
                        assert(decreases_to!(flds@ => flds@[i as int]));
                    }
                    let ghost prev = out@;
                    let c = Field {
                        name: flds[i].name.clone(),
                        data_type: flds[i].data_type.clone(),
                    };
                    out.push(c);
                    proof {
                        assert(flds@.take(i + 1) =~= flds@.take(i as int).push(flds@[i as int]));
                        crate::field::lemma_seq_field_view_push(prev, c);
                        crate::field::lemma_seq_field_view_push(
                            flds@.take(i as int),
                            flds@[i as int],
                        );
                    }
                    i = i + 1;
                }
                proof {
                    assert(flds@.take(flds@.len() as int) =~= flds@);
                }
                DataType::Struct(n.clone(), Fields(out))
            },
        }
    }
}

} // verus!
