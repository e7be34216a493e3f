//! A decoded row: an ordered sequence of typed values.

use vstd::prelude::*;

verus! {

use crate::data_types::{DataType, DataTypeV, TimeUnit};

/// One decoded value. Strings carry the fixed storage size of their field
/// beside the text; timestamps travel as nanosecond counts.
#[derive(Debug)]
pub enum DataValue {
    Boolean(bool),
    UInt8(u8),
    UInt16(u16),
    UInt32(u32),
    UInt64(u64),
    Int8(i8),
    Int16(i16),
    Int32(i32),
    Int64(i64),
    String(String, usize),
    Timestamp(u64),
}

/// Mathematical model of a `DataValue`.
pub enum DataValueV {
    Boolean(bool),
    UInt8(u8),
    UInt16(u16),
    UInt32(u32),
    UInt64(u64),
    Int8(i8),
    Int16(i16),
    Int32(i32),
    Int64(i64),
    String(Seq<char>, nat),
    Timestamp(u64),
}

impl View for DataValue {
    type V = DataValueV;

    open spec fn view(&self) -> DataValueV {
        match self {
            DataValue::Boolean(b) => DataValueV::Boolean(*b),
            DataValue::UInt8(v) => DataValueV::UInt8(*v),
            DataValue::UInt16(v) => DataValueV::UInt16(*v),
            DataValue::UInt32(v) => DataValueV::UInt32(*v),
            DataValue::UInt64(v) => DataValueV::UInt64(*v),
            DataValue::Int8(v) => DataValueV::Int8(*v),
            DataValue::Int16(v) => DataValueV::Int16(*v),
            DataValue::Int32(v) => DataValueV::Int32(*v),
            DataValue::Int64(v) => DataValueV::Int64(*v),
            DataValue::String(s, l) => DataValueV::String(s@, *l as nat),
            DataValue::Timestamp(ns) => DataValueV::Timestamp(*ns),
        }
    }
}

impl Clone for DataValue {
    fn clone(&self) -> (r: Self)
        ensures
            r@ == self@,
    {
        match self {
            DataValue::Boolean(b) => DataValue::Boolean(*b),
            DataValue::UInt8(v) => DataValue::UInt8(*v),
            DataValue::UInt16(v) => DataValue::UInt16(*v),
            DataValue::UInt32(v) => DataValue::UInt32(*v),
            DataValue::UInt64(v) => DataValue::UInt64(*v),
            DataValue::Int8(v) => DataValue::Int8(*v),
            DataValue::Int16(v) => DataValue::Int16(*v),
            DataValue::Int32(v) => DataValue::Int32(*v),
            DataValue::Int64(v) => DataValue::Int64(*v),
            DataValue::String(s, l) => DataValue::String(s.clone(), *l),
            DataValue::Timestamp(ns) => DataValue::Timestamp(*ns),
        }
    }
}

/// Value equality as the engine compares decoded values: payloads must
/// match, except that two strings compare by their text alone.
pub open spec fn dv_eq(a: DataValueV, b: DataValueV) -> bool {
    match (a, b) {
        (DataValueV::Boolean(x), DataValueV::Boolean(y)) => x == y,
        (DataValueV::UInt8(x), DataValueV::UInt8(y)) => x == y,
        (DataValueV::UInt16(x), DataValueV::UInt16(y)) => x == y,
        (DataValueV::UInt32(x), DataValueV::UInt32(y)) => x == y,
        (DataValueV::UInt64(x), DataValueV::UInt64(y)) => x == y,
        (DataValueV::Int8(x), DataValueV::Int8(y)) => x == y,
        (DataValueV::Int16(x), DataValueV::Int16(y)) => x == y,
        (DataValueV::Int32(x), DataValueV::Int32(y)) => x == y,
        (DataValueV::Int64(x), DataValueV::Int64(y)) => x == y,
        (DataValueV::String(x, _), DataValueV::String(y, _)) => x == y,
        (DataValueV::Timestamp(x), DataValueV::Timestamp(y)) => x == y,
        _ => false,
    }
}

impl PartialEq for DataValue {
    fn eq(&self, other: &Self) -> (r: bool) {
        match (self, other) {
            (DataValue::Boolean(x), DataValue::Boolean(y)) => *x == *y,
            (DataValue::UInt8(x), DataValue::UInt8(y)) => *x == *y,
            (DataValue::UInt16(x), DataValue::UInt16(y)) => *x == *y,
            (DataValue::UInt32(x), DataValue::UInt32(y)) => *x == *y,
            (DataValue::UInt64(x), DataValue::UInt64(y)) => *x == *y,
            (DataValue::Int8(x), DataValue::Int8(y)) => *x == *y,
            (DataValue::Int16(x), DataValue::Int16(y)) => *x == *y,
            (DataValue::Int32(x), DataValue::Int32(y)) => *x == *y,
            (DataValue::Int64(x), DataValue::Int64(y)) => *x == *y,
            (DataValue::String(x, _), DataValue::String(y, _)) => *x == *y,
            (DataValue::Timestamp(x), DataValue::Timestamp(y)) => *x == *y,
            _ => false,
        }
    }
}

impl vstd::std_specs::cmp::PartialEqSpecImpl for DataValue {
    open spec fn obeys_eq_spec() -> bool {
        true
    }

    open spec fn eq_spec(&self, other: &DataValue) -> bool {
        dv_eq(self@, other@)
    }
}

impl Eq for DataValue {

}

/// Byte width of a decoded value.
pub open spec fn dv_width(v: DataValueV) -> nat {
    match v {
        DataValueV::Boolean(_) => 1,
        DataValueV::UInt8(_) => 1,
        DataValueV::UInt16(_) => 2,
        DataValueV::UInt32(_) => 4,
        DataValueV::UInt64(_) => 8,
        DataValueV::Int8(_) => 1,
        DataValueV::Int16(_) => 2,
        DataValueV::Int32(_) => 4,
        DataValueV::Int64(_) => 8,
        DataValueV::String(_, l) => l,
        DataValueV::Timestamp(_) => 8,
    }
}

/// The logical type of a decoded value.
pub open spec fn dv_data_type(v: DataValueV) -> DataTypeV {
    match v {
        DataValueV::Boolean(_) => DataTypeV::Boolean,
        DataValueV::UInt8(_) => DataTypeV::UInt8,
        DataValueV::UInt16(_) => DataTypeV::UInt16,
        DataValueV::UInt32(_) => DataTypeV::UInt32,
        DataValueV::UInt64(_) => DataTypeV::UInt64,
        DataValueV::Int8(_) => DataTypeV::Int8,
        DataValueV::Int16(_) => DataTypeV::Int16,
        DataValueV::Int32(_) => DataTypeV::Int32,
        DataValueV::Int64(_) => DataTypeV::Int64,
        DataValueV::String(_, l) => DataTypeV::String(l),
        DataValueV::Timestamp(_) => DataTypeV::Timestamp(TimeUnit::Nanosecond),
    }
}

impl DataValue {
    /// Computes the size of the value in bytes.
    pub fn size(&self) -> (r: usize)
        ensures
            r == dv_width(self@),
    {
        match self {
            DataValue::Boolean(_) => 1,
            DataValue::UInt8(_) => 1,
            DataValue::UInt16(_) => 2,
            DataValue::UInt32(_) => 4,
            DataValue::UInt64(_) => 8,
            DataValue::Int8(_) => 1,
            DataValue::Int16(_) => 2,
            DataValue::Int32(_) => 4,
            DataValue::Int64(_) => 8,
            DataValue::String(_, l) => *l,
            DataValue::Timestamp(_) => 8,
        }
    }

    /// Gets the value's logical type.
    pub fn data_type(&self) -> (r: DataType)
        ensures
            r@ == dv_data_type(self@),
    {
        match self {
            DataValue::Boolean(_) => DataType::Boolean,
            DataValue::UInt8(_) => DataType::UInt8,
            DataValue::UInt16(_) => DataType::UInt16,
            DataValue::UInt32(_) => DataType::UInt32,
            DataValue::UInt64(_) => DataType::UInt64,
            DataValue::Int8(_) => DataType::Int8,
            DataValue::Int16(_) => DataType::Int16,
            DataValue::Int32(_) => DataType::Int32,
            DataValue::Int64(_) => DataType::Int64,
            DataValue::String(_, l) => DataType::String(*l),
            DataValue::Timestamp(_) => DataType::Timestamp(TimeUnit::Nanosecond),
        }
    }
}

/// A decoded row.
#[derive(Debug, PartialEq, Eq)]
pub struct Record(pub Vec<DataValue>);

impl View for Record {
    type V = Seq<DataValueV>;

    open spec fn view(&self) -> Seq<DataValueV> {
        seq_value_view(self.0@)
    }
}

pub open spec fn seq_value_view(vs: Seq<DataValue>) -> Seq<DataValueV>
    decreases vs,
{
    if vs.len() == 0 {
        Seq::empty()
    } else {
        seq_value_view(vs.drop_last()).push(vs.last()@)
    }
}

/// Pushing an element extends the view sequence by that element's view.
pub proof fn lemma_seq_value_view_push(s: Seq<DataValue>, x: DataValue)
    ensures
        seq_value_view(s.push(x)) == seq_value_view(s).push(x@),
{
    assert(s.push(x).drop_last() =~= s);
}

/// The view sequence has the same length and is the elementwise view.
pub proof fn lemma_seq_value_view_index(s: Seq<DataValue>)
    ensures
        seq_value_view(s).len() == s.len(),
        forall|i: int| 0 <= i < s.len() ==> seq_value_view(s)[i] == s[i]@,
    decreases s.len(),
{
    if s.len() > 0 {
        lemma_seq_value_view_index(s.drop_last());
    }
}

/// Total byte width of a row.
pub open spec fn record_width(vs: Seq<DataValueV>) -> nat
    decreases vs,
{
    if vs.len() == 0 {
        0
    } else {
        record_width(vs.drop_last()) + dv_width(vs.last())
    }
}

/// Extending a prefix of the row by one value adds that width.
pub proof fn lemma_record_width_take_step(vs: Seq<DataValueV>, i: int)
    requires
        0 <= i < vs.len(),
    ensures
        record_width(vs.take(i + 1)) == record_width(vs.take(i)) + dv_width(vs[i]),
{
    assert(vs.take(i + 1).drop_last() =~= vs.take(i));
}

/// The total width dominates the width of any prefix.
pub proof fn lemma_record_width_prefix_bound(vs: Seq<DataValueV>, i: int)
    requires
        0 <= i <= vs.len(),
    ensures
        record_width(vs.take(i)) <= record_width(vs),
    decreases vs.len() - i,
{
    if i == vs.len() {
        assert(vs.take(i) =~= vs);
    } else {
        lemma_record_width_take_step(vs, i);
        lemma_record_width_prefix_bound(vs, i + 1);
    }
}

impl Record {
    /// Returns a new empty record.
    pub fn empty() -> (r: Self)
        ensures
            r@.len() == 0,
    {
        Record(Vec::new())
    }

    /// Gets the length of this record (the number of columns).
    pub fn len(&self) -> (r: usize)
        ensures
            r == self@.len(),
    {
        proof {
            lemma_seq_value_view_index(self.0@);
        }
        self.0.len()
    }

    /// Return the size of this record in bytes.
    pub fn size(&self) -> (r: usize)
        requires
            record_width(self@) <= usize::MAX,
        ensures
            r == record_width(self@),
    {
        let vals = &self.0;
        proof {
            lemma_seq_value_view_index(vals@);
        }
        let mut total: usize = 0;
        let mut i: usize = 0;
        while i < vals.len()
            invariant
                i <= vals.len(),
                total == record_width(seq_value_view(vals@).take(i as int)),
                record_width(seq_value_view(vals@)) <= usize::MAX,
                seq_value_view(vals@).len() == vals@.len(),
                forall|j: int| 0 <= j < vals@.len() ==> seq_value_view(vals@)[j] == vals@[j]@,
            decreases vals.len() - i,
        {
            proof {
                lemma_record_width_take_step(seq_value_view(vals@), i as int);
                lemma_record_width_prefix_bound(seq_value_view(vals@), i as int + 1);
            }
            total = total + vals[i].size();
            i = i + 1;
        }
        proof {
            assert(seq_value_view(vals@).take(vals@.len() as int) =~= seq_value_view(vals@));
        }
        total
    }

    /// The value at the given column.
    pub fn get(&self, i: usize) -> (r: &DataValue)
        requires
            i < self@.len(),
        ensures
            r@ == self@[i as int],
    {
        proof {
            lemma_seq_value_view_index(self.0@);
        }
        &self.0[i]
    }
}

impl Clone for Record {
    fn clone(&self) -> (r: Self)
        ensures
            r@ == self@,
    {
        let vals = &self.0;
        proof {
            lemma_seq_value_view_index(vals@);
        }
        let mut out: Vec<DataValue> = Vec::new();
        let mut i: usize = 0;
        while i < vals.len()
            invariant
                i <= vals.len(),
                out@.len() == i,
                seq_value_view(out@) == seq_value_view(vals@.take(i as int)),
            decreases vals.len() - i,
        {
            let ghost prev = out@;
            let c = vals[i].clone();
            out.push(c);
            proof {
                assert(vals@.take(i + 1) =~= vals@.take(i as int).push(vals@[i as int]));
                lemma_seq_value_view_push(prev, c);
                lemma_seq_value_view_push(vals@.take(i as int), vals@[i as int]);
            }
            i = i + 1;
        }
        proof {
            assert(vals@.take(vals@.len() as int) =~= vals@);
        }
        Record(out)
    }
}

} // verus!
