//! A schema field: a single column with a name and a logical type.

use vstd::prelude::*;

verus! {

use crate::data_types::{
    DataType, DataTypeV, data_type_view, dt_width, fields_width_sum,
    lemma_fields_width_sum_prefix_bound, lemma_fields_width_sum_take_step,
};

/// Describes a single column in a schema.
#[derive(Debug, Default)]
pub struct Field {
    pub name: String,
    pub data_type: DataType,
}

/// Mathematical model of a schema field.
pub struct FieldV {
    pub name: Seq<char>,
    pub dt: DataTypeV,
}

pub open spec fn field_view(f: Field) -> FieldV
    decreases f,
{
    FieldV { name: f.name@, dt: data_type_view(f.data_type) }
}

impl View for Field {
    type V = FieldV;

    open spec fn view(&self) -> FieldV {
        field_view(*self)
    }
}

pub open spec fn seq_field_view(fs: Seq<Field>) -> Seq<FieldV>
    decreases fs,
{
    if fs.len() == 0 {
        Seq::empty()
    } else {
        seq_field_view(fs.drop_last()).push(field_view(fs.last()))
    }
}

/// Pushing an element extends the view sequence by that element's view.
pub proof fn lemma_seq_field_view_push(s: Seq<Field>, x: Field)
    ensures
        seq_field_view(s.push(x)) == seq_field_view(s).push(x@),
{
    assert(s.push(x).drop_last() =~= s);
}

/// The view sequence has the same length and is the elementwise view.
pub proof fn lemma_seq_field_view_index(s: Seq<Field>)
    ensures
        seq_field_view(s).len() == s.len(),
        forall|i: int| 0 <= i < s.len() ==> seq_field_view(s)[i] == s[i]@,
    decreases s.len(),
{
    if s.len() > 0 {
        lemma_seq_field_view_index(s.drop_last());
    }
}

/// An ordered collection of schema fields.
#[derive(Debug, Default)]
pub struct Fields(pub Vec<Field>);

impl View for Fields {
    type V = Seq<FieldV>;

    open spec fn view(&self) -> Seq<FieldV> {
        seq_field_view(self.0@)
    }
}

impl Clone for Field {
    fn clone(&self) -> (r: Self)
        ensures
            r@ == self@,
    {
        Field { name: self.name.clone(), data_type: self.data_type.clone() }
    }
}

impl Clone for Fields {
    fn clone(&self) -> (r: Self)
        ensures
            r@ == self@,
    {
        let flds = &self.0;
        proof {
            lemma_seq_field_view_index(flds@);
        }
        let mut out: Vec<Field> = Vec::new();
        let mut i: usize = 0;
        while i < flds.len()
            invariant
                i <= flds.len(),
                out@.len() == i,
                seq_field_view(out@) == seq_field_view(flds@.take(i as int)),
            decreases flds.len() - i,
        {
            let ghost prev = out@;
            let c = flds[i].clone();
            out.push(c);
            proof {
                assert(flds@.take(i + 1) =~= flds@.take(i as int).push(flds@[i as int]));
                lemma_seq_field_view_push(prev, c);
                lemma_seq_field_view_push(flds@.take(i as int), flds@[i as int]);
            }
            i = i + 1;
        }
        proof {
            assert(flds@.take(flds@.len() as int) =~= flds@);
        }
        Fields(out)
    }
}

impl Fields {
    /// Returns a new empty collection.
    pub fn empty() -> (r: Self)
        ensures
            r@.len() == 0,
    {
        Fields(Vec::new())
    }

    /// Number of fields.
    pub fn len(&self) -> (r: usize)
        ensures
            r == self@.len(),
    {
        proof {
            lemma_seq_field_view_index(self.0@);
        }
        self.0.len()
    }

    /// Total byte size: the sum of the component sizes.
    pub fn size(&self) -> (r: usize)
        requires
            fields_width_sum(self@) <= usize::MAX,
        ensures
            r == fields_width_sum(self@),
    {
        let flds = &self.0;
        proof {
            lemma_seq_field_view_index(flds@);
        }
        let mut total: usize = 0;
        let mut i: usize = 0;
        while i < flds.len()
            invariant
                i <= flds.len(),
                total == fields_width_sum(seq_field_view(flds@).take(i as int)),
                fields_width_sum(seq_field_view(flds@)) <= usize::MAX,
                seq_field_view(flds@).len() == flds@.len(),
                forall|j: int| 0 <= j < flds@.len() ==> seq_field_view(flds@)[j] == flds@[j]@,
            decreases flds.len() - i,
        {
            proof {
                lemma_fields_width_sum_take_step(seq_field_view(flds@), i as int);
                lemma_fields_width_sum_prefix_bound(seq_field_view(flds@), i as int + 1);
            }
            total = total + flds[i].size();
            i = i + 1;
        }
        proof {
            assert(seq_field_view(flds@).take(flds@.len() as int) =~= seq_field_view(flds@));
        }
        total
    }

    /// The field at the given position.
    pub fn get(&self, i: usize) -> (r: &Field)
        requires
            i < self@.len(),
        ensures
            r@ == self@[i as int],
    {
        proof {
            lemma_seq_field_view_index(self.0@);
        }
        &self.0[i]
    }
}

/// The BPF field a schema field lowers to at an event: the event's own
/// argument when one carries the name, else a direct-access field of the
/// lowered logical type.
pub open spec fn spec_bpf_field_of(e: crate::events::TracepointEvent, f: FieldV) -> crate::types::FieldV {
    match crate::events::spec_lookup(crate::events::spec_event_args(e), f.name) {
        Some(bf) => bf,
        None => crate::types::FieldV {
            name: f.name,
            ty: crate::data_types::spec_to_bpf_type(f.dt),
            arr: None,
            off: None,
        },
    }
}

/// The lowered field list of a schema at an event.
pub open spec fn spec_lowered_fields(fs: Seq<FieldV>, e: crate::events::TracepointEvent) -> Seq<
    crate::types::FieldV,
> {
    Seq::new(fs.len(), |i: int| spec_bpf_field_of(e, fs[i]))
}

impl Fields {
    /// Converts the fields into BPF fields at an event: event arguments keep
    /// their access path, other columns lower their logical type. Fails on a
    /// floating-point column that is not an event argument.
    pub fn to_bpf_fields(&self, e: &crate::events::TracepointEvent) -> (r: Result<
        Vec<crate::types::Field>,
        crate::errors::EbqlError,
    >)
        ensures
            r matches Ok(v) ==> {
                &&& v@.len() == self@.len()
                &&& crate::types::seq_fields_view(v@) == spec_lowered_fields(self@, *e)
            },
            r is Err <==> exists|i: int|
                0 <= i < self@.len() && crate::events::spec_lookup(
                    crate::events::spec_event_args(*e),
                    (#[trigger] self@[i]).name,
                ) is None && crate::data_types::dt_has_float(self@[i].dt),
            r matches Err(err) ==> err is Unsupported,
    {
        proof {
            lemma_seq_field_view_index(self.0@);
        }
        let flds = &self.0;
        let mut out: Vec<crate::types::Field> = Vec::new();
        let mut i: usize = 0;
        while i < flds.len()
            invariant
                i <= flds@.len(),
                self@.len() == flds@.len(),
                forall|j: int| 0 <= j < flds@.len() ==> self@[j] == flds@[j]@,
                out@.len() == i,
                crate::types::seq_fields_view(out@).len() == i,
                forall|j: int|
                    0 <= j < i ==> crate::types::seq_fields_view(out@)[j] == spec_bpf_field_of(
                        *e,
                        self@[j],
                    ),
                forall|j: int|
                    0 <= j < i ==> !(crate::events::spec_lookup(
                        crate::events::spec_event_args(*e),
                        (#[trigger] self@[j]).name,
                    ) is None && crate::data_types::dt_has_float(self@[j].dt)),
            decreases flds@.len() - i,
        {
            let ghost prev = out@;
            let f = &flds[i];
            match crate::events::get_event_field(e, f.name.as_str()) {
                Some(bf) => {
                    out.push(bf);
                    proof {
                        crate::types::lemma_seq_fields_view_push(prev, out@.last());
                    }
                },
                None => {
                    match f.data_type.to_bpf_type() {
                        Ok(t) => {
                            let nf = crate::types::Field::new(f.name.clone(), t);
                            out.push(nf);
                            proof {
                                crate::types::lemma_seq_fields_view_push(prev, nf);
                            }
                        },
                        Err(err) => {
                            proof {
                                let ii = i as int;
                                assert(crate::events::spec_lookup(
                                    crate::events::spec_event_args(*e),
                                    self@[ii].name,
                                ) is None && crate::data_types::dt_has_float(self@[ii].dt));
                            }
                            return Err(err);
                        },
                    }
                },
            }
            proof {
                crate::types::lemma_seq_fields_view_index(out@);
            }
            i = i + 1;
        }
        proof {
            assert(crate::types::seq_fields_view(out@) =~= spec_lowered_fields(self@, *e));
        }
        Ok(out)
    }
}

impl Field {
    /// Returns an immutable reference to the field's name.
    pub fn name(&self) -> (r: &String)
        ensures
            r@ == self@.name,
    {
        &self.name
    }

    /// Computes the size of the field in bytes.
    pub fn size(&self) -> (r: usize)
        requires
            dt_width(self@.dt) <= usize::MAX,
        ensures
            r == dt_width(self@.dt),
    {
        self.data_type.size()
    }

    /// Returns an immutable reference to the field's data type.
    pub fn data_type(&self) -> (r: &DataType)
        ensures
            r@ == self@.dt,
    {
        &self.data_type
    }

    /// Sets the data type of the field and returns the field.
    pub fn with_data_type(self, data_type: DataType) -> (r: Self)
        ensures
            r@.name == self@.name,
            r@.dt == data_type@,
    {
        Field { name: self.name, data_type }
    }
}

} // verus!
