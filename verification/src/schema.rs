//! The logical row type of a query: a named, ordered field list.

use vstd::prelude::*;

verus! {

use crate::field::{Field, FieldV, Fields, lemma_seq_field_view_index, lemma_seq_field_view_push,
    seq_field_view};

/// Data schema definition.
#[derive(Debug, Default)]
pub struct Schema {
    /// Name of the schema; doubles as the query name.
    pub name: String,
    /// Fields of the schema.
    pub fields: Fields,
}

/// Mathematical model of a `Schema`.
pub struct SchemaV {
    pub name: Seq<char>,
    pub fields: Seq<FieldV>,
}

impl View for Schema {
    type V = SchemaV;

    open spec fn view(&self) -> SchemaV {
        SchemaV { name: self.name@, fields: self.fields@ }
    }
}

impl Clone for Schema {
    fn clone(&self) -> (r: Self)
        ensures
            r@ == self@,
    {
        Schema { name: self.name.clone(), fields: self.fields.clone() }
    }
}

impl Schema {
    /// Create a schema with the given name (empty when absent) and fields.
    pub fn new(name: Option<String>, fields: Fields) -> (r: Self)
        ensures
            r@.fields == fields@,
            match name {
                Some(n) => r@.name == n@,
                None => r@.name.len() == 0,
            },
    {
        match name {
            Some(n) => Schema { name: n, fields },
            None => Schema { name: String::new(), fields },
        }
    }

    /// Project the given field indices into another schema, keeping the
    /// name: the result's fields are exactly the selected ones, in order.
    pub fn project_indices(&self, indices: &Vec<usize>) -> (r: Schema)
        requires
            forall|i: int| 0 <= i < indices@.len() ==> indices@[i] < self@.fields.len(),
        ensures
            r@.name == self@.name,
            r@.fields.len() == indices@.len(),
            forall|i: int|
                0 <= i < indices@.len() ==> r@.fields[i] == self@.fields[indices@[i] as int],
    {
        proof {
            lemma_seq_field_view_index(self.fields.0@);
        }
        let mut out: Vec<Field> = Vec::new();
        let mut i: usize = 0;
        while i < indices.len()
            invariant
                i <= indices@.len(),
                out@.len() == i,
                forall|j: int| 0 <= j < indices@.len() ==> indices@[j] < self@.fields.len(),
                seq_field_view(self.fields.0@) == self@.fields,
                self@.fields.len() == self.fields.0@.len(),
                forall|j: int|
                    0 <= j < self.fields.0@.len() ==> seq_field_view(self.fields.0@)[j]
                        == self.fields.0@[j]@,
                seq_field_view(out@).len() == i,
                forall|j: int|
                    0 <= j < i ==> seq_field_view(out@)[j] == self@.fields[indices@[j] as int],
            decreases indices@.len() - i,
        {
            let ghost prev = out@;
            let f = self.fields.0[indices[i]].clone();
            out.push(f);
            proof {
                lemma_seq_field_view_push(prev, f);
            }
            i = i + 1;
        }
        let r = Schema { name: self.name.clone(), fields: Fields(out) };
        r
    }
}

/// All conditions under which a schema can be laid out as a BPF struct at
/// an event: at least one column, every floating column is an event
/// argument, no struct-typed column, positive widths, a bounded total
/// width, and pairwise distinct column names.
pub open spec fn schema_layoutable(s: SchemaV, e: crate::events::TracepointEvent) -> bool {
    let lowered = crate::field::spec_lowered_fields(s.fields, e);
    &&& s.fields.len() >= 1
    &&& forall|i: int|
        0 <= i < s.fields.len() ==> !(crate::events::spec_lookup(
            crate::events::spec_event_args(e),
            (#[trigger] s.fields[i]).name,
        ) is None && crate::data_types::dt_has_float(s.fields[i].dt))
    &&& forall|i: int| 0 <= i < lowered.len() ==> !((#[trigger] lowered[i]).ty is Struct)
    &&& crate::bpf_struct::widths_positive(lowered)
    &&& 3 * crate::bpf_struct::width_total(lowered) <= usize::MAX
    &&& crate::bpf_struct::field_names_unique(lowered)
}

impl Schema {
    /// Lays the schema out as a packed BPF struct at the given event, with
    /// padding optimisation on. Succeeds exactly when the schema is
    /// layoutable there.
    #[verifier::rlimit(100)]
    pub fn to_bpf_struct(&self, e: &crate::events::TracepointEvent) -> (r: Result<
        crate::bpf_struct::Struct,
        crate::errors::EbqlError,
    >)
        ensures
            r is Ok <==> schema_layoutable(self@, *e),
            r matches Ok(s) ==> {
                &&& s.wf()
                &&& s.schema@ == self@
                &&& s.name@ == self@.name + "_t"@
                &&& s.fv().len() == self@.fields.len()
                &&& s.fv() == crate::bpf_struct::spec_stable_sort(
                    crate::field::spec_lowered_fields(self@.fields, *e),
                )
                &&& forall|k: int, l: int|
                    0 <= k < l < s.fv().len() ==> crate::types::layout_le(
                        #[trigger] s.fv()[k],
                        #[trigger] s.fv()[l],
                    )
                &&& forall|k: int|
                    0 <= k < s.fv().len() ==> exists|j: int|
                        0 <= j < self@.fields.len() && (#[trigger] s.fv()[k])
                            == crate::field::spec_lowered_fields(self@.fields, *e)[j]
            },
    {
        let ghost lowered = crate::field::spec_lowered_fields(self@.fields, *e);
        let fields = match self.fields.to_bpf_fields(e) {
            Ok(v) => v,
            Err(err) => {
                return Err(err);
            },
        };
        proof {
            crate::types::lemma_seq_fields_view_index(fields@);
        }
        if fields.len() == 0 {
            return Err(
                crate::errors::EbqlError::Plan("a query must emit at least one column".to_owned()),
            );
        }
        // No struct-typed column, and every width positive.
        let mut i: usize = 0;
        while i < fields.len()
            invariant
                i <= fields@.len(),
                crate::types::seq_fields_view(fields@) == lowered,
                lowered == crate::field::spec_lowered_fields(self@.fields, *e),
                self@.fields.len() == fields@.len(),
                lowered.len() == fields@.len(),
                forall|j: int| 0 <= j < fields@.len() ==> lowered[j] == fields@[j]@,
                forall|j: int| 0 <= j < i ==> !((#[trigger] lowered[j]).ty is Struct),
                forall|j: int|
                    0 <= j < i ==> crate::types::field_width(#[trigger] lowered[j]) >= 1,
            decreases fields@.len() - i,
        {
            let is_struct = match &fields[i]._type {
                crate::types::Type::Struct(_, _) => true,
                _ => false,
            };
            if is_struct {
                return Err(
                    crate::errors::EbqlError::Unsupported("struct-typed columns".to_owned()),
                );
            }
            proof {
                assert(crate::types::width_of(lowered[i as int].ty) <= usize::MAX) by {
                    match lowered[i as int].ty {
                        crate::types::TypeV::String(l) => {
                            assert(fields@[i as int]@.ty is String);
                        },
                        _ => {},
                    }
                }
            }
            if fields[i].size() == 0 {
                proof {
                    assert(crate::types::field_width(lowered[i as int]) == 0);
                    assert(!crate::bpf_struct::widths_positive(lowered));
                }
                return Err(
                    crate::errors::EbqlError::Unsupported("zero-width columns".to_owned()),
                );
            }
            i = i + 1;
        }
        // Total width bound, checked in wide arithmetic.
        let mut acc: u128 = 0;
        let mut k: usize = 0;
        while k < fields.len()
            invariant
                k <= fields@.len(),
                crate::types::seq_fields_view(fields@) == lowered,
                lowered == crate::field::spec_lowered_fields(self@.fields, *e),
                self@.fields.len() == fields@.len(),
                lowered.len() == fields@.len(),
                forall|j: int| 0 <= j < fields@.len() ==> lowered[j] == fields@[j]@,
                forall|j: int| 0 <= j < lowered.len() ==> !((#[trigger] lowered[j]).ty is Struct),
                forall|j: int|
                    0 <= j < lowered.len() ==> crate::types::field_width(#[trigger] lowered[j])
                        >= 1,
                acc == crate::bpf_struct::width_total(lowered.take(k as int)),
                acc <= (k as u128) * (usize::MAX as u128),
            decreases fields@.len() - k,
        {
            proof {
                crate::bpf_struct::lemma_width_total_take_step(lowered, k as int);
                assert(crate::types::width_of(lowered[k as int].ty) <= usize::MAX) by {
                    match lowered[k as int].ty {
                        crate::types::TypeV::String(l) => {
                            assert(fields@[k as int]@.ty is String);
                        },
                        _ => {},
                    }
                }
                assert((k as u128 + 1) * (usize::MAX as u128) == (k as u128) * (usize::MAX as u128)
                    + (usize::MAX as u128)) by (nonlinear_arith);
                assert((k as u128) * (usize::MAX as u128) <= (usize::MAX as u128) * (
                usize::MAX as u128)) by (nonlinear_arith)
                    requires
                        0 <= (k as u128) <= (usize::MAX as u128),
                ;
            }
            acc = acc + (fields[k].size() as u128);
            k = k + 1;
        }
        proof {
            assert(lowered.take(lowered.len() as int) =~= lowered);
        }
        proof {
            let m = usize::MAX as int;
            vstd::arithmetic::div_mod::lemma_fundamental_div_mod(m, 3);
            vstd::arithmetic::div_mod::lemma_mod_bound(m, 3);
            assert((usize::MAX as u128) / 3 == m / 3);
        }
        if acc > (usize::MAX as u128) / 3 {
            proof {
                assert(3 * crate::bpf_struct::width_total(lowered) > usize::MAX);
            }
            return Err(
                crate::errors::EbqlError::Plan("record layout exceeds the address space".to_owned()),
            );
        }
        proof {
            assert(3 * crate::bpf_struct::width_total(lowered) <= usize::MAX);
        }
        // Pairwise distinct column names.
        let mut a: usize = 0;
        while a < fields.len()
            invariant
                a <= fields@.len(),
                crate::types::seq_fields_view(fields@) == lowered,
                lowered == crate::field::spec_lowered_fields(self@.fields, *e),
                self@.fields.len() == fields@.len(),
                lowered.len() == fields@.len(),
                forall|j: int| 0 <= j < fields@.len() ==> lowered[j] == fields@[j]@,
                forall|x: int, y: int|
                    0 <= x < y < fields@.len() && x < a ==> (#[trigger] lowered[x]).name != (
                    #[trigger] lowered[y]).name,
            decreases fields@.len() - a,
        {
            let mut b: usize = a + 1;
            while b < fields.len()
                invariant
                    a < b <= fields@.len() || (a + 1 == b && b > fields@.len()),
                    a < fields@.len(),
                    crate::types::seq_fields_view(fields@) == lowered,
                    lowered == crate::field::spec_lowered_fields(self@.fields, *e),
                    self@.fields.len() == fields@.len(),
                    lowered.len() == fields@.len(),
                    forall|j: int| 0 <= j < fields@.len() ==> lowered[j] == fields@[j]@,
                    forall|y: int|
                        a < y < b ==> lowered[a as int].name != (#[trigger] lowered[y]).name,
                decreases fields@.len() - b,
            {
                if crate::text::str_eq(fields[a].name_str(), fields[b].name_str()) {
                    proof {
                        assert((#[trigger] lowered[a as int]).name == (
                        #[trigger] lowered[b as int]).name);
                        assert(!crate::bpf_struct::field_names_unique(lowered));
                    }
                    return Err(
                        crate::errors::EbqlError::Plan("duplicate column names".to_owned()),
                    );
                }
                b = b + 1;
            }
            a = a + 1;
        }
        // The lowered fields carry the schema's names position for position,
        // so the sort can translate layout positions back to schema slots.
        proof {
            crate::field::lemma_seq_field_view_index(self.fields.0@);
            assert forall|j: int| 0 <= j < lowered.len() implies (#[trigger] lowered[j]).name
                == self@.fields[j].name by {
                crate::events::lemma_spec_lookup_name(
                    crate::events::spec_event_args(*e),
                    self@.fields[j].name,
                );
            }
            assert forall|x: int, y: int| 0 <= x < y < self@.fields.len() implies (
            #[trigger] self@.fields[x]).name != (#[trigger] self@.fields[y]).name by {
                assert(lowered[x].name != lowered[y].name);
            }
            assert(crate::bpf_struct::schema_names_unique(self@.fields));
            assert forall|j: int| 0 <= j < lowered.len() implies exists|x: int|
                0 <= x < self@.fields.len() && (#[trigger] lowered[j]).name
                    == self@.fields[x].name by {
                assert(lowered[j].name == self@.fields[j].name);
            }
        }
        let mut nm = self.name.clone();
        nm.append("_t");
        let s = crate::bpf_struct::Struct::new(nm, fields, self.clone(), true);
        Ok(s)
    }
}

} // verus!
