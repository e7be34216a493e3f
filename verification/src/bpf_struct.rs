//! The struct layout engine: maps a schema to a packed byte layout.
//!
//! A layout orders its fields (optionally width-descending with strings
//! last), assigns each field an offset aligned to its width (strings are
//! byte addressable and need none), and pads the total size to a multiple
//! of the widest field. The permutation `mapping[i]` sends layout position
//! `i` back to the schema position it came from, so a decoded record is
//! assembled in schema order.

use vstd::prelude::*;

verus! {

use crate::schema::Schema;
use crate::align::{align_up, lemma_align_up, lemma_align_up_monotone};
use crate::types::{
    Field, FieldV, TypeV, field_width, layout_le, lemma_seq_fields_view_index,
    lemma_seq_fields_view_push, seq_fields_view,
};

/// Every field has a positive byte width; a zero-width field (an opaque
/// struct, a zero-length string) cannot be laid out.
pub open spec fn widths_positive(fs: Seq<FieldV>) -> bool {
    forall|i: int| 0 <= i < fs.len() ==> field_width(#[trigger] fs[i]) >= 1
}

/// Sum of the field widths.
pub open spec fn width_total(fs: Seq<FieldV>) -> nat
    decreases fs,
{
    if fs.len() == 0 {
        0
    } else {
        width_total(fs.drop_last()) + field_width(fs.last())
    }
}

/// Extending a prefix of the sequence by one element adds that width.
pub proof fn lemma_width_total_take_step(fs: Seq<FieldV>, i: int)
    requires
        0 <= i < fs.len(),
    ensures
        width_total(fs.take(i + 1)) == width_total(fs.take(i)) + field_width(fs[i]),
{
    assert(fs.take(i + 1).drop_last() =~= fs.take(i));
}

/// Inserting an element anywhere adds its width to the total.
pub proof fn lemma_width_total_insert(s: Seq<FieldV>, i: int, x: FieldV)
    requires
        0 <= i <= s.len(),
    ensures
        width_total(s.insert(i, x)) == width_total(s) + field_width(x),
    decreases s.len(),
{
    if i == s.len() {
        assert(s.insert(i, x) =~= s.push(x));
        assert(s.push(x).drop_last() =~= s);
    } else {
        let t = s.insert(i, x);
        assert(t.drop_last() =~= s.drop_last().insert(i, x));
        assert(t.last() == s.last());
        lemma_width_total_insert(s.drop_last(), i, x);
    }
}

/// The widest field width in the sequence (0 when empty).
pub open spec fn max_width(fs: Seq<FieldV>) -> nat
    decreases fs,
{
    if fs.len() == 0 {
        0
    } else {
        let m = max_width(fs.drop_last());
        let w = field_width(fs.last());
        if w > m {
            w
        } else {
            m
        }
    }
}

/// The maximum dominates every field width and is dominated by the total.
pub proof fn lemma_max_width_props(fs: Seq<FieldV>)
    ensures
        forall|i: int| 0 <= i < fs.len() ==> field_width(#[trigger] fs[i]) <= max_width(fs),
        max_width(fs) <= width_total(fs),
        fs.len() > 0 ==> exists|i: int| 0 <= i < fs.len() && field_width(fs[i]) == max_width(fs),
    decreases fs.len(),
{
    if fs.len() > 0 {
        let d = fs.drop_last();
        lemma_max_width_props(d);
        assert forall|i: int| 0 <= i < fs.len() implies field_width(#[trigger] fs[i]) <= max_width(
            fs,
        ) by {
            if i < fs.len() - 1 {
                assert(fs[i] == d[i]);
            } else {
                assert(fs[i] == fs.last());
            }
        }
        if field_width(fs.last()) >= max_width(d) {
            assert(fs[fs.len() - 1] == fs.last());
            assert(field_width(fs[fs.len() - 1]) == max_width(fs));
        } else {
            let i = choose|i: int| 0 <= i < d.len() && field_width(d[i]) == max_width(d);
            assert(fs[i] == d[i]);
            assert(field_width(fs[i]) == max_width(fs));
        }
    }
}

/// Each field width is bounded by the width total.
pub proof fn lemma_field_width_le_total(fs: Seq<FieldV>, i: int)
    requires
        0 <= i < fs.len(),
    ensures
        field_width(fs[i]) <= width_total(fs),
{
    lemma_max_width_props(fs);
}

/// The byte cursor after laying out the first `k` fields: each non-string
/// field is preceded by padding up to its own alignment.
pub open spec fn layout_cursor(fs: Seq<FieldV>, k: int) -> int
    decreases k,
{
    if k <= 0 {
        0
    } else {
        let c = layout_cursor(fs, k - 1);
        let w = field_width(fs[k - 1]) as int;
        let off = if fs[k - 1].ty is String {
            c
        } else {
            align_up(c, w)
        };
        off + w
    }
}

/// The byte offset of field `i` in the layout.
pub open spec fn layout_offset(fs: Seq<FieldV>, i: int) -> int {
    let c = layout_cursor(fs, i);
    let w = field_width(fs[i]) as int;
    if fs[i].ty is String {
        c
    } else {
        align_up(c, w)
    }
}

/// Total size of the layout: the final cursor rounded up to the widest
/// field width.
pub open spec fn layout_size(fs: Seq<FieldV>) -> int {
    align_up(layout_cursor(fs, fs.len() as int), max_width(fs) as int)
}

/// Basic facts about one layout step: offsets respect alignment, lie at or
/// after the cursor, and the next cursor sits one field width further.
pub proof fn lemma_layout_step(fs: Seq<FieldV>, i: int)
    requires
        widths_positive(fs),
        0 <= i < fs.len(),
        layout_cursor(fs, i) >= 0,
    ensures
        layout_cursor(fs, i) <= layout_offset(fs, i),
        layout_offset(fs, i) < layout_cursor(fs, i) + field_width(fs[i]),
        layout_cursor(fs, i + 1) == layout_offset(fs, i) + field_width(fs[i]),
        !(fs[i].ty is String) ==> layout_offset(fs, i) % (field_width(fs[i]) as int) == 0,
{
    if !(fs[i].ty is String) {
        lemma_align_up(layout_cursor(fs, i), field_width(fs[i]) as int);
    }
}

/// The cursor is non-negative and non-decreasing.
pub proof fn lemma_cursor_monotone(fs: Seq<FieldV>, k: int)
    requires
        widths_positive(fs),
        0 <= k <= fs.len(),
    ensures
        layout_cursor(fs, k) >= 0,
        forall|k2: int| 0 <= k2 <= k ==> layout_cursor(fs, k2) <= layout_cursor(fs, k),
    decreases k,
{
    if k > 0 {
        lemma_cursor_monotone(fs, k - 1);
        lemma_layout_step(fs, k - 1);
    }
}

/// The cursor after `k` fields is at most twice the width of those fields,
/// since each padding gap is smaller than the field that follows it.
pub proof fn lemma_cursor_bound(fs: Seq<FieldV>, k: int)
    requires
        widths_positive(fs),
        0 <= k <= fs.len(),
    ensures
        width_total(fs.take(k)) <= layout_cursor(fs, k) <= 2 * width_total(fs.take(k)),
    decreases k,
{
    if k == 0 {
        assert(fs.take(0int) =~= Seq::<FieldV>::empty());
    } else {
        lemma_cursor_bound(fs, k - 1);
        lemma_cursor_monotone(fs, k - 1);
        lemma_layout_step(fs, k - 1);
        lemma_width_total_take_step(fs, k - 1);
        assert(fs.take(k)[k - 1] == fs[k - 1]);
    }
}

/// The total size is bounded by three times the width sum.
pub proof fn lemma_size_bound(fs: Seq<FieldV>)
    requires
        widths_positive(fs),
        fs.len() >= 1,
    ensures
        0 <= layout_cursor(fs, fs.len() as int) <= layout_size(fs),
        layout_size(fs) <= 3 * width_total(fs),
        layout_size(fs) % (max_width(fs) as int) == 0,
        max_width(fs) >= 1,
        max_width(fs) <= width_total(fs) <= layout_size(fs),
{
    let n = fs.len() as int;
    lemma_cursor_bound(fs, n);
    lemma_cursor_monotone(fs, n);
    lemma_max_width_props(fs);
    assert(field_width(fs[0]) >= 1);
    assert(fs.take(n) =~= fs);
    lemma_align_up(layout_cursor(fs, n), max_width(fs) as int);
}

/// Appending a field never shrinks the layout: the new cursor starts at or
/// after the old one, and the widened trailing alignment only rounds higher.
pub proof fn lemma_layout_size_monotone(fs: Seq<FieldV>, f: FieldV)
    requires
        widths_positive(fs),
        fs.len() >= 1,
        field_width(f) >= 1,
    ensures
        layout_size(fs) <= layout_size(fs.push(f)),
{
    let g = fs.push(f);
    let n = fs.len() as int;
    assert(g.take(n) =~= fs);
    lemma_cursor_take_agree(g, n);
    assert(widths_positive(g));
    lemma_cursor_monotone(fs, n);
    lemma_layout_step(g, n);
    lemma_size_bound(fs);
    let c = layout_cursor(fs, n);
    let cg = layout_cursor(g, n + 1);
    let m = max_width(fs) as int;
    let wf = field_width(f) as int;
    let mg = max_width(g) as int;
    assert(g.drop_last() =~= fs);
    assert(mg == if wf > m { wf } else { m });
    lemma_align_up(c, m);
    lemma_align_up(cg, mg);
    if wf <= m {
        // Same trailing alignment; the cursor only grew.
        lemma_align_up_monotone(c, cg, m);
    } else {
        // The new field is the widest: the new size is the new cursor
        // itself, already past the old aligned size.
        lemma_align_up(c, wf);
        if f.ty is String {
            assert(cg == c + wf);
            lemma_align_up_monotone(c, cg, wf);
            lemma_align_up(cg, wf);
            assert(align_up(c, m) < c + m <= c + wf <= align_up(cg, wf));
        } else {
            assert(cg == align_up(c, wf) + wf);
            assert(align_up(cg, wf) == cg) by {
                lemma_align_up(c, wf);
                vstd::arithmetic::div_mod::lemma_add_mod_noop(align_up(c, wf), wf, wf);
                vstd::arithmetic::div_mod::lemma_mod_self_0(wf);
                vstd::arithmetic::div_mod::lemma_small_mod(0nat, wf as nat);
            }
            assert(align_up(c, m) < c + m <= c + wf <= cg);
        }
    }
}

/// The cursor over a prefix agrees with the cursor over the whole list.
pub proof fn lemma_cursor_take_agree(fs: Seq<FieldV>, k: int)
    requires
        0 <= k <= fs.len(),
    ensures
        layout_cursor(fs.take(k), k) == layout_cursor(fs, k),
        forall|i: int| 0 <= i < k ==> layout_offset(fs.take(k), i) == layout_offset(fs, i),
    decreases k,
{
    if k > 0 {
        lemma_cursor_take_agree(fs, k - 1);
        lemma_cursor_k_take_agree(fs, k, k - 1);
        assert(fs.take(k)[k - 1] == fs[k - 1]);
        assert forall|i: int| 0 <= i < k implies layout_offset(fs.take(k), i) == layout_offset(
            fs,
            i,
        ) by {
            lemma_cursor_k_take_agree(fs, k, i);
            assert(fs.take(k)[i] == fs[i]);
        }
    }
}

/// The cursor after `i` fields only depends on the first `i` fields.
pub proof fn lemma_cursor_k_take_agree(fs: Seq<FieldV>, k: int, i: int)
    requires
        0 <= i <= k <= fs.len(),
    ensures
        layout_cursor(fs.take(k), i) == layout_cursor(fs, i),
    decreases i,
{
    if i > 0 {
        lemma_cursor_k_take_agree(fs, k, i - 1);
        assert(fs.take(k)[i - 1] == fs[i - 1]);
    }
}

/// Where a field lands when inserted from the right into a sorted list: the
/// first position from the right whose predecessor may stand at or before
/// it, so a tie goes after every earlier-inserted equal-rank field.
pub open spec fn spec_insert_pos(acc: Seq<FieldV>, x: FieldV) -> int
    decreases acc.len(),
{
    if acc.len() == 0 {
        0
    } else if layout_le(acc.last(), x) {
        acc.len() as int
    } else {
        spec_insert_pos(acc.drop_last(), x)
    }
}

/// The insertion position lies within the list.
pub proof fn lemma_insert_pos_bounds(acc: Seq<FieldV>, x: FieldV)
    ensures
        0 <= spec_insert_pos(acc, x) <= acc.len(),
    decreases acc.len(),
{
    if acc.len() > 0 && !layout_le(acc.last(), x) {
        lemma_insert_pos_bounds(acc.drop_last(), x);
    }
}

/// The stable reorder that drives padding optimisation: each field in turn
/// is inserted after every field it may stand behind, so the result is
/// `layout_le`-sorted and equal-rank fields keep their input order.
pub open spec fn spec_stable_sort(fs: Seq<FieldV>) -> Seq<FieldV>
    decreases fs.len(),
{
    if fs.len() == 0 {
        Seq::empty()
    } else {
        let sorted = spec_stable_sort(fs.drop_last());
        sorted.insert(spec_insert_pos(sorted, fs.last()), fs.last())
    }
}

/// Representation of the emitted record struct in BPF (C).
#[derive(Debug)]
pub struct Struct {
    /// C type name of the struct.
    pub name: String,
    /// Fields in layout order.
    pub fields: Vec<Field>,
    /// Total size in bytes, trailing padding included.
    pub sz: usize,
    /// Byte offset of each field, in layout order.
    pub offs: Vec<usize>,
    /// The schema this struct lays out.
    pub schema: Schema,
    /// Sends layout position `i` to the schema position it came from.
    pub mapping: Vec<usize>,
}

impl Struct {
    /// The field models, in layout order.
    pub open spec fn fv(self) -> Seq<FieldV> {
        seq_fields_view(self.fields@)
    }

    /// Well-formedness: offsets and size follow the layout rules, and the
    /// mapping is a bijection onto schema positions that preserves names.
    pub open spec fn wf(self) -> bool {
        let fs = self.fv();
        let n = self.fields@.len() as int;
        &&& n >= 1
        &&& fs.len() == n
        &&& widths_positive(fs)
        &&& self.offs@.len() == n
        &&& self.mapping@.len() == n
        &&& self.schema@.fields.len() == n
        &&& layout_size(fs) <= usize::MAX
        &&& forall|i: int| 0 <= i < n ==> self.offs@[i] == layout_offset(fs, i)
        &&& self.sz == layout_size(fs)
        &&& forall|i: int| 0 <= i < n ==> (#[trigger] self.mapping@[i]) < n
        &&& forall|i: int, j: int|
            0 <= i < j < n ==> (#[trigger] self.mapping@[i]) != (#[trigger] self.mapping@[j])
        &&& forall|j: int| 0 <= j < n ==> #[trigger] maps_onto(self.mapping@, j)
        &&& forall|i: int|
            0 <= i < n ==> self.schema@.fields[#[trigger] self.mapping@[i] as int].name
                == fs[i].name
    }
}

/// Some layout position is sent to schema position `j`.
pub open spec fn maps_onto(m: Seq<usize>, j: int) -> bool {
    exists|i: int| 0 <= i < m.len() && (#[trigger] m[i]) == j
}

/// No two fields share a name.
pub open spec fn field_names_unique(fs: Seq<FieldV>) -> bool {
    forall|i: int, j: int|
        0 <= i < j < fs.len() ==> (#[trigger] fs[i]).name != (#[trigger] fs[j]).name
}

/// No two schema fields share a name.
pub open spec fn schema_names_unique(fs: Seq<crate::field::FieldV>) -> bool {
    forall|i: int, j: int|
        0 <= i < j < fs.len() ==> (#[trigger] fs[i]).name != (#[trigger] fs[j]).name
}

/// Every layout field name occurs among the schema field names.
pub open spec fn names_cover(fs: Seq<FieldV>, ss: Seq<crate::field::FieldV>) -> bool {
    forall|i: int|
        0 <= i < fs.len() ==> exists|j: int|
            0 <= j < ss.len() && (#[trigger] fs[i]).name == ss[j].name
}

/// An injective sequence of `n` values below `n` hits every such value.
pub proof fn lemma_injective_onto(m: Seq<usize>, n: int)
    requires
        m.len() == n,
        forall|k: int| 0 <= k < n ==> (#[trigger] m[k]) < n,
        forall|k: int, l: int| 0 <= k < l < n ==> (#[trigger] m[k]) != (#[trigger] m[l]),
    ensures
        forall|j: int| 0 <= j < n ==> #[trigger] maps_onto(m, j),
{
    let fmap = Map::<int, int>::new(|k: int| 0 <= k < n, |k: int| m[k] as int);
    let rng = vstd::set_lib::set_int_range(0, n);
    assert(fmap.dom() =~= rng);
    vstd::set_lib::lemma_int_range(0, n);
    assert(fmap.is_injective()) by {
        assert forall|k: int, l: int|
            k != l && fmap.dom().contains(k) && fmap.dom().contains(l) implies #[trigger] fmap[k]
            != #[trigger] fmap[l] by {
            if k < l {
                assert(m[k] != m[l]);
            } else {
                assert(m[l] != m[k]);
            }
        }
    }
    fmap.lemma_injective_values_len();
    assert forall|j: int| 0 <= j < n implies #[trigger] maps_onto(m, j) by {
        if !maps_onto(m, j) {
            let smaller = rng.remove(j);
            assert(fmap.values().subset_of(smaller)) by {
                assert forall|v: int| fmap.values().contains(v) implies smaller.contains(v) by {
                    let k = choose|k: int| fmap.dom().contains(k) && #[trigger] fmap[k] == v;
                    assert(m[k] < n);
                    assert(v != j) by {
                        if v == j {
                            assert(0 <= k < m.len() && m[k] == j);
                            assert(maps_onto(m, j));
                        }
                    }
                }
            }
            vstd::set_lib::lemma_len_subset(fmap.values(), smaller);
            assert(smaller.len() == n - 1);
            assert(fmap.values().len() == fmap.dom().len());
            assert(false);
        }
    }
}

impl Struct {
    /// Initialises a BPF struct over the given fields. With `optimize` the
    /// fields are stably reordered width-descending with strings last and
    /// the mapping records where each landed; without it the given order and
    /// the identity mapping are kept.
    #[verifier::rlimit(50)]
    pub fn new(name: String, fields: Vec<Field>, schema: Schema, optimize: bool) -> (r: Struct)
        requires
            fields@.len() >= 1,
            widths_positive(seq_fields_view(fields@)),
            3 * width_total(seq_fields_view(fields@)) <= usize::MAX,
            schema@.fields.len() == fields@.len(),
            field_names_unique(seq_fields_view(fields@)),
            schema_names_unique(schema@.fields),
            names_cover(seq_fields_view(fields@), schema@.fields),
            !optimize ==> forall|i: int|
                0 <= i < fields@.len() ==> schema@.fields[i].name == seq_fields_view(
                    fields@,
                )[i].name,
        ensures
            r.wf(),
            r.name@ == name@,
            r.schema@ == schema@,
            r.fields@.len() == fields@.len(),
            optimize ==> r.fv() == spec_stable_sort(seq_fields_view(fields@)),
            optimize ==> forall|k: int, l: int|
                0 <= k < l < r.fv().len() ==> layout_le(
                    #[trigger] r.fv()[k],
                    #[trigger] r.fv()[l],
                ),
            forall|k: int|
                0 <= k < r.fv().len() ==> exists|j: int|
                    0 <= j < fields@.len() && (#[trigger] r.fv()[k]) == seq_fields_view(
                        fields@,
                    )[j],
            !optimize ==> r.fv() == seq_fields_view(fields@),
    {
        proof {
            lemma_seq_fields_view_index(fields@);
        }
        let n = fields.len();
        let ghost orig = seq_fields_view(fields@);
        let (laid, mapping): (Vec<Field>, Vec<usize>) = if optimize {
            Self::optimize_padding(&fields, &schema)
        } else {
            let mut idx: Vec<usize> = Vec::new();
            let mut copy: Vec<Field> = Vec::new();
            let mut i: usize = 0;
            proof {
                assert(seq_fields_view(fields@).take(0int) =~= seq_fields_view(copy@));
            }
            while i < fields.len()
                invariant
                    i <= fields@.len(),
                    idx@.len() == i,
                    copy@.len() == i,
                    forall|j: int| 0 <= j < i ==> idx@[j] == j,
                    seq_fields_view(copy@) == seq_fields_view(fields@).take(i as int),
                    seq_fields_view(fields@).len() == fields@.len(),
                    forall|j: int|
                        0 <= j < fields@.len() ==> seq_fields_view(fields@)[j] == fields@[j]@,
                decreases fields@.len() - i,
            {
                let ghost prev = copy@;
                let c = fields[i].clone();
                copy.push(c);
                idx.push(i);
                proof {
                    lemma_seq_fields_view_push(prev, c);
                    assert(seq_fields_view(fields@).take(i + 1) =~= seq_fields_view(
                        fields@,
                    ).take(i as int).push(seq_fields_view(fields@)[i as int]));
                }
                i = i + 1;
            }
            proof {
                assert(seq_fields_view(fields@).take(fields@.len() as int) =~= seq_fields_view(
                    fields@,
                ));
            }
            (copy, idx)
        };
        proof {
            lemma_seq_fields_view_index(laid@);
            let lv = seq_fields_view(laid@);
            if optimize {
                lemma_width_total_permuted(lv, orig, mapping@);
                assert forall|k: int| 0 <= k < lv.len() implies field_width(#[trigger] lv[k])
                    >= 1 by {
                    let ki = mapping@[k] as int;
                    assert(field_width(orig[ki]) >= 1);
                }
            }
            assert(widths_positive(lv));
            lemma_size_bound(lv);
        }
        let (offs, sz) = Self::populate_offsets(&laid);
        proof {
            if optimize {
                let lv = seq_fields_view(laid@);
                assert forall|k: int| 0 <= k < lv.len() implies exists|j: int|
                    0 <= j < schema@.fields.len() && (#[trigger] lv[k]).name
                        == schema@.fields[j].name by {
                    let ki = mapping@[k] as int;
                    assert(orig[ki].name == lv[k].name);
                }
            }
        }
        // Translate the permutation over the input order into schema
        // positions by name.
        let mut schema_map: Vec<usize> = Vec::new();
        let mut i: usize = 0;
        proof {
            crate::field::lemma_seq_field_view_index(schema.fields.0@);
        }
        while i < laid.len()
            invariant
                i <= laid@.len(),
                schema_map@.len() == i,
                schema@.fields.len() == schema.fields.0@.len(),
                forall|j: int|
                    0 <= j < schema.fields.0@.len() ==> schema.fields.0@[j]@ == schema@.fields[j],
                seq_fields_view(laid@).len() == laid@.len(),
                forall|j: int| 0 <= j < laid@.len() ==> seq_fields_view(laid@)[j] == laid@[j]@,
                names_cover(seq_fields_view(laid@), schema@.fields),
                forall|k: int|
                    0 <= k < i ==> 0 <= (#[trigger] schema_map@[k]) < schema@.fields.len()
                        && schema@.fields[schema_map@[k] as int].name == seq_fields_view(
                        laid@,
                    )[k].name,
            decreases laid@.len() - i,
        {
            proof {
                let lv = seq_fields_view(laid@);
                assert(lv[i as int] == laid@[i as int]@);
                let jj = choose|j: int|
                    0 <= j < schema@.fields.len() && lv[i as int].name == schema@.fields[j].name;
                assert(schema@.fields[jj].name == laid@[i as int]._name@);
            }
            let pos = Self::schema_position(&schema, &laid[i]._name);
            schema_map.push(pos);
            i = i + 1;
        }
        let r = Struct { name, fields: laid, sz, offs, schema, mapping: schema_map };
        proof {
            let fs = r.fv();
            let n2 = r.fields@.len() as int;
            // Names stay unique under the reordering, and every laid-out
            // field is one of the inputs.
            if optimize {
                assert forall|a: int, b: int|
                    0 <= a < b < n2 implies (#[trigger] fs[a]).name != (#[trigger] fs[b]).name by {
                    let pa = mapping@[a] as int;
                    let pb = mapping@[b] as int;
                    assert(fs[a] == orig[pa] && fs[b] == orig[pb]);
                    assert(pa != pb);
                    if pa < pb {
                        assert(orig[pa].name != orig[pb].name);
                    } else {
                        assert(orig[pb].name != orig[pa].name);
                    }
                }
                assert forall|k: int| 0 <= k < fs.len() implies exists|j: int|
                    0 <= j < fields@.len() && (#[trigger] fs[k]) == seq_fields_view(
                        fields@,
                    )[j] by {
                    let kj = mapping@[k] as int;
                    assert(fs[k] == seq_fields_view(fields@)[kj]);
                }
            } else {
                assert forall|k: int| 0 <= k < fs.len() implies exists|j: int|
                    0 <= j < fields@.len() && (#[trigger] fs[k]) == seq_fields_view(
                        fields@,
                    )[j] by {
                    assert(fs[k] == seq_fields_view(fields@)[k]);
                }
            }
            // Injectivity: distinct layout fields have distinct names, so
            // their schema positions differ.
            assert forall|a: int, b: int| 0 <= a < b < n2 implies (#[trigger] r.mapping@[a]) != (
            #[trigger] r.mapping@[b]) by {
                assert(fs[a].name != fs[b].name);
            }
            // Surjectivity: an injective map of n positions onto n schema
            // positions hits them all.
            lemma_injective_onto(r.mapping@, n2);
        }
        r
    }

    /// Stably reorders the fields width-descending with strings last,
    /// returning them with the input position each came from.
    #[verifier::rlimit(50)]
    fn optimize_padding(fields: &Vec<Field>, schema: &Schema) -> (r: (Vec<Field>, Vec<usize>))
        requires
            widths_positive(seq_fields_view(fields@)),
            width_total(seq_fields_view(fields@)) <= usize::MAX,
        ensures
            r.0@.len() == fields@.len(),
            r.1@.len() == fields@.len(),
            forall|k: int, l: int|
                0 <= k < l < r.0@.len() ==> layout_le(
                    #[trigger] seq_fields_view(r.0@)[k],
                    #[trigger] seq_fields_view(r.0@)[l],
                ),
            forall|k: int|
                0 <= k < r.0@.len() ==> (#[trigger] r.1@[k]) < fields@.len() && seq_fields_view(
                    r.0@,
                )[k] == seq_fields_view(fields@)[r.1@[k] as int],
            forall|k: int, l: int|
                0 <= k < l < r.1@.len() ==> (#[trigger] r.1@[k]) != (#[trigger] r.1@[l]),
            width_total(seq_fields_view(r.0@)) == width_total(seq_fields_view(fields@)),
            seq_fields_view(r.0@) == spec_stable_sort(seq_fields_view(fields@)),
            forall|k: int, l: int|
                0 <= k < l < r.0@.len() && layout_le(
                    #[trigger] seq_fields_view(r.0@)[l],
                    #[trigger] seq_fields_view(r.0@)[k],
                ) ==> r.1@[k] < r.1@[l],
    {
        proof {
            lemma_seq_fields_view_index(fields@);
        }
        let ghost fv_in = seq_fields_view(fields@);
        let mut out: Vec<Field> = Vec::new();
        let mut idx: Vec<usize> = Vec::new();
        let mut i: usize = 0;
        while i < fields.len()
            invariant
                i <= fields@.len(),
                out@.len() == i,
                idx@.len() == i,
                fv_in == seq_fields_view(fields@),
                fv_in.len() == fields@.len(),
                widths_positive(fv_in),
                width_total(fv_in) <= usize::MAX,
                forall|j: int| 0 <= j < fields@.len() ==> fv_in[j] == fields@[j]@,
                seq_fields_view(out@).len() == i,
                forall|j: int| 0 <= j < i ==> seq_fields_view(out@)[j] == out@[j]@,
                forall|k: int, l: int|
                    0 <= k < l < i ==> layout_le(
                        #[trigger] seq_fields_view(out@)[k],
                        #[trigger] seq_fields_view(out@)[l],
                    ),
                forall|k: int|
                    0 <= k < i ==> (#[trigger] idx@[k]) < i && seq_fields_view(out@)[k]
                        == fv_in[idx@[k] as int],
                forall|k: int, l: int|
                    0 <= k < l < i ==> (#[trigger] idx@[k]) != (#[trigger] idx@[l]),
                width_total(seq_fields_view(out@)) == width_total(fv_in.take(i as int)),
                seq_fields_view(out@) == spec_stable_sort(fv_in.take(i as int)),
                forall|k: int| 0 <= k < i ==> (#[trigger] idx@[k]) < i,
                forall|k: int, l: int|
                    0 <= k < l < i && layout_le(
                        #[trigger] seq_fields_view(out@)[l],
                        #[trigger] seq_fields_view(out@)[k],
                    ) ==> idx@[k] < idx@[l],
            decreases fields@.len() - i,
        {
            // Find the insertion point: skip right past every element that
            // may stand at or before the new one, keeping the sort stable.
            let x = fields[i].clone();
            proof {
                lemma_field_width_le_total(fv_in, i as int);
                assert forall|k: int| 0 <= k < i implies field_width(
                    #[trigger] seq_fields_view(out@)[k],
                ) <= usize::MAX by {
                    let ki = idx@[k] as int;
                    lemma_field_width_le_total(fv_in, ki);
                }
            }
            let mut j: usize = out.len();
            proof {
                assert(seq_fields_view(out@).take(j as int) =~= seq_fields_view(out@));
                assert(seq_fields_view(out@).take(0int) =~= Seq::<FieldV>::empty());
            }
            while j > 0
                invariant
                    j <= out@.len(),
                    out@.len() == i,
                    x@ == fv_in[i as int],
                    widths_positive(fv_in),
                    width_total(fv_in) <= usize::MAX,
                    0 <= (i as int) < fv_in.len(),
                    seq_fields_view(out@).len() == i,
                    forall|k: int| 0 <= k < i ==> seq_fields_view(out@)[k] == out@[k]@,
                    forall|k: int|
                        0 <= k < i ==> field_width(#[trigger] seq_fields_view(out@)[k])
                            <= usize::MAX,
                    field_width(x@) <= usize::MAX,
                    forall|k: int|
                        j <= k < i ==> !layout_le(#[trigger] seq_fields_view(out@)[k], x@),
                    spec_insert_pos(seq_fields_view(out@), x@) == spec_insert_pos(
                        seq_fields_view(out@).take(j as int),
                        x@,
                    ),
                    seq_fields_view(out@).take(0int) == Seq::<FieldV>::empty(),
                ensures
                    j <= out@.len(),
                    forall|k: int|
                        j <= k < i ==> !layout_le(#[trigger] seq_fields_view(out@)[k], x@),
                    j > 0 ==> layout_le(seq_fields_view(out@)[j - 1], x@),
                    j == spec_insert_pos(seq_fields_view(out@), x@),
                decreases j,
            {
                proof {
                    assert(out@[j - 1]@ == seq_fields_view(out@)[j - 1]);
                    let sv = seq_fields_view(out@);
                    assert(sv.take(j as int).last() == sv[j - 1]);
                    assert(sv.take(j as int).drop_last() =~= sv.take(j - 1));
                }
                if out[j - 1].layout_before(&x) {
                    break;
                }
                j = j - 1;
            }
            proof {
                let sv = seq_fields_view(out@);
                if j == 0 {
                    assert(sv.take(0int) =~= Seq::<FieldV>::empty());
                }
            }
            let ghost old_out = out@;
            let ghost old_idx = idx@;
            proof {
                lemma_insert_pos_bounds(seq_fields_view(old_out), x@);
            }
            out.insert(j, x);
            idx.insert(j, i);
            proof {
                lemma_seq_fields_view_insert(old_out, j as int, x);
                lemma_width_total_insert(seq_fields_view(old_out), j as int, x@);
                lemma_width_total_take_step(fv_in, i as int);
                lemma_seq_fields_view_index(out@);
                // The inserted list is the model's next stable-sort step.
                assert(fv_in.take(i + 1).drop_last() =~= fv_in.take(i as int));
                assert(fv_in.take(i + 1).last() == fv_in[i as int]);
                assert(seq_fields_view(out@) == spec_stable_sort(fv_in.take(i + 1)));
                let sv = seq_fields_view(out@);
                // Sortedness after insertion: everything before `j` stands
                // at or before `x`, and `x` at or before everything after.
                assert forall|k: int, l: int| 0 <= k < l < sv.len() implies layout_le(
                    #[trigger] sv[k],
                    #[trigger] sv[l],
                ) by {
                    let svo = seq_fields_view(old_out);
                    if l < j {
                        assert(sv[k] == svo[k] && sv[l] == svo[l]);
                    } else if k > j {
                        assert(sv[k] == svo[k - 1] && sv[l] == svo[l - 1]);
                    } else if k == j && l > j {
                        assert(sv[l] == svo[l - 1]);
                        assert(!layout_le(svo[l - 1], x@));
                        crate::types::lemma_layout_le_order(x@, svo[l - 1], x@);
                    } else if l == j && k < j {
                        assert(sv[k] == svo[k]);
                        if j < old_out.len() {
                            // x was inserted below position j because
                            // svo[j-1] stands at or before it.
                        }
                        assert(layout_le(svo[j - 1], x@));
                        if k < j - 1 {
                            crate::types::lemma_layout_le_order(svo[k], svo[j - 1], x@);
                        }
                    } else if k < j && l > j {
                        assert(sv[k] == svo[k] && sv[l] == svo[l - 1]);
                        assert(layout_le(svo[j - 1], x@));
                        if k < j - 1 {
                            crate::types::lemma_layout_le_order(svo[k], svo[j - 1], x@);
                        }
                        assert(!layout_le(svo[l - 1], x@));
                        crate::types::lemma_layout_le_order(x@, svo[l - 1], x@);
                        crate::types::lemma_layout_le_order(sv[k], x@, svo[l - 1]);
                    }
                }
                // Stability: ties keep their input positions. The inserted
                // field carries the largest index so far and sits after
                // every field it ties with.
                assert forall|k: int, l: int|
                    0 <= k < l < sv.len() && layout_le(#[trigger] sv[l], #[trigger] sv[k])
                        implies idx@[k] < idx@[l] by {
                    let svo = seq_fields_view(old_out);
                    if l < j {
                        assert(sv[k] == svo[k] && sv[l] == svo[l]);
                        assert(idx@[k] == old_idx[k] && idx@[l] == old_idx[l]);
                    } else if k > j {
                        assert(sv[k] == svo[k - 1] && sv[l] == svo[l - 1]);
                        assert(idx@[k] == old_idx[k - 1] && idx@[l] == old_idx[l - 1]);
                    } else if k == j {
                        assert(sv[l] == svo[l - 1]);
                        assert(!layout_le(svo[l - 1], x@));
                        assert(false);
                    } else if l == j {
                        assert(idx@[l] == i);
                        assert(idx@[k] == old_idx[k]);
                    } else {
                        assert(sv[k] == svo[k] && sv[l] == svo[l - 1]);
                        assert(idx@[k] == old_idx[k] && idx@[l] == old_idx[l - 1]);
                    }
                }
            }
            i = i + 1;
        }
        proof {
            assert(fv_in.take(fv_in.len() as int) =~= fv_in);
        }
        (out, idx)
    }

    /// First schema position carrying the given field name.
    fn schema_position(schema: &Schema, name: &String) -> (r: usize)
        requires
            exists|j: int| 0 <= j < schema@.fields.len() && schema@.fields[j].name == name@,
        ensures
            r < schema@.fields.len(),
            schema@.fields[r as int].name == name@,
    {
        proof {
            crate::field::lemma_seq_field_view_index(schema.fields.0@);
        }
        let flds = &schema.fields.0;
        let mut j: usize = 0;
        while j < flds.len()
            invariant
                j <= flds@.len(),
                schema@.fields.len() == flds@.len(),
                forall|k: int| 0 <= k < flds@.len() ==> schema@.fields[k] == flds@[k]@,
                exists|k: int| 0 <= k < schema@.fields.len() && schema@.fields[k].name == name@,
                forall|k: int| 0 <= k < j ==> schema@.fields[k].name != name@,
            decreases flds@.len() - j,
        {
            if flds[j].name == *name {
                return j;
            }
            j = j + 1;
        }
        proof {
            assert(false);
        }
        0
    }

    /// Walks the layout-ordered fields assigning aligned offsets, and
    /// returns them with the padded total size.
    fn populate_offsets(fields: &Vec<Field>) -> (r: (Vec<usize>, usize))
        requires
            fields@.len() >= 1,
            widths_positive(seq_fields_view(fields@)),
            layout_size(seq_fields_view(fields@)) <= usize::MAX,
        ensures
            r.0@.len() == fields@.len(),
            forall|i: int|
                0 <= i < fields@.len() ==> r.0@[i] == layout_offset(seq_fields_view(fields@), i),
            r.1 == layout_size(seq_fields_view(fields@)),
    {
        proof {
            lemma_seq_fields_view_index(fields@);
        }
        let ghost fs = seq_fields_view(fields@);
        let mut offs: Vec<usize> = Vec::new();
        let mut off: usize = 0;
        let mut i: usize = 0;
        while i < fields.len()
            invariant
                i <= fields@.len(),
                fs == seq_fields_view(fields@),
                fs.len() == fields@.len(),
                fields@.len() >= 1,
                widths_positive(fs),
                layout_size(fs) <= usize::MAX,
                forall|j: int| 0 <= j < fields@.len() ==> fs[j] == fields@[j]@,
                offs@.len() == i,
                forall|j: int| 0 <= j < i ==> offs@[j] == layout_offset(fs, j),
                off == layout_cursor(fs, i as int),
            decreases fields@.len() - i,
        {
            proof {
                lemma_cursor_monotone(fs, fs.len() as int);
                lemma_cursor_monotone(fs, i as int);
                lemma_layout_step(fs, i as int);
                lemma_size_bound(fs);
            }
            let w = fields[i].size();
            if !fields[i]._type.is_string() && off % w != 0 {
                off = off + (w - off % w);
            }
            offs.push(off);
            off = off + w;
            i = i + 1;
        }
        proof {
            lemma_size_bound(fs);
        }
        let mw = Self::widest(fields);
        let sz = if off % mw != 0 {
            off + (mw - off % mw)
        } else {
            off
        };
        (offs, sz)
    }

    /// The widest field width in the list.
    fn widest(fields: &Vec<Field>) -> (r: usize)
        requires
            fields@.len() >= 1,
            widths_positive(seq_fields_view(fields@)),
            max_width(seq_fields_view(fields@)) <= usize::MAX,
        ensures
            r == max_width(seq_fields_view(fields@)),
            r >= 1,
    {
        proof {
            lemma_seq_fields_view_index(fields@);
        }
        let ghost fs = seq_fields_view(fields@);
        let mut mw: usize = 0;
        let mut i: usize = 0;
        while i < fields.len()
            invariant
                i <= fields@.len(),
                fs == seq_fields_view(fields@),
                fs.len() == fields@.len(),
                widths_positive(fs),
                max_width(fs) <= usize::MAX,
                forall|j: int| 0 <= j < fields@.len() ==> fs[j] == fields@[j]@,
                mw == max_width(fs.take(i as int)),
            decreases fields@.len() - i,
        {
            proof {
                assert(fs.take(i + 1).drop_last() =~= fs.take(i as int));
                assert(fs.take(i + 1).last() == fs[i as int]);
                lemma_max_width_take_bound(fs, i as int + 1);
            }
            let w = fields[i].size();
            if w > mw {
                mw = w;
            }
            i = i + 1;
        }
        proof {
            assert(fs.take(fs.len() as int) =~= fs);
            lemma_max_width_props(fs);
            assert(field_width(fs[0]) >= 1);
        }
        mw
    }

    /// Returns the fields together with their byte offsets, in layout order.
    pub fn field_offsets(&self) -> (r: Vec<(Field, usize)>)
        requires
            self.wf(),
        ensures
            r@.len() == self.fv().len(),
            forall|i: int|
                0 <= i < r@.len() ==> (#[trigger] r@[i]).0@ == self.fv()[i] && r@[i].1
                    == layout_offset(self.fv(), i),
    {
        proof {
            lemma_seq_fields_view_index(self.fields@);
        }
        let mut out: Vec<(Field, usize)> = Vec::new();
        let mut i: usize = 0;
        while i < self.fields.len()
            invariant
                i <= self.fields@.len(),
                self.wf(),
                self.fv().len() == self.fields@.len(),
                forall|j: int| 0 <= j < self.fields@.len() ==> self.fv()[j] == self.fields@[j]@,
                out@.len() == i,
                forall|j: int|
                    0 <= j < i ==> (#[trigger] out@[j]).0@ == self.fv()[j] && out@[j].1
                        == layout_offset(self.fv(), j),
            decreases self.fields@.len() - i,
        {
            out.push((self.fields[i].clone(), self.offs[i]));
            i = i + 1;
        }
        out
    }
}

/// Inserting into a field list inserts its view into the view sequence.
pub proof fn lemma_seq_fields_view_insert(s: Seq<Field>, i: int, x: Field)
    requires
        0 <= i <= s.len(),
    ensures
        seq_fields_view(s.insert(i, x)) == seq_fields_view(s).insert(i, x@),
    decreases s.len(),
{
    lemma_seq_fields_view_index(s);
    lemma_seq_fields_view_index(s.insert(i, x));
    assert forall|k: int| 0 <= k < s.len() + 1 implies seq_fields_view(s.insert(i, x))[k]
        == seq_fields_view(s).insert(i, x@)[k] by {
        if k < i {
            assert(s.insert(i, x)[k] == s[k]);
        } else if k == i {
            assert(s.insert(i, x)[k] == x);
        } else {
            assert(s.insert(i, x)[k] == s[k - 1]);
        }
    }
    assert(seq_fields_view(s.insert(i, x)) =~= seq_fields_view(s).insert(i, x@));
}

/// A sequence drawn from another by an injective index map has the same
/// width total as the part of the source it draws.
pub proof fn lemma_width_total_permuted(a: Seq<FieldV>, b: Seq<FieldV>, idx: Seq<usize>)
    requires
        a.len() == b.len(),
        idx.len() == a.len(),
        forall|k: int| 0 <= k < a.len() ==> (#[trigger] idx[k]) < b.len() && a[k] == b[
            idx[k] as int],
        forall|k: int, l: int|
            0 <= k < l < a.len() ==> (#[trigger] idx[k]) != (#[trigger] idx[l]),
    ensures
        width_total(a) == width_total(b),
    decreases a.len(),
{
    if a.len() > 0 {
        // Remove a's last element and the matching element of b.
        let p = idx.last() as int;
        let a2 = a.drop_last();
        let b2 = b.remove(p);
        let idx2 = Seq::new(a2.len(), |k: int| if idx[k] < idx.last() { idx[k] } else { (idx[k] - 1) as usize });
        assert forall|k: int| 0 <= k < a2.len() implies (#[trigger] idx2[k]) < b2.len() && a2[k]
            == b2[idx2[k] as int] by {
            assert(idx[k] != idx.last());
            if idx[k] < idx.last() {
                assert(b2[idx2[k] as int] == b[idx[k] as int]);
            } else {
                assert(b2[idx2[k] as int] == b[idx[k] as int]);
            }
        }
        assert forall|k: int, l: int| 0 <= k < l < a2.len() implies (#[trigger] idx2[k]) != (
        #[trigger] idx2[l]) by {
            assert(idx[k] != idx[l]);
            assert(idx[k] != idx.last());
            assert(idx[l] != idx.last());
        }
        lemma_width_total_permuted(a2, b2, idx2);
        lemma_width_total_remove(b, p);
        assert(a[a.len() - 1] == b[p]);
    } else {
        assert(b.len() == 0);
    }
}

/// Removing an element subtracts its width from the total.
pub proof fn lemma_width_total_remove(s: Seq<FieldV>, i: int)
    requires
        0 <= i < s.len(),
    ensures
        width_total(s.remove(i)) == width_total(s) - field_width(s[i]),
{
    assert(s.remove(i).insert(i, s[i]) =~= s);
    lemma_width_total_insert(s.remove(i), i, s[i]);
}

/// The maximum width over a prefix is bounded by the overall maximum.
pub proof fn lemma_max_width_take_bound(fs: Seq<FieldV>, k: int)
    requires
        0 <= k <= fs.len(),
    ensures
        max_width(fs.take(k)) <= max_width(fs),
    decreases fs.len() - k,
{
    if k == fs.len() {
        assert(fs.take(k) =~= fs);
    } else {
        assert(fs.take(k + 1).drop_last() =~= fs.take(k));
        lemma_max_width_take_bound(fs, k + 1);
    }
}

/// Two's-complement reinterpretations between equal-width integers.
pub open spec fn to_signed8(u: u8) -> i8 {
    if u < 0x80 {
        u as i8
    } else {
        (u - 0x100) as i8
    }
}

pub open spec fn to_unsigned8(v: i8) -> u8 {
    if v >= 0 {
        v as u8
    } else {
        (v + 0x100) as u8
    }
}

pub open spec fn to_signed16(u: u16) -> i16 {
    if u < 0x8000 {
        u as i16
    } else {
        (u - 0x10000) as i16
    }
}

pub open spec fn to_unsigned16(v: i16) -> u16 {
    if v >= 0 {
        v as u16
    } else {
        (v + 0x10000) as u16
    }
}

pub open spec fn to_signed32(u: u32) -> i32 {
    if u < 0x8000_0000 {
        u as i32
    } else {
        (u - 0x1_0000_0000) as i32
    }
}

pub open spec fn to_unsigned32(v: i32) -> u32 {
    if v >= 0 {
        v as u32
    } else {
        (v + 0x1_0000_0000) as u32
    }
}

pub open spec fn to_signed64(u: u64) -> i64 {
    if u < 0x8000_0000_0000_0000 {
        u as i64
    } else {
        (u - 0x1_0000_0000_0000_0000) as i64
    }
}

pub open spec fn to_unsigned64(v: i64) -> u64 {
    if v >= 0 {
        v as u64
    } else {
        (v + 0x1_0000_0000_0000_0000) as u64
    }
}

/// How one field's bytes decode. Little-endian scalars; a string field is
/// checked for UTF-8 validity; pointers and opaque structs cannot be
/// decoded.
pub open spec fn decode_value(t: TypeV, b: Seq<u8>) -> Option<crate::record::DataValueV>
    recommends
        b.len() == crate::types::width_of(t),
{
    match t {
        TypeV::Bool => Some(crate::record::DataValueV::Boolean(b[0] != 0)),
        TypeV::U8 => Some(crate::record::DataValueV::UInt8(b[0])),
        TypeV::UChar => Some(crate::record::DataValueV::UInt8(b[0])),
        TypeV::U16 => Some(
            crate::record::DataValueV::UInt16(vstd::bytes::spec_u16_from_le_bytes(b)),
        ),
        TypeV::U32 => Some(
            crate::record::DataValueV::UInt32(vstd::bytes::spec_u32_from_le_bytes(b)),
        ),
        TypeV::U64 => Some(
            crate::record::DataValueV::UInt64(vstd::bytes::spec_u64_from_le_bytes(b)),
        ),
        TypeV::S8 => Some(crate::record::DataValueV::Int8(to_signed8(b[0]))),
        TypeV::SChar => Some(crate::record::DataValueV::Int8(to_signed8(b[0]))),
        TypeV::S16 => Some(
            crate::record::DataValueV::Int16(to_signed16(vstd::bytes::spec_u16_from_le_bytes(b))),
        ),
        TypeV::S32 => Some(
            crate::record::DataValueV::Int32(to_signed32(vstd::bytes::spec_u32_from_le_bytes(b))),
        ),
        TypeV::S64 => Some(
            crate::record::DataValueV::Int64(to_signed64(vstd::bytes::spec_u64_from_le_bytes(b))),
        ),
        TypeV::String(len) => if vstd::utf8::valid_utf8(b) {
            Some(crate::record::DataValueV::String(vstd::utf8::decode_utf8(b), len))
        } else {
            None
        },
        TypeV::Pointer(_) => None,
        TypeV::Struct(_, _) => None,
    }
}

/// How one value is packed into its field's bytes.
pub open spec fn encode_value(v: crate::record::DataValueV) -> Seq<u8> {
    match v {
        crate::record::DataValueV::Boolean(x) => seq![if x { 1u8 } else { 0u8 }],
        crate::record::DataValueV::UInt8(x) => seq![x],
        crate::record::DataValueV::UInt16(x) => vstd::bytes::spec_u16_to_le_bytes(x),
        crate::record::DataValueV::UInt32(x) => vstd::bytes::spec_u32_to_le_bytes(x),
        crate::record::DataValueV::UInt64(x) => vstd::bytes::spec_u64_to_le_bytes(x),
        crate::record::DataValueV::Int8(x) => seq![to_unsigned8(x)],
        crate::record::DataValueV::Int16(x) => vstd::bytes::spec_u16_to_le_bytes(
            to_unsigned16(x),
        ),
        crate::record::DataValueV::Int32(x) => vstd::bytes::spec_u32_to_le_bytes(
            to_unsigned32(x),
        ),
        crate::record::DataValueV::Int64(x) => vstd::bytes::spec_u64_to_le_bytes(
            to_unsigned64(x),
        ),
        crate::record::DataValueV::String(s, _) => vstd::utf8::encode_utf8(s),
        crate::record::DataValueV::Timestamp(x) => vstd::bytes::spec_u64_to_le_bytes(x),
    }
}

/// Whether a value fits a field type exactly. A string value fits when it
/// carries the field's storage size and its UTF-8 encoding fills it
/// exactly; booleans are canonical (a packed `true` is the byte 1).
pub open spec fn value_matches(t: TypeV, v: crate::record::DataValueV) -> bool {
    match (t, v) {
        (TypeV::Bool, crate::record::DataValueV::Boolean(_)) => true,
        (TypeV::U8, crate::record::DataValueV::UInt8(_)) => true,
        (TypeV::UChar, crate::record::DataValueV::UInt8(_)) => true,
        (TypeV::U16, crate::record::DataValueV::UInt16(_)) => true,
        (TypeV::U32, crate::record::DataValueV::UInt32(_)) => true,
        (TypeV::U64, crate::record::DataValueV::UInt64(_)) => true,
        (TypeV::S8, crate::record::DataValueV::Int8(_)) => true,
        (TypeV::SChar, crate::record::DataValueV::Int8(_)) => true,
        (TypeV::S16, crate::record::DataValueV::Int16(_)) => true,
        (TypeV::S32, crate::record::DataValueV::Int32(_)) => true,
        (TypeV::S64, crate::record::DataValueV::Int64(_)) => true,
        (TypeV::String(l), crate::record::DataValueV::String(s, l2)) => l == l2
            && vstd::utf8::encode_utf8(s).len() == l,
        _ => false,
    }
}

/// A record fits a layout when each layout field's schema slot holds a
/// value of the field's type.
pub open spec fn record_matches(s: Struct, rec: Seq<crate::record::DataValueV>) -> bool {
    &&& rec.len() == s.fv().len()
    &&& forall|i: int|
        0 <= i < s.fv().len() ==> value_matches(
            (#[trigger] s.fv()[i]).ty,
            rec[s.mapping@[i] as int],
        )
}

/// The bytes of field `i` within a packed buffer.
pub open spec fn field_chunk(s: Struct, bytes: Seq<u8>, i: int) -> Seq<u8> {
    bytes.subrange(
        layout_offset(s.fv(), i),
        layout_offset(s.fv(), i) + field_width(s.fv()[i]),
    )
}

/// Packing a value and decoding it through the same field type restores
/// the value (byte-level round trip, per value).
pub proof fn lemma_decode_encode_value(t: TypeV, v: crate::record::DataValueV)
    requires
        value_matches(t, v),
    ensures
        encode_value(v).len() == crate::types::width_of(t),
        decode_value(t, encode_value(v)) == Some(v),
{
    vstd::bytes::lemma_auto_spec_u16_to_from_le_bytes();
    vstd::bytes::lemma_auto_spec_u32_to_from_le_bytes();
    vstd::bytes::lemma_auto_spec_u64_to_from_le_bytes();
    assert forall|x: u16| vstd::bytes::spec_u16_from_le_bytes(
        #[trigger] vstd::bytes::spec_u16_to_le_bytes(x),
    ) == x && vstd::bytes::spec_u16_to_le_bytes(x).len() == 2 by {
        assert(vstd::bytes::spec_u16_to_le_bytes(x).len() == 2);
    }
    assert forall|x: u32| vstd::bytes::spec_u32_from_le_bytes(
        #[trigger] vstd::bytes::spec_u32_to_le_bytes(x),
    ) == x && vstd::bytes::spec_u32_to_le_bytes(x).len() == 4 by {
        assert(vstd::bytes::spec_u32_to_le_bytes(x).len() == 4);
    }
    assert forall|x: u64| vstd::bytes::spec_u64_from_le_bytes(
        #[trigger] vstd::bytes::spec_u64_to_le_bytes(x),
    ) == x && vstd::bytes::spec_u64_to_le_bytes(x).len() == 8 by {
        assert(vstd::bytes::spec_u64_to_le_bytes(x).len() == 8);
    }
    match v {
        crate::record::DataValueV::String(str_chars, _) => {
            broadcast use vstd::utf8::encode_utf8_valid_utf8;
            broadcast use vstd::utf8::encode_utf8_decode_utf8;

            assert(vstd::utf8::decode_utf8(vstd::utf8::encode_utf8(str_chars)) == str_chars);
        },
        crate::record::DataValueV::Int16(x) => {
            assert(vstd::bytes::spec_u16_from_le_bytes(
                vstd::bytes::spec_u16_to_le_bytes(to_unsigned16(x)),
            ) == to_unsigned16(x));
            assert(to_signed16(to_unsigned16(x)) == x);
        },
        crate::record::DataValueV::Int32(x) => {
            assert(vstd::bytes::spec_u32_from_le_bytes(
                vstd::bytes::spec_u32_to_le_bytes(to_unsigned32(x)),
            ) == to_unsigned32(x));
            assert(to_signed32(to_unsigned32(x)) == x);
        },
        crate::record::DataValueV::Int64(x) => {
            assert(vstd::bytes::spec_u64_from_le_bytes(
                vstd::bytes::spec_u64_to_le_bytes(to_unsigned64(x)),
            ) == to_unsigned64(x));
            assert(to_signed64(to_unsigned64(x)) == x);
        },
        crate::record::DataValueV::Boolean(x) => {
            assert(encode_value(v)[0] == if x { 1u8 } else { 0u8 });
        },
        crate::record::DataValueV::UInt8(x) => {
            assert(encode_value(v)[0] == x);
        },
        crate::record::DataValueV::Int8(x) => {
            assert(encode_value(v)[0] == to_unsigned8(x));
            assert(to_signed8(to_unsigned8(x)) == x);
        },
        _ => {},
    }
}

/// Offsets of distinct fields never overlap: the earlier field ends at or
/// before the later one begins.
pub proof fn lemma_offsets_disjoint(s: Struct, k: int, l: int)
    requires
        s.wf(),
        0 <= k < l < s.fv().len(),
    ensures
        layout_offset(s.fv(), k) + field_width(s.fv()[k]) <= layout_offset(s.fv(), l),
{
    let fs = s.fv();
    lemma_cursor_monotone(fs, l);
    lemma_cursor_monotone(fs, k);
    lemma_layout_step(fs, k);
    lemma_layout_step(fs, l);
}

/// Every field lies within the struct: offset plus width is bounded by the
/// total size.
pub proof fn lemma_field_in_struct(s: Struct, i: int)
    requires
        s.wf(),
        0 <= i < s.fv().len(),
    ensures
        0 <= layout_offset(s.fv(), i),
        layout_offset(s.fv(), i) + field_width(s.fv()[i]) <= s.sz,
{
    let fs = s.fv();
    let n = fs.len() as int;
    lemma_cursor_monotone(fs, n);
    lemma_cursor_monotone(fs, i);
    lemma_layout_step(fs, i);
    lemma_size_bound(fs);
    assert(layout_cursor(fs, i + 1) <= layout_cursor(fs, n));
}

/// Relies on std's `str::from_utf8` (with `str::to_owned`): it succeeds
/// exactly on valid UTF-8 and decodes those bytes.
#[verifier::external_body]
fn utf8_to_string(b: &[u8]) -> (r: Option<String>)
    ensures
        r is Some <==> vstd::utf8::valid_utf8(b@),
        r matches Some(s) ==> s@ == vstd::utf8::decode_utf8(b@),
{
    match core::str::from_utf8(b) {
        Ok(s) => Some(s.to_owned()),
        Err(_) => None,
    }
}

impl Struct {
    /// Attempts to convert one record's bytes into a `Record` in schema
    /// order. A buffer shorter than the struct is a recoverable error; a
    /// string field that is not valid UTF-8, or a field type with no
    /// userspace value, aborts the record.
    #[verifier::rlimit(100)]
    pub fn produce_record(&self, buf: &[u8]) -> (r: Result<crate::record::Record, crate::errors::EbqlError>)
        requires
            self.wf(),
        ensures
            buf@.len() < self.sz ==> (r matches Err(e) && e is ShortBuffer),
            buf@.len() >= self.sz ==> {
                &&& (r is Ok <==> forall|i: int|
                    0 <= i < self.fv().len() ==> decode_value(
                        (#[trigger] self.fv()[i]).ty,
                        field_chunk(*self, buf@, i),
                    ) is Some)
                &&& (r matches Ok(rec) ==> rec@.len() == self.fv().len() && forall|i: int|
                    0 <= i < self.fv().len() ==> Some(rec@[self.mapping@[i] as int])
                        == decode_value(
                        (#[trigger] self.fv()[i]).ty,
                        field_chunk(*self, buf@, i),
                    ))
                &&& (r matches Err(e) ==> (e is InvalidUtf8 || e is OpaqueValue))
            },
    {
        if buf.len() < self.sz {
            return Err(crate::errors::EbqlError::ShortBuffer);
        }
        proof {
            lemma_seq_fields_view_index(self.fields@);
            crate::record::lemma_seq_value_view_index(Seq::<crate::record::DataValue>::empty());
        }
        let n = self.fields.len();
        // Pre-fill the output in schema order; every slot is overwritten
        // because the mapping is onto.
        let mut vals: Vec<crate::record::DataValue> = Vec::new();
        let mut j: usize = 0;
        while j < n
            invariant
                j <= n,
                vals@.len() == j,
            decreases n - j,
        {
            vals.push(crate::record::DataValue::Boolean(false));
            j = j + 1;
        }
        proof {
            crate::record::lemma_seq_value_view_index(vals@);
        }
        let mut i: usize = 0;
        while i < n
            invariant
                self.wf(),
                n == self.fields@.len(),
                buf@.len() >= self.sz,
                i <= n,
                vals@.len() == n,
                self.fv().len() == n,
                forall|k: int| 0 <= k < n ==> self.fv()[k] == self.fields@[k]@,
                forall|k: int|
                    0 <= k < i ==> Some(crate::record::seq_value_view(vals@)[self.mapping@[k] as int])
                        == decode_value(
                        (#[trigger] self.fv()[k]).ty,
                        field_chunk(*self, buf@, k),
                    ),
                forall|k: int|
                    0 <= k < i ==> decode_value(
                        (#[trigger] self.fv()[k]).ty,
                        field_chunk(*self, buf@, k),
                    ) is Some,
                crate::record::seq_value_view(vals@).len() == n,
            decreases n - i,
        {
            proof {
                lemma_field_in_struct(*self, i as int);
                crate::record::lemma_seq_value_view_index(vals@);
            }
            let start = self.offs[i];
            let w = self.fields[i].size();
            let end = start + w;
            let fbuf = vstd::slice::slice_subrange(buf, start, end);
            let ghost chunk = field_chunk(*self, buf@, i as int);
            proof {
                assert(fbuf@ == chunk);
            }
            let dv: crate::record::DataValue = match &self.fields[i]._type {
                crate::types::Type::Bool => crate::record::DataValue::Boolean(fbuf[0] != 0),
                crate::types::Type::U8 => crate::record::DataValue::UInt8(fbuf[0]),
                crate::types::Type::UChar => crate::record::DataValue::UInt8(fbuf[0]),
                crate::types::Type::U16 => crate::record::DataValue::UInt16(
                    vstd::bytes::u16_from_le_bytes(fbuf),
                ),
                crate::types::Type::U32 => crate::record::DataValue::UInt32(
                    vstd::bytes::u32_from_le_bytes(fbuf),
                ),
                crate::types::Type::U64 => crate::record::DataValue::UInt64(
                    vstd::bytes::u64_from_le_bytes(fbuf),
                ),
                crate::types::Type::S8 => {
                    let u = fbuf[0];
                    let v: i8 = if u < 0x80 {
                        u as i8
                    } else {
                        ((u as i16) - 0x100) as i8
                    };
                    crate::record::DataValue::Int8(v)
                },
                crate::types::Type::SChar => {
                    let u = fbuf[0];
                    let v: i8 = if u < 0x80 {
                        u as i8
                    } else {
                        ((u as i16) - 0x100) as i8
                    };
                    crate::record::DataValue::Int8(v)
                },
                crate::types::Type::S16 => {
                    let u = vstd::bytes::u16_from_le_bytes(fbuf);
                    let v: i16 = if u < 0x8000 {
                        u as i16
                    } else {
                        ((u as i32) - 0x10000) as i16
                    };
                    crate::record::DataValue::Int16(v)
                },
                crate::types::Type::S32 => {
                    let u = vstd::bytes::u32_from_le_bytes(fbuf);
                    let v: i32 = if u < 0x8000_0000 {
                        u as i32
                    } else {
                        ((u as i64) - 0x1_0000_0000) as i32
                    };
                    crate::record::DataValue::Int32(v)
                },
                crate::types::Type::S64 => {
                    let u = vstd::bytes::u64_from_le_bytes(fbuf);
                    let v: i64 = if u < 0x8000_0000_0000_0000 {
                        u as i64
                    } else {
                        ((u as i128) - 0x1_0000_0000_0000_0000) as i64
                    };
                    crate::record::DataValue::Int64(v)
                },
                crate::types::Type::String(len) => {
                    match utf8_to_string(fbuf) {
                        Some(text) => crate::record::DataValue::String(text, *len),
                        None => {
                            return Err(crate::errors::EbqlError::InvalidUtf8);
                        },
                    }
                },
                crate::types::Type::Pointer(_) => {
                    return Err(crate::errors::EbqlError::OpaqueValue);
                },
                crate::types::Type::Struct(_, _) => {
                    return Err(crate::errors::EbqlError::OpaqueValue);
                },
            };
            proof {
                assert(Some(dv@) == decode_value(self.fv()[i as int].ty, chunk));
            }
            let ghost old_vals = vals@;
            let target = self.mapping[i];
            vals[target] = dv;
            proof {
                lemma_seq_value_view_update(old_vals, target as int, dv);
                crate::record::lemma_seq_value_view_index(vals@);
                assert forall|k: int|
                    0 <= k < i + 1 implies Some(
                    crate::record::seq_value_view(vals@)[self.mapping@[k] as int],
                ) == decode_value(
                    (#[trigger] self.fv()[k]).ty,
                    field_chunk(*self, buf@, k),
                ) by {
                    if k < i {
                        assert(self.mapping@[k] != self.mapping@[i as int]);
                    }
                }
            }
            i = i + 1;
        }
        Ok(crate::record::Record(vals))
    }

    /// Packs a record matching this layout into its wire bytes: each field's
    /// value at its offset, padding zeroed.
    #[verifier::rlimit(100)]
    pub fn pack_record(&self, rec: &crate::record::Record) -> (r: Vec<u8>)
        requires
            self.wf(),
            record_matches(*self, rec@),
        ensures
            r@.len() == self.sz,
            forall|i: int|
                0 <= i < self.fv().len() ==> field_chunk(*self, r@, i) == encode_value(
                    rec@[self.mapping@[i] as int],
                ),
    {
        proof {
            lemma_seq_fields_view_index(self.fields@);
            crate::record::lemma_seq_value_view_index(rec.0@);
        }
        let n = self.fields.len();
        let mut out: Vec<u8> = Vec::new();
        let mut z: usize = 0;
        while z < self.sz
            invariant
                z <= self.sz,
                out@.len() == z,
            decreases self.sz - z,
        {
            out.push(0u8);
            z = z + 1;
        }
        let mut i: usize = 0;
        while i < n
            invariant
                self.wf(),
                record_matches(*self, rec@),
                n == self.fields@.len(),
                i <= n,
                out@.len() == self.sz,
                self.fv().len() == n,
                rec@.len() == n,
                forall|k: int| 0 <= k < n ==> self.fv()[k] == self.fields@[k]@,
                forall|k: int| 0 <= k < n ==> crate::record::seq_value_view(rec.0@)[k] == rec.0@[k]@,
                crate::record::seq_value_view(rec.0@).len() == n,
                rec.0@.len() == n,
                rec@ == crate::record::seq_value_view(rec.0@),
                forall|k: int|
                    0 <= k < i ==> field_chunk(*self, out@, k) == encode_value(
                        rec@[(#[trigger] self.mapping@[k]) as int],
                    ),
            decreases n - i,
        {
            proof {
                lemma_field_in_struct(*self, i as int);
                assert(value_matches(self.fv()[i as int].ty, rec@[self.mapping@[i as int] as int]));
                lemma_decode_encode_value(self.fv()[i as int].ty, rec@[self.mapping@[i as int] as int]);
            }
            let target = self.mapping[i];
            let value = &rec.0[target];
            let enc: Vec<u8> = match value {
                crate::record::DataValue::Boolean(x) => {
                    let mut b: Vec<u8> = Vec::new();
                    b.push(if *x { 1u8 } else { 0u8 });
                    b
                },
                crate::record::DataValue::UInt8(x) => {
                    let mut b: Vec<u8> = Vec::new();
                    b.push(*x);
                    b
                },
                crate::record::DataValue::UInt16(x) => vstd::bytes::u16_to_le_bytes(*x),
                crate::record::DataValue::UInt32(x) => vstd::bytes::u32_to_le_bytes(*x),
                crate::record::DataValue::UInt64(x) => vstd::bytes::u64_to_le_bytes(*x),
                crate::record::DataValue::Int8(x) => {
                    let u: u8 = if *x >= 0 {
                        *x as u8
                    } else {
                        ((*x as i16) + 0x100) as u8
                    };
                    let mut b: Vec<u8> = Vec::new();
                    b.push(u);
                    b
                },
                crate::record::DataValue::Int16(x) => {
                    let u: u16 = if *x >= 0 {
                        *x as u16
                    } else {
                        ((*x as i32) + 0x10000) as u16
                    };
                    vstd::bytes::u16_to_le_bytes(u)
                },
                crate::record::DataValue::Int32(x) => {
                    let u: u32 = if *x >= 0 {
                        *x as u32
                    } else {
                        ((*x as i64) + 0x1_0000_0000) as u32
                    };
                    vstd::bytes::u32_to_le_bytes(u)
                },
                crate::record::DataValue::Int64(x) => {
                    let u: u64 = if *x >= 0 {
                        *x as u64
                    } else {
                        ((*x as i128) + 0x1_0000_0000_0000_0000) as u64
                    };
                    vstd::bytes::u64_to_le_bytes(u)
                },
                crate::record::DataValue::String(s, _) => {
                    let b = vstd::string::StrSliceExecFns::as_bytes_vec(s.as_str());
                    b
                },
                crate::record::DataValue::Timestamp(x) => {
                    proof {
                        assert(false);
                    }
                    vstd::bytes::u64_to_le_bytes(*x)
                },
            };
            proof {
                assert(enc@ == encode_value(rec@[self.mapping@[i as int] as int]));
            }
            let ghost old_out = out@;
            let start = self.offs[i];
            write_bytes(&mut out, start, &enc);
            proof {
                assert forall|k: int|
                    0 <= k < i + 1 implies field_chunk(*self, out@, k) == encode_value(
                        rec@[(#[trigger] self.mapping@[k]) as int],
                    ) by {
                    if k < i {
                        lemma_offsets_disjoint(*self, k, i as int);
                        assert(field_chunk(*self, out@, k) =~= field_chunk(*self, old_out, k));
                    } else {
                        assert(field_chunk(*self, out@, k) =~= enc@);
                    }
                }
            }
            i = i + 1;
        }
        out
    }
}

/// Writes `src` into `dst` starting at `at`, leaving all other bytes as
/// they were.
fn write_bytes(dst: &mut Vec<u8>, at: usize, src: &Vec<u8>)
    requires
        at + src@.len() <= old(dst)@.len(),
        old(dst)@.len() <= usize::MAX,
    ensures
        final(dst)@.len() == old(dst)@.len(),
        final(dst)@.subrange(at as int, at + src@.len()) == src@,
        forall|p: int| 0 <= p < at ==> final(dst)@[p] == old(dst)@[p],
        forall|p: int| at + src@.len() <= p < final(dst)@.len() ==> final(dst)@[p] == old(dst)@[p],
{
    let mut k: usize = 0;
    while k < src.len()
        invariant
            k <= src@.len(),
            at + src@.len() <= old(dst)@.len(),
            old(dst)@.len() <= usize::MAX,
            dst@.len() == old(dst)@.len(),
            forall|p: int| 0 <= p < at ==> dst@[p] == old(dst)@[p],
            forall|p: int| at + src@.len() <= p < dst@.len() ==> dst@[p] == old(dst)@[p],
            forall|q: int| at <= q < at + k ==> (#[trigger] dst@[q]) == src@[q - at],
            forall|q: int| at + k <= q < at + src@.len() ==> (#[trigger] dst@[q]) == old(dst)@[q],
        decreases src@.len() - k,
    {
        let pos = at + k;
        dst[pos] = src[k];
        k = k + 1;
    }
    proof {
        assert(dst@.subrange(at as int, at + src@.len()) =~= src@);
    }
}

/// Updating one slot of a value list updates its view pointwise.
pub proof fn lemma_seq_value_view_update(
    s: Seq<crate::record::DataValue>,
    i: int,
    x: crate::record::DataValue,
)
    requires
        0 <= i < s.len(),
    ensures
        crate::record::seq_value_view(s.update(i, x)) == crate::record::seq_value_view(s).update(
            i,
            x@,
        ),
{
    crate::record::lemma_seq_value_view_index(s);
    crate::record::lemma_seq_value_view_index(s.update(i, x));
    assert(crate::record::seq_value_view(s.update(i, x)) =~= crate::record::seq_value_view(
        s,
    ).update(i, x@));
}

/// The record laws, stated over a well-formed layout.
///
/// Offsets are non-overlapping and ascending, and every non-string field is
/// aligned to its own width.
pub proof fn lemma_layout_sound(s: Struct)
    requires
        s.wf(),
    ensures
        forall|i: int|
            0 <= i < s.fv().len() - 1 ==> layout_offset(s.fv(), i) + field_width(
                #[trigger] s.fv()[i],
            ) <= layout_offset(s.fv(), i + 1),
        forall|i: int|
            0 <= i < s.fv().len() ==> layout_offset(s.fv(), i) + field_width(#[trigger] s.fv()[i])
                <= s.sz,
        forall|i: int|
            0 <= i < s.fv().len() && !((#[trigger] s.fv()[i]).ty is String) ==> layout_offset(
                s.fv(),
                i,
            ) % (field_width(s.fv()[i]) as int) == 0,
{
    let fs = s.fv();
    assert forall|i: int| 0 <= i < fs.len() - 1 implies layout_offset(fs, i) + field_width(
        #[trigger] fs[i],
    ) <= layout_offset(fs, i + 1) by {
        lemma_offsets_disjoint(s, i, i + 1);
    }
    assert forall|i: int| 0 <= i < fs.len() implies layout_offset(fs, i) + field_width(
        #[trigger] fs[i],
    ) <= s.sz by {
        lemma_field_in_struct(s, i);
    }
    assert forall|i: int|
        0 <= i < fs.len() && !((#[trigger] fs[i]).ty is String) implies layout_offset(fs, i) % (
    field_width(fs[i]) as int) == 0 by {
        lemma_cursor_monotone(fs, i);
        lemma_layout_step(fs, i);
    }
}

/// The struct size is a multiple of the widest field width.
pub proof fn lemma_size_multiple_of_widest(s: Struct)
    requires
        s.wf(),
    ensures
        (s.sz as int) % (max_width(s.fv()) as int) == 0,
        max_width(s.fv()) >= 1,
{
    lemma_size_bound(s.fv());
}

/// Round trip: the bytes produced by packing a record that matches the
/// layout decode back to the same record, field by field and, because the
/// mapping is onto, as a whole.
pub proof fn lemma_pack_round_trip(
    s: Struct,
    rec: Seq<crate::record::DataValueV>,
    bytes: Seq<u8>,
    out: Seq<crate::record::DataValueV>,
)
    requires
        s.wf(),
        record_matches(s, rec),
        forall|i: int|
            0 <= i < s.fv().len() ==> field_chunk(s, bytes, i) == encode_value(
                rec[(#[trigger] s.mapping@[i]) as int],
            ),
        out.len() == s.fv().len(),
        forall|i: int|
            0 <= i < s.fv().len() ==> Some(out[s.mapping@[i] as int]) == decode_value(
                (#[trigger] s.fv()[i]).ty,
                field_chunk(s, bytes, i),
            ),
    ensures
        out == rec,
        forall|i: int|
            0 <= i < s.fv().len() ==> decode_value(
                (#[trigger] s.fv()[i]).ty,
                field_chunk(s, bytes, i),
            ) is Some,
{
    let n = s.fv().len() as int;
    assert forall|i: int| 0 <= i < n implies decode_value(
        (#[trigger] s.fv()[i]).ty,
        field_chunk(s, bytes, i),
    ) is Some by {
        lemma_decode_encode_value(s.fv()[i].ty, rec[s.mapping@[i] as int]);
    }
    assert forall|j: int| 0 <= j < n implies out[j] == rec[j] by {
        assert(maps_onto(s.mapping@, j));
        let i = choose|i: int| 0 <= i < s.mapping@.len() && (#[trigger] s.mapping@[i]) == j;
        lemma_decode_encode_value(s.fv()[i].ty, rec[j]);
        assert(Some(out[j]) == decode_value(s.fv()[i].ty, field_chunk(s, bytes, i)));
    }
    assert(out =~= rec);
}

} // verus!
