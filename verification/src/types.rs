//! BPF-side (C) type and field representations.

use vstd::prelude::*;

verus! {

use vstd::string::{StrSliceExecFns, StringExecFns};

/// The C data types a generated program can carry.
#[derive(Debug, Default)]
pub enum Type {
    #[default]
    Bool,
    U8,
    U16,
    U32,
    U64,
    S8,
    S16,
    S32,
    S64,
    UChar,
    SChar,
    /// Fixed-length byte array of the given storage size.
    String(usize),
    /// Pointer to another type; always 8 bytes wide, opaque to the decoder.
    Pointer(Box<Type>),
    /// A named struct, with its component types when they are known; an
    /// opaque struct has width 0.
    Struct(String, Option<Vec<Type>>),
}

/// Mathematical model of a `Type`.
pub enum TypeV {
    Bool,
    U8,
    U16,
    U32,
    U64,
    S8,
    S16,
    S32,
    S64,
    UChar,
    SChar,
    String(nat),
    Pointer(Box<TypeV>),
    Struct(Seq<char>, Option<Seq<TypeV>>),
}

pub open spec fn type_view(t: Type) -> TypeV
    decreases t,
{
    match t {
        Type::Bool => TypeV::Bool,
        Type::U8 => TypeV::U8,
        Type::U16 => TypeV::U16,
        Type::U32 => TypeV::U32,
        Type::U64 => TypeV::U64,
        Type::S8 => TypeV::S8,
        Type::S16 => TypeV::S16,
        Type::S32 => TypeV::S32,
        Type::S64 => TypeV::S64,
        Type::UChar => TypeV::UChar,
        Type::SChar => TypeV::SChar,
        Type::String(n) => TypeV::String(n as nat),
        Type::Pointer(b) => TypeV::Pointer(Box::new(type_view(*b))),
        Type::Struct(n, ot) => TypeV::Struct(
            n@,
            match ot {
                Some(ts) => Some(seq_type_view(ts@)),
                None => None,
            },
        ),
    }
}

pub open spec fn seq_type_view(ts: Seq<Type>) -> Seq<TypeV>
    decreases ts,
{
    if ts.len() == 0 {
        Seq::empty()
    } else {
        seq_type_view(ts.drop_last()).push(type_view(ts.last()))
    }
}

/// Pushing an element extends the view sequence by that element's view.
pub proof fn lemma_seq_type_view_push(s: Seq<Type>, x: Type)
    ensures
        seq_type_view(s.push(x)) == seq_type_view(s).push(type_view(x)),
{
    assert(s.push(x).drop_last() =~= s);
}

/// The view sequence has the same length and is the elementwise view.
pub proof fn lemma_seq_type_view_index(s: Seq<Type>)
    ensures
        seq_type_view(s).len() == s.len(),
        forall|i: int| 0 <= i < s.len() ==> seq_type_view(s)[i] == type_view(s[i]),
    decreases s.len(),
{
    if s.len() > 0 {
        lemma_seq_type_view_index(s.drop_last());
    }
}

impl View for Type {
    type V = TypeV;

    open spec fn view(&self) -> TypeV {
        type_view(*self)
    }
}

/// Byte width of a type model: pointers are 8 bytes, a string is its
/// storage size, a struct is the sum of its component widths (0 when
/// opaque).
pub open spec fn width_of(t: TypeV) -> nat
    decreases t,
{
    match t {
        TypeV::Bool => 1,
        TypeV::U8 => 1,
        TypeV::U16 => 2,
        TypeV::U32 => 4,
        TypeV::U64 => 8,
        TypeV::S8 => 1,
        TypeV::S16 => 2,
        TypeV::S32 => 4,
        TypeV::S64 => 8,
        TypeV::UChar => 1,
        TypeV::SChar => 1,
        TypeV::String(len) => len,
        TypeV::Pointer(_) => 8,
        TypeV::Struct(_, ot) => match ot {
            Some(ts) => widths_sum(ts),
            None => 0,
        },
    }
}

/// Sum of the widths of a sequence of type models.
pub open spec fn widths_sum(ts: Seq<TypeV>) -> nat
    decreases ts,
{
    if ts.len() == 0 {
        0
    } else {
        widths_sum(ts.drop_last()) + width_of(ts.last())
    }
}

/// Extending a prefix of the sequence by one element adds that width.
pub proof fn lemma_widths_sum_take_step(ts: Seq<TypeV>, i: int)
    requires
        0 <= i < ts.len(),
    ensures
        widths_sum(ts.take(i + 1)) == widths_sum(ts.take(i)) + width_of(ts[i]),
{
    assert(ts.take(i + 1).drop_last() =~= ts.take(i));
}

/// The total width dominates the width of any prefix.
pub proof fn lemma_widths_sum_prefix_bound(ts: Seq<TypeV>, i: int)
    requires
        0 <= i <= ts.len(),
    ensures
        widths_sum(ts.take(i)) <= widths_sum(ts),
    decreases ts.len() - i,
{
    if i == ts.len() {
        assert(ts.take(i) =~= ts);
    } else {
        lemma_widths_sum_take_step(ts, i);
        lemma_widths_sum_prefix_bound(ts, i + 1);
    }
}

impl Type {
    /// True for the fixed-length byte-array type, which is byte addressable
    /// and needs no alignment in a layout.
    pub fn is_string(&self) -> (r: bool)
        ensures
            r == (self@ is String),
    {
        match self {
            Type::String(_) => true,
            _ => false,
        }
    }

    /// Returns the width of the type in bytes.
    pub fn size(&self) -> (r: usize)
        requires
            width_of(self@) <= usize::MAX,
        ensures
            r == width_of(self@),
        decreases *self,
    {
        match self {
            Type::Bool => 1,
            Type::U8 => 1,
            Type::U16 => 2,
            Type::U32 => 4,
            Type::U64 => 8,
            Type::S8 => 1,
            Type::S16 => 2,
            Type::S32 => 4,
            Type::S64 => 8,
            Type::UChar => 1,
            Type::SChar => 1,
            Type::String(len) => *len,
            Type::Pointer(_) => 8,
            Type::Struct(_, ot) => match ot {
                Some(ts) => {
                    proof {
                        lemma_seq_type_view_index(ts@);
                    }
                    let mut total: usize = 0;
                    let mut i: usize = 0;
                    while i < ts.len()
                        invariant
                            i <= ts.len(),
                            total == widths_sum(seq_type_view(ts@).take(i as int)),
                            widths_sum(seq_type_view(ts@)) <= usize::MAX,
                            seq_type_view(ts@).len() == ts@.len(),
                            forall|j: int|
                                0 <= j < ts@.len() ==> seq_type_view(ts@)[j] == type_view(ts@[j]),
                            decreases_to!(*self => ts@),
                        decreases ts.len() - i,
                    {
                        proof {
                            assert(decreases_to!(ts@ => ts@[i as int]));
                            lemma_widths_sum_take_step(seq_type_view(ts@), i as int);
                            lemma_widths_sum_prefix_bound(seq_type_view(ts@), i as int + 1);
                        }
                        total = total + ts[i].size();
                        i = i + 1;
                    }
                    proof {
                        assert(seq_type_view(ts@).take(ts@.len() as int) =~= seq_type_view(ts@));
                    }
                    total
                },
                None => 0,
            },
        }
    }
}

impl Clone for Type {
    fn clone(&self) -> (r: Self)
        ensures
            r@ == self@,
        decreases *self,
    {
        match self {
            Type::Bool => Type::Bool,
            Type::U8 => Type::U8,
            Type::U16 => Type::U16,
            Type::U32 => Type::U32,
            Type::U64 => Type::U64,
            Type::S8 => Type::S8,
            Type::S16 => Type::S16,
            Type::S32 => Type::S32,
            Type::S64 => Type::S64,
            Type::UChar => Type::UChar,
            Type::SChar => Type::SChar,
            Type::String(n) => Type::String(*n),
            Type::Pointer(b) => Type::Pointer(Box::new((**b).clone())),
            Type::Struct(n, ot) => {
                let nn = n.clone();
                match ot {
                    Some(ts) => {
                        let mut out: Vec<Type> = Vec::new();
                        let mut i: usize = 0;
                        while i < ts.len()
                            invariant
                                i <= ts.len(),
                                out@.len() == i,
                                seq_type_view(out@) == seq_type_view(ts@.take(i as int)),
                                decreases_to!(*self => ts@),
                            decreases ts.len() - i,
                        {
                            proof {
                                assert(decreases_to!(ts@ => ts@[i as int]));
                            }
                            let ghost prev = out@;
                            let c = ts[i].clone();
                            out.push(c);
                            proof {
                                assert(ts@.take(i + 1) =~= ts@.take(i as int).push(ts@[i as int]));
                                lemma_seq_type_view_push(prev, c);
                                lemma_seq_type_view_push(ts@.take(i as int), ts@[i as int]);
                            }
                            i = i + 1;
                        }
                        proof {
                            assert(ts@.take(ts@.len() as int) =~= ts@);
                        }
                        Type::Struct(nn, Some(out))
                    },
                    None => Type::Struct(nn, None),
                }
            },
        }
    }
}

/// A struct field in the generated C code. For event argument fields whose
/// access path is an element of a struct-member array (e.g. syscall
/// tracepoints, where each argument lives in `ctx->args[k]`), the `_arr` /
/// `_off` pair records that array and index; when absent, access is the
/// direct member `ctx-><name>`.
#[derive(Debug)]
pub struct Field {
    pub _name: String,
    pub _type: Type,
    pub _arr: Option<String>,
    pub _off: Option<usize>,
}

/// Mathematical model of a `Field`.
pub struct FieldV {
    pub name: Seq<char>,
    pub ty: TypeV,
    pub arr: Option<Seq<char>>,
    pub off: Option<int>,
}

impl View for Field {
    type V = FieldV;

    open spec fn view(&self) -> FieldV {
        FieldV {
            name: self._name@,
            ty: self._type@,
            arr: match self._arr {
                Some(ref a) => Some(a@),
                None => None,
            },
            off: match self._off {
                Some(o) => Some(o as int),
                None => None,
            },
        }
    }
}

impl Clone for Field {
    fn clone(&self) -> (r: Self)
        ensures
            r@ == self@,
    {
        Field {
            _name: self._name.clone(),
            _type: self._type.clone(),
            _arr: match &self._arr {
                Some(a) => Some(a.clone()),
                None => None,
            },
            _off: self._off,
        }
    }
}

pub open spec fn seq_fields_view(fs: Seq<Field>) -> Seq<FieldV>
    decreases fs,
{
    if fs.len() == 0 {
        Seq::empty()
    } else {
        seq_fields_view(fs.drop_last()).push(fs.last()@)
    }
}

/// Pushing an element extends the view sequence by that element's view.
pub proof fn lemma_seq_fields_view_push(s: Seq<Field>, x: Field)
    ensures
        seq_fields_view(s.push(x)) == seq_fields_view(s).push(x@),
{
    assert(s.push(x).drop_last() =~= s);
}

/// The view sequence has the same length and is the elementwise view.
pub proof fn lemma_seq_fields_view_index(s: Seq<Field>)
    ensures
        seq_fields_view(s).len() == s.len(),
        forall|i: int| 0 <= i < s.len() ==> seq_fields_view(s)[i] == s[i]@,
    decreases s.len(),
{
    if s.len() > 0 {
        lemma_seq_fields_view_index(s.drop_last());
    }
}

/// Width of a field model, as used by the layout engine.
pub open spec fn field_width(f: FieldV) -> nat {
    width_of(f.ty)
}

impl Field {
    /// A field accessed as a direct context member.
    pub fn new(_name: String, _type: Type) -> (r: Field)
        ensures
            r@ == (FieldV { name: _name@, ty: _type@, arr: None, off: None }),
    {
        Field { _name, _type, _arr: None, _off: None }
    }

    /// A field accessed as an element of a context member array.
    pub fn new_with_off(_name: String, _type: Type, arr: String, off: usize) -> (r: Field)
        ensures
            r@ == (FieldV { name: _name@, ty: _type@, arr: Some(arr@), off: Some(off as int) }),
    {
        Field { _name, _type, _arr: Some(arr), _off: Some(off) }
    }

    /// Returns the width of the field in bytes.
    pub fn size(&self) -> (r: usize)
        requires
            field_width(self@) <= usize::MAX,
        ensures
            r == field_width(self@),
    {
        self._type.size()
    }
}

/// The ordering that drives padding optimisation: non-strings come before
/// strings, and within each class wider fields come first. `a` may stand at
/// or before `b` in an optimised layout exactly when this holds.
pub open spec fn layout_le(a: FieldV, b: FieldV) -> bool {
    match (a.ty, b.ty) {
        (TypeV::String(_), TypeV::String(_)) => field_width(a) >= field_width(b),
        (TypeV::String(_), _) => false,
        (_, TypeV::String(_)) => true,
        _ => field_width(a) >= field_width(b),
    }
}

/// The layout ordering is total and transitive.
pub proof fn lemma_layout_le_order(a: FieldV, b: FieldV, c: FieldV)
    ensures
        layout_le(a, b) || layout_le(b, a),
        layout_le(a, b) && layout_le(b, c) ==> layout_le(a, c),
{
}

/// Field equality as the planner's union-insert uses it: same name, type
/// model, and access path.
pub open spec fn bpf_field_eq(a: FieldV, b: FieldV) -> bool {
    a.name == b.name && a.ty == b.ty && a.arr == b.arr && a.off == b.off
}

impl Field {
    /// Decides the layout ordering between two fields.
    pub fn layout_before(&self, other: &Field) -> (r: bool)
        requires
            field_width(self@) <= usize::MAX,
            field_width(other@) <= usize::MAX,
        ensures
            r == layout_le(self@, other@),
    {
        match (self._type.is_string(), other._type.is_string()) {
            (true, false) => false,
            (false, true) => true,
            _ => self.size() >= other.size(),
        }
    }

    /// Decides whether two fields are the same projection target.
    pub fn same_field(&self, other: &Field) -> (r: bool)
        ensures
            r == bpf_field_eq(self@, other@),
    {
        let names_eq = self._name == other._name;
        let types_eq = self._type.same_type(&other._type);
        let arr_eq = match (&self._arr, &other._arr) {
            (Some(a), Some(b)) => *a == *b,
            (None, None) => true,
            _ => false,
        };
        let off_eq = match (self._off, other._off) {
            (Some(a), Some(b)) => a == b,
            (None, None) => true,
            _ => false,
        };
        names_eq && types_eq && arr_eq && off_eq
    }
}

impl Type {
    /// Decides structural equality of two types.
    pub fn same_type(&self, other: &Type) -> (r: bool)
        ensures
            r == (self@ == other@),
        decreases *self,
    {
        match (self, other) {
            (Type::Bool, Type::Bool) => true,
            (Type::U8, Type::U8) => true,
            (Type::U16, Type::U16) => true,
            (Type::U32, Type::U32) => true,
            (Type::U64, Type::U64) => true,
            (Type::S8, Type::S8) => true,
            (Type::S16, Type::S16) => true,
            (Type::S32, Type::S32) => true,
            (Type::S64, Type::S64) => true,
            (Type::UChar, Type::UChar) => true,
            (Type::SChar, Type::SChar) => true,
            (Type::String(a), Type::String(b)) => a == b,
            (Type::Pointer(a), Type::Pointer(b)) => (**a).same_type(&**b),
            (Type::Struct(n1, ot1), Type::Struct(n2, ot2)) => {
                let names_eq = *n1 == *n2;
                match (ot1, ot2) {
                    (Some(ts1), Some(ts2)) => {
                        proof {
                            lemma_seq_type_view_index(ts1@);
                            lemma_seq_type_view_index(ts2@);
                        }
                        if ts1.len() != ts2.len() {
                            proof {
                                if seq_type_view(ts1@) == seq_type_view(ts2@) {
                                    assert(seq_type_view(ts1@).len() == seq_type_view(
                                        ts2@,
                                    ).len());
                                }
                            }
                            proof { assert(self@ != other@); }
                            false
                        } else {
                            let mut i: usize = 0;
                            let mut all_eq = true;
                            while i < ts1.len()
                                invariant
                                    i <= ts1.len(),
                                    ts1@.len() == ts2@.len(),
                                    seq_type_view(ts1@).len() == ts1@.len(),
                                    seq_type_view(ts2@).len() == ts2@.len(),
                                    forall|j: int|
                                        0 <= j < ts1@.len() ==> seq_type_view(ts1@)[j]
                                            == type_view(ts1@[j]),
                                    forall|j: int|
                                        0 <= j < ts2@.len() ==> seq_type_view(ts2@)[j]
                                            == type_view(ts2@[j]),
                                    all_eq == (forall|j: int|
                                        0 <= j < i ==> type_view(ts1@[j]) == type_view(ts2@[j])),
                                    decreases_to!(*self => ts1@),
                                decreases ts1.len() - i,
                            {
                                proof {
                                    assert(decreases_to!(ts1@ => ts1@[i as int]));
                                }
                                let e = ts1[i].same_type(&ts2[i]);
                                all_eq = all_eq && e;
                                i = i + 1;
                            }
                            proof {
                                if all_eq {
                                    assert(seq_type_view(ts1@) =~= seq_type_view(ts2@));
                                } else if seq_type_view(ts1@) == seq_type_view(ts2@) {
                                    assert forall|j: int| 0 <= j < ts1@.len() implies type_view(
                                        ts1@[j],
                                    ) == type_view(ts2@[j]) by {
                                        assert(seq_type_view(ts1@)[j] == seq_type_view(ts2@)[j]);
                                    }
                                }
                            }
                            let r = names_eq && all_eq;
                            proof { assert(r == (self@ == other@)); }
                            r
                        }
                    },
                    (None, None) => {
                        proof { assert(names_eq == (self@ == other@)); }
                        names_eq
                    },
                    _ => {
                        proof { assert(self@ != other@); }
                        false
                    },
                }
            },
            _ => {
                proof { assert(self@ != other@); }
                false
            },
        }
    }
}

/// The C type name a type renders as in generated source. Strings render as
/// byte pointers in expressions; their array form is handled at field
/// declarations.
pub open spec fn c_type_name(t: TypeV) -> Seq<char>
    decreases t,
{
    match t {
        TypeV::Bool => "bool"@,
        TypeV::U8 => "u8"@,
        TypeV::U16 => "u16"@,
        TypeV::U32 => "u32"@,
        TypeV::U64 => "u64"@,
        TypeV::S8 => "s8"@,
        TypeV::S16 => "s16"@,
        TypeV::S32 => "s32"@,
        TypeV::S64 => "s64"@,
        TypeV::UChar => "u8"@,
        TypeV::SChar => "s8"@,
        TypeV::String(_) => "char *"@,
        TypeV::Pointer(t2) => c_type_name(*t2) + " *"@,
        TypeV::Struct(n, _) => n,
    }
}

/// The C declaration of a field: `type name`, with fixed-length strings as
/// character arrays and pointers with a pointer declarator.
pub open spec fn c_field_decl(f: FieldV) -> Seq<char> {
    match f.ty {
        TypeV::String(len) => "char "@ + f.name + "["@ + crate::text::dec_of(len) + "]"@,
        TypeV::Pointer(t2) => c_type_name(*t2) + "* "@ + f.name,
        _ => c_type_name(f.ty) + " "@ + f.name,
    }
}

impl Type {
    /// Renders the C type name.
    pub fn c_type(&self) -> (r: String)
        ensures
            r@ == c_type_name(self@),
        decreases *self,
    {
        match self {
            Type::Bool => "bool".to_owned(),
            Type::U8 => "u8".to_owned(),
            Type::U16 => "u16".to_owned(),
            Type::U32 => "u32".to_owned(),
            Type::U64 => "u64".to_owned(),
            Type::S8 => "s8".to_owned(),
            Type::S16 => "s16".to_owned(),
            Type::S32 => "s32".to_owned(),
            Type::S64 => "s64".to_owned(),
            Type::UChar => "u8".to_owned(),
            Type::SChar => "s8".to_owned(),
            Type::String(_) => "char *".to_owned(),
            Type::Pointer(t2) => {
                let mut s = (**t2).c_type();
                s.append(" *");
                s
            },
            Type::Struct(n, _) => n.clone(),
        }
    }
}

impl Field {
    /// Renders the field's C declaration.
    pub fn expr(&self) -> (r: String)
        ensures
            r@ == c_field_decl(self@),
    {
        match &self._type {
            Type::String(len) => {
                let mut s = "char ".to_owned();
                s.append(self._name.as_str());
                s.append("[");
                let d = crate::text::usize_to_dec(*len);
                s.append(d.as_str());
                s.append("]");
                s
            },
            Type::Pointer(t2) => {
                let mut s = (**t2).c_type();
                s.append("* ");
                s.append(self._name.as_str());
                s
            },
            _ => {
                let mut s = self._type.c_type();
                s.append(" ");
                s.append(self._name.as_str());
                s
            },
        }
    }
}

} // verus!
