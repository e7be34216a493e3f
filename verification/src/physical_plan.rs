//! The query planner: lowers a SELECT statement into one kernel plan per
//! event.
//!
//! The planner resolves the single FROM table to an event, records the
//! window (tumbling only), resolves GROUP BY columns, walks the SELECT list
//! (projections and aggregates), collects filter columns, and emits a schema
//! of either the aggregate output columns or the projected columns. A join
//! against a nested SELECT plans the nested statement and stamps the same
//! distinct-join descriptor onto both plans.

use vstd::prelude::*;

verus! {

use crate::ast::{
    FieldDef, FieldDefV, JoinClause, JoinClauseV, JoinConstraintAst, JoinConstraintV, JoinOp,
    JoinRight, JoinRightV, SelectAst, SelectV, lemma_seq_join_view_index, select_view,
    seq_join_view,
};
use crate::errors::EbqlError;
use crate::events::{TracepointEvent, spec_get_event, spec_resolve};
use crate::field::{FieldV as SFieldV, seq_field_view};
use crate::operators::{
    AggFnV, Column, ColumnV, CondBase, CondExpr, CondV, Operator, OperatorV, WindowType,
    spec_cond_columns,
};
use crate::schema::{Schema, SchemaV};
use crate::types::{Field, FieldV, TypeV, bpf_field_eq, seq_fields_view};
use crate::views::{lemma_views_of_index, lemma_views_of_push, views_of};
use vstd::string::{StrSliceExecFns, StringExecFns};

/// How a planning attempt fails.
#[derive(Debug, Clone, Copy, PartialEq, Eq, Structural)]
pub enum PlanErrKind {
    /// A grammar feature outside the supported subset.
    Unsupported,
    /// The FROM table names no known event.
    UnknownEvent,
    /// A column is neither an event argument nor a system variable.
    UnknownColumn,
    /// The plan is not realisable in the kernel.
    Plan,
}

/// The failure kind an error value reports.
pub open spec fn err_kind(e: EbqlError) -> PlanErrKind {
    match e {
        EbqlError::Unsupported(_) => PlanErrKind::Unsupported,
        EbqlError::UnknownEvent(_) => PlanErrKind::UnknownEvent,
        EbqlError::UnknownColumn(_) => PlanErrKind::UnknownColumn,
        _ => PlanErrKind::Plan,
    }
}

/// The distinct-join descriptor both sides of a join carry: the two input
/// schemas and the columns joined on.
#[derive(Debug)]
pub struct BpfJoin {
    pub l: Schema,
    pub r: Schema,
    pub fields: Vec<crate::field::Field>,
}

pub struct JoinDescV {
    pub l: SchemaV,
    pub r: SchemaV,
    pub fields: Seq<SFieldV>,
}

impl View for BpfJoin {
    type V = JoinDescV;

    open spec fn view(&self) -> JoinDescV {
        JoinDescV { l: self.l@, r: self.r@, fields: seq_field_view(self.fields@) }
    }
}

/// One kernel plan: what a single generated program projects, filters,
/// groups, aggregates and emits at one event.
#[derive(Debug)]
pub struct BpfPlan {
    /// The emitted schema.
    pub schema: Schema,
    /// Event on which the plan executes.
    pub event: TracepointEvent,
    /// Window expression.
    pub window: Option<WindowType>,
    /// Fields to project.
    pub projects: Vec<Field>,
    /// Stateless filter.
    pub filters: Option<Operator>,
    /// Map operators.
    pub maps: Vec<Operator>,
    /// Fields grouped by.
    pub group_by: Vec<Field>,
    /// Aggregations to execute.
    pub aggs: Vec<Operator>,
    /// Whether duplicates are suppressed.
    pub distinct: bool,
    /// The join descriptor, when this plan takes part in a join.
    pub distinct_join: Option<BpfJoin>,
}

pub struct PlanV {
    pub schema: SchemaV,
    pub event: TracepointEvent,
    pub window: Option<WindowType>,
    pub projects: Seq<FieldV>,
    pub filters: Option<OperatorV>,
    pub maps: Seq<OperatorV>,
    pub group_by: Seq<FieldV>,
    pub aggs: Seq<OperatorV>,
    pub distinct: bool,
    pub distinct_join: Option<JoinDescV>,
}

impl View for BpfPlan {
    type V = PlanV;

    open spec fn view(&self) -> PlanV {
        PlanV {
            schema: self.schema@,
            event: self.event,
            window: self.window,
            projects: seq_fields_view(self.projects@),
            filters: match &self.filters {
                Some(op) => Some(op.view()),
                None => None,
            },
            maps: views_of(self.maps@),
            group_by: seq_fields_view(self.group_by@),
            aggs: views_of(self.aggs@),
            distinct: self.distinct,
            distinct_join: match &self.distinct_join {
                Some(j) => Some(j.view()),
                None => None,
            },
        }
    }
}

impl BpfPlan {
    /// An empty plan at an event.
    pub fn new(e: &TracepointEvent) -> (r: Self)
        ensures
            r.event == *e,
            r.window is None,
            r@.projects.len() == 0,
            r@.aggs.len() == 0,
            r@.group_by.len() == 0,
            r.distinct == false,
    {
        BpfPlan {
            schema: Schema::new(None, crate::field::Fields::empty()),
            event: *e,
            window: None,
            projects: Vec::new(),
            filters: None,
            maps: Vec::new(),
            group_by: Vec::new(),
            aggs: Vec::new(),
            distinct: false,
            distinct_join: None,
        }
    }
}

/// The physical plans of one query: one per event, two when a join is
/// present (the nested plan first).
#[derive(Debug)]
pub struct PhysicalPlan {
    pub event_plans: Vec<BpfPlan>,
}

pub open spec fn plans_view(ps: Seq<BpfPlan>) -> Seq<PlanV>
    decreases ps,
{
    if ps.len() == 0 {
        Seq::empty()
    } else {
        plans_view(ps.drop_last()).push(ps.last().view())
    }
}

// ---------------------------------------------------------------------------
// The planning function, stated first as a mathematical model.
// ---------------------------------------------------------------------------

/// Whether a projection list already carries the field.
pub open spec fn contains_field(fs: Seq<FieldV>, f: FieldV) -> bool {
    exists|i: int| 0 <= i < fs.len() && bpf_field_eq(#[trigger] fs[i], f)
}

/// Union-insert: add the field unless an equal one is present.
pub open spec fn union_push(fs: Seq<FieldV>, f: FieldV) -> Seq<FieldV> {
    if contains_field(fs, f) {
        fs
    } else {
        fs.push(f)
    }
}

/// Union-insert each of `add`, left to right, starting at position `j`.
pub open spec fn union_all(acc: Seq<FieldV>, add: Seq<FieldV>, j: int) -> Seq<FieldV>
    decreases add.len() - j,
{
    if j < 0 || j >= add.len() {
        acc
    } else {
        union_all(union_push(acc, add[j]), add, j + 1)
    }
}

/// The aggregate output column named `prefix` + the argument column.
pub open spec fn out_field(prefix: Seq<char>, name: Seq<char>) -> FieldV {
    FieldV { name: prefix + name, ty: TypeV::U64, arr: None, off: None }
}

/// What one SELECT column contributes: projected fields, output columns, an
/// aggregate operator, and a distinct marker.
pub open spec fn spec_get_column(e: TracepointEvent, c: ColumnV) -> Result<
    (Seq<FieldV>, Seq<FieldV>, Option<OperatorV>, bool),
    PlanErrKind,
> {
    match c.function {
        Some(AggFnV::Avg(a, d)) => if a.nested {
            Err(PlanErrKind::Unsupported)
        } else {
            match spec_resolve(e, a.name) {
                None => Err(PlanErrKind::UnknownColumn),
                Some(f) => Ok(
                    (
                        seq![f],
                        seq![out_field("avg_"@, a.name)],
                        Some(OperatorV::Average(a.name)),
                        d,
                    ),
                ),
            }
        },
        Some(AggFnV::Count(a, d)) => if a.nested {
            Err(PlanErrKind::Unsupported)
        } else {
            match spec_resolve(e, a.name) {
                None => Err(PlanErrKind::UnknownColumn),
                Some(f) => Ok(
                    (
                        seq![f],
                        seq![out_field("count_"@, a.name)],
                        Some(OperatorV::Count(Some(a.name))),
                        d,
                    ),
                ),
            }
        },
        Some(AggFnV::CountStar) => Ok(
            (
                Seq::empty(),
                seq![out_field("count_"@, Seq::empty())],
                Some(OperatorV::Count(None)),
                false,
            ),
        ),
        Some(AggFnV::Sum(a, d)) => if a.nested {
            Err(PlanErrKind::Unsupported)
        } else {
            match spec_resolve(e, a.name) {
                None => Err(PlanErrKind::UnknownColumn),
                Some(f) => Ok(
                    (
                        seq![f],
                        seq![out_field("sum_"@, a.name)],
                        Some(OperatorV::Sum(a.name)),
                        d,
                    ),
                ),
            }
        },
        Some(AggFnV::Max(a)) => if a.nested {
            Err(PlanErrKind::Unsupported)
        } else {
            match spec_resolve(e, a.name) {
                None => Err(PlanErrKind::UnknownColumn),
                Some(f) => Ok(
                    (
                        seq![f],
                        seq![out_field("max_"@, a.name)],
                        Some(OperatorV::Max(a.name)),
                        false,
                    ),
                ),
            }
        },
        Some(AggFnV::Min(a)) => if a.nested {
            Err(PlanErrKind::Unsupported)
        } else {
            match spec_resolve(e, a.name) {
                None => Err(PlanErrKind::UnknownColumn),
                Some(f) => Ok(
                    (
                        seq![f],
                        seq![out_field("min_"@, a.name)],
                        Some(OperatorV::Min(a.name)),
                        false,
                    ),
                ),
            }
        },
        Some(AggFnV::GroupConcat) => Err(PlanErrKind::Unsupported),
        Some(AggFnV::Generic) => Err(PlanErrKind::Unsupported),
        None => match spec_resolve(e, c.name) {
            None => Err(PlanErrKind::UnknownColumn),
            Some(f) => Ok((seq![f], Seq::empty(), None, false)),
        },
    }
}

/// The window phase: a window must be tumbling; a time window forces the
/// `time` system variable into the projections.
pub open spec fn spec_plan_window(e: TracepointEvent, w: Option<WindowType>) -> Result<
    (Option<WindowType>, Seq<FieldV>),
    PlanErrKind,
> {
    match w {
        None => Ok((None, Seq::empty())),
        Some(WindowType::Time(iv, st)) => if iv != st {
            Err(PlanErrKind::Unsupported)
        } else {
            Ok((Some(WindowType::Time(iv, st)), seq![spec_resolve(e, "time"@).unwrap()]))
        },
        Some(WindowType::Count(n, st)) => if n != st {
            Err(PlanErrKind::Unsupported)
        } else {
            Ok((Some(WindowType::Count(n, st)), Seq::empty()))
        },
        Some(WindowType::Session(_)) => Err(PlanErrKind::Unsupported),
    }
}

/// The GROUP BY phase: each column resolves at the event and joins both the
/// projections and the output columns.
pub open spec fn spec_add_group_cols(
    e: TracepointEvent,
    names: Seq<Seq<char>>,
    j: int,
    proj: Seq<FieldV>,
    outf: Seq<FieldV>,
    gb: Seq<FieldV>,
) -> Result<(Seq<FieldV>, Seq<FieldV>, Seq<FieldV>), PlanErrKind>
    decreases names.len() - j,
{
    if j < 0 || j >= names.len() {
        Ok((proj, outf, gb))
    } else {
        match spec_resolve(e, names[j]) {
            None => Err(PlanErrKind::UnknownColumn),
            Some(f) => spec_add_group_cols(
                e,
                names,
                j + 1,
                union_push(proj, f),
                union_push(outf, f),
                gb.push(f),
            ),
        }
    }
}

/// The SELECT-list phase.
pub open spec fn spec_walk_fields(
    e: TracepointEvent,
    fields: Seq<FieldDefV>,
    j: int,
    proj: Seq<FieldV>,
    outf: Seq<FieldV>,
    aggs: Seq<OperatorV>,
    distinct: bool,
) -> Result<(Seq<FieldV>, Seq<FieldV>, Seq<OperatorV>, bool), PlanErrKind>
    decreases fields.len() - j,
{
    if j < 0 || j >= fields.len() {
        Ok((proj, outf, aggs, distinct))
    } else {
        match fields[j] {
            FieldDefV::All => spec_walk_fields(
                e,
                fields,
                j + 1,
                union_all(proj, crate::events::spec_event_args(e), 0),
                outf,
                aggs,
                distinct,
            ),
            FieldDefV::AllInTable(_) => Err(PlanErrKind::Unsupported),
            FieldDefV::Value => Err(PlanErrKind::Unsupported),
            FieldDefV::Col(c) => match spec_get_column(e, c) {
                Err(t) => Err(t),
                Ok((ps, os, op, d)) => spec_walk_fields(
                    e,
                    fields,
                    j + 1,
                    union_all(proj, ps, 0),
                    union_all(outf, os, 0),
                    match op {
                        Some(o) => aggs.push(o),
                        None => aggs,
                    },
                    distinct || d,
                ),
            },
        }
    }
}

/// The WHERE phase: every referenced column resolves and is projected; a
/// column wrapped in a function is rejected.
pub open spec fn spec_add_filter_cols(
    e: TracepointEvent,
    cols: Seq<ColumnV>,
    j: int,
    proj: Seq<FieldV>,
) -> Result<Seq<FieldV>, PlanErrKind>
    decreases cols.len() - j,
{
    if j < 0 || j >= cols.len() {
        Ok(proj)
    } else if cols[j].function is Some {
        Err(PlanErrKind::Unsupported)
    } else {
        match spec_resolve(e, cols[j].name) {
            None => Err(PlanErrKind::UnknownColumn),
            Some(f) => spec_add_filter_cols(e, cols, j + 1, union_push(proj, f)),
        }
    }
}

/// The emitted schema's fields: each emitted column lifted to its logical
/// type; struct-typed columns cannot be emitted.
pub open spec fn spec_schema_fields(fs: Seq<FieldV>, j: int, acc: Seq<SFieldV>) -> Result<
    Seq<SFieldV>,
    PlanErrKind,
>
    decreases fs.len() - j,
{
    if j < 0 || j >= fs.len() {
        Ok(acc)
    } else if fs[j].ty is Struct {
        Err(PlanErrKind::Unsupported)
    } else {
        spec_schema_fields(
            fs,
            j + 1,
            acc.push(
                SFieldV { name: fs[j].name, dt: crate::data_types::spec_from_bpf_type(fs[j].ty) },
            ),
        )
    }
}

/// The join columns, resolved at the outer event and lifted to schema
/// fields.
pub open spec fn spec_join_fields(
    e: TracepointEvent,
    cols: Seq<Seq<char>>,
    j: int,
    acc: Seq<SFieldV>,
) -> Result<Seq<SFieldV>, PlanErrKind>
    decreases cols.len() - j,
{
    if j < 0 || j >= cols.len() {
        Ok(acc)
    } else {
        match spec_resolve(e, cols[j]) {
            None => Err(PlanErrKind::UnknownColumn),
            Some(f) => if f.ty is Struct {
                Err(PlanErrKind::Unsupported)
            } else {
                spec_join_fields(
                    e,
                    cols,
                    j + 1,
                    acc.push(
                        SFieldV { name: f.name, dt: crate::data_types::spec_from_bpf_type(f.ty) },
                    ),
                )
            },
        }
    }
}

/// The gathering phases in order: window, GROUP BY, SELECT list.
pub open spec fn spec_gather(s: SelectV, e: TracepointEvent) -> Result<
    (Option<WindowType>, Seq<FieldV>, Seq<FieldV>, Seq<FieldV>, Seq<OperatorV>, bool),
    PlanErrKind,
> {
    match spec_plan_window(e, s.window) {
        Err(t) => Err(t),
        Ok((w, proj0)) => match spec_add_group_cols(
            e,
            match s.group_by {
                Some(g) => g,
                None => Seq::empty(),
            },
            0,
            proj0,
            Seq::empty(),
            Seq::empty(),
        ) {
            Err(t) => Err(t),
            Ok((proj1, outf1, gb)) => match spec_walk_fields(
                e,
                s.fields,
                0,
                proj1,
                outf1,
                Seq::empty(),
                s.distinct,
            ) {
                Err(t) => Err(t),
                Ok((proj2, outf, aggs, distinct)) => Ok((w, proj2, outf, gb, aggs, distinct)),
            },
        },
    }
}

/// The filter phase and the aggregate-window rule.
pub open spec fn spec_filtered_projects(
    s: SelectV,
    e: TracepointEvent,
    w: Option<WindowType>,
    proj: Seq<FieldV>,
    aggs: Seq<OperatorV>,
) -> Result<Seq<FieldV>, PlanErrKind> {
    let filt = match s.where_clause {
        Some(c) => spec_add_filter_cols(e, spec_cond_columns(c), 0, proj),
        None => Ok(proj),
    };
    match filt {
        Err(t) => Err(t),
        Ok(projects) => if aggs.len() > 0 && w is None {
            Err(PlanErrKind::Plan)
        } else {
            Ok(projects)
        },
    }
}

/// One plan for one event, before any join descriptor is stamped on.
pub open spec fn spec_make_plan(s: SelectV, name: Seq<char>, e: TracepointEvent) -> Result<
    PlanV,
    PlanErrKind,
> {
    match spec_gather(s, e) {
        Err(t) => Err(t),
        Ok((w, proj2, outf, gb, aggs, distinct)) => match spec_filtered_projects(
            s,
            e,
            w,
            proj2,
            aggs,
        ) {
            Err(t) => Err(t),
            Ok(projects) => {
                let emitted = if outf.len() > 0 {
                    outf
                } else {
                    projects
                };
                match spec_schema_fields(emitted, 0, Seq::empty()) {
                    Err(t) => Err(t),
                    Ok(sfields) => Ok(
                        PlanV {
                            schema: SchemaV { name: name, fields: sfields },
                            event: e,
                            window: w,
                            projects: projects,
                            filters: match s.where_clause {
                                Some(c) => Some(OperatorV::Filter(c)),
                                None => None,
                            },
                            maps: Seq::empty(),
                            group_by: gb,
                            aggs: aggs,
                            distinct: distinct,
                            distinct_join: None,
                        },
                    ),
                }
            },
        },
    }
}

/// The planning function: the plans a SELECT statement lowers to, or the
/// failure kind. The nested plan of a join comes first, the outer plan
/// last.
pub open spec fn spec_plan_select(s: SelectV, name: Seq<char>) -> Result<Seq<PlanV>, PlanErrKind>
    decreases s, 1int,
{
    if s.tables.len() != 1 {
        Err(PlanErrKind::Unsupported)
    } else {
        match spec_get_event(s.tables[0]) {
            None => Err(PlanErrKind::UnknownEvent),
            Some(e) => match spec_make_plan(s, name, e) {
                Err(t) => Err(t),
                Ok(plan) => spec_plan_join(s, name, e, plan),
            },
        }
    }
}

/// The join phase: at most one join, inner, against a nested SELECT, with a
/// USING column list; both plans carry the same descriptor.
pub open spec fn spec_plan_join(
    s: SelectV,
    name: Seq<char>,
    e: TracepointEvent,
    plan: PlanV,
) -> Result<Seq<PlanV>, PlanErrKind>
    decreases s, 0int,
{
    if s.join.len() == 0 {
        Ok(seq![plan])
    } else if s.join.len() > 1 {
        Err(PlanErrKind::Unsupported)
    } else {
        let j = s.join[0];
        if !(j.operator is Join) {
            Err(PlanErrKind::Unsupported)
        } else {
            match j.right {
                JoinRightV::Table(_) => Err(PlanErrKind::Unsupported),
                JoinRightV::NestedSelect(sub) => match j.constraint {
                    JoinConstraintV::On => Err(PlanErrKind::Unsupported),
                    JoinConstraintV::Using(cols) => match spec_plan_select(
                        *sub,
                        name + "_join"@,
                    ) {
                        Err(t) => Err(t),
                        Ok(subplans) => match spec_join_fields(e, cols, 0, Seq::empty()) {
                            Err(t) => Err(t),
                            Ok(jf) => {
                                let desc = JoinDescV {
                                    l: plan.schema,
                                    r: subplans[0].schema,
                                    fields: jf,
                                };
                                let sub0 = PlanV { distinct_join: Some(desc), ..subplans[0] };
                                let outer = PlanV { distinct_join: Some(desc), ..plan };
                                Ok(seq![sub0, outer])
                            },
                        },
                    },
                },
            }
        }
    }
}

// ---------------------------------------------------------------------------
// The executable planner, each phase mirroring its model.
// ---------------------------------------------------------------------------

/// Whether the list already carries an equal field.
fn contains_field_exec(fs: &Vec<Field>, f: &Field) -> (r: bool)
    ensures
        r == contains_field(seq_fields_view(fs@), f@),
{
    proof {
        crate::types::lemma_seq_fields_view_index(fs@);
    }
    let ghost fv = seq_fields_view(fs@);
    let mut i: usize = 0;
    while i < fs.len()
        invariant
            i <= fs@.len(),
            fv == seq_fields_view(fs@),
            fv.len() == fs@.len(),
            forall|j: int| 0 <= j < fs@.len() ==> fv[j] == fs@[j]@,
            forall|j: int| 0 <= j < i ==> !bpf_field_eq(#[trigger] fv[j], f@),
        decreases fs@.len() - i,
    {
        if fs[i].same_field(f) {
            proof {
                assert(bpf_field_eq(fv[i as int], f@));
            }
            return true;
        }
        i = i + 1;
    }
    false
}

/// Union-insert one field.
fn union_push_exec(proj: Vec<Field>, f: Field) -> (r: Vec<Field>)
    ensures
        seq_fields_view(r@) == union_push(seq_fields_view(proj@), f@),
{
    let ghost before = seq_fields_view(proj@);
    if contains_field_exec(&proj, &f) {
        proj
    } else {
        let mut out = proj;
        let ghost prev = out@;
        out.push(f);
        proof {
            crate::types::lemma_seq_fields_view_push(prev, f);
        }
        out
    }
}

/// Union-insert a list of fields, left to right, starting at `j`.
fn union_all_exec(proj: Vec<Field>, add: &Vec<Field>, j: usize) -> (r: Vec<Field>)
    requires
        j <= add@.len(),
    ensures
        seq_fields_view(r@) == union_all(seq_fields_view(proj@), seq_fields_view(add@), j as int),
    decreases add@.len() - j,
{
    proof {
        crate::types::lemma_seq_fields_view_index(add@);
    }
    if j == add.len() {
        proj
    } else {
        let f = add[j].clone();
        let next = union_push_exec(proj, f);
        union_all_exec(next, add, j + 1)
    }
}

/// What one SELECT column contributes.
fn get_column(e: &TracepointEvent, c: &Column) -> (r: Result<
    (Vec<Field>, Vec<Field>, Option<Operator>, bool),
    EbqlError,
>)
    ensures
        r matches Ok(t) ==> spec_get_column(*e, c@) == Ok::<_, PlanErrKind>(
            (
                seq_fields_view(t.0@),
                seq_fields_view(t.1@),
                match t.2 {
                    Some(op) => Some(op@),
                    None => None::<OperatorV>,
                },
                t.3,
            ),
        ),
        r matches Err(err) ==> spec_get_column(*e, c@) == Err::<
            (Seq<FieldV>, Seq<FieldV>, Option<OperatorV>, bool),
            _,
        >(err_kind(err)),
{
    match &c.function {
        Some(f) => {
            let (kind, arg, d): (u8, &crate::operators::AggArg, bool) = match f {
                crate::operators::AggFn::Avg(a, d) => (0u8, a, *d),
                crate::operators::AggFn::Count(a, d) => (1u8, a, *d),
                crate::operators::AggFn::Sum(a, d) => (2u8, a, *d),
                crate::operators::AggFn::Max(a) => (3u8, a, false),
                crate::operators::AggFn::Min(a) => (4u8, a, false),
                crate::operators::AggFn::CountStar => {
                    let mut outf: Vec<Field> = Vec::new();
                    let of = Field::new("count_".to_owned(), crate::types::Type::U64);
                    outf.push(of);
                    proof {
                        crate::types::lemma_seq_fields_view_push(Seq::empty(), of);
                        assert(seq_fields_view(Seq::<Field>::empty()) =~= Seq::<FieldV>::empty());
                        assert("count_"@ + Seq::<char>::empty() =~= "count_"@);
                    }
                    return Ok((Vec::new(), outf, Some(Operator::Count(None)), false));
                },
                crate::operators::AggFn::GroupConcat => {
                    return Err(EbqlError::Unsupported("group concat".to_owned()));
                },
                crate::operators::AggFn::Generic => {
                    return Err(EbqlError::Unsupported("generic function calls".to_owned()));
                },
            };
            if arg.nested {
                return Err(EbqlError::Unsupported("nested aggregates".to_owned()));
            }
            let resolved = match e.get_arg(arg.name.as_str()) {
                Ok(rf) => rf,
                Err(err) => {
                    return Err(err);
                },
            };
            let mut proj: Vec<Field> = Vec::new();
            proof {
                assert(seq_fields_view(proj@) =~= Seq::<FieldV>::empty());
            }
            let ghost rv = resolved@;
            proj.push(resolved);
            proof {
                crate::types::lemma_seq_fields_view_push(Seq::empty(), proj@.last());
                assert(seq_fields_view(proj@) =~= seq![rv]);
            }
            let prefix: &str = if kind == 0 {
                "avg_"
            } else if kind == 1 {
                "count_"
            } else if kind == 2 {
                "sum_"
            } else if kind == 3 {
                "max_"
            } else {
                "min_"
            };
            let mut oname = prefix.to_owned();
            oname.append(arg.name.as_str());
            let of = Field::new(oname, crate::types::Type::U64);
            let mut outf: Vec<Field> = Vec::new();
            let ghost ofv = of@;
            outf.push(of);
            proof {
                crate::types::lemma_seq_fields_view_push(Seq::empty(), outf@.last());
                assert(seq_fields_view(Seq::<Field>::empty()) =~= Seq::<FieldV>::empty());
                assert(seq_fields_view(outf@) =~= seq![ofv]);
            }
            let op: Operator = if kind == 0 {
                Operator::Average(arg.name.clone())
            } else if kind == 1 {
                Operator::Count(Some(arg.name.clone()))
            } else if kind == 2 {
                Operator::Sum(arg.name.clone())
            } else if kind == 3 {
                Operator::Max(arg.name.clone())
            } else {
                Operator::Min(arg.name.clone())
            };
            Ok((proj, outf, Some(op), d))
        },
        None => {
            let resolved = match e.get_arg(c.name.as_str()) {
                Ok(rf) => rf,
                Err(err) => {
                    return Err(err);
                },
            };
            let mut proj: Vec<Field> = Vec::new();
            let ghost rv = resolved@;
            proj.push(resolved);
            proof {
                crate::types::lemma_seq_fields_view_push(Seq::empty(), proj@.last());
                assert(seq_fields_view(Seq::<Field>::empty()) =~= Seq::<FieldV>::empty());
                assert(seq_fields_view(proj@) =~= seq![rv]);
            }
            Ok((proj, Vec::new(), None, false))
        },
    }
}

/// The columns a condition mentions, left to right.
pub fn cond_columns(c: &CondExpr) -> (r: Vec<Column>)
    ensures
        views_of(r@) == spec_cond_columns(c@),
    decreases *c,
{
    match c {
        CondExpr::Base(CondBase::Col(col)) => {
            let mut out: Vec<Column> = Vec::new();
            let cc = col.clone();
            out.push(cc);
            proof {
                lemma_views_of_push(Seq::empty(), out@.last());
                assert(views_of(Seq::<Column>::empty()) =~= Seq::<ColumnV>::empty());
                assert(views_of(out@) =~= seq![col@]);
            }
            out
        },
        CondExpr::Base(CondBase::Lit(_)) => {
            let out: Vec<Column> = Vec::new();
            proof {
                assert(views_of(out@) =~= Seq::<ColumnV>::empty());
            }
            out
        },
        CondExpr::Comparison(_, l, rr) => {
            let mut a = cond_columns(&**l);
            let b = cond_columns(&**rr);
            let ghost av = a@;
            let ghost bv = b@;
            let mut bi: usize = 0;
            let mut bvec = b;
            while bi < bvec.len()
                invariant
                    bi <= bvec@.len(),
                    bvec@ == bv,
                    views_of(a@) == views_of(av) + views_of(bv).take(bi as int),
                decreases bvec@.len() - bi,
            {
                proof {
                    lemma_views_of_index(bv);
                }
                let ghost prev = a@;
                a.push(bvec[bi].clone());
                proof {
                    lemma_views_of_push(prev, a@.last());
                    assert(views_of(bv).take(bi + 1) =~= views_of(bv).take(bi as int).push(
                        views_of(bv)[bi as int],
                    ));
                }
                bi = bi + 1;
            }
            proof {
                assert(views_of(bv).take(bv.len() as int) =~= views_of(bv)) by {
                    lemma_views_of_index(bv);
                }
                assert(views_of(a@) =~= spec_cond_columns(c@));
            }
            a
        },
        CondExpr::Logical(_, l, rr) => {
            let mut a = cond_columns(&**l);
            let b = cond_columns(&**rr);
            let ghost av = a@;
            let ghost bv = b@;
            let mut bi: usize = 0;
            let mut bvec = b;
            while bi < bvec.len()
                invariant
                    bi <= bvec@.len(),
                    bvec@ == bv,
                    views_of(a@) == views_of(av) + views_of(bv).take(bi as int),
                decreases bvec@.len() - bi,
            {
                proof {
                    lemma_views_of_index(bv);
                }
                let ghost prev = a@;
                a.push(bvec[bi].clone());
                proof {
                    lemma_views_of_push(prev, a@.last());
                    assert(views_of(bv).take(bi + 1) =~= views_of(bv).take(bi as int).push(
                        views_of(bv)[bi as int],
                    ));
                }
                bi = bi + 1;
            }
            proof {
                assert(views_of(bv).take(bv.len() as int) =~= views_of(bv)) by {
                    lemma_views_of_index(bv);
                }
                assert(views_of(a@) =~= spec_cond_columns(c@));
            }
            a
        },
    }
}

/// The GROUP BY phase.
fn add_group_cols(
    e: &TracepointEvent,
    names: &Vec<String>,
    j: usize,
    proj: Vec<Field>,
    outf: Vec<Field>,
    gb: Vec<Field>,
) -> (r: Result<(Vec<Field>, Vec<Field>, Vec<Field>), EbqlError>)
    requires
        j <= names@.len(),
    ensures
        r matches Ok(t) ==> spec_add_group_cols(
            *e,
            views_of(names@),
            j as int,
            seq_fields_view(proj@),
            seq_fields_view(outf@),
            seq_fields_view(gb@),
        ) == Ok::<_, PlanErrKind>(
            (seq_fields_view(t.0@), seq_fields_view(t.1@), seq_fields_view(t.2@)),
        ),
        r matches Err(err) ==> spec_add_group_cols(
            *e,
            views_of(names@),
            j as int,
            seq_fields_view(proj@),
            seq_fields_view(outf@),
            seq_fields_view(gb@),
        ) == Err::<(Seq<FieldV>, Seq<FieldV>, Seq<FieldV>), _>(err_kind(err)),
    decreases names@.len() - j,
{
    proof {
        lemma_views_of_index(names@);
    }
    if j == names.len() {
        Ok((proj, outf, gb))
    } else {
        match e.get_arg(names[j].as_str()) {
            Err(err) => Err(err),
            Ok(f) => {
                let ghost fv = f@;
                let proj2 = union_push_exec(proj, f.clone());
                let outf2 = union_push_exec(outf, f.clone());
                let mut gb2 = gb;
                let ghost gprev = gb2@;
                gb2.push(f);
                proof {
                    crate::types::lemma_seq_fields_view_push(gprev, gb2@.last());
                }
                add_group_cols(e, names, j + 1, proj2, outf2, gb2)
            },
        }
    }
}

/// The SELECT-list phase.
fn walk_fields(
    e: &TracepointEvent,
    fields: &Vec<FieldDef>,
    j: usize,
    proj: Vec<Field>,
    outf: Vec<Field>,
    aggs: Vec<Operator>,
    distinct: bool,
) -> (r: Result<(Vec<Field>, Vec<Field>, Vec<Operator>, bool), EbqlError>)
    requires
        j <= fields@.len(),
    ensures
        r matches Ok(t) ==> spec_walk_fields(
            *e,
            views_of(fields@),
            j as int,
            seq_fields_view(proj@),
            seq_fields_view(outf@),
            views_of(aggs@),
            distinct,
        ) == Ok::<_, PlanErrKind>(
            (seq_fields_view(t.0@), seq_fields_view(t.1@), views_of(t.2@), t.3),
        ),
        r matches Err(err) ==> spec_walk_fields(
            *e,
            views_of(fields@),
            j as int,
            seq_fields_view(proj@),
            seq_fields_view(outf@),
            views_of(aggs@),
            distinct,
        ) == Err::<(Seq<FieldV>, Seq<FieldV>, Seq<OperatorV>, bool), _>(err_kind(err)),
    decreases fields@.len() - j,
{
    proof {
        lemma_views_of_index(fields@);
    }
    if j == fields.len() {
        Ok((proj, outf, aggs, distinct))
    } else {
        match &fields[j] {
            FieldDef::All => {
                let args = match e.get_all_args() {
                    Ok(v) => v,
                    Err(err) => {
                        proof {
                            assert(false);
                        }
                        return Err(err);
                    },
                };
                let proj2 = union_all_exec(proj, &args, 0);
                walk_fields(e, fields, j + 1, proj2, outf, aggs, distinct)
            },
            FieldDef::AllInTable(_) => Err(
                EbqlError::Unsupported("selecting from another table".to_owned()),
            ),
            FieldDef::Value => Err(
                EbqlError::Unsupported("value expressions in the select list".to_owned()),
            ),
            FieldDef::Col(c) => match get_column(e, c) {
                Err(err) => Err(err),
                Ok((ps, os, op, d)) => {
                    let proj2 = union_all_exec(proj, &ps, 0);
                    let outf2 = union_all_exec(outf, &os, 0);
                    let mut aggs2 = aggs;
                    let ghost aprev = aggs2@;
                    match op {
                        Some(o) => {
                            aggs2.push(o);
                            proof {
                                lemma_views_of_push(aprev, aggs2@.last());
                            }
                        },
                        None => {},
                    }
                    walk_fields(e, fields, j + 1, proj2, outf2, aggs2, distinct || d)
                },
            },
        }
    }
}

/// The WHERE phase.
fn add_filter_cols(e: &TracepointEvent, cols: &Vec<Column>, j: usize, proj: Vec<Field>) -> (r:
    Result<Vec<Field>, EbqlError>)
    requires
        j <= cols@.len(),
    ensures
        r matches Ok(t) ==> spec_add_filter_cols(
            *e,
            views_of(cols@),
            j as int,
            seq_fields_view(proj@),
        ) == Ok::<_, PlanErrKind>(seq_fields_view(t@)),
        r matches Err(err) ==> spec_add_filter_cols(
            *e,
            views_of(cols@),
            j as int,
            seq_fields_view(proj@),
        ) == Err::<Seq<FieldV>, _>(err_kind(err)),
    decreases cols@.len() - j,
{
    proof {
        lemma_views_of_index(cols@);
    }
    if j == cols.len() {
        Ok(proj)
    } else if cols[j].function.is_some() {
        Err(EbqlError::Unsupported("aggregates inside filters".to_owned()))
    } else {
        match e.get_arg(cols[j].name.as_str()) {
            Err(err) => Err(err),
            Ok(f) => {
                let proj2 = union_push_exec(proj, f);
                add_filter_cols(e, cols, j + 1, proj2)
            },
        }
    }
}

/// The emitted schema's fields.
fn schema_fields_of(fs: &Vec<Field>, j: usize, acc: Vec<crate::field::Field>) -> (r: Result<
    Vec<crate::field::Field>,
    EbqlError,
>)
    requires
        j <= fs@.len(),
    ensures
        r matches Ok(t) ==> spec_schema_fields(
            seq_fields_view(fs@),
            j as int,
            crate::field::seq_field_view(acc@),
        ) == Ok::<_, PlanErrKind>(crate::field::seq_field_view(t@)),
        r matches Err(err) ==> spec_schema_fields(
            seq_fields_view(fs@),
            j as int,
            crate::field::seq_field_view(acc@),
        ) == Err::<Seq<SFieldV>, _>(err_kind(err)),
    decreases fs@.len() - j,
{
    proof {
        crate::types::lemma_seq_fields_view_index(fs@);
    }
    if j == fs.len() {
        Ok(acc)
    } else {
        match crate::data_types::DataType::from_bpf_type(&fs[j]._type) {
            Err(err) => Err(err),
            Ok(dt) => {
                let mut acc2 = acc;
                let ghost prev = acc2@;
                let nf = crate::field::Field { name: fs[j]._name.clone(), data_type: dt };
                acc2.push(nf);
                proof {
                    crate::field::lemma_seq_field_view_push(prev, nf);
                }
                schema_fields_of(fs, j + 1, acc2)
            },
        }
    }
}

/// The join columns, as schema fields.
fn join_fields_of(e: &TracepointEvent, cols: &Vec<String>, j: usize, acc: Vec<crate::field::Field>)
    -> (r: Result<Vec<crate::field::Field>, EbqlError>)
    requires
        j <= cols@.len(),
    ensures
        r matches Ok(t) ==> spec_join_fields(
            *e,
            views_of(cols@),
            j as int,
            crate::field::seq_field_view(acc@),
        ) == Ok::<_, PlanErrKind>(crate::field::seq_field_view(t@)),
        r matches Err(err) ==> spec_join_fields(
            *e,
            views_of(cols@),
            j as int,
            crate::field::seq_field_view(acc@),
        ) == Err::<Seq<SFieldV>, _>(err_kind(err)),
    decreases cols@.len() - j,
{
    proof {
        lemma_views_of_index(cols@);
    }
    if j == cols.len() {
        Ok(acc)
    } else {
        match e.get_arg(cols[j].as_str()) {
            Err(err) => Err(err),
            Ok(f) => match crate::data_types::DataType::from_bpf_type(&f._type) {
                Err(err) => Err(err),
                Ok(dt) => {
                    let mut acc2 = acc;
                    let ghost prev = acc2@;
                    let nf = crate::field::Field { name: f._name, data_type: dt };
                    acc2.push(nf);
                    proof {
                        crate::field::lemma_seq_field_view_push(prev, nf);
                    }
                    join_fields_of(e, cols, j + 1, acc2)
                },
            },
        }
    }
}

impl PhysicalPlan {
    /// Lowers a SELECT statement into its kernel plans under the given query
    /// name. The result is pinned to the planning model: planning succeeds
    /// or fails exactly as the model does, and on success the plans are the
    /// model's plans (the nested join plan first, the outer plan last).
    #[verifier::rlimit(100)]
    pub fn plan_select(s: &SelectAst, query_name: String) -> (r: Result<PhysicalPlan, EbqlError>)
        ensures
            r is Ok <==> spec_plan_select(s@, query_name@) is Ok,
            r matches Ok(p) ==> {
                &&& p.event_plans@.len() >= 1
                &&& Ok::<_, PlanErrKind>(plans_view(p.event_plans@)) == spec_plan_select(
                    s@,
                    query_name@,
                )
            },
            r matches Err(err) ==> spec_plan_select(s@, query_name@) == Err::<Seq<PlanV>, _>(
                err_kind(err),
            ),
        decreases *s,
    {
        proof {
            lemma_views_of_index(s.tables@);
        }
        if s.tables.len() != 1 {
            return Err(EbqlError::Unsupported("exactly one FROM table is supported".to_owned()));
        }
        let e = match crate::events::get_event(s.tables[0].as_str()) {
            Some(ev) => ev,
            None => {
                return Err(EbqlError::UnknownEvent(s.tables[0].clone()));
            },
        };
        // Window phase.
        let (w, proj0): (Option<WindowType>, Vec<Field>) = match s.window {
            None => (None, Vec::new()),
            Some(WindowType::Time(iv, st)) => {
                if iv != st {
                    return Err(
                        EbqlError::Unsupported("non-tumbling step windows".to_owned()),
                    );
                }
                let tf = match e.get_arg("time") {
                    Ok(f) => f,
                    Err(err) => {
                        proof {
                            reveal_strlit("time");
                            assert(crate::events::spec_system_var("time"@) is Some);
                        }
                        return Err(err);
                    },
                };
                let mut p: Vec<Field> = Vec::new();
                let ghost tv = tf@;
                p.push(tf);
                proof {
                    crate::types::lemma_seq_fields_view_push(Seq::empty(), p@.last());
                    assert(seq_fields_view(Seq::<Field>::empty()) =~= Seq::<FieldV>::empty());
                    assert(seq_fields_view(p@) =~= seq![tv]);
                }
                (Some(WindowType::Time(iv, st)), p)
            },
            Some(WindowType::Count(n, st)) => {
                if n != st {
                    return Err(
                        EbqlError::Unsupported("non-tumbling step windows".to_owned()),
                    );
                }
                (Some(WindowType::Count(n, st)), Vec::new())
            },
            Some(WindowType::Session(_)) => {
                return Err(EbqlError::Unsupported("session windows".to_owned()));
            },
        };
        proof {
            assert(seq_fields_view(Seq::<Field>::empty()) =~= Seq::<FieldV>::empty());
        }
        // Group-by phase.
        let empty_names: Vec<String> = Vec::new();
        proof {
            assert(views_of(empty_names@) =~= Seq::<Seq<char>>::empty());
            assert(seq_fields_view(Seq::<Field>::empty()) =~= Seq::<FieldV>::empty());
        }
        let gb_res = match &s.group_by {
            Some(g) => add_group_cols(&e, g, 0, proj0, Vec::new(), Vec::new()),
            None => add_group_cols(&e, &empty_names, 0, proj0, Vec::new(), Vec::new()),
        };
        let (proj1, outf1, gb) = match gb_res {
            Ok(t) => t,
            Err(err) => {
                return Err(err);
            },
        };
        // SELECT-list phase.
        let empty_aggs: Vec<Operator> = Vec::new();
        proof {
            assert(views_of(empty_aggs@) =~= Seq::<OperatorV>::empty());
        }
        let (proj2, outf, aggs, distinct) = match walk_fields(
            &e,
            &s.fields,
            0,
            proj1,
            outf1,
            empty_aggs,
            s.distinct,
        ) {
            Ok(t) => t,
            Err(err) => {
                return Err(err);
            },
        };
        // WHERE phase.
        let projects = match &s.where_clause {
            Some(c) => {
                let cols = cond_columns(c);
                match add_filter_cols(&e, &cols, 0, proj2) {
                    Ok(t) => t,
                    Err(err) => {
                        return Err(err);
                    },
                }
            },
            None => proj2,
        };
        if aggs.len() > 0 && w.is_none() {
            return Err(EbqlError::Plan("aggregates require a tumbling window".to_owned()));
        }
        // Emit the schema.
        let emitted: &Vec<Field> = if outf.len() > 0 {
            &outf
        } else {
            &projects
        };
        let empty_sfields: Vec<crate::field::Field> = Vec::new();
        proof {
            assert(crate::field::seq_field_view(empty_sfields@) =~= Seq::<SFieldV>::empty());
        }
        let sfields = match schema_fields_of(emitted, 0, empty_sfields) {
            Ok(t) => t,
            Err(err) => {
                return Err(err);
            },
        };
        let schema = Schema { name: query_name.clone(), fields: crate::field::Fields(sfields) };
        let filters: Option<Operator> = match &s.where_clause {
            Some(c) => Some(Operator::Filter(c.clone())),
            None => None,
        };
        let plan = BpfPlan {
            schema,
            event: e,
            window: w,
            projects,
            filters,
            maps: Vec::new(),
            group_by: gb,
            aggs,
            distinct,
            distinct_join: None,
        };
        proof {
            assert(views_of(plan.maps@) =~= Seq::<OperatorV>::empty());
        }
        // Join phase.
        proof {
            lemma_seq_join_view_index(s.join@);
        }
        if s.join.len() == 0 {
            let mut plans: Vec<BpfPlan> = Vec::new();
            plans.push(plan);
            proof {
                assert(plans_view(plans@.drop_last()) =~= Seq::<PlanV>::empty());
                assert(plans_view(plans@) =~= seq![plans@.last()@]);
            }
            return Ok(PhysicalPlan { event_plans: plans });
        }
        if s.join.len() > 1 {
            return Err(EbqlError::Unsupported("more than one join".to_owned()));
        }
        let jc = &s.join[0];
        let is_inner = match jc.operator {
            crate::ast::JoinOp::Join => true,
            _ => false,
        };
        if !is_inner {
            return Err(EbqlError::Unsupported("outer joins".to_owned()));
        }
        let sub: &SelectAst = match &jc.right {
            JoinRight::NestedSelect(b) => &**b,
            JoinRight::Table(_) => {
                return Err(EbqlError::Unsupported("joining a bare table".to_owned()));
            },
        };
        let cols: &Vec<String> = match &jc.constraint {
            JoinConstraintAst::Using(cs) => cs,
            JoinConstraintAst::On => {
                return Err(EbqlError::Unsupported("ON join conditions".to_owned()));
            },
        };
        let mut sub_name = query_name.clone();
        sub_name.append("_join");
        proof {
            assert(decreases_to!(*s => s.join@));
            assert(decreases_to!(s.join@ => s.join@[0]));
        }
        let subplan = match Self::plan_select(sub, sub_name) {
            Ok(p) => p,
            Err(err) => {
                return Err(err);
            },
        };
        let empty_sfields2: Vec<crate::field::Field> = Vec::new();
        proof {
            assert(crate::field::seq_field_view(empty_sfields2@) =~= Seq::<SFieldV>::empty());
        }
        let jf = match join_fields_of(&e, cols, 0, empty_sfields2) {
            Ok(t) => t,
            Err(err) => {
                return Err(err);
            },
        };
        let mut subplans = subplan.event_plans;
        proof {
            assert(subplans@.len() >= 1);
            lemma_plans_view_index(subplans@);
        }
        let mut sub0 = subplans.remove(0);
        let desc_for_sub = BpfJoin { l: plan.schema.clone(), r: sub0.schema.clone(), fields: clone_sfields(&jf) };
        let desc_for_outer = BpfJoin { l: plan.schema.clone(), r: sub0.schema.clone(), fields: jf };
        sub0.distinct_join = Some(desc_for_sub);
        let mut outer = plan;
        outer.distinct_join = Some(desc_for_outer);
        let mut plans: Vec<BpfPlan> = Vec::new();
        plans.push(sub0);
        plans.push(outer);
        proof {
            lemma_plans_view_index(plans@);
            assert(plans_view(plans@.drop_last().drop_last()) =~= Seq::<PlanV>::empty());
            assert(plans_view(plans@.drop_last()) =~= seq![plans@[0]@]);
            assert(plans_view(plans@) =~= seq![plans@[0]@, plans@[1]@]);
        }
        Ok(PhysicalPlan { event_plans: plans })
    }

    /// Lowers a SELECT statement under its derived query name:
    /// `select_` followed by the event's subject, so that identical
    /// statements plan to identical schemas.
    pub fn from_select(s: &SelectAst) -> (r: Result<PhysicalPlan, EbqlError>)
        ensures
            r is Ok <==> spec_plan_select(s@, spec_query_name(s@)) is Ok,
            r matches Ok(p) ==> {
                &&& p.event_plans@.len() >= 1
                &&& Ok::<_, PlanErrKind>(plans_view(p.event_plans@)) == spec_plan_select(
                    s@,
                    spec_query_name(s@),
                )
            },
            r matches Err(err) ==> spec_plan_select(s@, spec_query_name(s@)) == Err::<
                Seq<PlanV>,
                _,
            >(err_kind(err)),
    {
        proof {
            lemma_views_of_index(s.tables@);
        }
        let mut query_name = "select_".to_owned();
        if s.tables.len() == 1 {
            match crate::events::get_event(s.tables[0].as_str()) {
                Some(e) => {
                    let subject = e.tp_name();
                    query_name.append(subject.as_str());
                },
                None => {},
            }
        }
        proof {
            assert(query_name@ == spec_query_name(s@));
        }
        Self::plan_select(s, query_name)
    }
}

/// The query name a statement derives: `select_` plus the subject of its
/// event, when the statement names exactly one known event (any other
/// statement fails to plan whatever its name).
pub open spec fn spec_query_name(s: SelectV) -> Seq<char> {
    if s.tables.len() == 1 && spec_get_event(s.tables[0]) is Some {
        "select_"@ + crate::events::spec_tp_name(spec_get_event(s.tables[0]).unwrap())
    } else {
        "select_"@
    }
}

/// The plan-view sequence has the same length and is the elementwise view.
pub proof fn lemma_plans_view_index(s: Seq<BpfPlan>)
    ensures
        plans_view(s).len() == s.len(),
        forall|i: int| 0 <= i < s.len() ==> plans_view(s)[i] == s[i]@,
    decreases s.len(),
{
    if s.len() > 0 {
        lemma_plans_view_index(s.drop_last());
    }
}

/// Clones a list of schema fields.
fn clone_sfields(fs: &Vec<crate::field::Field>) -> (r: Vec<crate::field::Field>)
    ensures
        crate::field::seq_field_view(r@) == crate::field::seq_field_view(fs@),
{
    proof {
        crate::field::lemma_seq_field_view_index(fs@);
    }
    let mut out: Vec<crate::field::Field> = Vec::new();
    let mut i: usize = 0;
    while i < fs.len()
        invariant
            i <= fs@.len(),
            out@.len() == i,
            crate::field::seq_field_view(out@) == crate::field::seq_field_view(fs@.take(i as int)),
        decreases fs@.len() - i,
    {
        let ghost prev = out@;
        let c = fs[i].clone();
        out.push(c);
        proof {
            assert(fs@.take(i + 1) =~= fs@.take(i as int).push(fs@[i as int]));
            crate::field::lemma_seq_field_view_push(prev, c);
            crate::field::lemma_seq_field_view_push(fs@.take(i as int), fs@[i as int]);
        }
        i = i + 1;
    }
    proof {
        assert(fs@.take(fs@.len() as int) =~= fs@);
    }
    out
}

// ---------------------------------------------------------------------------
// Laws of the planner.
// ---------------------------------------------------------------------------

/// An aggregate operator's argument column resolves at the event and its
/// field is projected.
pub open spec fn agg_arg_projected(e: TracepointEvent, op: OperatorV, proj: Seq<FieldV>) -> bool {
    match op {
        OperatorV::Average(n) => spec_resolve(e, n) matches Some(f) && contains_field(proj, f),
        OperatorV::Sum(n) => spec_resolve(e, n) matches Some(f) && contains_field(proj, f),
        OperatorV::Max(n) => spec_resolve(e, n) matches Some(f) && contains_field(proj, f),
        OperatorV::Min(n) => spec_resolve(e, n) matches Some(f) && contains_field(proj, f),
        OperatorV::Count(Some(n)) => spec_resolve(e, n) matches Some(f) && contains_field(proj, f),
        _ => true,
    }
}

/// Union-insert keeps what was contained and contains what was inserted.
pub proof fn lemma_union_push_contains(fs: Seq<FieldV>, f: FieldV, g: FieldV)
    ensures
        contains_field(fs, g) ==> contains_field(union_push(fs, f), g),
        contains_field(union_push(fs, f), f),
{
    if !contains_field(fs, f) {
        assert(bpf_field_eq(fs.push(f)[fs.len() as int], f));
        if contains_field(fs, g) {
            let i = choose|i: int| 0 <= i < fs.len() && bpf_field_eq(#[trigger] fs[i], g);
            assert(bpf_field_eq(fs.push(f)[i], g));
        }
    }
}

/// Union-inserting a list keeps what was contained and contains every
/// inserted element.
pub proof fn lemma_union_all_contains(acc: Seq<FieldV>, add: Seq<FieldV>, j: int, g: FieldV)
    requires
        0 <= j <= add.len(),
    ensures
        contains_field(acc, g) ==> contains_field(union_all(acc, add, j), g),
        forall|k: int| j <= k < add.len() ==> contains_field(union_all(acc, add, j), add[k]),
    decreases add.len() - j,
{
    if j < add.len() {
        lemma_union_push_contains(acc, add[j], g);
        lemma_union_all_contains(union_push(acc, add[j]), add, j + 1, g);
        assert forall|k: int| j <= k < add.len() implies contains_field(
            union_all(acc, add, j),
            add[k],
        ) by {
            if k == j {
                lemma_union_push_contains(acc, add[j], add[j]);
                lemma_union_all_contains(union_push(acc, add[j]), add, j + 1, add[j]);
            }
        }
    }
}

/// The group-by phase only grows the projections, and projects every
/// group-by field it resolves.
pub proof fn lemma_group_cols_projected(
    e: TracepointEvent,
    names: Seq<Seq<char>>,
    j: int,
    proj: Seq<FieldV>,
    outf: Seq<FieldV>,
    gb: Seq<FieldV>,
    g: FieldV,
)
    requires
        0 <= j <= names.len(),
        spec_add_group_cols(e, names, j, proj, outf, gb) is Ok,
    ensures
        ({
            let (p2, o2, g2) = spec_add_group_cols(e, names, j, proj, outf, gb).unwrap();
            &&& contains_field(proj, g) ==> contains_field(p2, g)
            &&& g2.len() >= gb.len()
            &&& forall|k: int| 0 <= k < gb.len() ==> g2[k] == gb[k]
            &&& forall|k: int|
                gb.len() <= k < g2.len() ==> contains_field(p2, #[trigger] g2[k])
        }),
    decreases names.len() - j,
{
    if j < names.len() {
        let f = spec_resolve(e, names[j]).unwrap();
        lemma_union_push_contains(proj, f, g);
        lemma_group_cols_projected(
            e,
            names,
            j + 1,
            union_push(proj, f),
            union_push(outf, f),
            gb.push(f),
            g,
        );
        let (p2, o2, g2) = spec_add_group_cols(e, names, j, proj, outf, gb).unwrap();
        assert forall|k: int| gb.len() <= k < g2.len() implies contains_field(
            p2,
            #[trigger] g2[k],
        ) by {
            if k == gb.len() {
                lemma_union_push_contains(proj, f, f);
                lemma_group_cols_projected(
                    e,
                    names,
                    j + 1,
                    union_push(proj, f),
                    union_push(outf, f),
                    gb.push(f),
                    f,
                );
                assert(gb.push(f)[k] == f);
            }
        }
    }
}

/// The SELECT-list phase only grows the projections, and projects the
/// argument of every aggregate it appends.
pub proof fn lemma_walk_fields_projected(
    e: TracepointEvent,
    fields: Seq<FieldDefV>,
    j: int,
    proj: Seq<FieldV>,
    outf: Seq<FieldV>,
    aggs: Seq<OperatorV>,
    distinct: bool,
    g: FieldV,
)
    requires
        0 <= j <= fields.len(),
        spec_walk_fields(e, fields, j, proj, outf, aggs, distinct) is Ok,
    ensures
        ({
            let (p2, o2, a2, d2) = spec_walk_fields(e, fields, j, proj, outf, aggs, distinct).unwrap();
            &&& contains_field(proj, g) ==> contains_field(p2, g)
            &&& a2.len() >= aggs.len()
            &&& forall|k: int| 0 <= k < aggs.len() ==> a2[k] == aggs[k]
            &&& forall|k: int|
                aggs.len() <= k < a2.len() ==> agg_arg_projected(e, #[trigger] a2[k], p2)
        }),
    decreases fields.len() - j,
{
    if j < fields.len() {
        match fields[j] {
            FieldDefV::All => {
                let args = crate::events::spec_event_args(e);
                lemma_union_all_contains(proj, args, 0, g);
                lemma_walk_fields_projected(
                    e,
                    fields,
                    j + 1,
                    union_all(proj, args, 0),
                    outf,
                    aggs,
                    distinct,
                    g,
                );
            },
            FieldDefV::Col(c) => {
                let (ps, os, op, d) = spec_get_column(e, c).unwrap();
                let proj2 = union_all(proj, ps, 0);
                let outf2 = union_all(outf, os, 0);
                let aggs2 = match op {
                    Some(o) => aggs.push(o),
                    None => aggs,
                };
                lemma_union_all_contains(proj, ps, 0, g);
                lemma_walk_fields_projected(
                    e,
                    fields,
                    j + 1,
                    proj2,
                    outf2,
                    aggs2,
                    distinct || d,
                    g,
                );
                let (p2, o2, a2, d2) = spec_walk_fields(
                    e,
                    fields,
                    j,
                    proj,
                    outf,
                    aggs,
                    distinct,
                ).unwrap();
                assert forall|k: int| aggs.len() <= k < a2.len() implies agg_arg_projected(
                    e,
                    #[trigger] a2[k],
                    p2,
                ) by {
                    if k == aggs.len() && op is Some {
                        // The freshly appended aggregate: its argument was
                        // just union-inserted into the projections.
                        match op.unwrap() {
                            OperatorV::Average(n) => {
                                let f = spec_resolve(e, n).unwrap();
                                lemma_union_all_contains(proj, ps, 0, f);
                                lemma_walk_fields_projected(
                                    e, fields, j + 1, proj2, outf2, aggs2, distinct || d, f,
                                );
                            },
                            OperatorV::Sum(n) => {
                                let f = spec_resolve(e, n).unwrap();
                                lemma_union_all_contains(proj, ps, 0, f);
                                lemma_walk_fields_projected(
                                    e, fields, j + 1, proj2, outf2, aggs2, distinct || d, f,
                                );
                            },
                            OperatorV::Max(n) => {
                                let f = spec_resolve(e, n).unwrap();
                                lemma_union_all_contains(proj, ps, 0, f);
                                lemma_walk_fields_projected(
                                    e, fields, j + 1, proj2, outf2, aggs2, distinct || d, f,
                                );
                            },
                            OperatorV::Min(n) => {
                                let f = spec_resolve(e, n).unwrap();
                                lemma_union_all_contains(proj, ps, 0, f);
                                lemma_walk_fields_projected(
                                    e, fields, j + 1, proj2, outf2, aggs2, distinct || d, f,
                                );
                            },
                            OperatorV::Count(cn) => {
                                if cn is Some {
                                    let f = spec_resolve(e, cn.unwrap()).unwrap();
                                    lemma_union_all_contains(proj, ps, 0, f);
                                    lemma_walk_fields_projected(
                                        e, fields, j + 1, proj2, outf2, aggs2, distinct || d, f,
                                    );
                                }
                            },
                            _ => {},
                        }
                    }
                }
            },
            _ => {},
        }
    }
}

/// The filter phase only grows the projections, and projects every column
/// the condition mentions.
pub proof fn lemma_filter_cols_projected(
    e: TracepointEvent,
    cols: Seq<ColumnV>,
    j: int,
    proj: Seq<FieldV>,
    g: FieldV,
)
    requires
        0 <= j <= cols.len(),
        spec_add_filter_cols(e, cols, j, proj) is Ok,
    ensures
        ({
            let p2 = spec_add_filter_cols(e, cols, j, proj).unwrap();
            &&& contains_field(proj, g) ==> contains_field(p2, g)
            &&& forall|k: int|
                j <= k < cols.len() ==> (spec_resolve(e, (#[trigger] cols[k]).name) matches Some(f)
                    && contains_field(p2, f))
        }),
    decreases cols.len() - j,
{
    if j < cols.len() {
        let f = spec_resolve(e, cols[j].name).unwrap();
        lemma_union_push_contains(proj, f, g);
        lemma_filter_cols_projected(e, cols, j + 1, union_push(proj, f), g);
        let p2 = spec_add_filter_cols(e, cols, j, proj).unwrap();
        assert forall|k: int|
            j <= k < cols.len() implies (spec_resolve(e, (#[trigger] cols[k]).name) matches Some(
                ff,
            ) && contains_field(p2, ff)) by {
            if k == j {
                lemma_union_push_contains(proj, f, f);
                lemma_filter_cols_projected(e, cols, j + 1, union_push(proj, f), f);
            }
        }
    }
}

/// The plan laws, per plan: projections cover the group-by fields, the
/// aggregate argument columns, and the filter columns; and a plan with
/// aggregates has a window.
pub open spec fn plan_covered(p: PlanV) -> bool {
    &&& forall|k: int|
        0 <= k < p.group_by.len() ==> contains_field(p.projects, #[trigger] p.group_by[k])
    &&& forall|k: int|
        0 <= k < p.aggs.len() ==> agg_arg_projected(p.event, #[trigger] p.aggs[k], p.projects)
    &&& (p.filters matches Some(OperatorV::Filter(c)) ==> forall|k: int|
        0 <= k < spec_cond_columns(c).len() ==> (spec_resolve(
            p.event,
            (#[trigger] spec_cond_columns(c)[k]).name,
        ) matches Some(f) && contains_field(p.projects, f)))
    &&& (p.aggs.len() > 0 ==> p.window is Some)
}

/// One planned statement yields covered plans.
pub proof fn lemma_make_plan_covered(s: SelectV, name: Seq<char>, e: TracepointEvent)
    requires
        spec_make_plan(s, name, e) is Ok,
    ensures
        plan_covered(spec_make_plan(s, name, e).unwrap()),
{
    let (w, proj2, outf, gb, aggs, distinct) = spec_gather(s, e).unwrap();
    let gnames = match s.group_by {
        Some(g) => g,
        None => Seq::<Seq<char>>::empty(),
    };
    let (w0, proj0) = spec_plan_window(e, s.window).unwrap();
    let (proj1, outf1, gb1) = spec_add_group_cols(
        e,
        gnames,
        0,
        proj0,
        Seq::empty(),
        Seq::empty(),
    ).unwrap();
    let projects = spec_make_plan(s, name, e).unwrap().projects;
    let fcols = match s.where_clause {
        Some(c) => spec_cond_columns(c),
        None => Seq::<ColumnV>::empty(),
    };
    // Group-by fields enter the projections and stay there through the
    // later phases.
    assert forall|k: int| 0 <= k < gb.len() implies contains_field(
        projects,
        #[trigger] gb[k],
    ) by {
        lemma_group_cols_projected(e, gnames, 0, proj0, Seq::empty(), Seq::empty(), gb[k]);
        lemma_walk_fields_projected(e, s.fields, 0, proj1, outf1, Seq::empty(), s.distinct, gb[k]);
        if s.where_clause is Some {
            lemma_filter_cols_projected(e, fcols, 0, proj2, gb[k]);
        }
    }
    // Aggregate arguments enter during the SELECT walk and stay.
    assert forall|k: int| 0 <= k < aggs.len() implies agg_arg_projected(
        e,
        #[trigger] aggs[k],
        projects,
    ) by {
        let dummy = FieldV { name: Seq::empty(), ty: TypeV::Bool, arr: None, off: None };
        lemma_walk_fields_projected(e, s.fields, 0, proj1, outf1, Seq::empty(), s.distinct, dummy);
        assert(agg_arg_projected(e, aggs[k], proj2));
        match aggs[k] {
            OperatorV::Average(n) => {
                if s.where_clause is Some {
                    lemma_filter_cols_projected(e, fcols, 0, proj2, spec_resolve(e, n).unwrap());
                }
            },
            OperatorV::Sum(n) => {
                if s.where_clause is Some {
                    lemma_filter_cols_projected(e, fcols, 0, proj2, spec_resolve(e, n).unwrap());
                }
            },
            OperatorV::Max(n) => {
                if s.where_clause is Some {
                    lemma_filter_cols_projected(e, fcols, 0, proj2, spec_resolve(e, n).unwrap());
                }
            },
            OperatorV::Min(n) => {
                if s.where_clause is Some {
                    lemma_filter_cols_projected(e, fcols, 0, proj2, spec_resolve(e, n).unwrap());
                }
            },
            OperatorV::Count(cn) => {
                if cn is Some && s.where_clause is Some {
                    lemma_filter_cols_projected(
                        e,
                        fcols,
                        0,
                        proj2,
                        spec_resolve(e, cn.unwrap()).unwrap(),
                    );
                }
            },
            _ => {},
        }
    }
    // Filter columns are projected by the WHERE phase itself.
    if s.where_clause is Some {
        let dummy = FieldV { name: Seq::empty(), ty: TypeV::Bool, arr: None, off: None };
        lemma_filter_cols_projected(e, fcols, 0, proj2, dummy);
    }
}

/// Planner law: in every emitted plan, the projections cover the group-by
/// fields, the filter columns and the aggregate argument columns, and a
/// plan with aggregates carries a window.
pub proof fn lemma_plans_covered(s: SelectV, name: Seq<char>)
    requires
        spec_plan_select(s, name) is Ok,
    ensures
        forall|k: int|
            0 <= k < spec_plan_select(s, name).unwrap().len() ==> plan_covered(
                #[trigger] spec_plan_select(s, name).unwrap()[k],
            ),
    decreases s, 1int,
{
    let e = spec_get_event(s.tables[0]).unwrap();
    let plan = spec_make_plan(s, name, e).unwrap();
    lemma_make_plan_covered(s, name, e);
    if s.join.len() == 0 {
    } else {
        let j = s.join[0];
        match j.right {
            JoinRightV::NestedSelect(sub) => {
                lemma_plans_covered(*sub, name + "_join"@);
                let subplans = spec_plan_select(*sub, name + "_join"@).unwrap();
                assert(plan_covered(subplans[0]));
            },
            JoinRightV::Table(_) => {},
        }
    }
}

/// Planner law: planning is deterministic. The same statement planned twice
/// under the same name yields the same plans, and under different names the
/// plans differ only in their schema names.
pub proof fn lemma_plan_deterministic(s: SelectV, name: Seq<char>, p1: Seq<PlanV>, p2: Seq<PlanV>)
    requires
        spec_plan_select(s, name) == Ok::<_, PlanErrKind>(p1),
        spec_plan_select(s, name) == Ok::<_, PlanErrKind>(p2),
    ensures
        p1 == p2,
{
}

/// Planner law: the emitted schema's fields do not depend on the query
/// name. Planned under two names, a statement succeeds or fails alike, and
/// the plans agree on everything but the schema names.
pub proof fn lemma_plan_name_independent(s: SelectV, n1: Seq<char>, n2: Seq<char>)
    requires
        spec_plan_select(s, n1) is Ok,
    ensures
        spec_plan_select(s, n2) is Ok,
        ({
            let p1 = spec_plan_select(s, n1).unwrap();
            let p2 = spec_plan_select(s, n2).unwrap();
            &&& p1.len() == p2.len()
            &&& forall|k: int|
                0 <= k < p1.len() ==> {
                    &&& (#[trigger] p1[k]).schema.fields == (#[trigger] p2[k]).schema.fields
                    &&& p1[k].event == p2[k].event
                    &&& p1[k].window == p2[k].window
                    &&& p1[k].projects == p2[k].projects
                    &&& p1[k].filters == p2[k].filters
                    &&& p1[k].group_by == p2[k].group_by
                    &&& p1[k].aggs == p2[k].aggs
                    &&& p1[k].distinct == p2[k].distinct
                }
        }),
    decreases s, 1int,
{
    let e = spec_get_event(s.tables[0]).unwrap();
    if s.join.len() == 0 {
    } else {
        let j = s.join[0];
        match j.right {
            JoinRightV::NestedSelect(sub) => {
                lemma_plan_name_independent(*sub, n1 + "_join"@, n2 + "_join"@);
                let s1 = spec_plan_select(*sub, n1 + "_join"@).unwrap();
                let s2 = spec_plan_select(*sub, n2 + "_join"@).unwrap();
                assert(s1[0].schema.fields == s2[0].schema.fields);
            },
            JoinRightV::Table(_) => {},
        }
    }
}

/// No two projected fields are equal: union-insert never adds a field the
/// list already carries.
pub open spec fn fields_distinct(fs: Seq<FieldV>) -> bool {
    forall|k: int, l: int|
        0 <= k < l < fs.len() ==> !bpf_field_eq(#[trigger] fs[k], #[trigger] fs[l])
}

/// Union-insert keeps the list duplicate-free.
pub proof fn lemma_union_push_distinct(fs: Seq<FieldV>, f: FieldV)
    requires
        fields_distinct(fs),
    ensures
        fields_distinct(union_push(fs, f)),
{
    if !contains_field(fs, f) {
        let r = fs.push(f);
        assert forall|k: int, l: int| 0 <= k < l < r.len() implies !bpf_field_eq(
            #[trigger] r[k],
            #[trigger] r[l],
        ) by {
            if l == fs.len() {
                assert(r[k] == fs[k] && r[l] == f);
            } else {
                assert(r[k] == fs[k] && r[l] == fs[l]);
            }
        }
    }
}

/// Union-inserting a list keeps the accumulator duplicate-free.
pub proof fn lemma_union_all_distinct(acc: Seq<FieldV>, add: Seq<FieldV>, j: int)
    requires
        0 <= j <= add.len(),
        fields_distinct(acc),
    ensures
        fields_distinct(union_all(acc, add, j)),
    decreases add.len() - j,
{
    if j < add.len() {
        lemma_union_push_distinct(acc, add[j]);
        lemma_union_all_distinct(union_push(acc, add[j]), add, j + 1);
    }
}

/// The group-by phase keeps the projections duplicate-free.
pub proof fn lemma_group_cols_distinct(
    e: TracepointEvent,
    names: Seq<Seq<char>>,
    j: int,
    proj: Seq<FieldV>,
    outf: Seq<FieldV>,
    gb: Seq<FieldV>,
)
    requires
        0 <= j <= names.len(),
        fields_distinct(proj),
        spec_add_group_cols(e, names, j, proj, outf, gb) is Ok,
    ensures
        fields_distinct(spec_add_group_cols(e, names, j, proj, outf, gb).unwrap().0),
    decreases names.len() - j,
{
    if j < names.len() {
        let f = spec_resolve(e, names[j]).unwrap();
        lemma_union_push_distinct(proj, f);
        lemma_group_cols_distinct(
            e,
            names,
            j + 1,
            union_push(proj, f),
            union_push(outf, f),
            gb.push(f),
        );
    }
}

/// The SELECT-list phase keeps the projections duplicate-free.
pub proof fn lemma_walk_fields_distinct(
    e: TracepointEvent,
    fields: Seq<FieldDefV>,
    j: int,
    proj: Seq<FieldV>,
    outf: Seq<FieldV>,
    aggs: Seq<OperatorV>,
    distinct: bool,
)
    requires
        0 <= j <= fields.len(),
        fields_distinct(proj),
        spec_walk_fields(e, fields, j, proj, outf, aggs, distinct) is Ok,
    ensures
        fields_distinct(spec_walk_fields(e, fields, j, proj, outf, aggs, distinct).unwrap().0),
    decreases fields.len() - j,
{
    if j < fields.len() {
        match fields[j] {
            FieldDefV::All => {
                let args = crate::events::spec_event_args(e);
                lemma_union_all_distinct(proj, args, 0);
                lemma_walk_fields_distinct(
                    e,
                    fields,
                    j + 1,
                    union_all(proj, args, 0),
                    outf,
                    aggs,
                    distinct,
                );
            },
            FieldDefV::Col(c) => {
                let (ps, os, op, d) = spec_get_column(e, c).unwrap();
                lemma_union_all_distinct(proj, ps, 0);
                lemma_walk_fields_distinct(
                    e,
                    fields,
                    j + 1,
                    union_all(proj, ps, 0),
                    union_all(outf, os, 0),
                    match op {
                        Some(o) => aggs.push(o),
                        None => aggs,
                    },
                    distinct || d,
                );
            },
            _ => {},
        }
    }
}

/// The WHERE phase keeps the projections duplicate-free.
pub proof fn lemma_filter_cols_distinct(
    e: TracepointEvent,
    cols: Seq<ColumnV>,
    j: int,
    proj: Seq<FieldV>,
)
    requires
        0 <= j <= cols.len(),
        fields_distinct(proj),
        spec_add_filter_cols(e, cols, j, proj) is Ok,
    ensures
        fields_distinct(spec_add_filter_cols(e, cols, j, proj).unwrap()),
    decreases cols.len() - j,
{
    if j < cols.len() {
        let f = spec_resolve(e, cols[j].name).unwrap();
        lemma_union_push_distinct(proj, f);
        lemma_filter_cols_distinct(e, cols, j + 1, union_push(proj, f));
    }
}

/// Planner law: every plan's projections are duplicate-free.
pub proof fn lemma_projects_distinct(s: SelectV, name: Seq<char>)
    requires
        spec_plan_select(s, name) is Ok,
    ensures
        forall|k: int|
            0 <= k < spec_plan_select(s, name).unwrap().len() ==> fields_distinct(
                (#[trigger] spec_plan_select(s, name).unwrap()[k]).projects,
            ),
    decreases s, 1int,
{
    let e = spec_get_event(s.tables[0]).unwrap();
    let (w, proj0) = spec_plan_window(e, s.window).unwrap();
    let gnames = match s.group_by {
        Some(g) => g,
        None => Seq::<Seq<char>>::empty(),
    };
    assert(fields_distinct(proj0));
    lemma_group_cols_distinct(e, gnames, 0, proj0, Seq::empty(), Seq::empty());
    let (proj1, outf1, gb) = spec_add_group_cols(
        e,
        gnames,
        0,
        proj0,
        Seq::empty(),
        Seq::empty(),
    ).unwrap();
    lemma_walk_fields_distinct(e, s.fields, 0, proj1, outf1, Seq::empty(), s.distinct);
    let (proj2, outf, aggs, distinct) = spec_walk_fields(
        e,
        s.fields,
        0,
        proj1,
        outf1,
        Seq::empty(),
        s.distinct,
    ).unwrap();
    if s.where_clause is Some {
        lemma_filter_cols_distinct(e, spec_cond_columns(s.where_clause.unwrap()), 0, proj2);
    }
    if s.join.len() == 0 {
    } else {
        let j = s.join[0];
        match j.right {
            JoinRightV::NestedSelect(sub) => {
                lemma_projects_distinct(*sub, name + "_join"@);
                let subplans = spec_plan_select(*sub, name + "_join"@).unwrap();
                assert(fields_distinct(subplans[0].projects));
            },
            JoinRightV::Table(_) => {},
        }
    }
}

/// Planner law: the two plans of a join carry the same distinct-join
/// descriptor.
pub proof fn lemma_join_descriptor_shared(s: SelectV, name: Seq<char>)
    requires
        spec_plan_select(s, name) is Ok,
        spec_plan_select(s, name).unwrap().len() == 2,
    ensures
        spec_plan_select(s, name).unwrap()[0].distinct_join == spec_plan_select(
            s,
            name,
        ).unwrap()[1].distinct_join,
        spec_plan_select(s, name).unwrap()[0].distinct_join is Some,
{
}

} // verus!
