//! The operator algebra of a plan, and the condition expressions of WHERE
//! clauses.

use vstd::prelude::*;

verus! {

use crate::events::TracepointEvent;
use crate::views::views_of;

/// A literal value in a condition.
#[derive(Debug)]
pub enum LitValue {
    Int(i64),
    UInt(u64),
    Str(String),
}

/// Mathematical model of a literal.
pub enum LitV {
    Int(i64),
    UInt(u64),
    Str(Seq<char>),
}

impl View for LitValue {
    type V = LitV;

    open spec fn view(&self) -> LitV {
        match self {
            LitValue::Int(v) => LitV::Int(*v),
            LitValue::UInt(v) => LitV::UInt(*v),
            LitValue::Str(s) => LitV::Str(s@),
        }
    }
}

impl Clone for LitValue {
    fn clone(&self) -> (r: Self)
        ensures
            r@ == self@,
    {
        match self {
            LitValue::Int(v) => LitValue::Int(*v),
            LitValue::UInt(v) => LitValue::UInt(*v),
            LitValue::Str(s) => LitValue::Str(s.clone()),
        }
    }
}

/// The argument of an aggregate function: a column name, and whether the
/// argument itself carries a nested function (which the planner rejects).
#[derive(Debug)]
pub struct AggArg {
    pub name: String,
    pub nested: bool,
}

pub struct AggArgV {
    pub name: Seq<char>,
    pub nested: bool,
}

impl View for AggArg {
    type V = AggArgV;

    open spec fn view(&self) -> AggArgV {
        AggArgV { name: self.name@, nested: self.nested }
    }
}

impl Clone for AggArg {
    fn clone(&self) -> (r: Self)
        ensures
            r@ == self@,
    {
        AggArg { name: self.name.clone(), nested: self.nested }
    }
}

/// An aggregate function over a column. The `bool` marks `DISTINCT` inside
/// the aggregate.
#[derive(Debug)]
pub enum AggFn {
    Avg(AggArg, bool),
    Count(AggArg, bool),
    CountStar,
    Sum(AggArg, bool),
    Max(AggArg),
    Min(AggArg),
    GroupConcat,
    Generic,
}

pub enum AggFnV {
    Avg(AggArgV, bool),
    Count(AggArgV, bool),
    CountStar,
    Sum(AggArgV, bool),
    Max(AggArgV),
    Min(AggArgV),
    GroupConcat,
    Generic,
}

impl View for AggFn {
    type V = AggFnV;

    open spec fn view(&self) -> AggFnV {
        match self {
            AggFn::Avg(a, d) => AggFnV::Avg(a@, *d),
            AggFn::Count(a, d) => AggFnV::Count(a@, *d),
            AggFn::CountStar => AggFnV::CountStar,
            AggFn::Sum(a, d) => AggFnV::Sum(a@, *d),
            AggFn::Max(a) => AggFnV::Max(a@),
            AggFn::Min(a) => AggFnV::Min(a@),
            AggFn::GroupConcat => AggFnV::GroupConcat,
            AggFn::Generic => AggFnV::Generic,
        }
    }
}

impl Clone for AggFn {
    fn clone(&self) -> (r: Self)
        ensures
            r@ == self@,
    {
        match self {
            AggFn::Avg(a, d) => AggFn::Avg(a.clone(), *d),
            AggFn::Count(a, d) => AggFn::Count(a.clone(), *d),
            AggFn::CountStar => AggFn::CountStar,
            AggFn::Sum(a, d) => AggFn::Sum(a.clone(), *d),
            AggFn::Max(a) => AggFn::Max(a.clone()),
            AggFn::Min(a) => AggFn::Min(a.clone()),
            AggFn::GroupConcat => AggFn::GroupConcat,
            AggFn::Generic => AggFn::Generic,
        }
    }
}

/// A column reference in a SELECT list or a condition, optionally wrapped
/// in an aggregate function.
#[derive(Debug)]
pub struct Column {
    pub name: String,
    pub function: Option<AggFn>,
}

pub struct ColumnV {
    pub name: Seq<char>,
    pub function: Option<AggFnV>,
}

impl View for Column {
    type V = ColumnV;

    open spec fn view(&self) -> ColumnV {
        ColumnV {
            name: self.name@,
            function: match &self.function {
                Some(f) => Some(f.view()),
                None => None,
            },
        }
    }
}

impl Clone for Column {
    fn clone(&self) -> (r: Self)
        ensures
            r@ == self@,
    {
        Column {
            name: self.name.clone(),
            function: match &self.function {
                Some(f) => Some(f.clone()),
                None => None,
            },
        }
    }
}

/// Comparison operators of the condition grammar.
#[derive(Debug, Clone, Copy, PartialEq, Eq, Structural)]
pub enum CmpOp {
    Equal,
    NotEqual,
    Less,
    LessOrEqual,
    Greater,
    GreaterOrEqual,
}

/// Logical connectives of the condition grammar.
#[derive(Debug, Clone, Copy, PartialEq, Eq, Structural)]
pub enum LogOp {
    And,
    Or,
}

/// The leaf of a condition: a column or a literal.
#[derive(Debug)]
pub enum CondBase {
    Col(Column),
    Lit(LitValue),
}

pub enum CondBaseV {
    Col(ColumnV),
    Lit(LitV),
}

impl View for CondBase {
    type V = CondBaseV;

    open spec fn view(&self) -> CondBaseV {
        match self {
            CondBase::Col(c) => CondBaseV::Col(c@),
            CondBase::Lit(l) => CondBaseV::Lit(l@),
        }
    }
}

impl Clone for CondBase {
    fn clone(&self) -> (r: Self)
        ensures
            r@ == self@,
    {
        match self {
            CondBase::Col(c) => CondBase::Col(c.clone()),
            CondBase::Lit(l) => CondBase::Lit(l.clone()),
        }
    }
}

/// A WHERE condition tree.
#[derive(Debug)]
pub enum CondExpr {
    Base(CondBase),
    Comparison(CmpOp, Box<CondExpr>, Box<CondExpr>),
    Logical(LogOp, Box<CondExpr>, Box<CondExpr>),
}

pub enum CondV {
    Base(CondBaseV),
    Comparison(CmpOp, Box<CondV>, Box<CondV>),
    Logical(LogOp, Box<CondV>, Box<CondV>),
}

pub open spec fn cond_view(c: CondExpr) -> CondV
    decreases c,
{
    match c {
        CondExpr::Base(b) => CondV::Base(b.view()),
        CondExpr::Comparison(op, l, r) => CondV::Comparison(
            op,
            Box::new(cond_view(*l)),
            Box::new(cond_view(*r)),
        ),
        CondExpr::Logical(op, l, r) => CondV::Logical(
            op,
            Box::new(cond_view(*l)),
            Box::new(cond_view(*r)),
        ),
    }
}

impl View for CondExpr {
    type V = CondV;

    open spec fn view(&self) -> CondV {
        cond_view(*self)
    }
}

impl Clone for CondExpr {
    fn clone(&self) -> (r: Self)
        ensures
            r@ == self@,
        decreases *self,
    {
        match self {
            CondExpr::Base(b) => CondExpr::Base(b.clone()),
            CondExpr::Comparison(op, l, r) => CondExpr::Comparison(
                *op,
                Box::new((**l).clone()),
                Box::new((**r).clone()),
            ),
            CondExpr::Logical(op, l, r) => CondExpr::Logical(
                *op,
                Box::new((**l).clone()),
                Box::new((**r).clone()),
            ),
        }
    }
}

/// The negated form of a comparison operator, as the generated filter
/// branches out when the condition fails.
pub open spec fn spec_negate_cmp(op: CmpOp) -> CmpOp {
    match op {
        CmpOp::Equal => CmpOp::NotEqual,
        CmpOp::NotEqual => CmpOp::Equal,
        CmpOp::Less => CmpOp::GreaterOrEqual,
        CmpOp::LessOrEqual => CmpOp::Greater,
        CmpOp::Greater => CmpOp::LessOrEqual,
        CmpOp::GreaterOrEqual => CmpOp::Less,
    }
}

/// Filter lowering: the structural negation of a condition. Comparisons
/// flip their operator, conjunctions and disjunctions swap and negate their
/// operands, leaves stay.
pub open spec fn spec_lower_cond(c: CondV) -> CondV
    decreases c,
{
    match c {
        CondV::Base(b) => CondV::Base(b),
        CondV::Comparison(op, l, r) => CondV::Comparison(spec_negate_cmp(op), l, r),
        CondV::Logical(op, l, r) => CondV::Logical(
            match op {
                LogOp::And => LogOp::Or,
                LogOp::Or => LogOp::And,
            },
            Box::new(spec_lower_cond(*l)),
            Box::new(spec_lower_cond(*r)),
        ),
    }
}

/// Negating a comparison operator twice restores it.
pub proof fn lemma_negate_cmp_involution(op: CmpOp)
    ensures
        spec_negate_cmp(spec_negate_cmp(op)) == op,
{
}

/// Filter lowering is an involution: applying it twice yields the original
/// condition.
pub proof fn lemma_lower_cond_involution(c: CondV)
    ensures
        spec_lower_cond(spec_lower_cond(c)) == c,
    decreases c,
{
    match c {
        CondV::Base(_) => {},
        CondV::Comparison(op, l, r) => {
            lemma_negate_cmp_involution(op);
        },
        CondV::Logical(op, l, r) => {
            lemma_lower_cond_involution(*l);
            lemma_lower_cond_involution(*r);
        },
    }
}

/// Lowers a condition for the generated filter, negating it structurally.
pub fn lower_condition(c: &CondExpr) -> (r: CondExpr)
    ensures
        r@ == spec_lower_cond(c@),
    decreases *c,
{
    match c {
        CondExpr::Base(b) => CondExpr::Base(b.clone()),
        CondExpr::Comparison(op, l, r) => {
            let nop = match op {
                CmpOp::Equal => CmpOp::NotEqual,
                CmpOp::NotEqual => CmpOp::Equal,
                CmpOp::Less => CmpOp::GreaterOrEqual,
                CmpOp::LessOrEqual => CmpOp::Greater,
                CmpOp::Greater => CmpOp::LessOrEqual,
                CmpOp::GreaterOrEqual => CmpOp::Less,
            };
            CondExpr::Comparison(nop, Box::new((**l).clone()), Box::new((**r).clone()))
        },
        CondExpr::Logical(op, l, r) => {
            let nop = match op {
                LogOp::And => LogOp::Or,
                LogOp::Or => LogOp::And,
            };
            CondExpr::Logical(nop, Box::new(lower_condition(&**l)), Box::new(lower_condition(&**r)))
        },
    }
}

/// The columns a condition mentions, left to right.
pub open spec fn spec_cond_columns(c: CondV) -> Seq<ColumnV>
    decreases c,
{
    match c {
        CondV::Base(CondBaseV::Col(col)) => seq![col],
        CondV::Base(CondBaseV::Lit(_)) => Seq::empty(),
        CondV::Comparison(_, l, r) => spec_cond_columns(*l) + spec_cond_columns(*r),
        CondV::Logical(_, l, r) => spec_cond_columns(*l) + spec_cond_columns(*r),
    }
}

/// A map expression: arithmetic over two columns, optionally renamed.
#[derive(Debug)]
pub struct MapExpression {
    pub alias: Option<String>,
    pub left: Column,
    pub op: ArithOp,
    pub right: Column,
}

/// Arithmetic operators of map expressions.
#[derive(Debug, Clone, Copy, PartialEq, Eq, Structural)]
pub enum ArithOp {
    Add,
    Subtract,
    Multiply,
    Divide,
}

pub struct MapExpressionV {
    pub alias: Option<Seq<char>>,
    pub left: ColumnV,
    pub op: ArithOp,
    pub right: ColumnV,
}

impl View for MapExpression {
    type V = MapExpressionV;

    open spec fn view(&self) -> MapExpressionV {
        MapExpressionV {
            alias: match &self.alias {
                Some(a) => Some(a.view()),
                None => None,
            },
            left: self.left@,
            op: self.op,
            right: self.right@,
        }
    }
}

/// Predicate representation, reserved for userspace filtering.
#[derive(Debug, Clone, Copy, PartialEq, Eq, Structural)]
pub enum Predicate {
    Always,
}

/// Value reference: an instantiated data value, or another field.
#[derive(Debug)]
pub enum Ref {
    Field(crate::field::Field),
    Value(crate::record::DataValue),
}

/// The window kinds a query can declare: tumbling or stepping time windows
/// (interval and step in nanoseconds), count windows, or session windows
/// (inactivity threshold in nanoseconds). Only tumbling time and count
/// windows are realisable in the kernel.
#[derive(Debug, Clone, Copy, PartialEq, Eq, Structural)]
pub enum WindowType {
    Time(u64, u64),
    Count(u64, u64),
    Session(u64),
}

/// A physical operator of a plan.
#[derive(Debug)]
pub enum Operator {
    /// Creates a window of the specified type.
    Window(WindowType),
    /// Selects from an eBPF event.
    Select(TracepointEvent),
    /// Projects only the specified fields.
    Project(Vec<String>),
    /// Applies the predicate on the specified fields.
    Filter(CondExpr),
    /// Maps a collection of fields to a new value.
    MapExpr(MapExpression),
    /// Maps a field in place to a new value.
    MapInPlace(String, MapExpression),
    /// Group-by keys.
    GroupBy(Vec<String>),
    /// Histogram buckets.
    Histogram(Vec<(u64, u64)>),
    /// Quantile (in percent), over a histogram.
    Quantile(u64),
    Max(String),
    Min(String),
    Average(String),
    Sum(String),
    /// Counts all values, or those grouped on a column.
    Count(Option<String>),
    /// Join by keys.
    Join(Vec<String>),
    /// Join by keys with duplicate suppression.
    DistinctJoin(Vec<String>),
}

pub enum OperatorV {
    Window(WindowType),
    Select(TracepointEvent),
    Project(Seq<Seq<char>>),
    Filter(CondV),
    MapExpr(MapExpressionV),
    MapInPlace(Seq<char>, MapExpressionV),
    GroupBy(Seq<Seq<char>>),
    Histogram(Seq<(u64, u64)>),
    Quantile(u64),
    Max(Seq<char>),
    Min(Seq<char>),
    Average(Seq<char>),
    Sum(Seq<char>),
    Count(Option<Seq<char>>),
    Join(Seq<Seq<char>>),
    DistinctJoin(Seq<Seq<char>>),
}

impl View for Operator {
    type V = OperatorV;

    open spec fn view(&self) -> OperatorV {
        match self {
            Operator::Window(w) => OperatorV::Window(*w),
            Operator::Select(e) => OperatorV::Select(*e),
            Operator::Project(fs) => OperatorV::Project(views_of(fs@)),
            Operator::Filter(c) => OperatorV::Filter(c@),
            Operator::MapExpr(m) => OperatorV::MapExpr(m@),
            Operator::MapInPlace(n, m) => OperatorV::MapInPlace(n@, m@),
            Operator::GroupBy(gs) => OperatorV::GroupBy(views_of(gs@)),
            Operator::Histogram(bs) => OperatorV::Histogram(bs@),
            Operator::Quantile(q) => OperatorV::Quantile(*q),
            Operator::Max(s) => OperatorV::Max(s@),
            Operator::Min(s) => OperatorV::Min(s@),
            Operator::Average(s) => OperatorV::Average(s@),
            Operator::Sum(s) => OperatorV::Sum(s@),
            Operator::Count(c) => OperatorV::Count(
                match c {
                    Some(s) => Some(s.view()),
                    None => None,
                },
            ),
            Operator::Join(js) => OperatorV::Join(views_of(js@)),
            Operator::DistinctJoin(js) => OperatorV::DistinctJoin(views_of(js@)),
        }
    }
}

} // verus!
