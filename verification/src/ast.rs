//! The SELECT statement the planner consumes.
//!
//! The SQL front end is an external collaborator: it is assumed to yield
//! this AST. One statement selects columns (plain or aggregated) from one
//! event, with an optional WHERE tree, GROUP BY list, window clause, and at
//! most one join against a nested SELECT.

use vstd::prelude::*;

verus! {

use crate::operators::{Column, ColumnV, CondExpr, CondV, WindowType};
use crate::views::views_of;

/// One entry of the SELECT list.
#[derive(Debug)]
pub enum FieldDef {
    /// `*`: every argument of the event.
    All,
    /// `table.*`.
    AllInTable(String),
    /// A column, plain or aggregated.
    Col(Column),
    /// A computed value expression.
    Value,
}

pub enum FieldDefV {
    All,
    AllInTable(Seq<char>),
    Col(ColumnV),
    Value,
}

impl View for FieldDef {
    type V = FieldDefV;

    open spec fn view(&self) -> FieldDefV {
        match self {
            FieldDef::All => FieldDefV::All,
            FieldDef::AllInTable(t) => FieldDefV::AllInTable(t@),
            FieldDef::Col(c) => FieldDefV::Col(c@),
            FieldDef::Value => FieldDefV::Value,
        }
    }
}

/// The join operators the grammar admits.
#[derive(Debug, Clone, Copy, PartialEq, Eq, Structural)]
pub enum JoinOp {
    Join,
    LeftJoin,
    RightJoin,
    CrossJoin,
}

/// The right-hand side of a join.
#[derive(Debug)]
pub enum JoinRight {
    NestedSelect(Box<SelectAst>),
    Table(String),
}

/// The join condition.
#[derive(Debug)]
pub enum JoinConstraintAst {
    Using(Vec<String>),
    On,
}

/// One JOIN clause.
#[derive(Debug)]
pub struct JoinClause {
    pub operator: JoinOp,
    pub right: JoinRight,
    pub constraint: JoinConstraintAst,
}

/// A SELECT statement.
#[derive(Debug)]
pub struct SelectAst {
    pub tables: Vec<String>,
    pub distinct: bool,
    pub fields: Vec<FieldDef>,
    pub join: Vec<JoinClause>,
    pub where_clause: Option<CondExpr>,
    pub group_by: Option<Vec<String>>,
    pub window: Option<WindowType>,
}

pub enum JoinRightV {
    NestedSelect(Box<SelectV>),
    Table(Seq<char>),
}

pub enum JoinConstraintV {
    Using(Seq<Seq<char>>),
    On,
}

pub struct JoinClauseV {
    pub operator: JoinOp,
    pub right: JoinRightV,
    pub constraint: JoinConstraintV,
}

pub struct SelectV {
    pub tables: Seq<Seq<char>>,
    pub distinct: bool,
    pub fields: Seq<FieldDefV>,
    pub join: Seq<JoinClauseV>,
    pub where_clause: Option<CondV>,
    pub group_by: Option<Seq<Seq<char>>>,
    pub window: Option<WindowType>,
}

pub open spec fn select_view(s: SelectAst) -> SelectV
    decreases s,
{
    SelectV {
        tables: views_of(s.tables@),
        distinct: s.distinct,
        fields: views_of(s.fields@),
        join: seq_join_view(s.join@),
        where_clause: match s.where_clause {
            Some(c) => Some(c.view()),
            None => None,
        },
        group_by: match s.group_by {
            Some(g) => Some(views_of(g@)),
            None => None,
        },
        window: s.window,
    }
}

pub open spec fn seq_join_view(js: Seq<JoinClause>) -> Seq<JoinClauseV>
    decreases js,
{
    if js.len() == 0 {
        Seq::empty()
    } else {
        seq_join_view(js.drop_last()).push(join_view(js.last()))
    }
}

pub open spec fn join_view(j: JoinClause) -> JoinClauseV
    decreases j,
{
    JoinClauseV {
        operator: j.operator,
        right: match j.right {
            JoinRight::NestedSelect(s) => JoinRightV::NestedSelect(Box::new(select_view(*s))),
            JoinRight::Table(t) => JoinRightV::Table(t@),
        },
        constraint: match j.constraint {
            JoinConstraintAst::Using(cols) => JoinConstraintV::Using(views_of(cols@)),
            JoinConstraintAst::On => JoinConstraintV::On,
        },
    }
}

impl View for SelectAst {
    type V = SelectV;

    open spec fn view(&self) -> SelectV {
        select_view(*self)
    }
}

/// The view sequence of join clauses has the same length and is elementwise.
pub proof fn lemma_seq_join_view_index(s: Seq<JoinClause>)
    ensures
        seq_join_view(s).len() == s.len(),
        forall|i: int| 0 <= i < s.len() ==> seq_join_view(s)[i] == join_view(s[i]),
    decreases s.len(),
{
    if s.len() > 0 {
        lemma_seq_join_view_index(s.drop_last());
    }
}

/// The window clause of the grammar `WINDOW (TIME|COUNT) interval [, step]`,
/// given its tokens: the kind keyword and the one or two bound tokens. A
/// missing step defaults to the interval, making the window tumbling. Time
/// bounds are duration tokens, count bounds plain numbers.
pub open spec fn spec_window_clause(
    kind: Seq<char>,
    first: Seq<char>,
    second: Option<Seq<char>>,
) -> Option<WindowType> {
    if kind == "TIME"@ {
        match crate::text::spec_duration_ns(first) {
            None => None,
            Some(iv) => match second {
                None => Some(WindowType::Time(iv, iv)),
                Some(t) => match crate::text::spec_duration_ns(t) {
                    None => None,
                    Some(st) => Some(WindowType::Time(iv, st)),
                },
            },
        }
    } else if kind == "COUNT"@ {
        match crate::text::spec_dec_u64(first) {
            None => None,
            Some(n) => match second {
                None => Some(WindowType::Count(n, n)),
                Some(t) => match crate::text::spec_dec_u64(t) {
                    None => None,
                    Some(st) => Some(WindowType::Count(n, st)),
                },
            },
        }
    } else {
        None
    }
}

/// Builds the window clause from its tokens.
pub fn window_clause_of_tokens(kind: &str, first: &str, second: Option<&str>) -> (r: Option<
    WindowType,
>)
    ensures
        r == spec_window_clause(
            kind@,
            first@,
            match second {
                Some(t) => Some(t@),
                None => None,
            },
        ),
{
    if crate::text::str_eq(kind, "TIME") {
        let iv = match crate::text::parse_duration_ns(first) {
            Some(v) => v,
            None => {
                return None;
            },
        };
        match second {
            None => Some(WindowType::Time(iv, iv)),
            Some(t) => match crate::text::parse_duration_ns(t) {
                Some(st) => Some(WindowType::Time(iv, st)),
                None => None,
            },
        }
    } else if crate::text::str_eq(kind, "COUNT") {
        let n = match crate::text::parse_dec(first) {
            Some(v) => v,
            None => {
                return None;
            },
        };
        match second {
            None => Some(WindowType::Count(n, n)),
            Some(t) => match crate::text::parse_dec(t) {
                Some(st) => Some(WindowType::Count(n, st)),
                None => None,
            },
        }
    } else {
        None
    }
}

} // verus!
