//! Planner scenarios: projections, windows, aggregates, filters, joins.

use ebql::ast::{FieldDef, JoinClause, JoinConstraintAst, JoinOp, JoinRight, SelectAst};
use ebql::data_types::DataType;
use ebql::errors::EbqlError;
use ebql::operators::{
    AggArg, AggFn, CmpOp, Column, CondBase, CondExpr, LitValue, Operator, WindowType,
};
use ebql::events::TracepointEvent;
use ebql::physical_plan::PhysicalPlan;

fn plain_col(name: &str) -> FieldDef {
    FieldDef::Col(Column { name: name.to_string(), function: None })
}

fn agg_col(f: AggFn) -> FieldDef {
    FieldDef::Col(Column { name: String::new(), function: Some(f) })
}

fn arg(name: &str) -> AggArg {
    AggArg { name: name.to_string(), nested: false }
}

fn select(table: &str) -> SelectAst {
    SelectAst {
        tables: vec![table.to_string()],
        distinct: false,
        fields: vec![],
        join: vec![],
        where_clause: None,
        group_by: None,
        window: None,
    }
}

fn proj_names(plan: &ebql::physical_plan::BpfPlan) -> Vec<String> {
    plan.projects.iter().map(|f| f._name.clone()).collect()
}

fn schema_names(plan: &ebql::physical_plan::BpfPlan) -> Vec<String> {
    plan.schema.fields.0.iter().map(|f| f.name.clone()).collect()
}

#[test]
fn select_two_columns_projects_them() {
    // SELECT fd, count FROM syscalls/sys_enter_pread64
    let mut s = select("syscalls/sys_enter_pread64");
    s.fields = vec![plain_col("fd"), plain_col("count")];
    let p = PhysicalPlan::plan_select(&s, "q9".to_string()).unwrap();
    assert_eq!(p.event_plans.len(), 1);
    let plan = &p.event_plans[0];
    assert_eq!(proj_names(plan), vec!["fd".to_string(), "count".to_string()]);
    assert_eq!(schema_names(plan), vec!["fd".to_string(), "count".to_string()]);
    assert!(plan.window.is_none());
    assert!(plan.aggs.is_empty());
}

#[test]
fn avg_group_by_cpu_over_a_time_window() {
    // SELECT cpu, AVG(count) FROM syscalls/sys_enter_pread64
    //   GROUP BY cpu WINDOW TIME 1s
    let mut s = select("syscalls/sys_enter_pread64");
    s.fields = vec![plain_col("cpu"), agg_col(AggFn::Avg(arg("count"), false))];
    s.group_by = Some(vec!["cpu".to_string()]);
    s.window = Some(WindowType::Time(1_000_000_000, 1_000_000_000));
    let p = PhysicalPlan::plan_select(&s, "q10".to_string()).unwrap();
    let plan = &p.event_plans[0];
    assert_eq!(plan.window, Some(WindowType::Time(1_000_000_000, 1_000_000_000)));
    assert_eq!(
        proj_names(plan),
        vec!["time".to_string(), "cpu".to_string(), "count".to_string()]
    );
    assert_eq!(
        schema_names(plan),
        vec!["cpu".to_string(), "avg_count".to_string()]
    );
    assert!(matches!(plan.schema.fields.0[0].data_type, DataType::UInt64));
    assert!(matches!(plan.schema.fields.0[1].data_type, DataType::UInt64));
    assert_eq!(plan.aggs.len(), 1);
    assert!(matches!(&plan.aggs[0], Operator::Average(n) if n == "count"));
    assert_eq!(plan.group_by.len(), 1);
    assert_eq!(plan.group_by[0]._name, "cpu");
}

#[test]
fn count_star_over_a_count_window() {
    // SELECT COUNT(*) FROM filemap/mm_filemap_add_to_page_cache WINDOW COUNT 1024
    let mut s = select("filemap/mm_filemap_add_to_page_cache");
    s.fields = vec![agg_col(AggFn::CountStar)];
    s.window = Some(WindowType::Count(1024, 1024));
    let p = PhysicalPlan::plan_select(&s, "q11".to_string()).unwrap();
    let plan = &p.event_plans[0];
    assert!(matches!(&plan.aggs[0], Operator::Count(None)));
    assert_eq!(schema_names(plan), vec!["count_".to_string()]);
}

#[test]
fn filter_columns_are_projected_even_when_not_selected() {
    // SELECT pfn FROM filemap/mm_filemap_add_to_page_cache
    //   WHERE pid = 10000 WINDOW COUNT 256
    let mut s = select("filemap/mm_filemap_add_to_page_cache");
    s.fields = vec![plain_col("pfn")];
    s.window = Some(WindowType::Count(256, 256));
    s.where_clause = Some(CondExpr::Comparison(
        CmpOp::Equal,
        Box::new(CondExpr::Base(CondBase::Col(Column {
            name: "pid".to_string(),
            function: None,
        }))),
        Box::new(CondExpr::Base(CondBase::Lit(LitValue::UInt(10000)))),
    ));
    let p = PhysicalPlan::plan_select(&s, "q12".to_string()).unwrap();
    let plan = &p.event_plans[0];
    assert_eq!(proj_names(plan), vec!["pfn".to_string(), "pid".to_string()]);
    assert!(plan.filters.is_some());
    // The filter branches out on the negated condition.
    match &plan.filters {
        Some(Operator::Filter(ce)) => {
            let lowered = ebql::bpf_ops::compiler::ce_to_cond(ce).unwrap();
            assert_eq!(lowered, "(pid) != (10000)");
        }
        _ => panic!("expected a filter operator"),
    }
}

#[test]
fn select_star_emits_the_full_argument_list_in_catalog_order() {
    // SELECT * FROM syscalls/sys_enter_pread64 WINDOW COUNT 1
    let mut s = select("syscalls/sys_enter_pread64");
    s.fields = vec![FieldDef::All];
    s.window = Some(WindowType::Count(1, 1));
    let p = PhysicalPlan::plan_select(&s, "q13".to_string()).unwrap();
    let plan = &p.event_plans[0];
    assert_eq!(
        schema_names(plan),
        vec![
            "fd".to_string(),
            "buf".to_string(),
            "count".to_string(),
            "pos".to_string()
        ]
    );
}

#[test]
fn a_join_stamps_the_same_descriptor_on_both_plans() {
    // Join two events by pfn: both plans carry the same distinct-join
    // descriptor, the nested plan first.
    let mut inner = select("filemap/mm_filemap_delete_frompage_cache");
    inner.fields = vec![plain_col("pfn")];
    inner.window = Some(WindowType::Count(16, 16));
    let mut s = select("filemap/mm_filemap_add_to_page_cache");
    s.fields = vec![plain_col("pfn")];
    s.window = Some(WindowType::Count(16, 16));
    s.join = vec![JoinClause {
        operator: JoinOp::Join,
        right: JoinRight::NestedSelect(Box::new(inner)),
        constraint: JoinConstraintAst::Using(vec!["pfn".to_string()]),
    }];
    let p = PhysicalPlan::plan_select(&s, "q14".to_string()).unwrap();
    assert_eq!(p.event_plans.len(), 2);
    let d0 = p.event_plans[0].distinct_join.as_ref().unwrap();
    let d1 = p.event_plans[1].distinct_join.as_ref().unwrap();
    assert_eq!(d0.l.name, d1.l.name);
    assert_eq!(d0.r.name, d1.r.name);
    assert_eq!(d0.fields.len(), 1);
    assert_eq!(d1.fields.len(), 1);
    assert_eq!(d0.fields[0].name, "pfn");
    assert_eq!(d1.fields[0].name, "pfn");
    assert!(matches!(
        p.event_plans[0].event,
        ebql::events::TracepointEvent::MmFilemapDeleteFromPageCache
    ));
    assert!(matches!(
        p.event_plans[1].event,
        ebql::events::TracepointEvent::MmFilemapAddToPageCache
    ));
}

#[test]
fn aggregates_without_a_window_are_plan_errors() {
    let mut s = select("syscalls/sys_enter_pread64");
    s.fields = vec![agg_col(AggFn::Sum(arg("count"), false))];
    match PhysicalPlan::plan_select(&s, "p5".to_string()) {
        Err(e) => assert!(matches!(e, EbqlError::Plan(_))),
        Ok(_) => panic!("an aggregate without a window must not plan"),
    }
}

#[test]
fn non_tumbling_windows_are_unsupported() {
    let mut s = select("syscalls/sys_enter_pread64");
    s.fields = vec![plain_col("fd")];
    s.window = Some(WindowType::Count(10, 5));
    assert!(matches!(
        PhysicalPlan::plan_select(&s, "w".to_string()),
        Err(EbqlError::Unsupported(_))
    ));
}

#[test]
fn unknown_events_and_columns_are_schema_errors() {
    let mut s = select("syscalls/sys_enter_nothing");
    s.fields = vec![plain_col("fd")];
    assert!(matches!(
        PhysicalPlan::plan_select(&s, "e".to_string()),
        Err(EbqlError::UnknownEvent(_))
    ));
    let mut s2 = select("syscalls/sys_enter_pread64");
    s2.fields = vec![plain_col("nope")];
    assert!(matches!(
        PhysicalPlan::plan_select(&s2, "e".to_string()),
        Err(EbqlError::UnknownColumn(_))
    ));
}

#[test]
fn nested_aggregates_and_group_concat_are_unsupported() {
    let mut s = select("syscalls/sys_enter_pread64");
    s.fields = vec![agg_col(AggFn::Avg(
        AggArg { name: "count".to_string(), nested: true },
        false,
    ))];
    s.window = Some(WindowType::Count(8, 8));
    assert!(matches!(
        PhysicalPlan::plan_select(&s, "n".to_string()),
        Err(EbqlError::Unsupported(_))
    ));
    let mut s2 = select("syscalls/sys_enter_pread64");
    s2.fields = vec![agg_col(AggFn::GroupConcat)];
    assert!(matches!(
        PhysicalPlan::plan_select(&s2, "g".to_string()),
        Err(EbqlError::Unsupported(_))
    ));
}

#[test]
fn only_single_table_selects_plan() {
    let mut s = select("syscalls/sys_enter_pread64");
    s.tables.push("filemap/mm_filemap_add_to_page_cache".to_string());
    s.fields = vec![plain_col("fd")];
    assert!(matches!(
        PhysicalPlan::plan_select(&s, "t".to_string()),
        Err(EbqlError::Unsupported(_))
    ));
}

#[test]
fn from_select_derives_a_deterministic_query_name() {
    let mut s = select("syscalls/sys_enter_pread64");
    s.fields = vec![plain_col("fd")];
    let p = PhysicalPlan::from_select(&s).unwrap();
    assert_eq!(p.event_plans[0].schema.name, "select_sys_enter_pread64");
    // Planning the same statement twice emits the same schema.
    let mut s2 = select("syscalls/sys_enter_pread64");
    s2.fields = vec![plain_col("fd")];
    let p2 = PhysicalPlan::from_select(&s2).unwrap();
    assert_eq!(p.event_plans[0].schema.name, p2.event_plans[0].schema.name);
    assert_eq!(
        schema_names(&p.event_plans[0]),
        schema_names(&p2.event_plans[0])
    );
}

#[test]
fn get_args_resolves_catalog_arguments_only() {
    let e = TracepointEvent::MmFilemapAddToPageCache;
    let ok = e.get_args(&vec!["pfn".to_string(), "i_ino".to_string()]).unwrap();
    assert_eq!(ok.len(), 2);
    assert_eq!(ok[0]._name, "pfn");
    assert_eq!(ok[1]._name, "i_ino");
    // A system variable is not an event argument: the lookup must fail,
    // naming the missing argument.
    match e.get_args(&vec!["pid".to_string()]) {
        Err(ebql::errors::EbqlError::UnknownColumn(n)) => assert_eq!(n, "pid"),
        other => panic!("expected an unknown-column error, got {other:?}"),
    }
}
