//! Code generation: the builder's text, the template contexts, and an
//! end-to-end compile against real template expansion.

use ebql::bpf_ops::agg::BpfAggregateTemplate;
use ebql::bpf_ops::compiler::{QueryCompiler, TemplateSet, get_max_entries};
use ebql::bpf_ops::hist::BpfHistogramTemplate;
use ebql::bpf_ops::window::BpfWindowType;
use ebql::data_types::DataType;
use ebql::operators::{Operator, WindowType};
use ebql::prog_builder::BpfCodeBuilder;
use ebql::ast::{FieldDef, SelectAst};
use ebql::operators::{AggArg, AggFn, Column};
use ebql::types::{Field, Type};

#[test]
fn a_new_builder_includes_its_own_header() {
    let cb = BpfCodeBuilder::new("q".to_string(), "tp/syscalls/x".to_string());
    assert_eq!(
        cb.core.includes_buf,
        "#include \"q.bpf.h\" /* q's definitions */\n"
    );
    assert_eq!(cb.core.name, "q");
    assert_eq!(cb.core.section, "tp/syscalls/x");
}

#[test]
fn the_builder_writes_prefixed_code_lines() {
    let mut cb = BpfCodeBuilder::new("p".to_string(), "tp/x".to_string());
    cb.write_macro("LIMIT", "64");
    assert_eq!(cb.core.macros_buf, "#define LIMIT (64)\n");
    let args = vec![Field::new(
        "ctx".to_string(),
        Type::Pointer(Box::new(Type::Struct("struct c".to_string(), None))),
    )];
    let mut cb = cb.start_function(&args);
    assert_eq!(cb.core.code_buf, "SEC(\"tp/x\")\nu32 p(struct c* ctx) {\n");
    cb.write_var_initialization(&Field::new("tumble".to_string(), Type::Bool), "window_add()");
    cb.write_if("tumble");
    cb.write_return("1");
    cb.close_if();
    cb.write_return("0");
    let cb = cb.close();
    assert_eq!(
        cb.core.code_buf,
        "SEC(\"tp/x\")\nu32 p(struct c* ctx) {\n\tbool tumble = window_add();\n\tif (tumble) {\n\t\treturn 1;\n\t}\n\treturn 0;\n}\n"
    );
}

#[test]
fn struct_definitions_render_their_fields() {
    let cb = BpfCodeBuilder::new("s".to_string(), "tp/x".to_string());
    let cb = cb.start_struct();
    let mut cb = cb;
    cb.write_field(&Field::new("fd".to_string(), Type::U64));
    cb.write_field(&Field::new("tag".to_string(), Type::String(16)));
    let cb = cb.close("out_t");
    assert_eq!(
        cb.core.structs_buf,
        "typedef struct {\n\tu64 fd;\n\tchar tag[16];\n} out_t;\n"
    );
}

#[test]
fn window_templates_carry_their_parameters() {
    let w = BpfWindowType::from_window_type(&WindowType::Count(1024, 1024)).unwrap();
    let t = w.get_tmpl("q".to_string(), false);
    assert_eq!(t.name, "stateful_window");
    assert_eq!(
        t.ctx,
        "{\"query_name\": \"q\", \"is_count\": true, \"count\": 1024, \"interval\": 0}"
    );
    let w = BpfWindowType::from_window_type(&WindowType::Time(1_000_000_000, 1_000_000_000))
        .unwrap();
    let t = w.get_tmpl("q".to_string(), true);
    assert_eq!(t.name, "tumbling_window");
    assert_eq!(
        t.ctx,
        "{\"query_name\": \"q\", \"is_count\": false, \"count\": 32768, \"interval\": 1000000000}"
    );
}

#[test]
fn aggregation_contexts_list_their_entries() {
    let gbs = vec![Field::new("cpu".to_string(), Type::U64)];
    let mut t = BpfAggregateTemplate::new("q".to_string(), &gbs, 8);
    assert_eq!(t.gb_max_entries, 8);
    t.update(&Operator::Average("count".to_string())).unwrap();
    t.update(&Operator::Count(Some("cpu".to_string()))).unwrap();
    let json = t.to_json();
    assert_eq!(
        json,
        "{\"query_name\": \"q\", \"gb_max_entries\": 8, \"avg_scale\": 1000000, \"group_bys\": [{\"field_name\": \"cpu\", \"field_type\": \"u64\"}], \"aggs\": [{\"is_avg\": true, \"agg\": \"avg\", \"field_name\": \"count\", \"query_name\": \"q\"}, {\"is_avg\": false, \"agg\": \"count\", \"field_name\": \"cpu\", \"query_name\": \"q\"}]}"
    );
}

#[test]
fn aggregations_without_group_bys_are_rejected() {
    let gbs: Vec<Field> = vec![];
    let mut t = BpfAggregateTemplate::new("q".to_string(), &gbs, 8);
    assert!(t.update(&Operator::Sum("count".to_string())).is_err());
    assert!(t.update(&Operator::Count(None)).is_ok());
}

#[test]
fn histogram_contexts_detect_log_buckets() {
    let t = BpfHistogramTemplate::get_tmpl(&vec![(0, 2), (2, 4), (4, 8)]);
    assert_eq!(
        t.ctx,
        "{\"n_buckets\": 4, \"buckets\": \"{{0, 2, 0}, {2, 4, 0}, {4, 8, 0}, {8, 18446744073709551615, 0}}\", \"is_log\": true, \"fp_scale\": 1000000}"
    );
    let t2 = BpfHistogramTemplate::get_tmpl(&vec![(0, 10), (10, 20)]);
    assert!(t2.ctx.contains("\"is_log\": true"));
    let t3 = BpfHistogramTemplate::get_tmpl(&vec![(5, 30)]);
    assert!(t3.ctx.contains("\"is_log\": false"));
}

#[test]
fn ring_buffer_capacity_is_the_window_size_capped_by_the_budget() {
    // The memory budget is 4 MiB.
    assert_eq!(get_max_entries(&WindowType::Count(256, 256), 16), 256);
    assert_eq!(
        get_max_entries(&WindowType::Count(1 << 30, 1 << 30), 16),
        (2u64 << 21) / 16
    );
    assert_eq!(
        get_max_entries(&WindowType::Time(1, 1), 16),
        (2u64 << 21) / 16
    );
}

fn templates() -> TemplateSet {
    TemplateSet {
        tumbling_window: "W:{{query_name}}:{{is_count}}:{{count}}:{{interval}}".to_string(),
        stateful_window: "S:{{query_name}}:{{is_count}}:{{count}}:{{interval}}".to_string(),
        agg: "A:{{query_name}}:{{gb_max_entries}}{{#each aggs}}:{{agg}}_{{field_name}}{{/each}}"
            .to_string(),
        hist: "H:{{n_buckets}}".to_string(),
    }
}

#[test]
fn compiling_a_plain_projection_renders_and_assembles() {
    // SELECT fd, count FROM syscalls/sys_enter_pread64 WINDOW COUNT 2
    let s = SelectAst {
        tables: vec!["syscalls/sys_enter_pread64".to_string()],
        distinct: false,
        fields: vec![
            FieldDef::Col(Column { name: "fd".to_string(), function: None }),
            FieldDef::Col(Column { name: "count".to_string(), function: None }),
        ],
        join: vec![],
        where_clause: None,
        group_by: None,
        window: Some(WindowType::Count(2, 2)),
    };
    let p = ebql::physical_plan::PhysicalPlan::plan_select(&s, "q".to_string()).unwrap();
    let qc = QueryCompiler { n_cpus: 4 };
    let br = qc.compile_bpf_ops(&p.event_plans[0], &templates()).unwrap();
    assert_eq!(br.name, "q");
    // The window template was really expanded with the context.
    assert_eq!(br.ext_includes[0].0, "stateful_window_q.bpf.h");
    assert_eq!(br.ext_includes[0].1, "S:q:true:2:0");
    // The emitted struct and the ring buffer reached the generated texts.
    assert!(br.header.contains("typedef struct {\n\tu64 fd;\n\tu64 count;\n} q_t;\n"));
    assert!(br.source.contains("BPF_MAP_TYPE_RINGBUF"));
    assert!(br.source.contains("max_entries, 32"));
    assert!(br.source.contains("u32 q(struct trace_event_raw_sys_enter* ctx) {"));
    assert!(br.source.contains("fd = ctx->args[0]"));
    assert!(br.source.contains("count = ctx->args[2]"));
    assert!(br.source.contains("window_add((q_t){fd, count})"));
    assert!(br.source.contains("char LICENSE[] SEC(\"license\") = \"Dual BSD/GPL\";"));
    assert_eq!(br.ringbuf.max_entries, 2);
    assert_eq!(br.ringbuf.s_repr.sz, 16);
    // Identical queries produce identical object contents: the ring buffer
    // name derives from the query name.
    assert_eq!(br.ringbuf.name, "ring_buf_q");
}

#[test]
fn compiling_an_aggregate_emits_the_tumble_protocol() {
    let s = SelectAst {
        tables: vec!["syscalls/sys_enter_pread64".to_string()],
        distinct: false,
        fields: vec![
            FieldDef::Col(Column { name: "cpu".to_string(), function: None }),
            FieldDef::Col(Column {
                name: String::new(),
                function: Some(AggFn::Avg(
                    AggArg { name: "count".to_string(), nested: false },
                    false,
                )),
            }),
        ],
        join: vec![],
        where_clause: None,
        group_by: Some(vec!["cpu".to_string()]),
        window: Some(WindowType::Time(1_000_000_000, 1_000_000_000)),
    };
    let p = ebql::physical_plan::PhysicalPlan::plan_select(&s, "qa".to_string()).unwrap();
    let qc = QueryCompiler { n_cpus: 4 };
    let br = qc.compile_bpf_ops(&p.event_plans[0], &templates()).unwrap();
    assert_eq!(br.ext_includes[0].1, "W:qa:false:32768:1000000000");
    assert_eq!(br.ext_includes[1].1, "A:qa:4:avg_count");
    assert!(br.source.contains("bool tumble = window_add(time)"));
    assert!(br.source.contains("u64 n_results = count_avg_count_qa()"));
    assert!(br.source.contains("get_avg_count_qa(buf, n_results)"));
    assert!(br.source.contains("tumble_avg_count_qa()"));
    assert!(br.source.contains("window_tumble(time)"));
    assert!(br.source.contains("insert_avg_count_qa((group_by_qa_t){cpu}, count)"));
}

#[test]
fn compiling_without_a_window_fails() {
    let s = SelectAst {
        tables: vec!["syscalls/sys_enter_pread64".to_string()],
        distinct: false,
        fields: vec![FieldDef::Col(Column { name: "fd".to_string(), function: None })],
        join: vec![],
        where_clause: None,
        group_by: None,
        window: None,
    };
    let p = ebql::physical_plan::PhysicalPlan::plan_select(&s, "nw".to_string()).unwrap();
    let qc = QueryCompiler { n_cpus: 4 };
    assert!(qc.compile_bpf_ops(&p.event_plans[0], &templates()).is_err());
}
