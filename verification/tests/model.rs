//! The data model: types, sizes, the event catalog, maps, and pipelines.

use ebql::data_types::{DataType, TimeUnit};
use ebql::events::{SystemVar, TracepointEvent, get_event, get_event_field};
use ebql::field::{Field, Fields};
use ebql::map::{MapDefFlags, MapType};
use ebql::program_types::ProgramType;
use ebql::record::{DataValue, Record};
use ebql::record_batch::RecordBatch;
use ebql::schema::Schema;
use ebql::text::{str_eq, u64_to_dec};
use ebql::types::Type;
use ebql::pipeline::{BinOp, Filter as PFilter, Pipeline, TracepointEvent as PEvent};
use ebql::compiler::PipelineCompiler;
use ebql::ast::window_clause_of_tokens;
use ebql::operators::WindowType;
use ebql::text::{parse_dec, parse_duration_ns};

#[test]
fn data_type_sizes_follow_the_lattice() {
    assert_eq!(DataType::Boolean.size(), 1);
    assert_eq!(DataType::UInt16.size(), 2);
    assert_eq!(DataType::Int32.size(), 4);
    assert_eq!(DataType::UInt64.size(), 8);
    assert_eq!(DataType::Float32.size(), 4);
    assert_eq!(DataType::String(23).size(), 23);
    assert_eq!(DataType::Timestamp(TimeUnit::Nanosecond).size(), 8);
    let s = DataType::Struct(
        "pair".to_string(),
        Fields(vec![
            Field { name: "a".to_string(), data_type: DataType::UInt8 },
            Field { name: "b".to_string(), data_type: DataType::UInt32 },
        ]),
    );
    assert_eq!(s.size(), 5);
}

#[test]
fn type_predicates_partition_the_lattice() {
    assert!(DataType::UInt8.is_numeric());
    assert!(DataType::Float64.is_numeric());
    assert!(!DataType::Boolean.is_numeric());
    assert!(DataType::Float32.is_floating());
    assert!(!DataType::Int8.is_floating());
    assert!(DataType::Int16.is_signed_integer());
    assert!(DataType::UInt16.is_unsigned_integer());
    assert!(DataType::Int64.is_integer());
    assert!(DataType::UInt32.is_dictionary_key_type());
    assert!(!DataType::String(4).is_integer());
}

#[test]
fn struct_types_compare_ignoring_nested_names() {
    let a = DataType::Struct(
        "p".to_string(),
        Fields(vec![Field { name: "x".to_string(), data_type: DataType::UInt8 }]),
    );
    let b = DataType::Struct(
        "p".to_string(),
        Fields(vec![Field { name: "y".to_string(), data_type: DataType::UInt8 }]),
    );
    assert!(a.equals_datatype(&b));
    assert!(!a.same_data_type(&b));
    assert!(DataType::UInt8.equals_datatype(&DataType::UInt8));
    assert!(!DataType::UInt8.equals_datatype(&DataType::Int8));
}

#[test]
fn bpf_type_sizes_and_renderings() {
    assert_eq!(Type::U64.size(), 8);
    assert_eq!(Type::String(16).size(), 16);
    assert_eq!(Type::Pointer(Box::new(Type::UChar)).size(), 8);
    assert_eq!(Type::Struct("s".to_string(), None).size(), 0);
    assert_eq!(
        Type::Struct("s".to_string(), Some(vec![Type::U32, Type::U8])).size(),
        5
    );
    assert_eq!(Type::Pointer(Box::new(Type::UChar)).c_type(), "u8 *");
    let f = ebql::types::Field::new("pos".to_string(), Type::U64);
    assert_eq!(f.expr(), "u64 pos");
    let g = ebql::types::Field::new("comm".to_string(), Type::String(16));
    assert_eq!(g.expr(), "char comm[16]");
}

#[test]
fn the_catalog_resolves_events_and_arguments() {
    assert!(matches!(
        get_event("syscalls/sys_enter_pread64"),
        Some(TracepointEvent::SysEnterPread64)
    ));
    assert!(get_event("nope/nothing").is_none());
    let e = TracepointEvent::SysEnterPread64;
    assert_eq!(e.name(), "syscalls/sys_enter_pread64");
    assert_eq!(e.id(), 697);
    assert_eq!(e.ctx(), "struct trace_event_raw_sys_enter");
    assert!(matches!(e.program_type(), ProgramType::Tracepoint));
    assert_eq!(ProgramType::Tracepoint.section_name(), "tp");
    let fd = get_event_field(&e, "fd").unwrap();
    assert_eq!(fd._name, "fd");
    assert_eq!(fd._off, Some(0));
    assert!(get_event_field(&e, "cpu").is_none());
    // Arguments resolve from the catalog first, then the system variables.
    let cpu = e.get_arg("cpu").unwrap();
    assert_eq!(cpu._name, "cpu");
    assert!(e.get_arg("no_such_column").is_err());
    let args = e.get_all_args().unwrap();
    let names: Vec<String> = args.iter().map(|f| f._name.clone()).collect();
    assert_eq!(names, vec!["fd", "buf", "count", "pos"]);
    let fm = TracepointEvent::MmFilemapAddToPageCache;
    assert_eq!(fm.ctx(), "struct trace_event_raw_mm_filemap_add_to_page_cache");
}

#[test]
fn system_variables_project_their_fields() {
    let f = SystemVar::get_field("comm").unwrap();
    assert_eq!(f._name, "comm");
    assert!(matches!(f._type, Type::String(16)));
    assert!(SystemVar::get_field("nope").is_err());
    assert_eq!(SystemVar::TIME.get_helper(), "TIME");
    assert_eq!(SystemVar::CGROUP.to_field()._name, "cgroup");
}

#[test]
fn records_and_batches_measure_their_bytes() {
    let r = Record(vec![
        DataValue::UInt64(1),
        DataValue::Boolean(true),
        DataValue::String("abc".to_string(), 8),
    ]);
    assert_eq!(r.len(), 3);
    assert_eq!(r.size(), 17);
    assert!(matches!(r.get(1), DataValue::Boolean(true)));
    assert_eq!(DataValue::Int16(-1).size(), 2);
    assert!(matches!(DataValue::Timestamp(5).data_type(), DataType::Timestamp(_)));
    // String values compare by text, not storage size.
    assert_eq!(
        DataValue::String("a".to_string(), 4),
        DataValue::String("a".to_string(), 9)
    );
    let schema = Schema::new(Some("b".to_string()), Fields(vec![]));
    let batch = RecordBatch::new(schema, vec![r.clone(), Record::empty()]);
    assert_eq!(batch.len(), 2);
    assert_eq!(batch.size(), 17);
}

#[test]
fn schemas_project_by_index() {
    let schema = Schema::new(
        Some("p".to_string()),
        Fields(vec![
            Field { name: "a".to_string(), data_type: DataType::UInt8 },
            Field { name: "b".to_string(), data_type: DataType::UInt16 },
            Field { name: "c".to_string(), data_type: DataType::UInt32 },
        ]),
    );
    let proj = schema.project_indices(&vec![2, 0]);
    assert_eq!(proj.name, "p");
    assert_eq!(proj.fields.len(), 2);
    assert_eq!(proj.fields.0[0].name, "c");
    assert_eq!(proj.fields.0[1].name, "a");
}

#[test]
fn map_flags_accumulate_bits() {
    let f = MapDefFlags::new();
    assert_eq!(f.val, 0);
    assert_eq!(f.no_prealloc().val, 1);
    assert_eq!(f.mmapable().val, 2048);
    assert_eq!(f.no_prealloc().mmapable().val, 2049);
    assert_eq!(MapType::RingBuffer.c_name(), "BPF_MAP_TYPE_RINGBUF");
    assert_eq!(MapType::Hash.c_name(), "BPF_MAP_TYPE_HASH");
}

#[test]
fn text_utilities_render_decimals_and_compare() {
    assert_eq!(u64_to_dec(0), "0");
    assert_eq!(u64_to_dec(10), "10");
    assert_eq!(u64_to_dec(18446744073709551615), "18446744073709551615");
    assert!(str_eq("abc", "abc"));
    assert!(!str_eq("abc", "abd"));
}

#[test]
fn decimals_and_durations_parse_exactly() {
    assert_eq!(parse_dec("0"), Some(0));
    assert_eq!(parse_dec("1024"), Some(1024));
    assert_eq!(parse_dec("18446744073709551615"), Some(u64::MAX));
    // One past the largest word overflows; junk and emptiness fail.
    assert_eq!(parse_dec("18446744073709551616"), None);
    assert_eq!(parse_dec(""), None);
    assert_eq!(parse_dec("12a"), None);
    assert_eq!(parse_duration_ns("1s"), Some(1_000_000_000));
    assert_eq!(parse_duration_ns("10ms"), Some(10_000_000));
    assert_eq!(parse_duration_ns("500us"), Some(500_000));
    assert_eq!(parse_duration_ns("250ns"), Some(250));
    assert_eq!(parse_duration_ns("42"), Some(42));
    assert_eq!(parse_duration_ns("s"), None);
    assert_eq!(parse_duration_ns("999999999999s"), None);
}

#[test]
fn window_clauses_build_from_their_tokens() {
    assert_eq!(
        window_clause_of_tokens("TIME", "1s", None),
        Some(WindowType::Time(1_000_000_000, 1_000_000_000))
    );
    assert_eq!(
        window_clause_of_tokens("TIME", "2s", Some("1s")),
        Some(WindowType::Time(2_000_000_000, 1_000_000_000))
    );
    assert_eq!(
        window_clause_of_tokens("COUNT", "1024", None),
        Some(WindowType::Count(1024, 1024))
    );
    assert_eq!(
        window_clause_of_tokens("COUNT", "16", Some("8")),
        Some(WindowType::Count(16, 8))
    );
    assert_eq!(window_clause_of_tokens("SESSION", "1s", None), None);
    assert_eq!(window_clause_of_tokens("COUNT", "many", None), None);
}

#[test]
fn pipelines_check_their_shape() {
    fn pfield(n: &str) -> ebql::pipeline::Field {
        ebql::pipeline::Field { _name: n.to_string(), _type: "u64".to_string() }
    }
    fn pfilter() -> PFilter {
        PFilter { op: BinOp::Eq, arg1: pfield("a"), arg2: pfield("b") }
    }
    let ev = || PEvent { path: "tp/x".to_string() };
    assert_eq!(ev().section_name(), "tp/x");
    let ok = Pipeline::new(
        vec![ev()],
        vec![(pfield("k"), vec![])],
        vec![vec![pfilter()]],
        vec![pfilter(), pfilter()],
    );
    assert!(ok.is_ok());
    assert_eq!(ok.unwrap().num_events(), 1);
    // A filter list per event is required.
    assert!(Pipeline::new(vec![ev()], vec![], vec![], vec![pfilter(), pfilter()]).is_err());
    // One more transformation than events is required.
    assert!(Pipeline::new(vec![ev()], vec![], vec![vec![]], vec![pfilter()]).is_err());
    // Field mappings are empty or cover every event.
    assert!(Pipeline::new(
        vec![ev()],
        vec![(pfield("k"), vec![pfield("m"), pfield("n")])],
        vec![vec![]],
        vec![pfilter(), pfilter()],
    )
    .is_err());
}

#[test]
fn pipeline_compilers_emit_one_skeleton_per_event() {
    let p = Pipeline::new(
        vec![PEvent { path: "tp/a".to_string() }, PEvent { path: "tp/b".to_string() }],
        vec![],
        vec![vec![], vec![]],
        vec![],
    );
    // Shape: two events need three transformations; build directly instead.
    assert!(p.is_err());
    let p = Pipeline {
        events: vec![PEvent { path: "tp/a".to_string() }, PEvent { path: "tp/b".to_string() }],
        fields: vec![],
        filters: vec![vec![], vec![]],
        transformations: vec![],
    };
    let pc = PipelineCompiler { pipeline: p, out_dir: "out".to_string() };
    let texts = pc.generate_programs().unwrap();
    assert_eq!(texts.len(), 2);
    assert!(texts[0].ends_with("SEC(tp/a)\n"));
    assert!(texts[1].ends_with("SEC(tp/b)\n"));
    assert!(texts[0].starts_with("#include \"vmlinux.h\""));
}
