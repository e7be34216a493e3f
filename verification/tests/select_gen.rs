//! The early single-file generator and its builder.

use ebql::bpf_gen::BpfCompiler;
use ebql::bpf_select::{BpfSelect, SelectField};
use ebql::code_builder::{Arg, BpfCodeBuilder};
use ebql::pipeline::TracepointEvent;
use ebql::types::Type;

#[test]
fn the_single_file_builder_assembles_its_sections() {
    let mut cb = BpfCodeBuilder::new();
    cb.write_includes("vmlinux.h", false, Some("all kernel types"));
    cb.write_global("const volatile", "u32", "target_pid", Some("0"));
    let cb = cb.write_struct("struct out");
    let mut cb = cb;
    cb.write_field("fd", "u64");
    let cb = cb.close();
    let mut cb = cb.write_function(
        "tp/x",
        "u32",
        "f",
        &vec![Arg { _name: "ctx".to_string(), _type: "void *".to_string() }],
    );
    cb.write_var_initialization("v", "u64", "0");
    cb.write_var_assignment("v", "1");
    cb.write_if("v");
    cb.write_return("1");
    cb.close_if();
    cb.write_return("0");
    let cb = cb.close();
    let text = cb.build();
    assert!(text.contains("#include \"vmlinux.h\" /* all kernel types */\n"));
    assert!(text.contains("const volatile u32 target_pid = 0;\n"));
    assert!(text.contains("struct out {\n\tu64 fd;\n} __attribute__((packed));\n"));
    assert!(text.contains("SEC(\"tp/x\")\nu32 f(void * ctx) {\n"));
    assert!(text.contains("\tu64 v = 0;\n\tv = 1;\n\tif (v) {\n\t\treturn 1;\n\t}\n\treturn 0;\n}\n"));
    assert!(text.ends_with("char LICENSE[] SEC(\"license\") = \"Dual BSD/GPL\";\n"));
}

fn select_fields() -> Vec<SelectField> {
    let e = TracepointEvent { path: "tracepoint/syscalls/sys_enter_pread64".to_string() };
    vec![
        SelectField {
            _event: Some(TracepointEvent { path: e.path.clone() }),
            _off: Some(0),
            _name: "fd".to_string(),
            _type: Type::U64,
        },
        SelectField {
            _event: Some(TracepointEvent { path: e.path.clone() }),
            _off: Some(2),
            _name: "count".to_string(),
            _type: Type::U64,
        },
        SelectField { _event: None, _off: None, _name: "time".to_string(), _type: Type::U64 },
        SelectField { _event: None, _off: None, _name: "pid".to_string(), _type: Type::S32 },
    ]
}

#[test]
fn a_select_compiles_to_one_program_text() {
    let e = TracepointEvent { path: "tracepoint/syscalls/sys_enter_pread64".to_string() };
    let select = BpfSelect { event: e, fields: select_fields() };
    let compiler = BpfCompiler::new(select);
    let (code, rb, s_repr) = compiler.compile().unwrap();
    assert_eq!(s_repr.total_size(), 8 + 8 + 8 + 4);
    assert_eq!(rb.name, "ring_buf_select");
    assert!(code.contains("SEC(\"tracepoint/syscalls/sys_enter_pread64\")"));
    assert!(code.contains("e->fd = (u64) ctx->args[0];"));
    assert!(code.contains("e->count = (u64) ctx->args[2];"));
    assert!(code.contains("e->time = bpf_ktime_get_ns();"));
    assert!(code.contains("e->pid = bpf_get_current_pid_tgid() >> 32;"));
    assert!(code.contains("bpf_ringbuf_submit(e,0);"));
}

#[test]
fn unknown_helper_fields_do_not_compile() {
    let e = TracepointEvent { path: "tp/x".to_string() };
    let select = BpfSelect {
        event: e,
        fields: vec![SelectField {
            _event: None,
            _off: None,
            _name: "exec_path".to_string(),
            _type: Type::U64,
        }],
    };
    assert!(BpfCompiler::new(select).compile().is_err());
}
