//! eBQL: a streaming SQL query engine over kernel events.
//!
//! A SELECT statement over a named kernel event source is lowered into a
//! per-event operator plan (window, projections, filter, group-by,
//! aggregates, optional distinct join), the plan is materialised as C source
//! text for an in-kernel program, the emitted record struct is laid out with
//! a deterministic packed layout, and the userspace side decodes ring-buffer
//! bytes back into typed records using the same layout.

pub mod align;
pub mod ast;
pub mod bpf_gen;
pub mod bpf_ops;
pub mod bpf_select;
pub mod bpf_struct;
pub mod code_builder;
pub mod compiler;
pub mod data_types;
pub mod errors;
pub mod events;
pub mod field;
pub mod map;
pub mod operators;
pub mod physical_plan;
pub mod pipeline;
pub mod prog_builder;
pub mod program_types;
pub mod query_stats;
pub mod record;
pub mod record_batch;
pub mod runtime;
pub mod schema;
pub mod text;
pub mod types;
pub mod views;
