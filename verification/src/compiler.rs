//! A skeleton compiler over hand-assembled pipelines: emits the program
//! scaffolding (includes and section line) for each event.

use vstd::prelude::*;

verus! {

use crate::pipeline::{Field, Pipeline};
use vstd::string::{StrSliceExecFns, StringExecFns};

/// The include block every generated program starts with.
pub open spec fn includes_text() -> Seq<char> {
    "#include \"vmlinux.h\" /* all kernel types */\n\n#include <bpf/bpf_core_read.h> /* for BPF CO-RE helpers */\n#include <bpf/bpf_helpers.h>   /* most used helpers: SEC, __always_inline, etc */\n#include <bpf/bpf_tracing.h>\n"@
}

/// The scaffolding of one event's program: the include block and its
/// section line.
pub open spec fn program_skeleton(section: Seq<char>) -> Seq<char> {
    includes_text() + "\n"@ + "SEC("@ + section + ")\n"@
}

/// Compiles a pipeline into per-event program texts.
#[derive(Debug)]
pub struct PipelineCompiler {
    pub pipeline: Pipeline,
    pub out_dir: String,
}

/// What a pipeline compilation hands on.
#[derive(Debug)]
pub struct CompilerOutput {
    /// Output maps of each transformation stage.
    pub transformation_maps: Vec<(Field, Field)>,
    /// Global variable definitions.
    pub global_variables: Vec<String>,
}

impl PipelineCompiler {
    /// Generates the program scaffolding for each event of the pipeline, in
    /// event order.
    pub fn generate_programs(&self) -> (r: Result<Vec<String>, crate::errors::EbqlError>)
        ensures
            r matches Ok(texts) ==> {
                &&& texts@.len() == self.pipeline.events@.len()
                &&& forall|i: int|
                    0 <= i < texts@.len() ==> (#[trigger] texts@[i])@ == program_skeleton(
                        self.pipeline.events@[i].path@,
                    )
            },
            r is Ok,
    {
        let mut texts: Vec<String> = Vec::new();
        let mut i: usize = 0;
        while i < self.pipeline.events.len()
            invariant
                i <= self.pipeline.events@.len(),
                texts@.len() == i,
                forall|j: int|
                    0 <= j < i ==> (#[trigger] texts@[j])@ == program_skeleton(
                        self.pipeline.events@[j].path@,
                    ),
            decreases self.pipeline.events@.len() - i,
        {
            let mut code =
                "#include \"vmlinux.h\" /* all kernel types */\n\n#include <bpf/bpf_core_read.h> /* for BPF CO-RE helpers */\n#include <bpf/bpf_helpers.h>   /* most used helpers: SEC, __always_inline, etc */\n#include <bpf/bpf_tracing.h>\n".to_owned();
            code.append("\n");
            code.append("SEC(");
            let sec = self.pipeline.events[i].section_name();
            code.append(sec.as_str());
            code.append(")\n");
            texts.push(code);
            i = i + 1;
        }
        Ok(texts)
    }
}

} // verus!
