//! The early single-file generator: compiles one select over one event into
//! a complete program text that emits each event's selected fields through
//! a ring buffer.

use vstd::prelude::*;

verus! {

use crate::bpf_select::{BpfSelect, SelectField, SelectFieldV};
use crate::code_builder::{Arg, BpfCodeBuilder};
use crate::errors::EbqlError;
use crate::text::usize_to_dec;
use crate::types::width_of;
use crate::views::{lemma_views_of_index, lemma_views_of_push, views_of};
use vstd::string::{StrSliceExecFns, StringExecFns};

/// The generated ring buffer of a select program.
#[derive(Debug)]
pub struct RingBufferRepr {
    pub name: String,
}

impl RingBufferRepr {
    /// The ring buffer a select program emits through; one program per
    /// generated file, so the name is fixed.
    pub fn new() -> (r: Self)
        ensures
            r.name@ == "ring_buf_select"@,
    {
        RingBufferRepr { name: "ring_buf_select".to_owned() }
    }
}

/// The emitted struct of a select program: its fields in order, unpadded.
#[derive(Debug)]
pub struct StructRepr {
    pub fields: Vec<SelectField>,
    pub name: String,
}

/// Sum of the field widths.
pub open spec fn select_width_total(fs: Seq<SelectFieldV>) -> nat
    decreases fs,
{
    if fs.len() == 0 {
        0
    } else {
        select_width_total(fs.drop_last()) + width_of(fs.last().ty)
    }
}

impl StructRepr {
    /// Total size of the packed struct in bytes.
    pub fn total_size(&self) -> (r: usize)
        requires
            select_width_total(views_of(self.fields@)) <= usize::MAX,
        ensures
            r == select_width_total(views_of(self.fields@)),
    {
        proof {
            lemma_views_of_index(self.fields@);
        }
        let ghost fv = views_of(self.fields@);
        let mut total: usize = 0;
        let mut i: usize = 0;
        while i < self.fields.len()
            invariant
                i <= self.fields@.len(),
                fv == views_of(self.fields@),
                fv.len() == self.fields@.len(),
                forall|j: int| 0 <= j < self.fields@.len() ==> fv[j] == self.fields@[j]@,
                total == select_width_total(fv.take(i as int)),
                select_width_total(fv) <= usize::MAX,
            decreases self.fields@.len() - i,
        {
            proof {
                assert(fv.take(i + 1).drop_last() =~= fv.take(i as int));
                assert(fv.take(i + 1).last() == fv[i as int]);
                lemma_select_width_prefix(fv, i as int + 1);
            }
            total = total + self.fields[i]._type.size();
            i = i + 1;
        }
        proof {
            assert(fv.take(fv.len() as int) =~= fv);
        }
        total
    }
}

/// The total width dominates the width of any prefix.
proof fn lemma_select_width_prefix(fs: Seq<SelectFieldV>, i: int)
    requires
        0 <= i <= fs.len(),
    ensures
        select_width_total(fs.take(i)) <= select_width_total(fs),
    decreases fs.len() - i,
{
    if i == fs.len() {
        assert(fs.take(i) =~= fs);
    } else {
        assert(fs.take(i + 1).drop_last() =~= fs.take(i));
        lemma_select_width_prefix(fs, i + 1);
    }
}

/// A selected field the generator can load: an event argument (cast from
/// the context's argument array), or one of the system values it has a
/// helper for.
pub open spec fn select_field_supported(f: SelectFieldV) -> bool {
    (f.from_event && f.off is Some) || f.name == "pid"@ || f.name == "time"@
}

/// The early single-file compiler over one select.
#[derive(Debug)]
pub struct BpfCompiler {
    pub op: BpfSelect,
}

impl BpfCompiler {
    /// Wraps one select.
    pub fn new(op: BpfSelect) -> (r: BpfCompiler)
        ensures
            r.op == op,
    {
        BpfCompiler { op }
    }

    /// Compiles the select into one program text, with the emitted struct
    /// and ring buffer representations the caller loads and drains with.
    /// Succeeds exactly when every selected field is loadable.
    #[verifier::rlimit(100)]
    pub fn compile(&self) -> (r: Result<(String, RingBufferRepr, StructRepr), EbqlError>)
        ensures
            r is Ok <==> forall|i: int|
                0 <= i < self.op.fields@.len() ==> select_field_supported(
                    (#[trigger] self.op.fields@[i])@,
                ),
            r matches Ok(t) ==> views_of(t.2.fields@) == views_of(self.op.fields@),
            r matches Err(e) ==> e is Unsupported,
    {
        proof {
            lemma_views_of_index(self.op.fields@);
        }
        let mut cb = BpfCodeBuilder::new();
        cb.write_includes("vmlinux.h", false, Some("all kernel types"));
        cb.write_includes("bpf/bpf_core_read.h", true, Some("for BPF CO-RE helpers"));
        cb.write_includes(
            "bpf/bpf_helpers.h",
            true,
            Some("most used helpers: SEC, __always_inline, etc"),
        );
        cb.write_includes("bpf/bpf_tracing.h", true, None);
        // The emitted struct carries the selected fields in order.
        let s_repr = StructRepr {
            fields: clone_select_fields(&self.op.fields),
            name: "struct select_out".to_owned(),
        };
        let mut cb = cb.write_struct(s_repr.name.as_str());
        let mut i: usize = 0;
        while i < s_repr.fields.len()
            decreases s_repr.fields@.len() - i,
        {
            let t = s_repr.fields[i]._type.c_type();
            cb.write_field(s_repr.fields[i]._name.as_str(), t.as_str());
            i = i + 1;
        }
        let cb = cb.close();
        // The output ring buffer.
        let rb = RingBufferRepr::new();
        let mut cb = cb.write_map();
        cb.write_attr("__uint", "type", "BPF_MAP_TYPE_RINGBUF");
        cb.write_attr("__uint", "max_entries", "256 * 1024");
        let cb = cb.close(rb.name.as_str());
        // The program function.
        let func_name = "bpf_select_prog".to_owned();
        let section = self.op.event.section_name();
        let mut args: Vec<Arg> = Vec::new();
        args.push(
            Arg { _name: "ctx".to_owned(), _type: "struct trace_event_raw_sys_enter *".to_owned() },
        );
        let mut cb = cb.write_function(section.as_str(), "u32", func_name.as_str(), &args);
        let mut dbg: Vec<String> = Vec::new();
        dbg.push("\"got event\\n\"".to_owned());
        cb.write_func_call("bpf_printk", &dbg);
        // Reserve one record and bail when the buffer is full.
        let mut reserve = "bpf_ringbuf_reserve(&".to_owned();
        reserve.append(rb.name.as_str());
        reserve.append(", sizeof(");
        reserve.append(s_repr.name.as_str());
        reserve.append("), 0)");
        let mut ptr_type = s_repr.name.clone();
        ptr_type.append(" *");
        cb.write_var_initialization("e", ptr_type.as_str(), reserve.as_str());
        cb.write_if("!e");
        let mut fail: Vec<String> = Vec::new();
        fail.push("\"failed to allocate values\\n\"".to_owned());
        cb.write_func_call("bpf_printk", &fail);
        cb.write_return("1");
        cb.close_if();
        // Load every selected field.
        let mut k: usize = 0;
        while k < self.op.fields.len()
            invariant
                k <= self.op.fields@.len(),
                views_of(self.op.fields@).len() == self.op.fields@.len(),
                forall|j: int|
                    0 <= j < self.op.fields@.len() ==> views_of(self.op.fields@)[j]
                        == self.op.fields@[j]@,
                forall|j: int|
                    0 <= j < k ==> select_field_supported((#[trigger] self.op.fields@[j])@),
            decreases self.op.fields@.len() - k,
        {
            let f = &self.op.fields[k];
            let value: String = match (&f._event, f._off) {
                (Some(_), Some(off)) => {
                    let mut v = "(".to_owned();
                    let t = f._type.c_type();
                    v.append(t.as_str());
                    v.append(") ctx->args[");
                    let d = usize_to_dec(off);
                    v.append(d.as_str());
                    v.append("]");
                    v
                },
                _ => {
                    if crate::text::str_eq(f._name.as_str(), "pid") {
                        "bpf_get_current_pid_tgid() >> 32".to_owned()
                    } else if crate::text::str_eq(f._name.as_str(), "time") {
                        "bpf_ktime_get_ns()".to_owned()
                    } else {
                        return Err(
                            EbqlError::Unsupported(
                                "selected fields outside the event need a known helper".to_owned(),
                            ),
                        );
                    }
                },
            };
            let mut target = "e->".to_owned();
            target.append(f._name.as_str());
            cb.write_var_assignment(target.as_str(), value.as_str());
            k = k + 1;
        }
        // Emit the record and finish.
        let mut submit: Vec<String> = Vec::new();
        submit.push("e".to_owned());
        submit.push("0".to_owned());
        cb.write_func_call("bpf_ringbuf_submit", &submit);
        cb.write_return("0");
        let cb = cb.close();
        let code = cb.build();
        Ok((code, rb, s_repr))
    }
}

/// Copies a list of selected fields.
fn clone_select_fields(fs: &Vec<SelectField>) -> (r: Vec<SelectField>)
    ensures
        views_of(r@) == views_of(fs@),
        r@.len() == fs@.len(),
{
    proof {
        lemma_views_of_index(fs@);
    }
    let mut out: Vec<SelectField> = Vec::new();
    let mut i: usize = 0;
    while i < fs.len()
        invariant
            i <= fs@.len(),
            out@.len() == i,
            views_of(fs@).len() == fs@.len(),
            forall|j: int| 0 <= j < fs@.len() ==> views_of(fs@)[j] == fs@[j]@,
            views_of(out@) == views_of(fs@).take(i as int),
        decreases fs@.len() - i,
    {
        let ghost prev = out@;
        let f = &fs[i];
        let c = SelectField {
            _event: match &f._event {
                Some(e) => Some(crate::pipeline::TracepointEvent { path: e.path.clone() }),
                None => None,
            },
            _off: f._off,
            _name: f._name.clone(),
            _type: f._type.clone(),
        };
        out.push(c);
        proof {
            lemma_views_of_push(prev, out@.last());
            assert(views_of(fs@).take(i + 1) =~= views_of(fs@).take(i as int).push(
                views_of(fs@)[i as int],
            ));
            assert(out@.last()@ == fs@[i as int]@);
        }
        i = i + 1;
    }
    proof {
        assert(views_of(fs@).take(fs@.len() as int) =~= views_of(fs@));
    }
    out
}

} // verus!
