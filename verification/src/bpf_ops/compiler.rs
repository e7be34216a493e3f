//! The query compiler: materialises one plan as a generated program.
//!
//! For one plan the compiler renders the window header (and the aggregation
//! and histogram headers when the plan aggregates), lays the emitted schema
//! out as the output struct, declares the output ring buffer sized to the
//! window (capped by the memory budget), projects the plan's fields from
//! the event context, emits the filter by branching out on the negated
//! condition, and emits the terminal action: aggregate bookkeeping around a
//! window tumble, or a plain copy of the window buffer.

use vstd::prelude::*;

verus! {

use crate::bpf_ops::MAX_MEM_BYTES;
use crate::bpf_ops::agg::BpfAggregateTemplate;
use crate::bpf_ops::hist::BpfHistogramTemplate;
use crate::bpf_ops::window::BpfWindowType;
use crate::errors::EbqlError;
use crate::map::RingBuf;
use crate::bpf_ops::agg::{
    AVG_SCALE, AggV, agg_ctx_json, lemma_spec_agg_entries_push, spec_agg_entries, spec_agg_entry,
    spec_gb_entries, spec_gb_max_entries,
};
use crate::bpf_ops::window::window_ctx_json;
use crate::operators::{
    CmpOp, CondBase, CondExpr, CondV, CondBaseV, LitValue, LitV, LogOp, Operator, OperatorV,
    WindowType, spec_negate_cmp,
};
use crate::types::seq_fields_view;
use crate::views::{lemma_views_of_index, views_of};
use crate::physical_plan::BpfPlan;
use crate::prog_builder::{BpfCodeBuilder, BuildResult, Expr};
use crate::text::{dec_of, u64_to_dec};
use crate::types::{Field, Type};
use vstd::string::{StrSliceExecFns, StringExecFns};

/// The template texts the compiler expands; the caller supplies them (they
/// are on-disk assets).
#[derive(Debug)]
pub struct TemplateSet {
    pub tumbling_window: String,
    pub stateful_window: String,
    pub agg: String,
    pub hist: String,
}

/// What the handlebars engine produces for a template text and a context.
pub uninterp spec fn rendered(tmpl: Seq<char>, ctx: Seq<char>) -> Seq<char>;

/// Whether the handlebars engine accepts a template text and a context.
pub uninterp spec fn renders_ok(tmpl: Seq<char>, ctx: Seq<char>) -> bool;

/// Relies on handlebars' `Handlebars::render_template` (with
/// `serde_json::from_str` converting the context argument): with no helpers
/// registered, both the expansion and its success are functions of the
/// template text and the context JSON alone.
#[verifier::external_body]
fn render_template(tmpl: &str, ctx_json: &str) -> (r: Result<String, EbqlError>)
    ensures
        r is Ok <==> renders_ok(tmpl@, ctx_json@),
        r matches Ok(text) ==> text@ == rendered(tmpl@, ctx_json@),
        r matches Err(e) ==> e is Template,
{
    let ctx: serde_json::Value = match serde_json::from_str(ctx_json) {
        Ok(v) => v,
        Err(e) => {
            return Err(EbqlError::Template(e.to_string()));
        },
    };
    let hb = handlebars::Handlebars::new();
    match hb.render_template(tmpl, &ctx) {
        Ok(text) => Ok(text),
        Err(e) => Err(EbqlError::Template(e.to_string())),
    }
}

/// The ring-buffer capacity a window gets: a time window takes the whole
/// memory budget, a count window its count unless that would exceed the
/// budget.
pub open spec fn spec_max_entries(wt: WindowType, s_size: int) -> int {
    match wt {
        WindowType::Time(_, _) => MAX_MEM_BYTES as int / s_size,
        WindowType::Count(count, _) => if count * s_size > MAX_MEM_BYTES {
            MAX_MEM_BYTES as int / s_size
        } else {
            count as int
        },
        WindowType::Session(_) => 0,
    }
}

/// Computes the ring-buffer capacity; the capacity times the struct size
/// never exceeds the memory budget.
pub fn get_max_entries(wt: &WindowType, s_size: usize) -> (r: u64)
    requires
        s_size >= 1,
        !(wt is Session),
    ensures
        r == spec_max_entries(*wt, s_size as int),
        r * s_size <= MAX_MEM_BYTES,
{
    proof {
        vstd::arithmetic::div_mod::lemma_fundamental_div_mod(MAX_MEM_BYTES as int, s_size as int);
        vstd::arithmetic::div_mod::lemma_mod_bound(MAX_MEM_BYTES as int, s_size as int);
        assert((MAX_MEM_BYTES as int / s_size as int) * s_size as int <= MAX_MEM_BYTES as int)
            by (nonlinear_arith)
            requires
                MAX_MEM_BYTES as int == s_size as int * (MAX_MEM_BYTES as int / s_size as int) + (
                MAX_MEM_BYTES as int % s_size as int),
                MAX_MEM_BYTES as int % s_size as int >= 0,
        ;
    }
    proof {
        assert((0 as u128) <= (s_size as u128) < 0x10000000000000000u128);
    }
    match wt {
        WindowType::Time(_, _) => (MAX_MEM_BYTES / (s_size as u64)) as u64,
        WindowType::Count(count, _) => {
            proof {
                assert((*count as u128) * (s_size as u128) < 0x100000000000000000000000000000000int)
                    by (nonlinear_arith)
                    requires
                        0 <= (*count as u128) < 0x10000000000000000int,
                        0 <= (s_size as u128) < 0x10000000000000000int,
                ;
            }
            let need: u128 = (*count as u128) * (s_size as u128);
            if need > MAX_MEM_BYTES as u128 {
                MAX_MEM_BYTES / (s_size as u64)
            } else {
                *count
            }
        },
        WindowType::Session(_) => {
            proof {
                assert(false);
            }
            0
        },
    }
}

/// The C source text of a comparison operator.
pub open spec fn cmp_c_text(op: CmpOp) -> Seq<char> {
    match op {
        CmpOp::Equal => "=="@,
        CmpOp::NotEqual => "!="@,
        CmpOp::Less => "<"@,
        CmpOp::LessOrEqual => "<="@,
        CmpOp::Greater => ">"@,
        CmpOp::GreaterOrEqual => ">="@,
    }
}

/// A condition is renderable when its leaves are columns and integer
/// literals.
pub open spec fn spec_cond_renderable(c: CondV) -> bool
    decreases c,
{
    match c {
        CondV::Base(CondBaseV::Col(_)) => true,
        CondV::Base(CondBaseV::Lit(l)) => l is Int || l is UInt,
        CondV::Comparison(_, l, r) => spec_cond_renderable(*l) && spec_cond_renderable(*r),
        CondV::Logical(_, l, r) => spec_cond_renderable(*l) && spec_cond_renderable(*r),
    }
}

/// The decimal text of a signed literal.
pub open spec fn int_text(i: i64) -> Seq<char> {
    if i >= 0 {
        dec_of(i as nat)
    } else {
        "-"@ + dec_of((-(i as int)) as nat)
    }
}

/// The plain C rendering of a condition.
pub open spec fn spec_cond_text(c: CondV) -> Seq<char>
    decreases c,
{
    match c {
        CondV::Base(CondBaseV::Col(col)) => col.name,
        CondV::Base(CondBaseV::Lit(LitV::Int(i))) => int_text(i),
        CondV::Base(CondBaseV::Lit(LitV::UInt(u))) => dec_of(u as nat),
        CondV::Base(CondBaseV::Lit(LitV::Str(_))) => Seq::empty(),
        CondV::Comparison(op, l, r) => "("@ + spec_cond_text(*l) + ") "@ + cmp_c_text(op) + " ("@
            + spec_cond_text(*r) + ")"@,
        CondV::Logical(op, l, r) => "("@ + spec_cond_text(*l) + (match op {
            LogOp::And => ") && ("@,
            LogOp::Or => ") || ("@,
        }) + spec_cond_text(*r) + ")"@,
    }
}

/// The filter text emitted for a condition: the branch taken when the
/// condition FAILS. Comparisons appear with the negated operator,
/// a conjunction becomes a disjunction of the negated operand texts, and a
/// disjunction the corresponding conjunction.
pub open spec fn spec_filter_text(c: CondV) -> Seq<char>
    decreases c,
{
    match c {
        CondV::Base(_) => spec_cond_text(c),
        CondV::Comparison(op, l, r) => "("@ + spec_cond_text(*l) + ") "@ + cmp_c_text(
            spec_negate_cmp(op),
        ) + " ("@ + spec_cond_text(*r) + ")"@,
        CondV::Logical(op, l, r) => "!("@ + spec_cond_text(*l) + (match op {
            LogOp::And => ") || !("@,
            LogOp::Or => ") && !("@,
        }) + spec_cond_text(*r) + ")"@,
    }
}

/// Renders the decimal text of a signed literal.
fn int_to_dec(i: i64) -> (r: String)
    ensures
        r@ == int_text(i),
{
    if i >= 0 {
        u64_to_dec(i as u64)
    } else {
        let mut s = "-".to_owned();
        let mag: u64 = (-(i as i128)) as u64;
        let m = u64_to_dec(mag);
        s.append(m.as_str());
        s
    }
}

/// The plain C rendering of a condition; fails on a non-integer literal.
pub fn cond_text(c: &CondExpr) -> (r: Result<String, EbqlError>)
    ensures
        r is Ok <==> spec_cond_renderable(c@),
        r matches Ok(t) ==> t@ == spec_cond_text(c@),
        r matches Err(e) ==> e is Unsupported,
    decreases *c,
{
    match c {
        CondExpr::Base(CondBase::Col(col)) => Ok(col.name.clone()),
        CondExpr::Base(CondBase::Lit(LitValue::Int(i))) => Ok(int_to_dec(*i)),
        CondExpr::Base(CondBase::Lit(LitValue::UInt(u))) => Ok(u64_to_dec(*u)),
        CondExpr::Base(CondBase::Lit(LitValue::Str(_))) => Err(
            EbqlError::Unsupported("string literals in filters".to_owned()),
        ),
        CondExpr::Comparison(op, l, r) => {
            let lt = match cond_text(&**l) {
                Ok(t) => t,
                Err(e) => {
                    return Err(e);
                },
            };
            let rt = match cond_text(&**r) {
                Ok(t) => t,
                Err(e) => {
                    return Err(e);
                },
            };
            let mut s = "(".to_owned();
            s.append(lt.as_str());
            s.append(") ");
            s.append(cmp_op_text(op));
            s.append(" (");
            s.append(rt.as_str());
            s.append(")");
            Ok(s)
        },
        CondExpr::Logical(op, l, r) => {
            let lt = match cond_text(&**l) {
                Ok(t) => t,
                Err(e) => {
                    return Err(e);
                },
            };
            let rt = match cond_text(&**r) {
                Ok(t) => t,
                Err(e) => {
                    return Err(e);
                },
            };
            let mut s = "(".to_owned();
            s.append(lt.as_str());
            s.append(match op {
                LogOp::And => ") && (",
                LogOp::Or => ") || (",
            });
            s.append(rt.as_str());
            s.append(")");
            Ok(s)
        },
    }
}

/// The C text of a comparison operator.
fn cmp_op_text(op: &CmpOp) -> (r: &'static str)
    ensures
        r@ == cmp_c_text(*op),
{
    match op {
        CmpOp::Equal => "==",
        CmpOp::NotEqual => "!=",
        CmpOp::Less => "<",
        CmpOp::LessOrEqual => "<=",
        CmpOp::Greater => ">",
        CmpOp::GreaterOrEqual => ">=",
    }
}

/// Converts a condition into the filter branch text: the generated program
/// returns early when this text holds, i.e. when the condition fails.
pub fn ce_to_cond(ce: &CondExpr) -> (r: Result<String, EbqlError>)
    ensures
        r is Ok <==> spec_cond_renderable(ce@),
        r matches Ok(t) ==> t@ == spec_filter_text(ce@),
        r matches Err(e) ==> e is Unsupported,
{
    match ce {
        CondExpr::Base(_) => cond_text(ce),
        CondExpr::Comparison(op, l, r) => {
            let lt = match cond_text(&**l) {
                Ok(t) => t,
                Err(e) => {
                    return Err(e);
                },
            };
            let rt = match cond_text(&**r) {
                Ok(t) => t,
                Err(e) => {
                    return Err(e);
                },
            };
            let nop = match op {
                CmpOp::Equal => CmpOp::NotEqual,
                CmpOp::NotEqual => CmpOp::Equal,
                CmpOp::Less => CmpOp::GreaterOrEqual,
                CmpOp::LessOrEqual => CmpOp::Greater,
                CmpOp::Greater => CmpOp::LessOrEqual,
                CmpOp::GreaterOrEqual => CmpOp::Less,
            };
            let mut s = "(".to_owned();
            s.append(lt.as_str());
            s.append(") ");
            s.append(cmp_op_text(&nop));
            s.append(" (");
            s.append(rt.as_str());
            s.append(")");
            Ok(s)
        },
        CondExpr::Logical(op, l, r) => {
            let lt = match cond_text(&**l) {
                Ok(t) => t,
                Err(e) => {
                    return Err(e);
                },
            };
            let rt = match cond_text(&**r) {
                Ok(t) => t,
                Err(e) => {
                    return Err(e);
                },
            };
            let mut s = "!(".to_owned();
            s.append(lt.as_str());
            s.append(match op {
                LogOp::And => ") || !(",
                LogOp::Or => ") && !(",
            });
            s.append(rt.as_str());
            s.append(")");
            Ok(s)
        },
    }
}

/// The scalar aggregates the kernel templates implement.
pub open spec fn is_scalar_agg(op: OperatorV) -> bool {
    match op {
        OperatorV::Max(_) => true,
        OperatorV::Min(_) => true,
        OperatorV::Average(_) => true,
        OperatorV::Sum(_) => true,
        OperatorV::Count(_) => true,
        _ => false,
    }
}

/// The `(is_count, count, interval)` parameters a window's template
/// receives.
pub open spec fn spec_window_params(w: WindowType) -> (bool, u64, u64) {
    match w {
        WindowType::Count(n, _) => (true, n, 0),
        WindowType::Time(iv, _) => (false, 0x8000, iv),
        WindowType::Session(_) => (true, 0, 0),
    }
}

/// Everything compilation demands of a plan and the template assets: no
/// distinct join and no map operators (neither has a kernel body), a
/// tumbling window, only scalar aggregates and group-by keys to anchor
/// them, templates that expand over the plan's contexts, a layoutable
/// emitted schema, and a renderable filter.
pub open spec fn spec_compile_ok(
    p: crate::physical_plan::PlanV,
    t: TemplateSet,
    n_cpus: u64,
) -> bool {
    let qn = p.schema.name;
    &&& p.distinct_join is None
    &&& p.maps.len() == 0
    &&& (match p.window {
        Some(WindowType::Time(iv, st)) => iv == st,
        Some(WindowType::Count(n, st)) => n == st,
        _ => false,
    })
    &&& renders_ok(
        if p.aggs.len() > 0 {
            t.tumbling_window@
        } else {
            t.stateful_window@
        },
        window_ctx_json(
            qn,
            spec_window_params(p.window.unwrap()).0,
            spec_window_params(p.window.unwrap()).1,
            spec_window_params(p.window.unwrap()).2,
        ),
    )
    &&& (forall|k: int| 0 <= k < p.aggs.len() ==> is_scalar_agg(#[trigger] p.aggs[k]))
    &&& (p.aggs.len() > 0 ==> p.group_by.len() > 0)
    &&& renders_ok(
        t.agg@,
        agg_ctx_json(
            qn,
            spec_gb_max_entries(p.group_by, n_cpus),
            AVG_SCALE,
            spec_gb_entries(p.group_by),
            spec_agg_entries(p.aggs, qn),
        ),
    )
    &&& crate::schema::schema_layoutable(p.schema, p.event)
    &&& (match p.filters {
        None => true,
        Some(OperatorV::Filter(c)) => spec_cond_renderable(c),
        Some(_) => false,
    })
}

/// Query compiler into a generated BPF program.
#[derive(Debug)]
pub struct QueryCompiler {
    /// Processors available; sizes per-CPU group-by tables.
    pub n_cpus: u64,
}

impl QueryCompiler {
    /// Compiles one plan into the generated program texts. The plan must
    /// carry a tumbling window, no map operators, and no distinct join (the
    /// in-kernel join body is not implemented); its schema must be
    /// layoutable at its event. The output ring buffer's struct is the laid
    /// out emitted schema, and its capacity is the window size capped by the
    /// memory budget.
    #[verifier::rlimit(100)]
    pub fn compile_bpf_ops(&self, plan: &BpfPlan, templates: &TemplateSet) -> (r: Result<
        BuildResult,
        EbqlError,
    >)
        ensures
            r is Ok <==> spec_compile_ok(plan@, *templates, self.n_cpus),
            plan.distinct_join is Some ==> (r matches Err(e) && e is Unsupported),
            plan.distinct_join is None && plan.maps@.len() > 0 ==> (r matches Err(e)
                && e is Unsupported),
            plan.distinct_join is None && plan.maps@.len() == 0 && plan.window is None ==> (
            r matches Err(e) && e is Plan),
            r matches Ok(br) ==> {
                &&& plan.window is Some
                &&& !(plan.window.unwrap() is Session)
                &&& crate::schema::schema_layoutable(plan.schema@, plan.event)
                &&& br.name@ == plan.schema@.name
                &&& br.ringbuf.name@ == "ring_buf_"@ + plan.schema@.name
                &&& br.ringbuf.s_repr.wf()
                &&& br.ringbuf.s_repr.schema@ == plan.schema@
                &&& br.ringbuf.max_entries == spec_max_entries(
                    plan.window.unwrap(),
                    br.ringbuf.s_repr.sz as int,
                )
            },
    {
        proof {
            lemma_views_of_index(plan.maps@);
            lemma_views_of_index(plan.aggs@);
            crate::types::lemma_seq_fields_view_index(plan.group_by@);
        }
        if plan.distinct_join.is_some() {
            return Err(EbqlError::Unsupported("the in-kernel join body".to_owned()));
        }
        if plan.maps.len() > 0 {
            return Err(EbqlError::Unsupported("map operators".to_owned()));
        }
        let mut section = plan.event.program_type().section_name().to_owned();
        section.append("/");
        let en = plan.event.name();
        section.append(en.as_str());
        let cb = BpfCodeBuilder::new(plan.schema.name.clone(), section);
        let mut cb = cb;
        // Window header.
        let has_aggs = plan.aggs.len() > 0;
        let wt = match &plan.window {
            Some(w) => w,
            None => {
                return Err(EbqlError::Plan("a query needs a window to batch results".to_owned()));
            },
        };
        let bwt = match BpfWindowType::from_window_type(wt) {
            Ok(b) => b,
            Err(e) => {
                return Err(e);
            },
        };
        let wtmpl = bwt.get_tmpl(plan.schema.name.clone(), has_aggs);
        proof {
            assert(wtmpl.ctx@ == window_ctx_json(
                plan.schema@.name,
                spec_window_params(plan@.window.unwrap()).0,
                spec_window_params(plan@.window.unwrap()).1,
                spec_window_params(plan@.window.unwrap()).2,
            ));
        }
        let wtext = if has_aggs {
            templates.tumbling_window.as_str()
        } else {
            templates.stateful_window.as_str()
        };
        let ghost wtmpl_text: Seq<char> = if plan@.aggs.len() > 0 {
            templates.tumbling_window@
        } else {
            templates.stateful_window@
        };
        let wrendered = match render_template(wtext, wtmpl.ctx.as_str()) {
            Ok(t) => t,
            Err(e) => {
                proof {
                    assert(!renders_ok(wtmpl_text, wtmpl.ctx@));
                }
                return Err(e);
            },
        };
        cb.add_external_includes(wtmpl.name.as_str(), wrendered);
        // Aggregation and histogram headers.
        let mut agg_tmpl = BpfAggregateTemplate::new(
            plan.schema.name.clone(),
            &plan.group_by,
            self.n_cpus,
        );
        let ghost core_name = cb.core.name;
        let ghost av = views_of(plan.aggs@);
        proof {
            assert(av.take(0int) =~= Seq::<OperatorV>::empty());
        }
        let mut i: usize = 0;
        while i < plan.aggs.len()
            invariant
                cb.core.name == core_name,
                cb.core.ring_buffer is None,
                plan.distinct_join is None,
                plan.maps@.len() == 0,
                plan.window is Some,
                i <= plan.aggs@.len(),
                av == views_of(plan.aggs@),
                av.len() == plan.aggs@.len(),
                forall|j: int| 0 <= j < plan.aggs@.len() ==> av[j] == plan.aggs@[j]@,
                agg_tmpl.query_name@ == plan.schema@.name,
                agg_tmpl.gb_max_entries == spec_gb_max_entries(
                    seq_fields_view(plan.group_by@),
                    self.n_cpus,
                ),
                agg_tmpl.avg_scale == AVG_SCALE,
                agg_tmpl.group_bys@.len() == plan.group_by@.len(),
                views_of(agg_tmpl.group_bys@) == spec_gb_entries(seq_fields_view(plan.group_by@)),
                views_of(agg_tmpl.aggs@) == spec_agg_entries(
                    av.take(i as int),
                    plan.schema@.name,
                ),
            decreases plan.aggs@.len() - i,
        {
            match &plan.aggs[i] {
                Operator::Histogram(buckets) => {
                    proof {
                        assert(!is_scalar_agg(av[i as int]));
                    }
                    if buckets.len() == 0 {
                        return Err(
                            EbqlError::Plan("a histogram needs at least one bucket".to_owned()),
                        );
                    }
                    if buckets.len() >= 1000000 {
                        return Err(
                            EbqlError::Plan("too many histogram buckets to render".to_owned()),
                        );
                    }
                    let htmpl = BpfHistogramTemplate::get_tmpl(buckets);
                    let hrendered = match render_template(
                        templates.hist.as_str(),
                        htmpl.ctx.as_str(),
                    ) {
                        Ok(t) => t,
                        Err(e) => {
                            return Err(e);
                        },
                    };
                    cb.add_external_includes(htmpl.name.as_str(), hrendered);
                    proof {
                        assert(av.take(i + 1) =~= av.take(i as int).push(av[i as int]));
                        lemma_spec_agg_entries_push(
                            av.take(i as int),
                            av[i as int],
                            plan.schema@.name,
                        );
                    }
                },
                Operator::Max(_)
                | Operator::Min(_)
                | Operator::Average(_)
                | Operator::Sum(_)
                | Operator::Count(_) => {
                    match agg_tmpl.update(&plan.aggs[i]) {
                        Ok(_) => {
                            proof {
                                assert(av.take(i + 1) =~= av.take(i as int).push(av[i as int]));
                                lemma_spec_agg_entries_push(
                                    av.take(i as int),
                                    av[i as int],
                                    plan.schema@.name,
                                );
                            }
                        },
                        Err(e) => {
                            proof {
                                // The entry exists (the operator is a scalar
                                // aggregate), so the failure is the missing
                                // group-by keys of a counted aggregation.
                                assert(spec_agg_entry(av[i as int], plan.schema@.name) is Some);
                                assert(plan@.group_by.len() == 0);
                                assert(plan@.aggs.len() > 0);
                            }
                            return Err(e);
                        },
                    }
                },
                _ => {
                    proof {
                        assert(av.take(i + 1) =~= av.take(i as int).push(av[i as int]));
                        lemma_spec_agg_entries_push(
                            av.take(i as int),
                            av[i as int],
                            plan.schema@.name,
                        );
                    }
                },
            }
            i = i + 1;
        }
        let agg_json = agg_tmpl.to_json();
        proof {
            assert(av.take(av.len() as int) =~= av);
            assert(agg_json@ == agg_ctx_json(
                plan.schema@.name,
                spec_gb_max_entries(plan@.group_by, self.n_cpus),
                AVG_SCALE,
                spec_gb_entries(plan@.group_by),
                spec_agg_entries(plan@.aggs, plan.schema@.name),
            ));
        }
        let arendered = match render_template(templates.agg.as_str(), agg_json.as_str()) {
            Ok(t) => t,
            Err(e) => {
                return Err(e);
            },
        };
        cb.add_external_includes("agg", arendered);
        // Lay out the emitted schema and declare the output ring buffer.
        let bpf_struct = match plan.schema.to_bpf_struct(&plan.event) {
            Ok(s) => s,
            Err(e) => {
                return Err(e);
            },
        };
        let struct_size = bpf_struct.sz;
        proof {
            crate::bpf_struct::lemma_size_bound(bpf_struct.fv());
        }
        let mut rb_name = "ring_buf_".to_owned();
        rb_name.append(plan.schema.name.as_str());
        let max_entries = get_max_entries(wt, struct_size);
        let rb = RingBuf { name: rb_name, s_repr: bpf_struct, max_entries };
        let cb = cb.write_ring_buffer(&rb);
        // The program function over the event context.
        let mut args: Vec<Expr> = Vec::new();
        args.push(
            Field::new(
                "ctx".to_owned(),
                Type::Pointer(Box::new(Type::Struct(plan.event.ctx(), None))),
            ),
        );
        let mut cb = cb.start_function(&args);
        // Project the plan's fields.
        let ghost rbsnap = cb.core.ring_buffer;
        let ghost namesnap = cb.core.name;
        let mut p: usize = 0;
        while p < plan.projects.len()
            invariant
                cb.core.ring_buffer == rbsnap,
                cb.core.name == namesnap,
            decreases plan.projects@.len() - p,
        {
            cb.write_field(&plan.projects[p], None);
            p = p + 1;
        }
        let mut dbg_args: Vec<String> = Vec::new();
        dbg_args.push("\"Got event\"".to_owned());
        cb.write_func_call("DEBUG", &dbg_args);
        // The filter: branch out when the lowered condition holds.
        match &plan.filters {
            Some(Operator::Filter(ce)) => {
                let cond = match ce_to_cond(ce) {
                    Ok(c) => c,
                    Err(e) => {
                        return Err(e);
                    },
                };
                cb.write_if(cond.as_str());
                let mut info_args: Vec<String> = Vec::new();
                info_args.push("\"Event did not match filter; dropping...\"".to_owned());
                cb.write_func_call("INFO", &info_args);
                cb.write_return("1");
                cb.close_if();
            },
            Some(_) => {
                return Err(EbqlError::Plan("a non-filter operator in the filters".to_owned()));
            },
            None => {},
        }
        // Terminal action.
        let mut window_args: Vec<String> = Vec::new();
        let is_time = match wt {
            WindowType::Time(_, _) => true,
            _ => false,
        };
        if is_time {
            window_args.push("time".to_owned());
        }
        if plan.aggs.len() > 0 {
            self.emit_aggregate_tail(&mut cb, plan, &rb, &window_args)?;
        } else {
            self.emit_plain_tail(&mut cb, plan, &rb, is_time)?;
        }
        cb.write_return("0");
        let cb = cb.close();
        let br = cb.build();
        Ok(br)
    }

    /// Emits the aggregate terminal action: add to the window; on a tumble,
    /// reserve space, emit each aggregate's results, submit, reset the
    /// aggregates and tumble the window; then fold the current event into
    /// the aggregates.
    fn emit_aggregate_tail(
        &self,
        cb: &mut BpfCodeBuilder<crate::prog_builder::BodyConstruction>,
        plan: &BpfPlan,
        rb: &RingBuf,
        window_args: &Vec<String>,
    ) -> (r: Result<(), EbqlError>)
        requires
            plan.aggs@.len() > 0,
        ensures
            final(cb).core.ring_buffer == old(cb).core.ring_buffer,
            final(cb).core.name == old(cb).core.name,
            r is Ok <==> (plan.group_by@.len() > 0 && forall|k: int|
                0 <= k < views_of(plan.aggs@).len() ==> is_scalar_agg(
                    #[trigger] views_of(plan.aggs@)[k],
                )),
    {
        proof {
            lemma_views_of_index(plan.aggs@);
        }
        let ghost av = views_of(plan.aggs@);
        let ghost rbsnap = cb.core.ring_buffer;
        let ghost namesnap = cb.core.name;
        let mut add_call = "window_add(".to_owned();
        let mut wi: usize = 0;
        while wi < window_args.len()
            invariant
                cb.core.ring_buffer == old(cb).core.ring_buffer,
                cb.core.name == old(cb).core.name,
            decreases window_args@.len() - wi,
        {
            if wi > 0 {
                add_call.append(", ");
            }
            add_call.append(window_args[wi].as_str());
            wi = wi + 1;
        }
        add_call.append(")");
        cb.write_var_initialization(&Field::new("tumble".to_owned(), Type::Bool), add_call.as_str());
        cb.write_if("tumble");
        let (agg_name, field_name): (&str, String) = match &plan.aggs[0] {
            Operator::Max(s) => ("max", s.clone()),
            Operator::Min(s) => ("min", s.clone()),
            Operator::Average(s) => ("avg", s.clone()),
            Operator::Sum(s) => ("sum", s.clone()),
            Operator::Count(Some(s)) => ("count", s.clone()),
            Operator::Count(None) => ("count", String::new()),
            _ => {
                proof {
                    assert(!is_scalar_agg(av[0]));
                }
                return Err(
                    EbqlError::Plan("the first aggregation is not an implemented one".to_owned()),
                );
            },
        };
        let mut count_call = "count_".to_owned();
        count_call.append(agg_name);
        count_call.append("_");
        count_call.append(field_name.as_str());
        count_call.append("_");
        count_call.append(plan.schema.name.as_str());
        count_call.append("()");
        cb.write_var_initialization(
            &Field::new("n_results".to_owned(), Type::U64),
            count_call.as_str(),
        );
        // Cap the result count so the in-kernel verifier sees a bound.
        let me = u64_to_dec(rb.max_entries);
        let mut cap_cond = "n_results >= ".to_owned();
        cap_cond.append(me.as_str());
        cb.write_if(cap_cond.as_str());
        let mut warn_args: Vec<String> = Vec::new();
        warn_args.push("\"Got too many results; truncating to max rb entries...\"".to_owned());
        cb.write_func_call("WARN", &warn_args);
        cb.write_var_assignment("n_results", me.as_str());
        cb.close_if();
        cb.write_if("n_results > 0");
        let mut reserve = "bpf_ringbuf_reserve(&".to_owned();
        reserve.append(rb.name.as_str());
        reserve.append(", n_results * sizeof(");
        reserve.append(plan.schema.name.as_str());
        reserve.append("_t), 0)");
        let mut struct_ptr_name = plan.schema.name.clone();
        struct_ptr_name.append("_t");
        cb.write_var_initialization(
            &Field::new("buf".to_owned(), Type::Pointer(Box::new(Type::Struct(struct_ptr_name, None)))),
            reserve.as_str(),
        );
        cb.write_if("!buf");
        let mut err_args: Vec<String> = Vec::new();
        err_args.push("\"Failed to allocate from ring buffer\"".to_owned());
        cb.write_func_call("ERROR", &err_args);
        cb.write_return("1");
        cb.close_if();
        // Emit each aggregate's results into the reserved buffer.
        let mut gi: usize = 0;
        while gi < plan.aggs.len()
            invariant
                cb.core.ring_buffer == old(cb).core.ring_buffer,
                cb.core.name == old(cb).core.name,
                gi <= plan.aggs@.len(),
                av == views_of(plan.aggs@),
                av.len() == plan.aggs@.len(),
                forall|j: int| 0 <= j < plan.aggs@.len() ==> av[j] == plan.aggs@[j]@,
                forall|j: int| 0 <= j < gi ==> is_scalar_agg(#[trigger] av[j]),
            decreases plan.aggs@.len() - gi,
        {
            match agg_call_name("get_", &plan.aggs[gi], &plan.schema.name) {
                Some(func) => {
                    let mut get_args: Vec<String> = Vec::new();
                    get_args.push("buf".to_owned());
                    get_args.push("n_results".to_owned());
                    cb.write_func_call(func.as_str(), &get_args);
                },
                None => {
                    proof {
                        assert(!is_scalar_agg(av[gi as int]));
                    }
                    return Err(EbqlError::Plan("an operator that is no aggregate".to_owned()));
                },
            }
            gi = gi + 1;
        }
        let mut submit_args: Vec<String> = Vec::new();
        submit_args.push("buf".to_owned());
        submit_args.push("0".to_owned());
        cb.write_func_call("bpf_ringbuf_submit", &submit_args);
        cb.close_if();
        // Reset the aggregates for the next window.
        let mut ti: usize = 0;
        while ti < plan.aggs.len()
            invariant
                cb.core.ring_buffer == old(cb).core.ring_buffer,
                cb.core.name == old(cb).core.name,
                ti <= plan.aggs@.len(),
                av == views_of(plan.aggs@),
                av.len() == plan.aggs@.len(),
                forall|j: int| 0 <= j < plan.aggs@.len() ==> av[j] == plan.aggs@[j]@,
                forall|j: int| 0 <= j < ti ==> is_scalar_agg(#[trigger] av[j]),
            decreases plan.aggs@.len() - ti,
        {
            match agg_call_name("tumble_", &plan.aggs[ti], &plan.schema.name) {
                Some(func) => {
                    let empty_args: Vec<String> = Vec::new();
                    cb.write_func_call(func.as_str(), &empty_args);
                },
                None => {
                    proof {
                        assert(!is_scalar_agg(av[ti as int]));
                    }
                    return Err(EbqlError::Plan("an operator that is no aggregate".to_owned()));
                },
            }
            ti = ti + 1;
        }
        cb.write_func_call("window_tumble", window_args);
        cb.close_if();
        // Fold the tumbling event into the fresh window: insert after emit.
        if plan.group_by.len() == 0 {
            return Err(EbqlError::Unsupported("aggregations without group-by keys".to_owned()));
        }
        let mut gb = "(group_by_".to_owned();
        gb.append(plan.schema.name.as_str());
        gb.append("_t){");
        let mut bi: usize = 0;
        while bi < plan.group_by.len()
            invariant
                cb.core.ring_buffer == old(cb).core.ring_buffer,
                cb.core.name == old(cb).core.name,
            decreases plan.group_by@.len() - bi,
        {
            if bi > 0 {
                gb.append(", ");
            }
            gb.append(plan.group_by[bi]._name.as_str());
            bi = bi + 1;
        }
        gb.append("}");
        let mut ii: usize = 0;
        while ii < plan.aggs.len()
            invariant
                cb.core.ring_buffer == old(cb).core.ring_buffer,
                cb.core.name == old(cb).core.name,
                ii <= plan.aggs@.len(),
                av == views_of(plan.aggs@),
                av.len() == plan.aggs@.len(),
                forall|j: int| 0 <= j < plan.aggs@.len() ==> av[j] == plan.aggs@[j]@,
                forall|j: int| 0 <= j < ii ==> is_scalar_agg(#[trigger] av[j]),
            decreases plan.aggs@.len() - ii,
        {
            match agg_call_name("insert_", &plan.aggs[ii], &plan.schema.name) {
                Some(func) => {
                    let value: String = match &plan.aggs[ii] {
                        Operator::Count(_) => "1".to_owned(),
                        Operator::Max(s) => s.clone(),
                        Operator::Min(s) => s.clone(),
                        Operator::Average(s) => s.clone(),
                        Operator::Sum(s) => s.clone(),
                        _ => {
                            proof {
                                assert(!is_scalar_agg(av[ii as int]));
                                assert(false);
                            }
                            return Err(
                                EbqlError::Plan("an operator that is no aggregate".to_owned()),
                            );
                        },
                    };
                    let mut insert_args: Vec<String> = Vec::new();
                    insert_args.push(gb.clone());
                    insert_args.push(value);
                    cb.write_func_call(func.as_str(), &insert_args);
                },
                None => {
                    proof {
                        assert(!is_scalar_agg(av[ii as int]));
                    }
                    return Err(EbqlError::Plan("an operator that is no aggregate".to_owned()));
                },
            }
            ii = ii + 1;
        }
        Ok(())
    }

    /// Emits the plain terminal action: add the projected record to the
    /// window; on a tumble, reserve space, copy the window buffer through
    /// the kernel's bounded probe-read helper, submit, and tumble.
    fn emit_plain_tail(
        &self,
        cb: &mut BpfCodeBuilder<crate::prog_builder::BodyConstruction>,
        plan: &BpfPlan,
        rb: &RingBuf,
        is_time: bool,
    ) -> (r: Result<(), EbqlError>)
        ensures
            final(cb).core.ring_buffer == old(cb).core.ring_buffer,
            final(cb).core.name == old(cb).core.name,
            r is Ok,
    {
        let ghost rbsnap = cb.core.ring_buffer;
        let ghost namesnap = cb.core.name;
        let mut window_arg = "(".to_owned();
        window_arg.append(plan.schema.name.as_str());
        window_arg.append("_t){");
        let mut pi: usize = 0;
        while pi < plan.projects.len()
            invariant
                cb.core.ring_buffer == old(cb).core.ring_buffer,
                cb.core.name == old(cb).core.name,
            decreases plan.projects@.len() - pi,
        {
            if pi > 0 {
                window_arg.append(", ");
            }
            window_arg.append(plan.projects[pi]._name.as_str());
            pi = pi + 1;
        }
        window_arg.append("}");
        let mut add_call = "window_add(".to_owned();
        add_call.append(window_arg.as_str());
        add_call.append(")");
        cb.write_var_initialization(&Field::new("tumble".to_owned(), Type::Bool), add_call.as_str());
        cb.write_if("tumble");
        cb.write_var_initialization(&Field::new("n_results".to_owned(), Type::U64), "get_size()");
        let me = u64_to_dec(rb.max_entries);
        let mut cap_cond = "n_results >= ".to_owned();
        cap_cond.append(me.as_str());
        cb.write_if(cap_cond.as_str());
        let mut warn_args: Vec<String> = Vec::new();
        warn_args.push("\"Got too many results; truncating to max rb entries...\"".to_owned());
        cb.write_func_call("WARN", &warn_args);
        cb.write_var_assignment("n_results", me.as_str());
        cb.close_if();
        let mut n_bytes = "n_results * sizeof(".to_owned();
        n_bytes.append(plan.schema.name.as_str());
        n_bytes.append("_t)");
        let mut reserve = "bpf_ringbuf_reserve(&".to_owned();
        reserve.append(rb.name.as_str());
        reserve.append(", ");
        reserve.append(n_bytes.as_str());
        reserve.append(", 0)");
        let mut struct_ptr_name = plan.schema.name.clone();
        struct_ptr_name.append("_t");
        cb.write_var_initialization(
            &Field::new("buf".to_owned(), Type::Pointer(Box::new(Type::Struct(struct_ptr_name, None)))),
            reserve.as_str(),
        );
        cb.write_if("!buf");
        let mut err_args: Vec<String> = Vec::new();
        err_args.push("\"Failed to allocate from ring buffer\"".to_owned());
        cb.write_func_call("ERROR", &err_args);
        cb.write_return("1");
        cb.close_if();
        cb.write_str_assignment("w.buf", "buf", n_bytes.as_str());
        let mut submit_args: Vec<String> = Vec::new();
        submit_args.push("buf".to_owned());
        submit_args.push("0".to_owned());
        cb.write_func_call("bpf_ringbuf_submit", &submit_args);
        let mut tumble_args: Vec<String> = Vec::new();
        if is_time {
            tumble_args.push(window_arg);
        }
        cb.write_func_call("window_tumble", &tumble_args);
        cb.close_if();
        Ok(())
    }
}

/// The generated helper name one aggregate's calls use:
/// `<prefix><agg>_<field>_<query>`; only scalar aggregates have one.
fn agg_call_name(prefix: &str, op: &Operator, schema_name: &String) -> (r: Option<String>)
    ensures
        r is Some <==> is_scalar_agg(op@),
{
    let (agg, field): (&str, String) = match op {
        Operator::Max(s) => ("max", s.clone()),
        Operator::Min(s) => ("min", s.clone()),
        Operator::Average(s) => ("avg", s.clone()),
        Operator::Sum(s) => ("sum", s.clone()),
        Operator::Count(Some(s)) => ("count", s.clone()),
        Operator::Count(None) => ("count", String::new()),
        _ => {
            return None;
        },
    };
    let mut name = prefix.to_owned();
    name.append(agg);
    name.append("_");
    name.append(field.as_str());
    name.append("_");
    name.append(schema_name.as_str());
    Some(name)
}

} // verus!
