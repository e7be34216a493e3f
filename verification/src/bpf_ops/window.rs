//! The window templates: tumbling count or time windows realised in the
//! kernel.

use vstd::prelude::*;

verus! {

use crate::bpf_ops::HeaderTemplate;
use crate::errors::EbqlError;
use crate::operators::WindowType;
use crate::text::{dec_of, u64_to_dec};
use vstd::string::{StrSliceExecFns, StringExecFns};

/// The window implementations the kernel supports.
#[derive(Debug, Clone, Copy, PartialEq, Eq, Structural)]
pub enum BpfWindowType {
    /// A tumbling window of the given record count.
    TumblingCountWindow(u64),
    /// A tumbling window of the given length in nanoseconds.
    TumblingTimeWindow(u64),
}

/// The rendering context of a window template.
#[derive(Debug)]
pub struct BpfWindowTemplate {
    pub query_name: String,
    pub is_count: bool,
    pub count: u64,
    pub interval: u64,
}

impl BpfWindowType {
    /// Lowers a plan window: only tumbling count and time windows have a
    /// kernel implementation.
    pub fn from_window_type(wt: &WindowType) -> (r: Result<BpfWindowType, EbqlError>)
        ensures
            r matches Ok(b) ==> match *wt {
                WindowType::Time(iv, st) => iv == st && b == BpfWindowType::TumblingTimeWindow(iv),
                WindowType::Count(n, st) => n == st && b == BpfWindowType::TumblingCountWindow(n),
                WindowType::Session(_) => false,
            },
            r is Err <==> match *wt {
                WindowType::Time(iv, st) => iv != st,
                WindowType::Count(n, st) => n != st,
                WindowType::Session(_) => true,
            },
            r matches Err(e) ==> e is Unsupported,
    {
        match wt {
            WindowType::Time(iv, st) => {
                if *iv == *st {
                    Ok(BpfWindowType::TumblingTimeWindow(*iv))
                } else {
                    Err(EbqlError::Unsupported("non-tumbling step windows".to_owned()))
                }
            },
            WindowType::Count(n, st) => {
                if *n == *st {
                    Ok(BpfWindowType::TumblingCountWindow(*n))
                } else {
                    Err(EbqlError::Unsupported("non-tumbling step windows".to_owned()))
                }
            },
            WindowType::Session(_) => Err(EbqlError::Unsupported("session windows".to_owned())),
        }
    }

    /// The count and interval parameters the template receives: a count
    /// window carries its count, a time window its interval in nanoseconds
    /// and a fixed buffer capacity.
    pub open spec fn spec_params(self) -> (bool, u64, u64) {
        match self {
            BpfWindowType::TumblingCountWindow(n) => (true, n, 0),
            BpfWindowType::TumblingTimeWindow(ns) => (false, 0x8000, ns),
        }
    }

    /// Builds the window header template. With aggregates the tumbling
    /// window template is used; without, the stateful window that buffers
    /// whole records.
    pub fn get_tmpl(&self, name: String, has_aggs: bool) -> (r: HeaderTemplate)
        ensures
            r.name@ == (if has_aggs {
                "tumbling_window"@
            } else {
                "stateful_window"@
            }),
            r.ctx@ == window_ctx_json(
                name@,
                self.spec_params().0,
                self.spec_params().1,
                self.spec_params().2,
            ),
    {
        let (is_count, count, interval): (bool, u64, u64) = match self {
            BpfWindowType::TumblingCountWindow(n) => (true, *n, 0),
            BpfWindowType::TumblingTimeWindow(ns) => (false, 0x8000, *ns),
        };
        let wname: &str = if has_aggs {
            "tumbling_window"
        } else {
            "stateful_window"
        };
        let mut path = crate::bpf_ops::BPF_HEADERS_DIR.to_owned();
        path.append(wname);
        path.append(".bpf.h.tmpl");
        let mut ctx = "{\"query_name\": \"".to_owned();
        ctx.append(name.as_str());
        ctx.append("\", \"is_count\": ");
        ctx.append(if is_count { "true" } else { "false" });
        ctx.append(", \"count\": ");
        let c = u64_to_dec(count);
        ctx.append(c.as_str());
        ctx.append(", \"interval\": ");
        let iv = u64_to_dec(interval);
        ctx.append(iv.as_str());
        ctx.append("}");
        HeaderTemplate { name: wname.to_owned(), tmpl_path: path, ctx }
    }
}

/// The JSON context a window template is rendered with.
pub open spec fn window_ctx_json(name: Seq<char>, is_count: bool, count: u64, interval: u64) -> Seq<
    char,
> {
    "{\"query_name\": \""@ + name + "\", \"is_count\": "@ + (if is_count {
        "true"@
    } else {
        "false"@
    }) + ", \"count\": "@ + dec_of(count as nat) + ", \"interval\": "@ + dec_of(interval as nat)
        + "}"@
}

} // verus!
