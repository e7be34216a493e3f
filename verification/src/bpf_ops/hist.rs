//! The histogram template: a fixed bucket list with detection of
//! logarithmically spaced buckets.

use vstd::prelude::*;

verus! {

use crate::bpf_ops::HeaderTemplate;
use crate::text::{dec_of, u64_to_dec};
use vstd::string::{StrSliceExecFns, StringExecFns};

/// The rendering context of a histogram template.
#[derive(Debug)]
pub struct BpfHistogramTemplate {
    pub n_buckets: u64,
    pub buckets: String,
    pub is_log: bool,
    pub fp_scale: u64,
}

/// Whether every bucket doubles its lower bound (buckets starting at zero
/// are exempt).
pub open spec fn spec_is_log(buckets: Seq<(u64, u64)>) -> bool {
    forall|i: int|
        0 <= i < buckets.len() ==> ((#[trigger] buckets[i]).0 == 0 || buckets[i].1 as int
            / buckets[i].0 as int == 2)
}

/// The C initialiser text of the first `i` buckets.
pub open spec fn buckets_text(buckets: Seq<(u64, u64)>, i: int) -> Seq<char>
    decreases i,
{
    if i <= 0 {
        Seq::empty()
    } else {
        buckets_text(buckets, i - 1) + "{"@ + dec_of(buckets[i - 1].0 as nat) + ", "@ + dec_of(
            buckets[i - 1].1 as nat,
        ) + ", 0}, "@
    }
}

/// The full C initialiser: every bucket, then a catch-all bucket up to the
/// largest value.
pub open spec fn full_buckets_text(buckets: Seq<(u64, u64)>) -> Seq<char> {
    "{"@ + buckets_text(buckets, buckets.len() as int) + "{"@ + dec_of(
        buckets.last().1 as nat,
    ) + ", 18446744073709551615, 0}}"@
}

/// The conventional asset path of the histogram template.
fn hist_path() -> (r: String) {
    let mut p = crate::bpf_ops::BPF_HEADERS_DIR.to_owned();
    p.append("hist.bpf.h.tmpl");
    p
}

impl BpfHistogramTemplate {
    /// Builds a histogram template over the given `(lower, upper)` buckets.
    pub fn get_tmpl(buckets: &Vec<(u64, u64)>) -> (r: HeaderTemplate)
        requires
            1 <= buckets@.len() < 1000000,
        ensures
            r.name@ == "hist"@,
            r.ctx@ == hist_ctx_json(buckets@),
    {
        let mut is_log = true;
        let mut i: usize = 0;
        while i < buckets.len()
            invariant
                i <= buckets@.len(),
                is_log == (forall|j: int|
                    0 <= j < i ==> ((#[trigger] buckets@[j]).0 == 0 || buckets@[j].1 as int
                        / buckets@[j].0 as int == 2)),
            decreases buckets@.len() - i,
        {
            let (lb, ub) = buckets[i];
            if lb != 0 && ub / lb != 2 {
                is_log = false;
            }
            i = i + 1;
        }
        let mut text = "{".to_owned();
        let mut k: usize = 0;
        while k < buckets.len()
            invariant
                k <= buckets@.len(),
                text@ == "{"@ + buckets_text(buckets@, k as int),
            decreases buckets@.len() - k,
        {
            let (lb, ub) = buckets[k];
            text.append("{");
            let l = u64_to_dec(lb);
            text.append(l.as_str());
            text.append(", ");
            let u = u64_to_dec(ub);
            text.append(u.as_str());
            text.append(", 0}, ");
            k = k + 1;
        }
        text.append("{");
        let last = u64_to_dec(buckets[buckets.len() - 1].1);
        text.append(last.as_str());
        text.append(", 18446744073709551615, 0}}");
        proof {
            assert(text@ =~= full_buckets_text(buckets@));
        }
        let n = buckets.len() as u64;
        let ctx = Self::ctx_json(n + 1, text.as_str(), is_log);
        HeaderTemplate { name: "hist".to_owned(), tmpl_path: hist_path(), ctx }
    }

    /// Renders the context JSON.
    fn ctx_json(n_buckets: u64, buckets: &str, is_log: bool) -> (r: String)
        ensures
            r@ == "{\"n_buckets\": "@ + dec_of(n_buckets as nat) + ", \"buckets\": \""@ + buckets@
                + "\", \"is_log\": "@ + (if is_log {
                "true"@
            } else {
                "false"@
            }) + ", \"fp_scale\": 1000000}"@,
    {
        let mut ctx = "{\"n_buckets\": ".to_owned();
        let n = u64_to_dec(n_buckets);
        ctx.append(n.as_str());
        ctx.append(", \"buckets\": \"");
        ctx.append(buckets);
        ctx.append("\", \"is_log\": ");
        ctx.append(if is_log { "true" } else { "false" });
        ctx.append(", \"fp_scale\": 1000000}");
        ctx
    }
}

/// The JSON context a histogram template is rendered with.
pub open spec fn hist_ctx_json(buckets: Seq<(u64, u64)>) -> Seq<char> {
    "{\"n_buckets\": "@ + dec_of((buckets.len() + 1) as nat) + ", \"buckets\": \""@
        + full_buckets_text(buckets) + "\", \"is_log\": "@ + (if spec_is_log(buckets) {
        "true"@
    } else {
        "false"@
    }) + ", \"fp_scale\": 1000000}"@
}

} // verus!
