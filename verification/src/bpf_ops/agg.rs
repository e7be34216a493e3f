//! The aggregation template: group-by key type and one entry per scalar
//! aggregate, with a fixed-precision scale for averages.

use vstd::prelude::*;

verus! {

use crate::errors::EbqlError;
use crate::operators::{Operator, OperatorV};
use crate::text::{dec_of, u64_to_dec};
use crate::types::{Field, c_type_name, seq_fields_view};
use crate::views::{lemma_views_of_index, lemma_views_of_push, views_of};
use vstd::string::{StrSliceExecFns, StringExecFns};

/// Upper bound on distinct group-by keys when nothing better is known.
pub const GB_MAX_ENTRIES: u64 = 16384;

/// Fixed-point scale applied to kernel-side averages.
pub const AVG_SCALE: u64 = 1000000;

/// One group-by key column of the template.
#[derive(Debug)]
pub struct GroupBy {
    pub field_name: String,
    pub field_type: String,
}

pub struct GroupByV {
    pub field_name: Seq<char>,
    pub field_type: Seq<char>,
}

impl View for GroupBy {
    type V = GroupByV;

    open spec fn view(&self) -> GroupByV {
        GroupByV { field_name: self.field_name@, field_type: self.field_type@ }
    }
}

/// One aggregate entry of the template.
#[derive(Debug)]
pub struct Agg {
    pub is_avg: bool,
    pub agg: String,
    pub field_name: String,
    pub query_name: String,
}

pub struct AggV {
    pub is_avg: bool,
    pub agg: Seq<char>,
    pub field_name: Seq<char>,
    pub query_name: Seq<char>,
}

impl View for Agg {
    type V = AggV;

    open spec fn view(&self) -> AggV {
        AggV {
            is_avg: self.is_avg,
            agg: self.agg@,
            field_name: self.field_name@,
            query_name: self.query_name@,
        }
    }
}

/// The rendering context of the aggregation template.
#[derive(Debug)]
pub struct BpfAggregateTemplate {
    pub query_name: String,
    pub gb_max_entries: u64,
    pub avg_scale: u64,
    pub group_bys: Vec<GroupBy>,
    pub aggs: Vec<Agg>,
}

/// The table capacity the group-by keys get: grouping by the single key
/// `cpu` needs one slot per processor, anything else a fixed bound.
pub open spec fn spec_gb_max_entries(gbs: Seq<crate::types::FieldV>, n_cpus: u64) -> u64 {
    if gbs.len() == 1 && gbs[0].name == "cpu"@ {
        n_cpus
    } else {
        GB_MAX_ENTRIES
    }
}

/// The table capacity the group-by keys get.
pub fn get_max_entries(gbs: &Vec<Field>, n_cpus: u64) -> (r: u64)
    ensures
        r == spec_gb_max_entries(seq_fields_view(gbs@), n_cpus),
{
    proof {
        crate::types::lemma_seq_fields_view_index(gbs@);
    }
    if gbs.len() == 1 && crate::text::str_eq(gbs[0]._name.as_str(), "cpu") {
        n_cpus
    } else {
        GB_MAX_ENTRIES
    }
}

/// The aggregate entry an operator contributes, when it is a scalar
/// aggregate.
pub open spec fn spec_agg_entry(op: OperatorV, query_name: Seq<char>) -> Option<AggV> {
    match op {
        OperatorV::Max(f) => Some(
            AggV { is_avg: false, agg: "max"@, field_name: f, query_name: query_name },
        ),
        OperatorV::Min(f) => Some(
            AggV { is_avg: false, agg: "min"@, field_name: f, query_name: query_name },
        ),
        OperatorV::Average(f) => Some(
            AggV { is_avg: true, agg: "avg"@, field_name: f, query_name: query_name },
        ),
        OperatorV::Sum(f) => Some(
            AggV { is_avg: false, agg: "sum"@, field_name: f, query_name: query_name },
        ),
        OperatorV::Count(Some(f)) => Some(
            AggV { is_avg: false, agg: "count"@, field_name: f, query_name: query_name },
        ),
        OperatorV::Count(None) => Some(
            AggV { is_avg: false, agg: "count"@, field_name: Seq::empty(), query_name: query_name },
        ),
        _ => None,
    }
}

/// The group-by entries of the aggregation context: each key column with
/// its rendered C type.
pub open spec fn spec_gb_entries(gbs: Seq<crate::types::FieldV>) -> Seq<GroupByV> {
    Seq::new(
        gbs.len(),
        |i: int| GroupByV { field_name: gbs[i].name, field_type: c_type_name(gbs[i].ty) },
    )
}

/// The aggregate entries a plan's operators contribute, in order; an
/// operator that is no scalar aggregate contributes nothing.
pub open spec fn spec_agg_entries(aggs: Seq<OperatorV>, qname: Seq<char>) -> Seq<AggV>
    decreases aggs.len(),
{
    if aggs.len() == 0 {
        Seq::empty()
    } else {
        let rest = spec_agg_entries(aggs.drop_last(), qname);
        match spec_agg_entry(aggs.last(), qname) {
            Some(e) => rest.push(e),
            None => rest,
        }
    }
}

/// Appending one operator extends the entries by its contribution.
pub proof fn lemma_spec_agg_entries_push(aggs: Seq<OperatorV>, x: OperatorV, qname: Seq<char>)
    ensures
        spec_agg_entries(aggs.push(x), qname) == match spec_agg_entry(x, qname) {
            Some(e) => spec_agg_entries(aggs, qname).push(e),
            None => spec_agg_entries(aggs, qname),
        },
{
    assert(aggs.push(x).drop_last() =~= aggs);
}

impl BpfAggregateTemplate {
    /// Starts the aggregation context for one query over the given group-by
    /// fields. The processor count sizes the key table when grouping by
    /// `cpu`.
    pub fn new(query_name: String, group_bys: &Vec<Field>, n_cpus: u64) -> (r: Self)
        ensures
            r.query_name@ == query_name@,
            r.gb_max_entries == spec_gb_max_entries(seq_fields_view(group_bys@), n_cpus),
            r.avg_scale == AVG_SCALE,
            r.aggs@.len() == 0,
            views_of(r.aggs@) == Seq::<AggV>::empty(),
            r.group_bys@.len() == group_bys@.len(),
            views_of(r.group_bys@) == spec_gb_entries(seq_fields_view(group_bys@)),
    {
        proof {
            crate::types::lemma_seq_fields_view_index(group_bys@);
        }
        let gb_max_entries = get_max_entries(group_bys, n_cpus);
        let mut gbs: Vec<GroupBy> = Vec::new();
        let mut i: usize = 0;
        while i < group_bys.len()
            invariant
                i <= group_bys@.len(),
                gbs@.len() == i,
                views_of(gbs@).len() == i,
                seq_fields_view(group_bys@).len() == group_bys@.len(),
                forall|j: int|
                    0 <= j < group_bys@.len() ==> seq_fields_view(group_bys@)[j]
                        == group_bys@[j]@,
                forall|j: int|
                    0 <= j < i ==> {
                        &&& (#[trigger] views_of(gbs@)[j]).field_name == seq_fields_view(
                            group_bys@,
                        )[j].name
                        &&& views_of(gbs@)[j].field_type == c_type_name(
                            seq_fields_view(group_bys@)[j].ty,
                        )
                    },
            decreases group_bys@.len() - i,
        {
            let ghost prev = gbs@;
            let g = GroupBy {
                field_name: group_bys[i]._name.clone(),
                field_type: group_bys[i]._type.c_type(),
            };
            gbs.push(g);
            proof {
                lemma_views_of_push(prev, g);
                lemma_views_of_index(gbs@);
            }
            i = i + 1;
        }
        let r = BpfAggregateTemplate {
            query_name,
            gb_max_entries,
            avg_scale: AVG_SCALE,
            group_bys: gbs,
            aggs: Vec::new(),
        };
        proof {
            lemma_views_of_index(r.group_bys@);
            crate::types::lemma_seq_fields_view_index(group_bys@);
            assert(views_of(r.group_bys@) =~= spec_gb_entries(seq_fields_view(group_bys@)));
            assert(views_of(r.aggs@) =~= Seq::<AggV>::empty());
        }
        r
    }

    /// Adds one aggregate operator to the context. An aggregation other
    /// than `COUNT(*)` without group-by keys has no key to group on and is
    /// rejected, as is any operator that is no scalar aggregate.
    pub fn update(&mut self, op: &Operator) -> (r: Result<(), EbqlError>)
        ensures
            r is Ok <==> (spec_agg_entry(op@, old(self).query_name@) is Some && !(old(
                self,
            ).group_bys@.len() == 0 && !(op@ matches OperatorV::Count(None)))),
            r matches Ok(u) ==> views_of(final(self).aggs@) == views_of(old(self).aggs@).push(
                spec_agg_entry(op@, old(self).query_name@).unwrap(),
            ),
            r is Err ==> *final(self) == *old(self),
            final(self).query_name == old(self).query_name,
            final(self).group_bys == old(self).group_bys,
            final(self).gb_max_entries == old(self).gb_max_entries,
            final(self).avg_scale == old(self).avg_scale,
    {
        let is_count_star = match op {
            Operator::Count(None) => true,
            _ => false,
        };
        if self.group_bys.len() == 0 && !is_count_star {
            return Err(
                EbqlError::Plan("aggregations other than counting need group-by keys".to_owned()),
            );
        }
        let entry: Agg = match op {
            Operator::Max(f) => Agg {
                is_avg: false,
                agg: "max".to_owned(),
                field_name: f.clone(),
                query_name: self.query_name.clone(),
            },
            Operator::Min(f) => Agg {
                is_avg: false,
                agg: "min".to_owned(),
                field_name: f.clone(),
                query_name: self.query_name.clone(),
            },
            Operator::Average(f) => Agg {
                is_avg: true,
                agg: "avg".to_owned(),
                field_name: f.clone(),
                query_name: self.query_name.clone(),
            },
            Operator::Sum(f) => Agg {
                is_avg: false,
                agg: "sum".to_owned(),
                field_name: f.clone(),
                query_name: self.query_name.clone(),
            },
            Operator::Count(Some(f)) => Agg {
                is_avg: false,
                agg: "count".to_owned(),
                field_name: f.clone(),
                query_name: self.query_name.clone(),
            },
            Operator::Count(None) => Agg {
                is_avg: false,
                agg: "count".to_owned(),
                field_name: String::new(),
                query_name: self.query_name.clone(),
            },
            _ => {
                return Err(EbqlError::Plan("not a supported aggregation".to_owned()));
            },
        };
        let ghost prev = self.aggs@;
        self.aggs.push(entry);
        proof {
            lemma_views_of_push(prev, entry);
        }
        Ok(())
    }

    /// Renders the context JSON: scalar parameters, the group-by key
    /// columns, and the aggregate entries.
    #[verifier::rlimit(100)]
    pub fn to_json(&self) -> (r: String)
        ensures
            r@ == agg_ctx_json(
                self.query_name@,
                self.gb_max_entries,
                self.avg_scale,
                views_of(self.group_bys@),
                views_of(self.aggs@),
            ),
    {
        proof {
            lemma_views_of_index(self.group_bys@);
            lemma_views_of_index(self.aggs@);
        }
        let mut ctx = "{\"query_name\": \"".to_owned();
        ctx.append(self.query_name.as_str());
        ctx.append("\", \"gb_max_entries\": ");
        let g = u64_to_dec(self.gb_max_entries);
        ctx.append(g.as_str());
        ctx.append(", \"avg_scale\": ");
        let a = u64_to_dec(self.avg_scale);
        ctx.append(a.as_str());
        ctx.append(", \"group_bys\": [");
        let ghost gv = views_of(self.group_bys@);
        let ghost base = ctx@;
        let mut i: usize = 0;
        while i < self.group_bys.len()
            invariant
                i <= self.group_bys@.len(),
                gv == views_of(self.group_bys@),
                gv.len() == self.group_bys@.len(),
                forall|j: int| 0 <= j < self.group_bys@.len() ==> gv[j] == self.group_bys@[j]@,
                ctx@ == base + group_bys_json(gv, i as int),
            decreases self.group_bys@.len() - i,
        {
            if i > 0 {
                ctx.append(", ");
            }
            ctx.append("{\"field_name\": \"");
            ctx.append(self.group_bys[i].field_name.as_str());
            ctx.append("\", \"field_type\": \"");
            ctx.append(self.group_bys[i].field_type.as_str());
            ctx.append("\"}");
            i = i + 1;
        }
        ctx.append("], \"aggs\": [");
        let ghost av = views_of(self.aggs@);
        let ghost base2 = ctx@;
        let mut k: usize = 0;
        while k < self.aggs.len()
            invariant
                k <= self.aggs@.len(),
                av == views_of(self.aggs@),
                av.len() == self.aggs@.len(),
                forall|j: int| 0 <= j < self.aggs@.len() ==> av[j] == self.aggs@[j]@,
                ctx@ == base2 + aggs_json(av, k as int),
            decreases self.aggs@.len() - k,
        {
            if k > 0 {
                ctx.append(", ");
            }
            ctx.append("{\"is_avg\": ");
            ctx.append(if self.aggs[k].is_avg { "true" } else { "false" });
            ctx.append(", \"agg\": \"");
            ctx.append(self.aggs[k].agg.as_str());
            ctx.append("\", \"field_name\": \"");
            ctx.append(self.aggs[k].field_name.as_str());
            ctx.append("\", \"query_name\": \"");
            ctx.append(self.aggs[k].query_name.as_str());
            ctx.append("\"}");
            k = k + 1;
        }
        ctx.append("]}");
        ctx
    }
}

/// The JSON array elements of the first `i` group-by entries.
pub open spec fn group_bys_json(gbs: Seq<GroupByV>, i: int) -> Seq<char>
    decreases i,
{
    if i <= 0 {
        Seq::empty()
    } else {
        let one = "{\"field_name\": \""@ + gbs[i - 1].field_name + "\", \"field_type\": \""@ + gbs[
            i - 1
        ].field_type + "\"}"@;
        if i == 1 {
            one
        } else {
            group_bys_json(gbs, i - 1) + ", "@ + one
        }
    }
}

/// The JSON array elements of the first `i` aggregate entries.
pub open spec fn aggs_json(aggs: Seq<AggV>, i: int) -> Seq<char>
    decreases i,
{
    if i <= 0 {
        Seq::empty()
    } else {
        let one = "{\"is_avg\": "@ + (if aggs[i - 1].is_avg {
            "true"@
        } else {
            "false"@
        }) + ", \"agg\": \""@ + aggs[i - 1].agg + "\", \"field_name\": \""@ + aggs[i - 1].field_name
            + "\", \"query_name\": \""@ + aggs[i - 1].query_name + "\"}"@;
        if i == 1 {
            one
        } else {
            aggs_json(aggs, i - 1) + ", "@ + one
        }
    }
}

/// The complete context JSON of the aggregation template.
pub open spec fn agg_ctx_json(
    query_name: Seq<char>,
    gb_max_entries: u64,
    avg_scale: u64,
    gbs: Seq<GroupByV>,
    aggs: Seq<AggV>,
) -> Seq<char> {
    "{\"query_name\": \""@ + query_name + "\", \"gb_max_entries\": "@ + dec_of(
        gb_max_entries as nat,
    ) + ", \"avg_scale\": "@ + dec_of(avg_scale as nat) + ", \"group_bys\": ["@ + group_bys_json(
        gbs,
        gbs.len() as int,
    ) + "], \"aggs\": ["@ + aggs_json(aggs, aggs.len() as int) + "]}"@
}

} // verus!
