//! A batch of decoded records tagged with their schema.

use vstd::prelude::*;

verus! {

use crate::record::{Record, DataValueV, record_width, seq_value_view, lemma_seq_value_view_index};
use crate::schema::Schema;

/// A batch of records, all rows of one schema.
#[derive(Debug)]
pub struct RecordBatch {
    pub schema: Schema,
    pub records: Vec<Record>,
}

pub open spec fn seq_record_view(rs: Seq<Record>) -> Seq<Seq<DataValueV>>
    decreases rs,
{
    if rs.len() == 0 {
        Seq::empty()
    } else {
        seq_record_view(rs.drop_last()).push(rs.last()@)
    }
}

/// The view sequence has the same length and is the elementwise view.
pub proof fn lemma_seq_record_view_index(s: Seq<Record>)
    ensures
        seq_record_view(s).len() == s.len(),
        forall|i: int| 0 <= i < s.len() ==> seq_record_view(s)[i] == s[i]@,
    decreases s.len(),
{
    if s.len() > 0 {
        lemma_seq_record_view_index(s.drop_last());
    }
}

/// Total byte width of a sequence of rows.
pub open spec fn batch_width(rs: Seq<Seq<DataValueV>>) -> nat
    decreases rs,
{
    if rs.len() == 0 {
        0
    } else {
        batch_width(rs.drop_last()) + record_width(rs.last())
    }
}

/// Extending a prefix of the batch by one row adds that row's width.
pub proof fn lemma_batch_width_take_step(rs: Seq<Seq<DataValueV>>, i: int)
    requires
        0 <= i < rs.len(),
    ensures
        batch_width(rs.take(i + 1)) == batch_width(rs.take(i)) + record_width(rs[i]),
{
    assert(rs.take(i + 1).drop_last() =~= rs.take(i));
}

/// The total width dominates the width of any prefix.
pub proof fn lemma_batch_width_prefix_bound(rs: Seq<Seq<DataValueV>>, i: int)
    requires
        0 <= i <= rs.len(),
    ensures
        batch_width(rs.take(i)) <= batch_width(rs),
    decreases rs.len() - i,
{
    if i == rs.len() {
        assert(rs.take(i) =~= rs);
    } else {
        lemma_batch_width_take_step(rs, i);
        lemma_batch_width_prefix_bound(rs, i + 1);
    }
}

impl RecordBatch {
    /// Creates a new batch from the schema definition and list of records.
    pub fn new(schema: Schema, records: Vec<Record>) -> (r: Self)
        ensures
            r.schema@ == schema@,
            seq_record_view(r.records@) == seq_record_view(records@),
            r.records@.len() == records@.len(),
    {
        RecordBatch { schema, records }
    }

    /// Gets the number of records in this batch.
    pub fn len(&self) -> (r: usize)
        ensures
            r == self.records@.len(),
    {
        self.records.len()
    }

    /// Returns the size of this batch in bytes.
    pub fn size(&self) -> (r: usize)
        requires
            batch_width(seq_record_view(self.records@)) <= usize::MAX,
        ensures
            r == batch_width(seq_record_view(self.records@)),
    {
        let recs = &self.records;
        proof {
            lemma_seq_record_view_index(recs@);
        }
        let mut total: usize = 0;
        let mut i: usize = 0;
        while i < recs.len()
            invariant
                i <= recs.len(),
                total == batch_width(seq_record_view(recs@).take(i as int)),
                batch_width(seq_record_view(recs@)) <= usize::MAX,
                seq_record_view(recs@).len() == recs@.len(),
                forall|j: int| 0 <= j < recs@.len() ==> seq_record_view(recs@)[j] == recs@[j]@,
            decreases recs.len() - i,
        {
            proof {
                lemma_batch_width_take_step(seq_record_view(recs@), i as int);
                lemma_batch_width_prefix_bound(seq_record_view(recs@), i as int + 1);
                crate::record::lemma_record_width_prefix_bound(recs@[i as int]@, 0);
            }
            total = total + recs[i].size();
            i = i + 1;
        }
        proof {
            assert(seq_record_view(recs@).take(recs@.len() as int) =~= seq_record_view(recs@));
        }
        total
    }
}

} // verus!
