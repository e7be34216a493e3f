//! Userspace decoding of ring-buffer deliveries.
//!
//! The kernel hands the drainer frames whose length is a whole number of
//! records. A frame of `k * struct_size` bytes decodes to one batch of `k`
//! records in delivery order; a record that fails to decode (an invalid
//! string, an opaque field) is dropped while the rest of the frame is kept;
//! only a frame of any other length yields no batch. Nothing here panics.

use vstd::prelude::*;

verus! {

use crate::bpf_struct::{Struct, decode_value, field_chunk};
use crate::record::Record;
use crate::record_batch::{RecordBatch, seq_record_view, lemma_seq_record_view_index};

/// The bytes of record `k` within a frame.
pub open spec fn frame_chunk(s: Struct, frame: Seq<u8>, k: int) -> Seq<u8> {
    frame.subrange(k * (s.sz as int), k * (s.sz as int) + (s.sz as int))
}

/// Record `k` of the frame decodes at every field.
pub open spec fn chunk_ok(s: Struct, frame: Seq<u8>, k: int) -> bool {
    forall|i: int|
        0 <= i < s.fv().len() ==> decode_value(
            (#[trigger] s.fv()[i]).ty,
            field_chunk(s, frame_chunk(s, frame, k), i),
        ) is Some
}

/// Every record of the frame decodes at every field.
pub open spec fn frame_decodes(s: Struct, frame: Seq<u8>) -> bool {
    forall|k: int|
        0 <= k < (frame.len() as int) / (s.sz as int) ==> #[trigger] chunk_ok(s, frame, k)
}

/// The indices of the decodable records among the first `k`, in delivery
/// order.
pub open spec fn kept_chunks(s: Struct, frame: Seq<u8>, k: int) -> Seq<int>
    decreases k,
{
    if k <= 0 {
        Seq::empty()
    } else if chunk_ok(s, frame, k - 1) {
        kept_chunks(s, frame, k - 1).push(k - 1)
    } else {
        kept_chunks(s, frame, k - 1)
    }
}

/// When every record decodes, every record is kept, at its own position.
pub proof fn lemma_all_chunks_kept(s: Struct, frame: Seq<u8>, k: int)
    requires
        0 <= k,
        forall|j: int| 0 <= j < k ==> #[trigger] chunk_ok(s, frame, j),
    ensures
        kept_chunks(s, frame, k).len() == k,
        forall|j: int| 0 <= j < k ==> #[trigger] kept_chunks(s, frame, k)[j] == j,
    decreases k,
{
    if k > 0 {
        lemma_all_chunks_kept(s, frame, k - 1);
    }
}

/// Splits one ring-buffer delivery into records of the given layout. A
/// frame that is not a whole number of records yields nothing; otherwise
/// the batch holds, in delivery order, one record per chunk that decodes,
/// and the undecodable chunks are dropped.
#[verifier::rlimit(100)]
pub fn drain_frame(s: &Struct, buf: &[u8]) -> (r: Option<RecordBatch>)
    requires
        s.wf(),
    ensures
        (buf@.len() as int) % (s.sz as int) != 0 ==> r is None,
        (buf@.len() as int) % (s.sz as int) == 0 ==> {
            &&& r is Some
            &&& r matches Some(batch) ==> {
                let total = (buf@.len() as int) / (s.sz as int);
                let kept = kept_chunks(*s, buf@, total);
                &&& batch.schema@ == s.schema@
                &&& batch.records@.len() == kept.len()
                &&& forall|j: int|
                    0 <= j < kept.len() ==> {
                        &&& (#[trigger] seq_record_view(batch.records@)[j]).len() == s.fv().len()
                        &&& forall|i: int|
                            0 <= i < s.fv().len() ==> Some(
                                seq_record_view(batch.records@)[j][s.mapping@[i] as int],
                            ) == decode_value(
                                (#[trigger] s.fv()[i]).ty,
                                field_chunk(*s, frame_chunk(*s, buf@, kept[j]), i),
                            )
                    }
                &&& (frame_decodes(*s, buf@) ==> batch.records@.len() == total)
            }
        },
{
    proof {
        crate::bpf_struct::lemma_size_bound(s.fv());
    }
    let sz = s.sz;
    if buf.len() % sz != 0 {
        return None;
    }
    let count = buf.len() / sz;
    proof {
        vstd::arithmetic::div_mod::lemma_fundamental_div_mod(buf@.len() as int, sz as int);
    }
    let mut records: Vec<Record> = Vec::new();
    let mut k: usize = 0;
    while k < count
        invariant
            s.wf(),
            sz == s.sz,
            1 <= sz,
            count == (buf@.len() as int) / (sz as int),
            (buf@.len() as int) % (sz as int) == 0,
            buf@.len() == (count as int) * (sz as int),
            k <= count,
            buf@.len() <= usize::MAX,
            records@.len() == kept_chunks(*s, buf@, k as int).len(),
            seq_record_view(records@).len() == records@.len(),
            forall|j: int|
                0 <= j < kept_chunks(*s, buf@, k as int).len() ==> {
                    &&& (#[trigger] seq_record_view(records@)[j]).len() == s.fv().len()
                    &&& forall|i: int|
                        0 <= i < s.fv().len() ==> Some(
                            seq_record_view(records@)[j][s.mapping@[i] as int],
                        ) == decode_value(
                            (#[trigger] s.fv()[i]).ty,
                            field_chunk(
                                *s,
                                frame_chunk(*s, buf@, kept_chunks(*s, buf@, k as int)[j]),
                                i,
                            ),
                        )
                },
        decreases count - k,
    {
        proof {
            assert((k as int + 1) * (sz as int) == (k as int) * (sz as int) + (sz as int))
                by (nonlinear_arith);
            assert((k as int) * (sz as int) >= 0) by (nonlinear_arith)
                requires
                    k as int >= 0 && sz as int >= 0,
            ;
            assert((k as int + 1) * (sz as int) <= (count as int) * (sz as int))
                by (nonlinear_arith)
                requires
                    k as int + 1 <= count as int && sz as int >= 0,
            ;
        }
        let start = k * sz;
        let end = start + sz;
        let chunk = vstd::slice::slice_subrange(buf, start, end);
        proof {
            assert(chunk@ == frame_chunk(*s, buf@, k as int));
        }
        let ghost prev = records@;
        match s.produce_record(chunk) {
            Ok(rec) => {
                let ghost recv = rec@;
                records.push(rec);
                proof {
                    assert(chunk_ok(*s, buf@, k as int));
                    assert(records@.drop_last() =~= prev);
                    lemma_seq_record_view_index(records@);
                    let kept = kept_chunks(*s, buf@, k as int + 1);
                    assert(kept == kept_chunks(*s, buf@, k as int).push(k as int));
                    assert(seq_record_view(records@)[kept.len() - 1] == recv);
                    assert forall|i: int| 0 <= i < s.fv().len() implies Some(
                        recv[s.mapping@[i] as int],
                    ) == decode_value(
                        (#[trigger] s.fv()[i]).ty,
                        field_chunk(*s, frame_chunk(*s, buf@, k as int), i),
                    ) by {
                        assert(Some(recv[s.mapping@[i] as int]) == decode_value(
                            s.fv()[i].ty,
                            field_chunk(*s, chunk@, i),
                        ));
                    }
                }
            },
            Err(_) => {
                proof {
                    assert(!chunk_ok(*s, buf@, k as int));
                    assert(kept_chunks(*s, buf@, k as int + 1) == kept_chunks(
                        *s,
                        buf@,
                        k as int,
                    ));
                }
            },
        }
        k = k + 1;
    }
    proof {
        if frame_decodes(*s, buf@) {
            lemma_all_chunks_kept(*s, buf@, count as int);
        }
    }
    Some(RecordBatch::new(s.schema.clone(), records))
}

} // verus!
