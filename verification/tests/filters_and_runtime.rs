//! Filter lowering, and ring-buffer frame draining.

use ebql::bpf_ops::compiler::{ce_to_cond, cond_text};
use ebql::data_types::DataType;
use ebql::events::TracepointEvent;
use ebql::field::{Field, Fields};
use ebql::operators::{
    CmpOp, Column, CondBase, CondExpr, LitValue, LogOp, lower_condition,
};
use ebql::record::{DataValue, Record};
use ebql::runtime::drain_frame;
use ebql::schema::Schema;

fn col(name: &str) -> CondExpr {
    CondExpr::Base(CondBase::Col(Column { name: name.to_string(), function: None }))
}

fn lit(v: u64) -> CondExpr {
    CondExpr::Base(CondBase::Lit(LitValue::UInt(v)))
}

fn cmp(op: CmpOp, l: CondExpr, r: CondExpr) -> CondExpr {
    CondExpr::Comparison(op, Box::new(l), Box::new(r))
}

#[test]
fn every_comparison_operator_lowers_to_its_negation() {
    let table = [
        (CmpOp::Equal, "!="),
        (CmpOp::NotEqual, "=="),
        (CmpOp::Less, ">="),
        (CmpOp::LessOrEqual, ">"),
        (CmpOp::Greater, "<="),
        (CmpOp::GreaterOrEqual, "<"),
    ];
    for (op, lowered) in table {
        let c = cmp(op, col("a"), lit(5));
        let text = ce_to_cond(&c).unwrap();
        assert_eq!(text, format!("(a) {} (5)", lowered));
    }
}

#[test]
fn conjunctions_lower_to_negated_disjunctions() {
    let c = CondExpr::Logical(
        LogOp::And,
        Box::new(cmp(CmpOp::Equal, col("a"), lit(1))),
        Box::new(cmp(CmpOp::Equal, col("b"), lit(2))),
    );
    assert_eq!(ce_to_cond(&c).unwrap(), "!((a) == (1)) || !((b) == (2))");
    let d = CondExpr::Logical(
        LogOp::Or,
        Box::new(cmp(CmpOp::Less, col("a"), lit(1))),
        Box::new(cmp(CmpOp::Greater, col("b"), lit(2))),
    );
    assert_eq!(ce_to_cond(&d).unwrap(), "!((a) < (1)) && !((b) > (2))");
}

#[test]
fn lowering_twice_restores_the_condition() {
    let c = CondExpr::Logical(
        LogOp::And,
        Box::new(cmp(CmpOp::LessOrEqual, col("a"), lit(1))),
        Box::new(CondExpr::Logical(
            LogOp::Or,
            Box::new(cmp(CmpOp::NotEqual, col("b"), lit(2))),
            Box::new(cmp(CmpOp::Greater, col("c"), lit(3))),
        )),
    );
    let twice = lower_condition(&lower_condition(&c));
    assert_eq!(cond_text(&twice).unwrap(), cond_text(&c).unwrap());
}

#[test]
fn string_literals_in_filters_are_unsupported() {
    let c = cmp(
        CmpOp::Equal,
        col("a"),
        CondExpr::Base(CondBase::Lit(LitValue::Str("x".to_string()))),
    );
    assert!(ce_to_cond(&c).is_err());
}

#[test]
fn negative_literals_render_with_their_sign() {
    let c = cmp(
        CmpOp::Less,
        col("a"),
        CondExpr::Base(CondBase::Lit(LitValue::Int(-7))),
    );
    assert_eq!(cond_text(&c).unwrap(), "(a) < (-7)");
}

fn two_u64_layout() -> ebql::bpf_struct::Struct {
    let schema = Schema {
        name: "q".to_string(),
        fields: Fields(vec![
            Field { name: "fd".to_string(), data_type: DataType::UInt64 },
            Field { name: "count".to_string(), data_type: DataType::UInt64 },
        ]),
    };
    schema
        .to_bpf_struct(&TracepointEvent::SysEnterPread64)
        .unwrap()
}

#[test]
fn a_frame_of_two_records_drains_to_two_records_in_order() {
    // 32 bytes over a 16-byte struct: one batch of two records, in delivery
    // order.
    let s = two_u64_layout();
    let mut frame: Vec<u8> = Vec::new();
    frame.extend_from_slice(&1u64.to_le_bytes());
    frame.extend_from_slice(&2u64.to_le_bytes());
    frame.extend_from_slice(&3u64.to_le_bytes());
    frame.extend_from_slice(&4u64.to_le_bytes());
    let batch = drain_frame(&s, &frame).unwrap();
    assert_eq!(batch.len(), 2);
    assert_eq!(batch.schema.name, "q");
    assert_eq!(
        batch.records[0],
        Record(vec![DataValue::UInt64(1), DataValue::UInt64(2)])
    );
    assert_eq!(
        batch.records[1],
        Record(vec![DataValue::UInt64(3), DataValue::UInt64(4)])
    );
}

#[test]
fn misaligned_frames_drain_to_nothing() {
    let s = two_u64_layout();
    let frame = vec![0u8; 17];
    assert!(drain_frame(&s, &frame).is_none());
    let empty: Vec<u8> = Vec::new();
    // An empty delivery is a whole number of records: an empty batch.
    let batch = drain_frame(&s, &empty).unwrap();
    assert_eq!(batch.len(), 0);
}

#[test]
fn an_undecodable_record_is_dropped_and_the_rest_kept() {
    let schema = Schema {
        name: "u".to_string(),
        fields: Fields(vec![Field {
            name: "tag".to_string(),
            data_type: DataType::String(2),
        }]),
    };
    let s = schema
        .to_bpf_struct(&TracepointEvent::MmFilemapAddToPageCache)
        .unwrap();
    // Three records: a good one, an invalid one, a good one. Only the
    // offending record is discarded; the stream keeps going.
    let frame = vec![b'o', b'k', 0xffu8, 0xff, b'g', b'd'];
    let batch = drain_frame(&s, &frame).unwrap();
    assert_eq!(batch.len(), 2);
    assert_eq!(
        batch.records[0],
        Record(vec![DataValue::String("ok".to_string(), 2)])
    );
    assert_eq!(
        batch.records[1],
        Record(vec![DataValue::String("gd".to_string(), 2)])
    );
    // A frame of nothing but bad records drains to an empty batch.
    let all_bad = vec![0xffu8, 0xff];
    assert_eq!(drain_frame(&s, &all_bad).unwrap().len(), 0);
}
