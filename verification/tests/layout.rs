//! Layout engine: offsets, alignment, total size, and the pack/decode
//! round trip.

use ebql::data_types::DataType;
use ebql::errors::EbqlError;
use ebql::events::TracepointEvent;
use ebql::field::{Field, Fields};
use ebql::record::{DataValue, Record};
use ebql::schema::Schema;

fn schema_of(name: &str, cols: Vec<(&str, DataType)>) -> Schema {
    let fields: Vec<Field> = cols
        .into_iter()
        .map(|(n, dt)| Field { name: n.to_string(), data_type: dt })
        .collect();
    Schema { name: name.to_string(), fields: Fields(fields) }
}

#[test]
fn two_u64_fields_lay_out_at_0_and_8() {
    // The emitted struct of `SELECT fd, count FROM syscalls/sys_enter_pread64`.
    let schema = schema_of(
        "q",
        vec![("fd", DataType::UInt64), ("count", DataType::UInt64)],
    );
    let s = schema
        .to_bpf_struct(&TracepointEvent::SysEnterPread64)
        .unwrap();
    assert_eq!(s.sz, 16);
    let offs = s.field_offsets();
    assert_eq!(offs.len(), 2);
    // The reorder is stable: two equal-width fields keep schema order, so
    // fd sits at offset 0 and the decode permutation is the identity.
    assert_eq!(offs[0].0._name, "fd");
    assert_eq!(offs[0].1, 0);
    assert_eq!(offs[1].0._name, "count");
    assert_eq!(offs[1].1, 8);
    assert_eq!(s.mapping, vec![0, 1]);
    assert_eq!(s.name, "q_t");
}

#[test]
fn mixed_widths_are_aligned_and_padded() {
    // A u8 beside a u64 and a u32: sorted width-descending, offsets aligned,
    // size a multiple of the widest field.
    let schema = schema_of(
        "m",
        vec![
            ("a", DataType::UInt8),
            ("b", DataType::UInt64),
            ("c", DataType::UInt32),
        ],
    );
    let s = schema
        .to_bpf_struct(&TracepointEvent::MmFilemapAddToPageCache)
        .unwrap();
    let offs = s.field_offsets();
    // Width-descending with strings last: b (8), c (4), a (1).
    assert_eq!(offs[0].0._name, "b");
    assert_eq!(offs[1].0._name, "c");
    assert_eq!(offs[2].0._name, "a");
    assert_eq!(offs[0].1, 0);
    assert_eq!(offs[1].1, 8);
    assert_eq!(offs[2].1, 12);
    // 13 bytes of data padded to a multiple of 8.
    assert_eq!(s.sz, 16);
    for i in 0..offs.len() {
        let w = offs[i].0._type.size();
        assert_eq!(offs[i].1 % w, 0);
        if i + 1 < offs.len() {
            assert!(offs[i].1 + w <= offs[i + 1].1);
        } else {
            assert!(offs[i].1 + w <= s.sz);
        }
    }
}

#[test]
fn strings_sort_last_and_need_no_alignment() {
    let schema = schema_of(
        "s",
        vec![("tag", DataType::String(3)), ("v", DataType::UInt32)],
    );
    let s = schema
        .to_bpf_struct(&TracepointEvent::MmFilemapAddToPageCache)
        .unwrap();
    let offs = s.field_offsets();
    assert_eq!(offs[0].0._name, "v");
    assert_eq!(offs[1].0._name, "tag");
    assert_eq!(offs[0].1, 0);
    assert_eq!(offs[1].1, 4);
    // 7 bytes padded to a multiple of the widest width (4).
    assert_eq!(s.sz, 8);
}

#[test]
fn pack_then_decode_restores_the_record() {
    let schema = schema_of(
        "rt",
        vec![
            ("a", DataType::UInt8),
            ("b", DataType::UInt64),
            ("c", DataType::Int32),
            ("tag", DataType::String(4)),
        ],
    );
    let s = schema
        .to_bpf_struct(&TracepointEvent::MmFilemapAddToPageCache)
        .unwrap();
    // The record is given in schema order; strings fill their field exactly.
    let rec = Record(vec![
        DataValue::UInt8(7),
        DataValue::UInt64(123456789),
        DataValue::Int32(-42),
        DataValue::String("wxyz".to_string(), 4),
    ]);
    let bytes = s.pack_record(&rec);
    assert_eq!(bytes.len(), s.sz);
    let back = s.produce_record(&bytes).unwrap();
    assert_eq!(back, rec);
}

#[test]
fn short_buffers_are_recoverable_errors() {
    let schema = schema_of("sb", vec![("b", DataType::UInt64)]);
    let s = schema
        .to_bpf_struct(&TracepointEvent::MmFilemapAddToPageCache)
        .unwrap();
    let bytes = vec![0u8; s.sz - 1];
    match s.produce_record(&bytes) {
        Err(e) => {
            assert!(matches!(e, EbqlError::ShortBuffer));
            assert!(e.is_recoverable());
        }
        Ok(_) => panic!("a short buffer must not decode"),
    }
}

#[test]
fn invalid_utf8_aborts_the_record() {
    let schema = schema_of("ut", vec![("tag", DataType::String(2))]);
    let s = schema
        .to_bpf_struct(&TracepointEvent::MmFilemapAddToPageCache)
        .unwrap();
    let bytes = vec![0xffu8, 0xff];
    match s.produce_record(&bytes) {
        Err(e) => assert!(matches!(e, EbqlError::InvalidUtf8)),
        Ok(_) => panic!("invalid UTF-8 must not decode"),
    }
}

#[test]
fn utf8_strings_decode_through_the_layout() {
    let schema = schema_of("u8s", vec![("tag", DataType::String(4))]);
    let s = schema
        .to_bpf_struct(&TracepointEvent::MmFilemapAddToPageCache)
        .unwrap();
    let rec = s.produce_record(b"abcd").unwrap();
    assert_eq!(rec, Record(vec![DataValue::String("abcd".to_string(), 4)]));
}

#[test]
fn empty_schemas_cannot_be_laid_out() {
    let schema = schema_of("e", vec![]);
    assert!(schema
        .to_bpf_struct(&TracepointEvent::MmFilemapAddToPageCache)
        .is_err());
}

#[test]
fn duplicate_column_names_cannot_be_laid_out() {
    let schema = schema_of(
        "d",
        vec![("x", DataType::UInt8), ("x", DataType::UInt8)],
    );
    assert!(schema
        .to_bpf_struct(&TracepointEvent::MmFilemapAddToPageCache)
        .is_err());
}
