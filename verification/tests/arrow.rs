use std::sync::Arc;

use arrow::array::{
    Array, ArrayRef, BinaryViewArray, BooleanArray, Date32Array, Date64Array, Decimal128Array,
    Float32Array, Int32Array, Int32Builder, Int8Array, LargeStringArray, ListArray, MapBuilder,
    StringArray, StringBuilder, StructArray, Time32SecondArray, TimestampNanosecondArray,
    TimestampSecondArray, UInt16Array, UInt64Array, UInt8Array,
};
use arrow::datatypes::{DataType, Field, Int32Type};
use arrow::ipc::writer::StreamWriter;
use arrow::record_batch::RecordBatch;
use spark_connect::arrow_rows::{
    arrow_cell_value, arrow_value_at, decode_arrow_batch, decode_arrow_record_batches,
    read_arrow_stream, stream_rows, ArrowCell, StreamFailure, TsUnit,
};
use spark_connect::row::Value;
use spark_connect::types::{Float32, Float64};

fn ipc(batch: &RecordBatch) -> Vec<u8> {
    let mut buf = Vec::new();
    {
        let mut w = StreamWriter::try_new(&mut buf, &batch.schema()).unwrap();
        w.write(batch).unwrap();
        w.finish().unwrap();
    }
    buf
}

#[test]
fn empty_data_decodes_to_no_rows() {
    assert!(decode_arrow_batch(&[]).unwrap().is_empty());
    assert!(decode_arrow_record_batches(&[]).unwrap().is_empty());
}

#[test]
fn garbage_data_is_a_reader_error() {
    let e = decode_arrow_batch(&[1, 2, 3]).unwrap_err();
    assert!(e.message.starts_with("Failed to"), "{}", e.message);
}

#[test]
fn scalar_columns_decode_with_widening_and_units() {
    let batch = RecordBatch::try_from_iter(vec![
        ("b", Arc::new(Int8Array::from(vec![Some(1), None])) as ArrayRef),
        ("u", Arc::new(UInt8Array::from(vec![200, 7])) as ArrayRef),
        ("s", Arc::new(StringArray::from(vec![Some("x"), Some("y")])) as ArrayRef),
        ("t", Arc::new(TimestampSecondArray::from(vec![2, -1])) as ArrayRef),
        ("n", Arc::new(TimestampNanosecondArray::from(vec![1999, -1999])) as ArrayRef),
        ("d", Arc::new(Date64Array::from(vec![86_400_000 * 3 + 5, -86_400_001])) as ArrayRef),
    ])
    .unwrap();
    let rows = decode_arrow_batch(&ipc(&batch)).unwrap();
    assert_eq!(rows.len(), 2);
    assert_eq!(rows[0].fields(), &vec!["b", "u", "s", "t", "n", "d"]);
    assert_eq!(rows[0].get(0), Some(&Value::Byte(1)));
    assert_eq!(rows[1].get(0), Some(&Value::Null));
    assert_eq!(rows[0].get(1), Some(&Value::Short(200)));
    assert_eq!(rows[0].get(2), Some(&Value::String("x".to_string())));
    assert_eq!(rows[0].get(3), Some(&Value::Timestamp(2_000_000)));
    assert_eq!(rows[1].get(3), Some(&Value::Timestamp(-1_000_000)));
    assert_eq!(rows[0].get(4), Some(&Value::Timestamp(1)));
    assert_eq!(rows[1].get(4), Some(&Value::Timestamp(-1)));
    assert_eq!(rows[0].get(5), Some(&Value::Date(3)));
    assert_eq!(rows[1].get(5), Some(&Value::Date(-1)));
}

#[test]
fn decimal_becomes_a_double() {
    let dec = Decimal128Array::from(vec![Some(12345i128), None]).with_precision_and_scale(10, 2).unwrap();
    let batch = RecordBatch::try_from_iter(vec![("m", Arc::new(dec) as ArrayRef)]).unwrap();
    let rows = decode_arrow_batch(&ipc(&batch)).unwrap();
    match rows[0].get(0) {
        Some(Value::Double(f)) => assert_eq!(f64::from_bits(f.bits), 123.45),
        other => panic!("expected a double, got {:?}", other),
    }
    assert_eq!(rows[1].get(0), Some(&Value::Null));
}

#[test]
fn nested_list_struct_and_map_decode() {
    let list = ListArray::from_iter_primitive::<Int32Type, _, _>(vec![Some(vec![Some(1), Some(2)]), None]);
    let st = StructArray::from(vec![(
        Arc::new(Field::new("x", DataType::Int32, true)),
        Arc::new(Int32Array::from(vec![5, 6])) as ArrayRef,
    )]);
    let mut mb = MapBuilder::new(None, StringBuilder::new(), Int32Builder::new());
    mb.keys().append_value("b");
    mb.values().append_value(1);
    mb.keys().append_value("a");
    mb.values().append_value(2);
    mb.keys().append_value("b");
    mb.values().append_value(3);
    mb.append(true).unwrap();
    mb.append(false).unwrap();
    let map = mb.finish();
    let batch = RecordBatch::try_from_iter(vec![
        ("l", Arc::new(list) as ArrayRef),
        ("s", Arc::new(st) as ArrayRef),
        ("m", Arc::new(map) as ArrayRef),
    ])
    .unwrap();
    let rows = decode_arrow_batch(&ipc(&batch)).unwrap();
    assert_eq!(rows[0].get(0), Some(&Value::List(vec![Value::Integer(1), Value::Integer(2)])));
    assert_eq!(rows[1].get(0), Some(&Value::Null));
    assert_eq!(rows[0].get(1), Some(&Value::Struct(vec![("x".to_string(), Value::Integer(5))])));
    // Map entries come sorted by key, the last value of a key kept.
    assert_eq!(
        rows[0].get(2),
        Some(&Value::MapValue(vec![("a".to_string(), Value::Integer(2)), ("b".to_string(), Value::Integer(3))]))
    );
    assert_eq!(rows[1].get(2), Some(&Value::Null));
}

#[test]
fn cell_values_of_every_kind() {
    assert_eq!(arrow_cell_value(&ArrowCell::UInt64(u64::MAX)).unwrap(), Value::Long(-1));
    assert_eq!(arrow_cell_value(&ArrowCell::UInt32(7)).unwrap(), Value::Long(7));
    assert_eq!(arrow_cell_value(&ArrowCell::Timestamp(TsUnit::Millisecond, 3)).unwrap(), Value::Timestamp(3000));
    assert_eq!(arrow_cell_value(&ArrowCell::Timestamp(TsUnit::Microsecond, 3)).unwrap(), Value::Timestamp(3));
    let e = arrow_cell_value(&ArrowCell::Timestamp(TsUnit::Second, i64::MAX)).unwrap_err();
    assert_eq!(e.message, "Arrow timestamp out of range");
    let f = Float64 { bits: 1.5f64.to_bits(), text: "1.5".to_string() };
    assert_eq!(arrow_cell_value(&ArrowCell::Float64(f)).unwrap(), Value::Double(Float64 { bits: 1.5f64.to_bits(), text: "1.5".to_string() }));
    let un = ArrowCell::Unsupported("Unsupported Arrow type X".to_string());
    assert_eq!(arrow_cell_value(&un).unwrap_err().message, "Unsupported Arrow type X");
    let st = ArrowCell::Struct(vec![("x".to_string(), ArrowCell::Int32(1))]);
    assert_eq!(arrow_cell_value(&st).unwrap(), Value::Struct(vec![("x".to_string(), Value::Integer(1))]));
    // A non-string key becomes its debug text.
    let m = ArrowCell::MapEntries(vec![(ArrowCell::Int32(4), ArrowCell::Bool(true))]);
    assert_eq!(arrow_cell_value(&m).unwrap(), Value::MapValue(vec![("Integer(4)".to_string(), Value::Bool(true))]));
    // The first error inside a list is the list's error.
    let l = ArrowCell::List(vec![ArrowCell::Int8(1), un, ArrowCell::Timestamp(TsUnit::Second, i64::MAX)]);
    assert_eq!(arrow_cell_value(&l).unwrap_err().message, "Unsupported Arrow type X");
}

/// The stream bytes of `batches` without the end-of-stream marker.
fn unfinished_ipc(batches: &[RecordBatch]) -> Vec<u8> {
    let mut buf = Vec::new();
    {
        let mut w = StreamWriter::try_new(&mut buf, &batches[0].schema()).unwrap();
        for b in batches {
            w.write(b).unwrap();
        }
    }
    buf
}

#[test]
fn unsupported_type_names_the_type() {
    let batch = RecordBatch::try_from_iter(vec![("t", Arc::new(Time32SecondArray::from(vec![Some(1), None])) as ArrayRef)]).unwrap();
    let e = decode_arrow_batch(&ipc(&batch)).unwrap_err();
    assert_eq!(e.message, "Unsupported Arrow type Time32(Second) - cannot convert to Value");
    // A null cell of such a type is still null.
    let d = Time32SecondArray::from(vec![None, Some(3)]).into_data();
    assert_eq!(arrow_value_at(&d, 0).unwrap(), Value::Null);
    assert!(arrow_value_at(&d, 1).is_err());
}

#[test]
fn reader_failure_comes_after_the_batches_before_it() {
    let good = RecordBatch::try_from_iter(vec![("a", Arc::new(Int32Array::from(vec![1, 2])) as ArrayRef)]).unwrap();
    let mut data = unfinished_ipc(&[good.clone()]);
    data.extend_from_slice(&[0xff, 0xff, 0xff, 0xff, 0x10, 0, 0, 0, 1, 2, 3]);
    let (bs, failure) = read_arrow_stream(&data);
    assert_eq!(bs.len(), 1);
    assert_eq!(bs[0].names, vec!["a".to_string()]);
    assert!(matches!(failure, Some(StreamFailure::Batch(_))), "{:?}", failure);
    let e = decode_arrow_batch(&data).unwrap_err();
    assert!(e.message.starts_with("Failed to decode Arrow batch: "), "{}", e.message);
    assert!(decode_arrow_record_batches(&data).unwrap_err().message.starts_with("Failed to decode Arrow batch: "));
    // An unconvertible cell in an earlier batch is the error, not the later failure.
    let bad = RecordBatch::try_from_iter(vec![("t", Arc::new(Time32SecondArray::from(vec![1])) as ArrayRef)]).unwrap();
    let mut data = unfinished_ipc(&[bad]);
    data.extend_from_slice(&[0xff, 0xff, 0xff, 0xff, 0x10, 0, 0, 0, 1, 2, 3]);
    let e = decode_arrow_batch(&data).unwrap_err();
    assert_eq!(e.message, "Unsupported Arrow type Time32(Second) - cannot convert to Value");
}

#[test]
fn stream_rows_reports_the_failure_after_the_rows() {
    let good = RecordBatch::try_from_iter(vec![("a", Arc::new(Int32Array::from(vec![7])) as ArrayRef)]).unwrap();
    let (bs, failure) = read_arrow_stream(&ipc(&good));
    assert!(failure.is_none());
    assert_eq!(stream_rows(&bs, &None).unwrap()[0].get(0), Some(&Value::Integer(7)));
    let e = stream_rows(&bs, &Some(StreamFailure::Open("bad".to_string()))).unwrap_err();
    assert_eq!(e.message, "Failed to create Arrow stream reader: bad");
    let e = stream_rows(&bs, &Some(StreamFailure::Batch("worse".to_string()))).unwrap_err();
    assert_eq!(e.message, "Failed to decode Arrow batch: worse");
}

#[test]
fn values_of_single_arrays() {
    let d = UInt64Array::from(vec![u64::MAX]).into_data();
    assert_eq!(arrow_value_at(&d, 0).unwrap(), Value::Long(-1));
    let d = UInt16Array::from(vec![65535]).into_data();
    assert_eq!(arrow_value_at(&d, 0).unwrap(), Value::Integer(65535));
    let d = BooleanArray::from(vec![false, true]).into_data();
    assert_eq!(arrow_value_at(&d, 1).unwrap(), Value::Bool(true));
    let d = Float32Array::from(vec![2.5f32]).into_data();
    assert_eq!(arrow_value_at(&d, 0).unwrap(), Value::Float(Float32 { bits: 2.5f32.to_bits(), text: "2.5".to_string() }));
    let d = LargeStringArray::from(vec!["big"]).into_data();
    assert_eq!(arrow_value_at(&d, 0).unwrap(), Value::String("big".to_string()));
    let d = BinaryViewArray::from(vec![&b"ab"[..]]).into_data();
    assert_eq!(arrow_value_at(&d, 0).unwrap(), Value::Binary(vec![b'a', b'b']));
    let d = Date32Array::from(vec![-3]).into_data();
    assert_eq!(arrow_value_at(&d, 0).unwrap(), Value::Date(-3));
    // A slice reads from its own offset.
    let d = Int32Array::from(vec![10, 20, 30]).slice(1, 2).into_data();
    assert_eq!(arrow_value_at(&d, 1).unwrap(), Value::Integer(30));
    let st = StructArray::from(vec![(
        Arc::new(Field::new("x", DataType::Int32, true)),
        Arc::new(Int32Array::from(vec![5, 6, 7])) as ArrayRef,
    )]);
    let d = st.slice(1, 2).into_data();
    assert_eq!(arrow_value_at(&d, 1).unwrap(), Value::Struct(vec![("x".to_string(), Value::Integer(7))]));
    let list = ListArray::from_iter_primitive::<Int32Type, _, _>(vec![Some(vec![Some(1)]), Some(vec![Some(2), None])]);
    let d = list.slice(1, 1).into_data();
    assert_eq!(arrow_value_at(&d, 0).unwrap(), Value::List(vec![Value::Integer(2), Value::Null]));
}
