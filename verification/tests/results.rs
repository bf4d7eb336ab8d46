//! Record batches, streams and IPC bytes.

use std::sync::Arc;

use arrow::array::{Array, BooleanArray, Float64Array, Int64Array, RecordBatchReader, StringArray};
use arrow::datatypes::{DataType, Field, Schema};
use arrow::ffi_stream::{ArrowArrayStreamReader, FFI_ArrowArrayStream};
use arrow::ipc::reader::StreamReader;
use arrow::record_batch::RecordBatch;

use imbh_c::arrow_stream::{encode_ipc, export_batches, export_batches_infer, is_announced};
use imbh_c::batches::{
    catalog_batch, deliver, exemplars_batch, segments_batch, series_batch, trace_summary_batch,
    utf8_batch, volume_batch, write_batch, Exemplar, MetricMeta, SegmentRef, TraceSummary,
};
use imbh_c::buffer::make_bytes;
use imbh_c::columnar::{BatchFailure, build_batch, Column, ColumnValues, Batch};
use imbh_c::error::{LastError, CallError};
use imbh_c::ids::{SpanId, TraceId};
use imbh_c::{
    imbh_bytes, imbh_db, imbh_db_open_memory, imbh_db_query_sql_ipc, imbh_error,
    imbh_last_error_message,
};

fn strings(list: &[&str]) -> Vec<String> {
    list.iter().map(|s| s.to_string()).collect()
}

fn text_column(b: &RecordBatch, i: usize) -> Vec<Option<String>> {
    let a = b.column(i).as_any().downcast_ref::<StringArray>().unwrap();
    (0..a.len()).map(|r| if a.is_null(r) { None } else { Some(a.value(r).to_string()) }).collect()
}

fn int_column(b: &RecordBatch, i: usize) -> Vec<i64> {
    b.column(i).as_any().downcast_ref::<Int64Array>().unwrap().values().to_vec()
}

/// The columns of a batch as (name, type, nullable).
fn shape(b: &RecordBatch) -> Vec<(String, DataType, bool)> {
    b.schema()
        .fields()
        .iter()
        .map(|f| (f.name().clone(), f.data_type().clone(), f.is_nullable()))
        .collect()
}

fn expect_shape(b: &RecordBatch, columns: &[(&str, DataType, bool)]) {
    let expected: Vec<(String, DataType, bool)> =
        columns.iter().map(|(n, t, nullable)| (n.to_string(), t.clone(), *nullable)).collect();
    assert_eq!(shape(b), expected);
}

#[test]
fn every_kind_of_column_is_built() {
    let nan = 0x7ff8_dead_beef_0001u64;
    let columns = vec![
        Column { name: "t", values: ColumnValues::Utf8(strings(&["a", "", "ü"])) },
        Column {
            name: "o",
            values: ColumnValues::OptionalUtf8(vec![None, Some("x".to_string()), None]),
        },
        Column { name: "i", values: ColumnValues::Int64(vec![i64::MIN, 0, i64::MAX]) },
        Column {
            name: "f",
            values: ColumnValues::Float64(vec![1.5f64.to_bits(), nan, (-0.0f64).to_bits()]),
        },
        Column { name: "b", values: ColumnValues::Boolean(vec![true, false, true]) },
    ];
    let b = build_batch(columns).unwrap().inner;
    expect_shape(
        &b,
        &[
            ("t", DataType::Utf8, false),
            ("o", DataType::Utf8, true),
            ("i", DataType::Int64, false),
            ("f", DataType::Float64, false),
            ("b", DataType::Boolean, false),
        ],
    );
    assert_eq!(text_column(&b, 0), vec![Some("a".into()), Some("".into()), Some("ü".into())]);
    assert_eq!(text_column(&b, 1), vec![None, Some("x".into()), None]);
    assert_eq!(int_column(&b, 2), vec![i64::MIN, 0, i64::MAX]);
    let f = b.column(3).as_any().downcast_ref::<Float64Array>().unwrap();
    let bits: Vec<u64> = f.values().iter().map(|v| v.to_bits()).collect();
    assert_eq!(bits, vec![1.5f64.to_bits(), nan, (-0.0f64).to_bits()]);
    let flags = b.column(4).as_any().downcast_ref::<BooleanArray>().unwrap();
    assert_eq!((flags.value(0), flags.value(1), flags.value(2)), (true, false, true));
}

#[test]
fn uneven_columns_are_a_failed_query() {
    let r = series_batch(strings(&["{}"]), vec![1, 2], vec![0]);
    match r {
        Err(BatchFailure::Call(CallError::Query(text))) => {
            assert!(text.starts_with("arrow: "));
            assert!(text.contains("same length"));
        }
        _ => panic!("expected a failed query"),
    }
    let r = build_batch(Vec::new());
    assert!(matches!(r, Err(BatchFailure::Call(CallError::Query(_)))));
}

#[test]
fn series_and_volume_batches_have_their_columns() {
    let b = series_batch(strings(&["{}"]), vec![7], vec![2.0f64.to_bits()]).unwrap().inner;
    expect_shape(
        &b,
        &[
            ("labels", DataType::Utf8, false),
            ("timestamp", DataType::Int64, false),
            ("value", DataType::Float64, false),
        ],
    );
    assert_eq!(int_column(&b, 1), vec![7]);
    let b = volume_batch(vec![1, 2], strings(&["x", "y"]), vec![3, 4]).unwrap().inner;
    expect_shape(
        &b,
        &[
            ("bucket_time", DataType::Int64, false),
            ("labels", DataType::Utf8, false),
            ("count", DataType::Int64, false),
        ],
    );
    assert_eq!(int_column(&b, 0), vec![1, 2]);
    assert_eq!(text_column(&b, 1), vec![Some("x".into()), Some("y".into())]);
    assert_eq!(int_column(&b, 2), vec![3, 4]);
}

#[test]
fn trace_summaries_become_rows() {
    let mut id = [0u8; 16];
    id[0] = 0xab;
    id[15] = 0x01;
    let rows = vec![
        TraceSummary {
            trace_id: TraceId { bytes: id },
            root_service: Some("checkout".to_string()),
            root_name: None,
            start_time: -5,
            duration_ns: 12,
            span_count: 3,
            error: true,
        },
        TraceSummary {
            trace_id: TraceId { bytes: [0u8; 16] },
            root_service: None,
            root_name: Some("GET /".to_string()),
            start_time: 9,
            duration_ns: u64::MAX,
            span_count: 1,
            error: false,
        },
    ];
    let b = trace_summary_batch(rows).unwrap().inner;
    expect_shape(
        &b,
        &[
            ("trace_id", DataType::Utf8, false),
            ("root_service", DataType::Utf8, true),
            ("root_name", DataType::Utf8, true),
            ("start_time", DataType::Int64, false),
            ("duration_ns", DataType::Int64, false),
            ("span_count", DataType::Int64, false),
            ("error", DataType::Boolean, false),
        ],
    );
    assert_eq!(
        text_column(&b, 0),
        vec![
            Some("ab000000000000000000000000000001".into()),
            Some("00000000000000000000000000000000".into())
        ]
    );
    assert_eq!(text_column(&b, 1), vec![Some("checkout".into()), None]);
    assert_eq!(text_column(&b, 2), vec![None, Some("GET /".into())]);
    assert_eq!(int_column(&b, 3), vec![-5, 9]);
    // A duration over the range of the column wraps.
    assert_eq!(int_column(&b, 4), vec![12, -1]);
    assert_eq!(int_column(&b, 5), vec![3, 1]);
}

#[test]
fn segments_catalog_and_exemplars_become_rows() {
    let segment = SegmentRef {
        relative_path: "logs/0.parquet".to_string(),
        min_time_unix_nano: 1,
        max_time_unix_nano: 2,
        rows: 1 << 63,
    };
    let b = segments_batch(vec![segment]).unwrap().inner;
    expect_shape(
        &b,
        &[
            ("relative_path", DataType::Utf8, false),
            ("min_time_unix_nano", DataType::Int64, false),
            ("max_time_unix_nano", DataType::Int64, false),
            ("rows", DataType::Int64, false),
        ],
    );
    assert_eq!((int_column(&b, 1), int_column(&b, 2)), (vec![1], vec![2]));
    assert_eq!(int_column(&b, 3), vec![i64::MIN]);

    let meta = MetricMeta {
        metric: "http.requests".to_string(),
        unit: "1".to_string(),
        temporality: None,
        kind: "sum".to_string(),
    };
    let b = catalog_batch(vec![meta]).unwrap().inner;
    expect_shape(
        &b,
        &[
            ("metric", DataType::Utf8, false),
            ("unit", DataType::Utf8, false),
            ("temporality", DataType::Utf8, true),
            ("kind", DataType::Utf8, false),
        ],
    );
    assert_eq!(text_column(&b, 0), vec![Some("http.requests".into())]);
    assert_eq!(text_column(&b, 2), vec![None]);
    assert_eq!(text_column(&b, 3), vec![Some("sum".into())]);

    let exemplars = vec![
        Exemplar {
            time: 4,
            value_bits: 0.5f64.to_bits(),
            trace_id: Some(TraceId { bytes: [0x11; 16] }),
            span_id: None,
            attributes: "{}".to_string(),
        },
        Exemplar {
            time: 5,
            value_bits: 0,
            trace_id: None,
            span_id: Some(SpanId { bytes: [0xfe; 8] }),
            attributes: String::new(),
        },
    ];
    let b = exemplars_batch(exemplars).unwrap().inner;
    expect_shape(
        &b,
        &[
            ("time", DataType::Int64, false),
            ("value", DataType::Float64, false),
            ("trace_id", DataType::Utf8, true),
            ("span_id", DataType::Utf8, true),
            ("attributes", DataType::Utf8, false),
        ],
    );
    assert_eq!(int_column(&b, 0), vec![4, 5]);
    assert_eq!(text_column(&b, 2), vec![Some("11".repeat(16)), None]);
    assert_eq!(text_column(&b, 3), vec![None, Some("fe".repeat(8))]);
    assert_eq!(text_column(&b, 4), vec![Some("{}".into()), Some("".into())]);
}

fn drain(stream: FFI_ArrowArrayStream) -> (Arc<Schema>, Vec<RecordBatch>) {
    let reader = ArrowArrayStreamReader::try_new(stream).unwrap();
    let schema = reader.schema();
    (schema, reader.map(|b| b.unwrap()).collect())
}

#[test]
fn streams_carry_the_schema_and_the_batches_in_order() {
    let first = utf8_batch("name", strings(&["a", "b"])).unwrap();
    let second = utf8_batch("name", strings(&["c"])).unwrap();
    let schema = first.inner.schema();
    let (seen, batches) = drain(export_batches(schema.clone(), vec![first, second]));
    assert_eq!(seen.fields(), schema.fields());
    assert_eq!(batches.len(), 2);
    assert_eq!(text_column(&batches[0], 0), vec![Some("a".into()), Some("b".into())]);
    assert_eq!(text_column(&batches[1], 0), vec![Some("c".into())]);

    let (seen, batches) = drain(export_batches(schema, Vec::new()));
    assert_eq!(seen.field(0).name(), "name");
    assert!(batches.is_empty());
}

#[test]
fn a_schema_that_is_not_supplied_is_inferred() {
    let b = utf8_batch("value", strings(&["x"])).unwrap();
    let (seen, batches) = drain(export_batches_infer(vec![b]));
    assert_eq!(seen.fields().len(), 1);
    assert_eq!(seen.field(0).name(), "value");
    assert_eq!(batches.len(), 1);
    // Without a batch there is no column to advertise.
    let (seen, batches) = drain(export_batches_infer(Vec::new()));
    assert_eq!(seen.fields().len(), 0);
    assert!(batches.is_empty());
}

#[test]
fn ipc_bytes_are_read_back() {
    let first = utf8_batch("name", strings(&["a", "b"])).unwrap();
    let second = utf8_batch("name", strings(&["c"])).unwrap();
    let schema = first.inner.schema();
    let bytes = encode_ipc(schema.clone(), vec![first, second]).unwrap();
    let reader = StreamReader::try_new(std::io::Cursor::new(bytes), None).unwrap();
    assert_eq!(reader.schema().fields(), schema.fields());
    let batches: Vec<RecordBatch> = reader.map(|b| b.unwrap()).collect();
    assert_eq!(batches.len(), 2);
    assert_eq!(text_column(&batches[1], 0), vec![Some("c".into())]);

    // The columns are written even when there is no batch.
    let bytes = encode_ipc(schema, Vec::new()).unwrap();
    let reader = StreamReader::try_new(std::io::Cursor::new(bytes), None).unwrap();
    assert_eq!(reader.schema().field(0).name(), "name");
    assert_eq!(reader.count(), 0);
}

#[test]
fn batches_are_read_back_under_the_schema_that_was_written() {
    let batch = utf8_batch("name", strings(&["a"])).unwrap();
    let schema = Arc::new(Schema::new(vec![Field::new("alias", DataType::Utf8, true)]));
    let bytes = encode_ipc(schema, vec![batch]).unwrap();
    let reader = StreamReader::try_new(std::io::Cursor::new(bytes), None).unwrap();
    let batches: Vec<RecordBatch> = reader.map(|b| b.unwrap()).collect();
    assert_eq!(shape(&batches[0]), vec![("alias".to_string(), DataType::Utf8, true)]);
    assert_eq!(text_column(&batches[0], 0), vec![Some("a".into())]);
}

#[test]
fn a_schema_need_not_describe_what_is_encoded() {
    // Batches are written as they are, whatever the schema says of them.
    let batch = utf8_batch("name", strings(&["a"])).unwrap();
    let schema = Arc::new(Schema::new(vec![Field::new("n", DataType::Int64, false)]));
    let bytes = encode_ipc(schema, vec![batch]).unwrap();
    assert!(!bytes.is_empty());
    let reader = StreamReader::try_new(std::io::Cursor::new(bytes), None).unwrap();
    assert_eq!(reader.schema().field(0).name(), "n");
}

#[test]
fn messages_stay_within_their_bounds() {
    for n in [1usize, 2, 300] {
        let columns: Vec<Column> = (0..n)
            .map(|i| Column {
                name: "a name",
                values: if i % 2 == 0 {
                    ColumnValues::OptionalUtf8(vec![None])
                } else {
                    ColumnValues::Int64(vec![7])
                },
            })
            .collect();
        let batch = build_batch(columns).unwrap();
        let schema = batch.inner.schema();
        // What is left of the bytes without a batch is the schema and the end of the stream.
        let head = encode_ipc(schema.clone(), Vec::new()).unwrap().len();
        assert!(head <= n * (256 + "a name".len()) + 1024);
        // A row adds at most three padded buffers of values a column to the message of the batch.
        let whole = encode_ipc(schema, vec![batch]).unwrap().len();
        assert!(whole - head <= (64 * n + 1024) + 3 * 64 * n);
    }
    let head = encode_ipc(Arc::new(Schema::empty()), Vec::new()).unwrap().len();
    assert!(head <= 1024);
}

/// A schema with a dictionary column, and a batch under it.
fn dictionary_result() -> (Arc<Schema>, Batch) {
    let data_type =
        DataType::Dictionary(Box::new(DataType::Int32), Box::new(DataType::Utf8));
    let values = arrow::array::new_null_array(&data_type, 2);
    let schema = Arc::new(Schema::new(vec![Field::new("d", data_type, true)]));
    let inner = RecordBatch::try_new(schema.clone(), vec![values]).unwrap();
    (schema, Batch { inner })
}

#[test]
fn dictionaries_are_to_be_announced() {
    let (schema, batch) = dictionary_result();
    let plain = Schema::new(vec![Field::new("d", DataType::Utf8, true)]);
    let list = Schema::new(vec![Field::new("l", DataType::List(schema.fields()[0].clone()), true)]);
    let plain_batch = utf8_batch("d", strings(&["a"])).unwrap();
    assert!(is_announced(&schema, &vec![batch]));
    assert!(is_announced(&plain, &vec![plain_batch]));
    assert!(is_announced(&plain, &Vec::new()));
    let (_, batch) = dictionary_result();
    assert!(!is_announced(&plain, &vec![batch]));
    // A nested dictionary counts.
    let (_, batch) = dictionary_result();
    assert!(is_announced(&list, &vec![batch]));
}

#[test]
fn a_dictionary_that_is_not_announced_ends_as_a_panic() {
    let mut last = LastError::new();
    let mut db: Option<imbh_db<u8>> = None;
    assert_eq!(imbh_db_open_memory(Some(&mut db), || Ok(1), &mut last), imbh_error::Success);
    let mut out = imbh_bytes { data: Vec::new(), len: 0 };
    let run = |_h: &imbh_db<u8>, _sql: &str| {
        let (_, batch) = dictionary_result();
        Ok((Arc::new(Schema::new(vec![Field::new("d", DataType::Utf8, true)])), vec![batch]))
    };
    let code = imbh_db_query_sql_ipc(db.as_ref(), Some(b"SELECT"), Some(&mut out), run, &mut last);
    assert_eq!(code, imbh_error::Panic);
    assert_eq!(
        imbh_last_error_message(&last),
        Some("panic: StreamWriter is configured to not error on dictionary replacement")
    );
    assert_eq!(out.len, 0);

    // Under its own schema the result is encoded, and read back.
    let run = |_h: &imbh_db<u8>, _sql: &str| {
        let (schema, batch) = dictionary_result();
        Ok((schema, vec![batch]))
    };
    let code = imbh_db_query_sql_ipc(db.as_ref(), Some(b"SELECT"), Some(&mut out), run, &mut last);
    assert_eq!(code, imbh_error::Success);
    let reader = StreamReader::try_new(std::io::Cursor::new(out.data), None).unwrap();
    let batches: Vec<RecordBatch> = reader.map(|b| b.unwrap()).collect();
    assert_eq!(batches[0], dictionary_result().1.inner);
}

#[test]
fn columns_of_other_types_pass_through() {
    let schema = Arc::new(Schema::new(vec![Field::new("n", DataType::Null, true)]));
    let inner =
        RecordBatch::try_new(schema.clone(), vec![arrow::array::new_null_array(&DataType::Null, 3)])
            .unwrap();
    let (seen, batches) = drain(export_batches_infer(vec![Batch { inner }]));
    assert_eq!(seen.field(0).data_type(), &DataType::Null);
    assert_eq!(batches[0].num_rows(), 3);
}

#[test]
fn deliver_hands_over_or_reports() {
    let mut last = LastError::new();
    let mut out = FFI_ArrowArrayStream::empty();
    let built = utf8_batch("name", Vec::new());
    assert_eq!(deliver(built, &mut out, &mut last), imbh_error::Success);
    let (seen, batches) = drain(out);
    assert_eq!(seen.field(0).name(), "name");
    assert_eq!(batches.len(), 1);
    assert_eq!(batches[0].num_rows(), 0);

    let mut out = FFI_ArrowArrayStream::empty();
    let built = Err(BatchFailure::Panic("offset overflow".to_string()));
    assert_eq!(deliver(built, &mut out, &mut last), imbh_error::Panic);
    assert_eq!(imbh_last_error_message(&last), Some("panic: offset overflow"));
    assert!(out.release.is_none());

    let built = series_batch(strings(&["{}"]), Vec::new(), Vec::new());
    assert_eq!(deliver(built, &mut out, &mut last), imbh_error::Query);
    assert!(imbh_last_error_message(&last).unwrap().starts_with("arrow: "));
    assert!(out.release.is_none());

    write_batch(&mut out, utf8_batch("x", strings(&["1"])).unwrap());
    assert_eq!(drain(out).1.len(), 1);
}

#[test]
fn buffers_know_their_length() {
    let b = make_bytes(vec![1, 2, 3]);
    assert_eq!((b.len, b.data.as_slice()), (3, &[1u8, 2, 3][..]));
    let b = make_bytes(Vec::new());
    assert_eq!(b.len, 0);
}
