//! The typed queries and the discovery surfaces, over scripted replies.

use std::cell::Cell;

use arrow::array::{Array, Float64Array, Int64Array, RecordBatchReader, StringArray};
use arrow::ffi_stream::{ArrowArrayStreamReader, FFI_ArrowArrayStream};
use arrow::record_batch::RecordBatch;

use imbh_c::batches::{utf8_batch, Exemplar, SegmentRef};
use imbh_c::columnar::Batch;
use imbh_c::discovery::{labels_to_json, AnyValue};
use imbh_c::error::{EngineError, ErrorCategory, LastError};
use imbh_c::filters::TimeRange;
use imbh_c::query::{InstantSample, MetricPointsQuery, VolumeBucket};
use imbh_c::{
    imbh_db, imbh_db_attr_values, imbh_db_logs_count, imbh_db_logs_page, imbh_db_logs_query,
    imbh_db_logs_volume, imbh_db_metric_exemplars, imbh_db_metric_series, imbh_db_metrics_instant,
    imbh_db_metrics_points, imbh_db_metrics_range, imbh_db_open_memory, imbh_db_segments,
    imbh_db_traces_search, imbh_db_traces_span_metrics, imbh_error, imbh_last_error_message,
    imbh_log_query, imbh_log_query_add_attr_eq, imbh_log_query_add_attr_in,
    imbh_log_query_add_attr_num, imbh_log_query_new, imbh_log_query_set_limit,
    imbh_log_query_set_offset, imbh_log_query_set_service, imbh_metric_point_kind,
    imbh_metric_points_query_add_filter, imbh_metric_points_query_new,
    imbh_metric_points_query_set_limit, imbh_metric_points_query_set_metric,
    imbh_metric_points_query_set_range, imbh_metric_query, imbh_metric_query_new,
    imbh_metric_table, imbh_num_op, imbh_query_stats, imbh_span_metrics_query,
    imbh_span_metrics_query_new, imbh_trace_query,
};

type Handle = imbh_db<u32>;

fn open(last: &mut LastError) -> Handle {
    let mut db: Option<Handle> = None;
    assert_eq!(imbh_db_open_memory(Some(&mut db), || Ok(1), last), imbh_error::Success);
    db.unwrap()
}

fn failure(message: &str) -> EngineError {
    EngineError {
        category: ErrorCategory::Query,
        backpressure: false,
        not_found: false,
        message: message.to_owned(),
    }
}

fn scan(rows_returned: u64) -> imbh_query_stats {
    imbh_query_stats {
        segments_scanned: 1,
        segments_pruned: 2,
        rows_scanned: 3,
        rows_returned,
        bytes_scanned: 4,
        elapsed_ns: 5,
        used_index: true,
    }
}

fn batch(values: &[&str]) -> Batch {
    match utf8_batch("v", values.iter().map(|s| s.to_string()).collect()) {
        Ok(b) => b,
        Err(_) => panic!("a batch"),
    }
}

fn drain(stream: FFI_ArrowArrayStream) -> Vec<RecordBatch> {
    ArrowArrayStreamReader::try_new(stream).unwrap().map(|b| b.unwrap()).collect()
}

fn encode(entries: &Vec<(String, AnyValue)>) -> String {
    let parts: Vec<String> = entries
        .iter()
        .map(|(k, v)| match v {
            AnyValue::Str(s) => format!("{k}={s}"),
            AnyValue::Int(n) => format!("{k}:{n}"),
            _ => format!("{k}?"),
        })
        .collect();
    parts.join(";")
}

fn pair(k: &str, v: &str) -> (String, String) {
    (k.to_string(), v.to_string())
}

#[test]
fn labels_reach_the_encoder_as_strings_in_order() {
    assert_eq!(labels_to_json(vec![pair("b", "2"), pair("a", "1")], &encode), "b=2;a=1");
    assert_eq!(labels_to_json(Vec::new(), &encode), "");
}

#[test]
fn typed_queries_stream_rows_and_statistics() {
    let mut last = LastError::new();
    let db = open(&mut last);
    let q = imbh_metric_query_new(imbh_metric_table::Gauge, &mut last);
    let mut out = FFI_ArrowArrayStream::empty();
    let mut stats = scan(0);
    let code = imbh_db_metrics_range(
        Some(&db),
        Some(&q),
        Some(&mut out),
        Some(&mut stats),
        |_h: &Handle, q: &imbh_metric_query| {
            assert_eq!(q.table, 0);
            Ok((vec![batch(&["a"]), batch(&["b", "c"])], scan(3)))
        },
        &mut last,
    );
    assert_eq!(code, imbh_error::Success);
    assert_eq!(stats, scan(3));
    let batches = drain(out);
    assert_eq!(batches.iter().map(|b| b.num_rows()).collect::<Vec<usize>>(), vec![1, 2]);

    let q = imbh_span_metrics_query_new(&mut last);
    let mut out = FFI_ArrowArrayStream::empty();
    let code = imbh_db_traces_span_metrics(
        Some(&db),
        Some(&q),
        Some(&mut out),
        None,
        |_h: &Handle, _q: &imbh_span_metrics_query| Ok((Vec::new(), scan(0))),
        &mut last,
    );
    assert_eq!(code, imbh_error::Success);
    assert!(drain(out).is_empty());
}

#[test]
fn a_failed_query_writes_nothing() {
    let mut last = LastError::new();
    let db = open(&mut last);
    let q = imbh_log_query_new(&mut last);
    let mut out = FFI_ArrowArrayStream::empty();
    let mut stats = scan(9);
    let code = imbh_db_logs_query(
        Some(&db),
        Some(&q),
        Some(&mut out),
        Some(&mut stats),
        |_h: &Handle, _q: &imbh_log_query| Err(failure("severity out of range")),
        &mut last,
    );
    assert_eq!(code, imbh_error::Query);
    assert_eq!(imbh_last_error_message(&last), Some("severity out of range"));
    assert_eq!(stats, scan(9));
    assert!(out.release.is_none());

    let code = imbh_db_logs_query(
        Some(&db),
        Some(&q),
        None,
        Some(&mut stats),
        |_h: &Handle, _q: &imbh_log_query| Ok((Vec::new(), scan(0))),
        &mut last,
    );
    assert_eq!(code, imbh_error::InvalidArg);
    assert_eq!(imbh_last_error_message(&last), Some("null out stream pointer"));
    assert_eq!(stats, scan(9));
}

#[test]
fn a_page_resumes_the_same_query_at_the_cursor() {
    let mut last = LastError::new();
    let db = open(&mut last);
    let mut q = imbh_log_query_new(&mut last);
    imbh_log_query_set_service(Some(&mut q), Some(b"checkout"), &mut last);
    imbh_log_query_set_offset(Some(&mut q), 999, &mut last);
    imbh_log_query_set_limit(Some(&mut q), 2, &mut last);
    imbh_log_query_add_attr_eq(Some(&mut q), Some(b"k"), Some(b"v"), &mut last);
    let values: [Option<&[u8]>; 2] = [Some(b"x"), Some(b"y")];
    imbh_log_query_add_attr_in(Some(&mut q), Some(b"in"), Some(&values), 2, &mut last);
    imbh_log_query_add_attr_num(Some(&mut q), Some(b"n"), imbh_num_op::Lt, 7, &mut last);
    let mut out = FFI_ArrowArrayStream::empty();
    let mut next: u64 = 0;
    let mut more = false;
    let code = imbh_db_logs_page(
        Some(&db),
        Some(&q),
        40,
        Some(&mut out),
        None,
        Some(&mut next),
        Some(&mut more),
        |_h: &Handle, page: &imbh_log_query| {
            assert_eq!(page.offset, 40);
            assert_eq!(page.limit, 2);
            assert_eq!(page.service.as_deref(), Some("checkout"));
            assert_eq!(page.attr_eq[0].value, "v");
            assert_eq!(page.attr_in[0].values, vec!["x", "y"]);
            assert_eq!((page.attr_num[0].op, page.attr_num[0].value_bits), (2, 7));
            Ok((vec![batch(&["a", "b"])], scan(2)))
        },
        &mut last,
    );
    assert_eq!(code, imbh_error::Success);
    assert_eq!((next, more), (42, true));
    assert_eq!(q.offset, 999);
    assert_eq!(drain(out)[0].num_rows(), 2);
}

#[test]
fn without_a_limit_there_is_never_more() {
    let mut last = LastError::new();
    let db = open(&mut last);
    let q = imbh_log_query_new(&mut last);
    let mut out = FFI_ArrowArrayStream::empty();
    let mut more = true;
    let code = imbh_db_logs_page(
        Some(&db),
        Some(&q),
        0,
        Some(&mut out),
        None,
        None,
        Some(&mut more),
        |_h: &Handle, _q: &imbh_log_query| Ok((Vec::new(), scan(100))),
        &mut last,
    );
    assert_eq!(code, imbh_error::Success);
    assert!(!more);
}

#[test]
fn a_next_offset_that_does_not_fit_ends_as_a_panic() {
    let mut last = LastError::new();
    let db = open(&mut last);
    let q = imbh_log_query_new(&mut last);
    let mut out = FFI_ArrowArrayStream::empty();
    let mut stats = scan(0);
    let mut next: u64 = 11;
    let mut more = true;
    let code = imbh_db_logs_page(
        Some(&db),
        Some(&q),
        u64::MAX,
        Some(&mut out),
        Some(&mut stats),
        Some(&mut next),
        Some(&mut more),
        |_h: &Handle, _q: &imbh_log_query| Ok((Vec::new(), scan(1))),
        &mut last,
    );
    assert_eq!(code, imbh_error::Panic);
    assert_eq!(imbh_last_error_message(&last), Some("panic: attempt to add with overflow"));
    assert_eq!(stats, scan(1));
    assert_eq!((next, more), (11, true));
    assert!(out.release.is_none());
    // Where the next offset is not asked for, nothing is added.
    let code = imbh_db_logs_page(
        Some(&db),
        Some(&q),
        u64::MAX,
        Some(&mut out),
        None,
        None,
        Some(&mut more),
        |_h: &Handle, _q: &imbh_log_query| Ok((Vec::new(), scan(1))),
        &mut last,
    );
    assert_eq!(code, imbh_error::Success);
    assert!(!more);
}

#[test]
fn pages_fed_back_cover_every_row_once() {
    let mut last = LastError::new();
    let db = open(&mut last);
    let mut q = imbh_log_query_new(&mut last);
    imbh_log_query_set_limit(Some(&mut q), 3, &mut last);
    let rows: Vec<String> = (0..8).map(|i| format!("row {i}")).collect();
    let mut seen: Vec<String> = Vec::new();
    let mut next: u64 = 0;
    let mut more = true;
    while more {
        let mut out = FFI_ArrowArrayStream::empty();
        let after = next;
        let code = imbh_db_logs_page(
            Some(&db),
            Some(&q),
            after,
            Some(&mut out),
            None,
            Some(&mut next),
            Some(&mut more),
            |_h: &Handle, q: &imbh_log_query| {
                let page: Vec<&str> = rows
                    .iter()
                    .skip(q.offset as usize)
                    .take(q.limit as usize)
                    .map(|s| s.as_str())
                    .collect();
                Ok((vec![batch(&page)], scan(page.len() as u64)))
            },
            &mut last,
        );
        assert_eq!(code, imbh_error::Success);
        for b in drain(out) {
            let a = b.column(0).as_any().downcast_ref::<StringArray>().unwrap();
            seen.extend((0..a.len()).map(|i| a.value(i).to_string()));
        }
    }
    assert_eq!(seen, rows);
    assert_eq!(next, 8);
}

#[test]
fn instant_samples_become_rows() {
    let mut last = LastError::new();
    let db = open(&mut last);
    let q = imbh_metric_query_new(imbh_metric_table::Sum, &mut last);
    let mut out = FFI_ArrowArrayStream::empty();
    let code = imbh_db_metrics_instant(
        Some(&db),
        Some(&q),
        Some(&mut out),
        |_h: &Handle, _q: &imbh_metric_query| {
            Ok(vec![
                InstantSample {
                    labels: vec![pair("host", "a")],
                    time: 5,
                    value_bits: 1.25f64.to_bits(),
                },
                InstantSample { labels: Vec::new(), time: 6, value_bits: 0 },
            ])
        },
        &encode,
        &mut last,
    );
    assert_eq!(code, imbh_error::Success);
    let reader = ArrowArrayStreamReader::try_new(out).unwrap();
    let names: Vec<String> = reader.schema().fields().iter().map(|f| f.name().clone()).collect();
    assert_eq!(names, vec!["labels", "timestamp", "value"]);
    let b = reader.map(|b| b.unwrap()).next().unwrap();
    let labels = b.column(0).as_any().downcast_ref::<StringArray>().unwrap();
    assert_eq!((labels.value(0), labels.value(1)), ("host=a", ""));
    let times = b.column(1).as_any().downcast_ref::<Int64Array>().unwrap();
    assert_eq!(times.values().to_vec(), vec![5, 6]);
    let values = b.column(2).as_any().downcast_ref::<Float64Array>().unwrap();
    assert_eq!(values.values().to_vec(), vec![1.25, 0.0]);
}

#[test]
fn volume_queries_clamp_the_step_and_read_the_keys() {
    let mut last = LastError::new();
    let db = open(&mut last);
    let q = imbh_log_query_new(&mut last);
    let keys: [Option<&[u8]>; 2] = [Some(b"service"), Some(b"level")];
    let mut out = FFI_ArrowArrayStream::empty();
    let code = imbh_db_logs_volume(
        Some(&db),
        Some(&q),
        0,
        Some(&keys),
        2,
        Some(&mut out),
        |_q: &imbh_log_query| Ok(77u8),
        |_h: &Handle, built: u8, step: u64, keys: &Vec<String>| {
            assert_eq!((built, step), (77, 1));
            assert_eq!(*keys, vec!["service", "level"]);
            Ok(vec![VolumeBucket { time: 1, labels: vec![pair("level", "x")], count: u64::MAX }])
        },
        &encode,
        &mut last,
    );
    assert_eq!(code, imbh_error::Success);
    let b = drain(out).remove(0);
    let counts = b.column(2).as_any().downcast_ref::<Int64Array>().unwrap();
    // A count over the range of the column wraps.
    assert_eq!(counts.value(0), -1);
    let labels = b.column(1).as_any().downcast_ref::<StringArray>().unwrap();
    assert_eq!(labels.value(0), "level=x");
}

#[test]
fn volume_queries_are_validated_before_the_keys_are_read() {
    let mut last = LastError::new();
    let db = open(&mut last);
    let q = imbh_log_query_new(&mut last);
    let run = |_h: &Handle, _b: u8, _s: u64, _k: &Vec<String>| Ok(Vec::<VolumeBucket>::new());
    let mut out = FFI_ArrowArrayStream::empty();
    let code = imbh_db_logs_volume(
        Some(&db),
        Some(&q),
        1,
        None,
        1,
        Some(&mut out),
        |_q: &imbh_log_query| Err(failure("bad query")),
        run,
        &encode,
        &mut last,
    );
    assert_eq!(code, imbh_error::Query);
    assert_eq!(imbh_last_error_message(&last), Some("bad query"));
    let code = imbh_db_logs_volume(
        Some(&db),
        Some(&q),
        1,
        None,
        1,
        Some(&mut out),
        |_q: &imbh_log_query| Ok(0u8),
        run,
        &encode,
        &mut last,
    );
    assert_eq!(code, imbh_error::InvalidArg);
    assert_eq!(imbh_last_error_message(&last), Some("null values array"));
}

#[test]
fn counts_are_written_or_left_alone() {
    let mut last = LastError::new();
    let db = open(&mut last);
    let q = imbh_log_query_new(&mut last);
    let mut n: u64 = 4;
    let fail = |_h: &Handle, _q: &imbh_log_query| Err(failure("no"));
    assert_eq!(
        imbh_db_logs_count(Some(&db), Some(&q), Some(&mut n), fail, &mut last),
        imbh_error::Query
    );
    assert_eq!(n, 4);
    let count = |_h: &Handle, _q: &imbh_log_query| Ok(12);
    assert_eq!(
        imbh_db_logs_count(Some(&db), Some(&q), Some(&mut n), count, &mut last),
        imbh_error::Success
    );
    assert_eq!(n, 12);
    assert_eq!(
        imbh_db_logs_count(Some(&db), Some(&q), None, count, &mut last),
        imbh_error::InvalidArg
    );
    assert_eq!(imbh_last_error_message(&last), Some("null out pointer"));
}

#[test]
fn points_queries_are_passed_on_whole() {
    let mut last = LastError::new();
    let db = open(&mut last);
    let mut q = imbh_metric_points_query_new(imbh_metric_point_kind::Histogram, &mut last);
    imbh_metric_points_query_set_metric(Some(&mut q), Some(b"latency"), &mut last);
    imbh_metric_points_query_add_filter(Some(&mut q), Some(b"a"), Some(b"1"), &mut last);
    imbh_metric_points_query_add_filter(Some(&mut q), Some(b"b"), Some(b"2"), &mut last);
    imbh_metric_points_query_set_range(Some(&mut q), 10, 20, &mut last);
    imbh_metric_points_query_set_limit(Some(&mut q), 5, &mut last);
    let mut out = FFI_ArrowArrayStream::empty();
    let code = imbh_db_metrics_points(
        Some(&db),
        Some(&q),
        Some(&mut out),
        |_h: &Handle, request: MetricPointsQuery| {
            assert_eq!(request.kind, imbh_metric_point_kind::Histogram);
            assert_eq!(request.metric, "latency");
            let filters: Vec<(&str, &str)> =
                request.filters.iter().map(|f| (f.key.as_str(), f.value.as_str())).collect();
            assert_eq!(filters, vec![("a", "1"), ("b", "2")]);
            assert_eq!(request.range, Some(TimeRange { start: 10, end: 20 }));
            assert_eq!(request.limit, Some(5));
            Ok(vec![batch(&["p"])])
        },
        &mut last,
    );
    assert_eq!(code, imbh_error::Success);
    assert_eq!(drain(out).len(), 1);
}

#[test]
fn arguments_are_checked_before_the_engine_runs() {
    let mut last = LastError::new();
    let db = open(&mut last);
    let ran = Cell::new(false);
    let mut out = FFI_ArrowArrayStream::empty();
    let search = |_h: &Handle, _q: &imbh_trace_query| {
        ran.set(true);
        Ok(Vec::new())
    };
    let code = imbh_db_traces_search(Some(&db), None, Some(&mut out), search, &mut last);
    assert_eq!(code, imbh_error::InvalidArg);
    assert_eq!(imbh_last_error_message(&last), Some("null imbh_trace_query"));
    let code = imbh_db_attr_values(
        Some(&db),
        None,
        None,
        |_h: &Handle, _k: &str| {
            ran.set(true);
            Ok(Vec::new())
        },
        &mut last,
    );
    // The key is read before the out pointer is looked at.
    assert_eq!(code, imbh_error::InvalidArg);
    assert_eq!(imbh_last_error_message(&last), Some("null string pointer"));
    let code = imbh_db_segments(
        None,
        Some(&mut out),
        |_h: &Handle| {
            ran.set(true);
            Vec::<SegmentRef>::new()
        },
        &mut last,
    );
    assert_eq!(code, imbh_error::InvalidArg);
    assert!(!ran.get());
    assert!(out.release.is_none());
}

#[test]
fn series_are_encoded_one_by_one() {
    let mut last = LastError::new();
    let db = open(&mut last);
    let mut out = FFI_ArrowArrayStream::empty();
    let code = imbh_db_metric_series(
        Some(&db),
        Some(b"http.requests"),
        Some(&mut out),
        |_h: &Handle, metric: &str| {
            assert_eq!(metric, "http.requests");
            Ok(vec![
                vec![("a".to_string(), AnyValue::Int(3)), ("b".to_string(), AnyValue::Null)],
                Vec::new(),
            ])
        },
        &encode,
        &mut last,
    );
    assert_eq!(code, imbh_error::Success);
    let b = drain(out).remove(0);
    let labels = b.column(0).as_any().downcast_ref::<StringArray>().unwrap();
    assert_eq!((labels.value(0), labels.value(1)), ("a:3;b?", ""));
}

#[test]
fn exemplars_reach_the_stream() {
    let mut last = LastError::new();
    let db = open(&mut last);
    let mut out = FFI_ArrowArrayStream::empty();
    let code = imbh_db_metric_exemplars(
        Some(&db),
        Some(b"m"),
        Some(&mut out),
        |_h: &Handle, _m: &str| {
            Ok(vec![Exemplar {
                time: 1,
                value_bits: 0,
                trace_id: None,
                span_id: None,
                attributes: "{}".to_string(),
            }])
        },
        &mut last,
    );
    assert_eq!(code, imbh_error::Success);
    let batches = drain(out);
    assert_eq!(batches[0].num_columns(), 5);
    assert!(batches[0].column(2).is_null(0));
    let code = imbh_db_metric_exemplars(
        Some(&db),
        Some(b"m"),
        None,
        |_h: &Handle, _m: &str| Err(failure("not reached")),
        &mut last,
    );
    assert_eq!(code, imbh_error::InvalidArg);
}
