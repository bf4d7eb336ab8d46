//! End-to-end tests over a small in-memory engine: they drive the entry points, then import the
//! exported Arrow stream back with arrow-rs to assert the result data, as a C consumer would.

use std::cell::{Cell, RefCell};
use std::rc::Rc;
use std::sync::Arc;

use arrow::array::{
    Array, ArrayRef, Float64Array, Int64Array, RecordBatchReader, StringArray,
};
use arrow::compute::cast;
use arrow::datatypes::{DataType, Field, Schema};
use arrow::ffi_stream::{ArrowArrayStreamReader, FFI_ArrowArrayStream};
use arrow::ipc::reader::StreamReader;
use arrow::ipc::writer::StreamWriter;
use arrow::record_batch::RecordBatch;
use opentelemetry_proto::tonic::collector::logs::v1::ExportLogsServiceRequest;
use opentelemetry_proto::tonic::common::v1::{any_value, AnyValue as OtlpValue, KeyValue};
use opentelemetry_proto::tonic::logs::v1::{LogRecord, ResourceLogs, ScopeLogs};
use opentelemetry_proto::tonic::resource::v1::Resource;
use prost::Message;

use imbh_c::batches::{SegmentRef, TraceSummary};
use imbh_c::columnar::Batch;
use imbh_c::db::OpenRequest;
use imbh_c::discovery::AnyValue;
use imbh_c::error::{ErrorCategory, LastError, EngineError};
use imbh_c::languages::{LinesFailure, ModelKind, EvalRange, TranslateContext, Translated};
use imbh_c::ops::ExportRange;
use imbh_c::options::WalMode;
use imbh_c::query::{MetricPointsQuery, VolumeBucket};
use imbh_c::stats::{DbStats, IngestReceipt, TableStats};
use imbh_c::table::Table;
use imbh_c::{
    imbh_bytes, imbh_bytes_free, imbh_compression, imbh_db, imbh_db_attr_names,
    imbh_db_attr_values, imbh_db_durable_through, imbh_db_export, imbh_db_flush, imbh_db_free,
    imbh_db_get_trace, imbh_db_ingest_logs, imbh_db_logs_count, imbh_db_logs_page,
    imbh_db_logs_query, imbh_db_logs_volume, imbh_db_metric_catalog, imbh_db_metric_series,
    imbh_db_metrics_points, imbh_db_open, imbh_db_open_memory, imbh_db_open_read_only,
    imbh_db_query_logql, imbh_db_query_promql, imbh_db_query_sql, imbh_db_query_sql_ipc,
    imbh_db_segment_files, imbh_db_segments, imbh_db_snapshot, imbh_db_stats, imbh_db_table_stats,
    imbh_db_traces_search, imbh_error, imbh_ingest_receipt, imbh_last_error_message,
    imbh_log_query, imbh_log_query_free, imbh_log_query_new, imbh_log_query_set_limit,
    imbh_log_query_set_service, imbh_metric_point_kind, imbh_metric_points_query_free,
    imbh_metric_points_query_new, imbh_metric_points_query_set_metric, imbh_open_options,
    imbh_query_stats, imbh_refresh_mode, imbh_snapshot_info, imbh_stats, imbh_table,
    imbh_table_stats, imbh_trace_query_free, imbh_trace_query_new, imbh_trace_query_set_service,
    imbh_wal_mode,
};

/// One stored log line.
#[derive(Clone)]
struct Row {
    service: String,
    body: String,
}

/// A small engine that stores log lines.
struct Engine {
    rows: RefCell<Vec<Row>>,
    sealed: Cell<usize>,
    lsn: Cell<u64>,
    wal: WalMode,
}

type Handle = imbh_db<Rc<Engine>>;

fn new_engine(wal: WalMode) -> Rc<Engine> {
    Rc::new(Engine { rows: RefCell::new(Vec::new()), sealed: Cell::new(0), lsn: Cell::new(0), wal })
}

fn not_found(what: &str) -> EngineError {
    EngineError {
        category: ErrorCategory::Query,
        backpressure: false,
        not_found: true,
        message: format!("{what} not found"),
    }
}

/// Build a protobuf OTLP `ExportLogsServiceRequest` with `records` log lines under one service.
fn otlp_logs(service: &str, records: &[(i32, &str)]) -> Vec<u8> {
    let sv = |s: &str| OtlpValue { value: Some(any_value::Value::StringValue(s.to_owned())) };
    ExportLogsServiceRequest {
        resource_logs: vec![ResourceLogs {
            resource: Some(Resource {
                attributes: vec![KeyValue {
                    key: "service.name".into(),
                    value: Some(sv(service)),
                    ..Default::default()
                }],
                ..Default::default()
            }),
            scope_logs: vec![ScopeLogs {
                log_records: records
                    .iter()
                    .map(|(sev, body)| LogRecord {
                        time_unix_nano: 1_000,
                        severity_number: *sev,
                        body: Some(sv(body)),
                        ..Default::default()
                    })
                    .collect(),
                ..Default::default()
            }],
            ..Default::default()
        }],
    }
    .encode_to_vec()
}

fn text_of(value: Option<OtlpValue>) -> String {
    match value.and_then(|v| v.value) {
        Some(any_value::Value::StringValue(s)) => s,
        _ => String::new(),
    }
}

/// Decode and store the lines, as the engine's ingest does.
fn ingest(h: &Handle, body: &[u8]) -> Result<IngestReceipt, EngineError> {
    let request = ExportLogsServiceRequest::decode(body).map_err(|e| EngineError {
        category: ErrorCategory::Ingest,
        backpressure: false,
        not_found: false,
        message: format!("{e}"),
    })?;
    let mut accepted = 0;
    for resource in request.resource_logs {
        let attributes = resource.resource.unwrap_or_default().attributes;
        let service = attributes
            .into_iter()
            .find(|a| a.key == "service.name")
            .map(|a| text_of(a.value))
            .unwrap_or_default();
        for scope in resource.scope_logs {
            for record in scope.log_records {
                let row = Row { service: service.clone(), body: text_of(record.body) };
                h.db.rows.borrow_mut().push(row);
                accepted += 1;
            }
        }
    }
    h.db.lsn.set(h.db.lsn.get() + 1);
    let durable = h.db.wal == WalMode::Always;
    let lsn = Some(h.db.lsn.get());
    Ok(IngestReceipt { accepted, rejected: 0, lsn, durable, queued: false })
}

fn close(_h: &Handle) -> Result<(), EngineError> {
    Ok(())
}

fn lines_schema() -> Arc<Schema> {
    Arc::new(Schema::new(vec![
        Field::new("time", DataType::Int64, false),
        Field::new("body", DataType::Utf8, false),
        Field::new("service", DataType::Utf8, false),
    ]))
}

/// The canonical projection of log lines: `service` is column 2.
fn lines_batch(rows: &[Row]) -> Batch {
    let times: Vec<i64> = rows.iter().map(|_| 1_000).collect();
    let bodies: Vec<String> = rows.iter().map(|r| r.body.clone()).collect();
    let services: Vec<String> = rows.iter().map(|r| r.service.clone()).collect();
    let inner = RecordBatch::try_new(
        lines_schema(),
        vec![
            Arc::new(Int64Array::from(times)) as ArrayRef,
            Arc::new(StringArray::from(bodies)),
            Arc::new(StringArray::from(services)),
        ],
    )
    .unwrap();
    Batch { inner }
}

/// Answer the handful of SQL queries that the tests ask.
fn sql(h: &Handle, query: &str) -> Result<(Arc<Schema>, Vec<Batch>), EngineError> {
    let rows = h.db.rows.borrow();
    if query == "SELECT 1 AS x" {
        let schema = Arc::new(Schema::new(vec![Field::new("x", DataType::Int64, false)]));
        let column = Arc::new(Int64Array::from(vec![1])) as ArrayRef;
        let inner = RecordBatch::try_new(schema.clone(), vec![column]).unwrap();
        return Ok((schema, vec![Batch { inner }]));
    }
    if !query.contains("FROM logs") {
        return Err(not_found("table"));
    }
    if query.contains("count(*)") {
        let schema = Arc::new(Schema::new(vec![
            Field::new("service", DataType::Utf8, false),
            Field::new("n", DataType::Int64, false),
        ]));
        let mut services: Vec<String> = rows.iter().map(|r| r.service.clone()).collect();
        services.sort();
        services.dedup();
        let counts: Vec<i64> = services
            .iter()
            .map(|s| rows.iter().filter(|r| r.service == *s).count() as i64)
            .collect();
        let inner = RecordBatch::try_new(
            schema.clone(),
            vec![
                Arc::new(StringArray::from(services)) as ArrayRef,
                Arc::new(Int64Array::from(counts)),
            ],
        )
        .unwrap();
        return Ok((schema, vec![Batch { inner }]));
    }
    let names: Vec<&str> =
        if query.contains("body") { vec!["service", "body"] } else { vec!["service"] };
    let fields: Vec<Field> = names.iter().map(|n| Field::new(*n, DataType::Utf8, false)).collect();
    let schema = Arc::new(Schema::new(fields));
    if rows.is_empty() {
        return Ok((schema, Vec::new()));
    }
    let columns: Vec<ArrayRef> = names
        .iter()
        .map(|n| {
            let values: Vec<String> = rows
                .iter()
                .map(|r| if *n == "service" { r.service.clone() } else { r.body.clone() })
                .collect();
            Arc::new(StringArray::from(values)) as ArrayRef
        })
        .collect();
    let inner = RecordBatch::try_new(schema.clone(), columns).unwrap();
    Ok((schema, vec![Batch { inner }]))
}

fn matching(h: &Handle, q: &imbh_log_query) -> Vec<Row> {
    h.db.rows
        .borrow()
        .iter()
        .filter(|r| q.service.as_ref().map_or(true, |s| *s == r.service))
        .cloned()
        .collect()
}

fn scan(returned: usize) -> imbh_query_stats {
    imbh_query_stats {
        segments_scanned: 0,
        segments_pruned: 0,
        rows_scanned: returned as u64,
        rows_returned: returned as u64,
        bytes_scanned: 0,
        elapsed_ns: 1,
        used_index: false,
    }
}

/// Run a log query: filter, then page.
fn logs(
    h: &Handle,
    q: &imbh_log_query,
) -> Result<(Vec<Batch>, imbh_query_stats), EngineError> {
    let limit = if q.limit == 0 { 100 } else { q.limit as usize };
    let rows: Vec<Row> =
        matching(h, q).into_iter().skip(q.offset as usize).take(limit).collect();
    let stats = scan(rows.len());
    Ok((vec![lines_batch(&rows)], stats))
}

fn db_stats(h: &Handle) -> Result<DbStats, EngineError> {
    let rows = h.db.rows.borrow().len() as u64;
    let sealed = h.db.sealed.get() as u64;
    let logs = TableStats {
        table: Table::Logs,
        segment_count: if sealed > 0 { 1 } else { 0 },
        segment_rows: sealed,
        buffer_rows: rows - sealed,
        min_time_unix_nano: None,
        max_time_unix_nano: None,
    };
    Ok(DbStats {
        tables: vec![logs],
        buffer_bytes: 0,
        wal_bytes: 0,
        durable_lsn: None,
        ingest_queue_depth: 0,
        ingest_dropped: 0,
        ingest_errors: 0,
    })
}

/// A canonical JSON encoder for string-valued label sets.
fn encode(entries: &Vec<(String, AnyValue)>) -> String {
    let mut parts: Vec<String> = entries
        .iter()
        .map(|(k, v)| match v {
            AnyValue::Str(s) => format!("\"{k}\":\"{s}\""),
            _ => format!("\"{k}\":null"),
        })
        .collect();
    parts.sort();
    format!("{{{}}}", parts.join(","))
}

/// Open an in-memory database.
fn open_memory(last: &mut LastError) -> Option<Handle> {
    let mut db: Option<Handle> = None;
    let code = imbh_db_open_memory(Some(&mut db), || Ok(new_engine(WalMode::Off)), last);
    assert_eq!(code, imbh_error::Success, "open_memory failed");
    assert!(db.is_some());
    db
}

fn ingest_lines(db: &Option<Handle>, records: &[(i32, &str)], last: &mut LastError) {
    let body = otlp_logs("checkout", records);
    let code =
        imbh_db_ingest_logs(db.as_ref(), Some(&body), body.len(), None, ingest, last);
    assert_eq!(code, imbh_error::Success);
}

/// Import an exported stream and concatenate every batch's `col`-th column as strings.
fn drain_string_column(stream: FFI_ArrowArrayStream, col: usize) -> Vec<Option<String>> {
    let reader = ArrowArrayStreamReader::try_new(stream).expect("import stream");
    let mut out = Vec::new();
    for batch in reader {
        let batch = batch.expect("batch");
        let utf8 = cast(batch.column(col), &DataType::Utf8).expect("cast to Utf8");
        let arr = utf8.as_any().downcast_ref::<StringArray>().expect("string");
        for i in 0..arr.len() {
            out.push(if arr.is_valid(i) { Some(arr.value(i).to_string()) } else { None });
        }
    }
    out
}

fn import(stream: FFI_ArrowArrayStream) -> ArrowArrayStreamReader {
    ArrowArrayStreamReader::try_new(stream).expect("import")
}

#[test]
fn ingest_then_sql_roundtrip() {
    let mut last = LastError::new();
    let mut db = open_memory(&mut last);

    // Ingest two log lines and check the receipt.
    let body = otlp_logs("checkout", &[(17, "payment error"), (9, "request ok")]);
    let mut receipt =
        imbh_ingest_receipt { accepted: 0, rejected: 0, lsn: 0, durable: false, queued: false };
    let code = imbh_db_ingest_logs(
        db.as_ref(),
        Some(&body),
        body.len(),
        Some(&mut receipt),
        ingest,
        &mut last,
    );
    assert_eq!(code, imbh_error::Success);
    assert_eq!(receipt.accepted, 2);
    assert!(!receipt.queued);

    // Query the buffer via SQL and export as an Arrow stream.
    let query =
        "SELECT CAST(service AS VARCHAR) AS service, count(*) AS n FROM logs GROUP BY service";
    let mut stream = FFI_ArrowArrayStream::empty();
    let code = imbh_db_query_sql(
        db.as_ref(),
        Some(query.as_bytes()),
        Some(&mut stream),
        sql,
        &mut last,
    );
    assert_eq!(code, imbh_error::Success);
    let services = drain_string_column(stream, 0);
    assert_eq!(services, vec![Some("checkout".to_string())]);

    // Stats should now report two buffered log rows.
    let mut stats = imbh_stats {
        buffer_bytes: 0,
        wal_bytes: 0,
        durable_lsn: 0,
        ingest_queue_depth: 0,
        ingest_dropped: 0,
        ingest_errors: 0,
        total_segment_count: 0,
        total_segment_rows: 0,
        total_buffer_rows: 0,
    };
    assert_eq!(
        imbh_db_stats(db.as_ref(), Some(&mut stats), db_stats, &mut last),
        imbh_error::Success
    );
    assert_eq!(stats.total_buffer_rows, 2);

    let mut tstats = imbh_table_stats {
        table: imbh_table::Spans,
        segment_count: 0,
        segment_rows: 0,
        buffer_rows: 0,
        min_time_unix_nano: 0,
        max_time_unix_nano: 0,
        has_time_bounds: false,
    };
    let code = imbh_db_table_stats(
        db.as_ref(),
        imbh_table::Logs,
        Some(&mut tstats),
        db_stats,
        &mut last,
    );
    assert_eq!(code, imbh_error::Success);
    assert_eq!(tstats.buffer_rows, 2);

    imbh_db_free(&mut db, close, &mut last);
    assert!(db.is_none());
}

#[test]
fn typed_logs_query_roundtrip() {
    let mut last = LastError::new();
    let mut db = open_memory(&mut last);
    ingest_lines(&db, &[(17, "boom"), (9, "ok")], &mut last);

    // Build the query with the builder.
    let mut q = Some(imbh_log_query_new(&mut last));
    assert_eq!(
        imbh_log_query_set_service(q.as_mut(), Some(b"checkout"), &mut last),
        imbh_error::Success
    );

    let mut stream = FFI_ArrowArrayStream::empty();
    let mut stats = scan(0);
    let code = imbh_db_logs_query(
        db.as_ref(),
        q.as_ref(),
        Some(&mut stream),
        Some(&mut stats),
        logs,
        &mut last,
    );
    assert_eq!(code, imbh_error::Success);
    assert_eq!(stats.rows_returned, 2);

    // Drain the stream and confirm both rows crossed.
    let rows: usize = import(stream).map(|b| b.unwrap().num_rows()).sum();
    assert_eq!(rows, 2);

    // A null builder is an invalid argument, with a message.
    let mut s2 = FFI_ArrowArrayStream::empty();
    let code = imbh_db_logs_query(db.as_ref(), None, Some(&mut s2), None, logs, &mut last);
    assert_eq!(code, imbh_error::InvalidArg);
    assert_eq!(imbh_last_error_message(&last), Some("null imbh_log_query"));

    imbh_log_query_free(&mut q, &mut last);
    imbh_db_free(&mut db, close, &mut last);
}

#[test]
fn empty_result_still_has_schema() {
    let mut last = LastError::new();
    let mut db = open_memory(&mut last);
    // No rows ingested: the exported stream must still carry the projected columns.
    let query = "SELECT service, body FROM logs";
    let mut stream = FFI_ArrowArrayStream::empty();
    let code = imbh_db_query_sql(
        db.as_ref(),
        Some(query.as_bytes()),
        Some(&mut stream),
        sql,
        &mut last,
    );
    assert_eq!(code, imbh_error::Success);
    let reader = import(stream);
    assert!(reader.schema().column_with_name("service").is_some());
    assert!(reader.schema().column_with_name("body").is_some());
    imbh_db_free(&mut db, close, &mut last);
}

#[test]
fn bad_sql_reports_query_error() {
    let mut last = LastError::new();
    let mut db = open_memory(&mut last);
    let query = "SELECT * FROM no_such_table";
    let mut stream = FFI_ArrowArrayStream::empty();
    let code = imbh_db_query_sql(
        db.as_ref(),
        Some(query.as_bytes()),
        Some(&mut stream),
        sql,
        &mut last,
    );
    assert_ne!(code, imbh_error::Success);
    // Unknown table is classified as not-found; message must be populated.
    assert!(matches!(code, imbh_error::NotFound | imbh_error::Query | imbh_error::Storage));
    let msg = imbh_last_error_message(&last);
    assert!(msg.is_some());
    assert!(!msg.unwrap().is_empty());
    imbh_db_free(&mut db, close, &mut last);
}

#[test]
fn null_arguments_are_invalid_arg() {
    let mut last = LastError::new();
    // Null handle.
    let mut stream = FFI_ArrowArrayStream::empty();
    let code = imbh_db_query_sql(None, Some(b"SELECT 1"), Some(&mut stream), sql, &mut last);
    assert_eq!(code, imbh_error::InvalidArg);
    assert_eq!(imbh_last_error_message(&last), Some("null imbh_db handle"));

    // Null out pointer for open.
    let code = imbh_db_open_memory(None, || Ok(new_engine(WalMode::Off)), &mut last);
    assert_eq!(code, imbh_error::InvalidArg);
    assert_eq!(imbh_last_error_message(&last), Some("null out pointer"));
}

#[test]
fn success_clears_last_error() {
    let mut last = LastError::new();
    let mut db = open_memory(&mut last);
    // Cause an error first.
    let mut s = FFI_ArrowArrayStream::empty();
    let _ = imbh_db_query_sql(
        db.as_ref(),
        Some(b"SELECT * FROM nope"),
        Some(&mut s),
        sql,
        &mut last,
    );
    assert!(imbh_last_error_message(&last).is_some());
    // A subsequent success clears it.
    let mut s2 = FFI_ArrowArrayStream::empty();
    assert_eq!(
        imbh_db_query_sql(db.as_ref(), Some(b"SELECT 1 AS x"), Some(&mut s2), sql, &mut last),
        imbh_error::Success
    );
    assert!(imbh_last_error_message(&last).is_none());
    imbh_db_free(&mut db, close, &mut last);
}

/// A translator that knows the two forms of LogQL that the tests use.
fn translate_logql(text: &str) -> Result<Translated<String>, String> {
    if text.starts_with('{') {
        Ok(Translated { kind: ModelKind::LogSelector, model: text.to_owned() })
    } else if text.starts_with("count_over_time(") {
        Ok(Translated { kind: ModelKind::Log, model: text.to_owned() })
    } else {
        Err("unexpected token".to_owned())
    }
}

fn logql_lines(
    h: &Handle,
    filter: String,
    start: i64,
    end: i64,
    max: usize,
) -> Result<Vec<Batch>, LinesFailure> {
    if start > end {
        return Err(LinesFailure::Translation("range is out of order".to_owned()));
    }
    let service = filter.trim_matches(|c| c == '{' || c == '}').replace("service=", "");
    let service = service.trim_matches('"');
    let rows: Vec<Row> = h
        .db
        .rows
        .borrow()
        .iter()
        .filter(|r| r.service == service)
        .take(max)
        .cloned()
        .collect();
    Ok(vec![lines_batch(&rows)])
}

fn logql_series(h: &Handle, _expr: String, range: EvalRange) -> Result<Batch, String> {
    let schema = Arc::new(Schema::new(vec![
        Field::new("labels", DataType::Utf8, false),
        Field::new("ts", DataType::Int64, false),
        Field::new("value", DataType::Float64, false),
    ]));
    let count = h.db.rows.borrow().len() as f64;
    let inner = RecordBatch::try_new(
        schema,
        vec![
            Arc::new(StringArray::from(vec!["{}"])) as ArrayRef,
            Arc::new(Int64Array::from(vec![range.end_ns])),
            Arc::new(Float64Array::from(vec![count])),
        ],
    )
    .unwrap();
    Ok(Batch { inner })
}

#[test]
fn logql_lines_roundtrip() {
    // A bare LogQL stream selector returns log lines, streamed as the canonical `logs` projection:
    // `service` is column 2.
    let mut last = LastError::new();
    let mut db = open_memory(&mut last);
    ingest_lines(&db, &[(17, "boom"), (9, "ok")], &mut last);

    let q = r#"{service="checkout"}"#;
    let mut stream = FFI_ArrowArrayStream::empty();
    let code = imbh_db_query_logql(
        db.as_ref(),
        Some(q.as_bytes()),
        0,
        1_000_000,
        1,
        100,
        Some(&mut stream),
        translate_logql,
        logql_lines,
        logql_series,
        &mut last,
    );
    assert_eq!(code, imbh_error::Success);
    // Both lines cross the boundary, tagged with their service.
    let services = drain_string_column(stream, 2);
    assert_eq!(services.len(), 2);
    assert!(services.iter().all(|s| s.as_deref() == Some("checkout")));

    imbh_db_free(&mut db, close, &mut last);
}

#[test]
fn logql_series_roundtrip() {
    // A LogQL range aggregation returns a metric series: the long-form `labels | ts | value` batch.
    let mut last = LastError::new();
    let mut db = open_memory(&mut last);
    ingest_lines(&db, &[(17, "boom"), (9, "ok")], &mut last);

    let q = r#"count_over_time({service="checkout"}[1h])"#;
    let mut stream = FFI_ArrowArrayStream::empty();
    let hour = 3_600_000_000_000i64;
    let code = imbh_db_query_logql(
        db.as_ref(),
        Some(q.as_bytes()),
        0,
        hour,
        hour,
        0,
        Some(&mut stream),
        translate_logql,
        logql_lines,
        logql_series,
        &mut last,
    );
    assert_eq!(code, imbh_error::Success);
    let reader = import(stream);
    let schema = reader.schema();
    for col in ["labels", "ts", "value"] {
        assert!(
            schema.column_with_name(col).is_some(),
            "series batch missing `{col}` column"
        );
    }
    for batch in reader {
        batch.expect("batch");
    }
    imbh_db_free(&mut db, close, &mut last);
}

#[test]
fn lgtm_bad_query_reports_query_error() {
    let mut last = LastError::new();
    let mut db = open_memory(&mut last);

    // Malformed LogQL is a translation failure, reported as a query error (not as an invalid
    // argument, which is for null or garbage pointers).
    let mut s = FFI_ArrowArrayStream::empty();
    let code = imbh_db_query_logql(
        db.as_ref(),
        Some(b"this is not )(valid logql"),
        0,
        1,
        1,
        0,
        Some(&mut s),
        translate_logql,
        logql_lines,
        logql_series,
        &mut last,
    );
    assert_eq!(code, imbh_error::Query);
    assert!(imbh_last_error_message(&last).is_some());

    // PromQL over a metric that is not resolved (empty catalog) also fails to translate.
    let mut s2 = FFI_ArrowArrayStream::empty();
    let code = imbh_db_query_promql(
        db.as_ref(),
        Some(b"cpu_seconds"),
        0,
        1,
        1,
        Some(&mut s2),
        |_h: &Handle| Ok(Vec::new()),
        |name: &str, ctx: &TranslateContext| {
            if ctx.metrics.iter().any(|m| m.query_name == name) {
                Ok(Translated { kind: ModelKind::Prom, model: name.to_owned() })
            } else {
                Err(format!("unresolved metric {name}"))
            }
        },
        |h: &Handle, expr: String, range: EvalRange| logql_series(h, expr, range),
        &mut last,
    );
    assert_eq!(code, imbh_error::Query);

    imbh_db_free(&mut db, close, &mut last);
}

#[test]
fn get_trace_rejects_bad_id() {
    let mut last = LastError::new();
    let mut db = open_memory(&mut last);
    // A trace id that is not 32 hex chars is a caller error, with a message.
    let mut stream = FFI_ArrowArrayStream::empty();
    let code = imbh_db_get_trace(
        db.as_ref(),
        Some(b"not-a-hex-id"),
        Some(&mut stream),
        |_h: &Handle, _id| Ok(Vec::new()),
        &mut last,
    );
    assert_eq!(code, imbh_error::InvalidArg);
    assert_eq!(
        imbh_last_error_message(&last),
        Some("invalid trace id \"not-a-hex-id\" (want 32 hex chars)")
    );

    // A well-formed but absent id is not an error: it yields an empty stream.
    let mut s2 = FFI_ArrowArrayStream::empty();
    let code = imbh_db_get_trace(
        db.as_ref(),
        Some(b"00000000000000000000000000000000"),
        Some(&mut s2),
        |_h: &Handle, _id| Ok(Vec::new()),
        &mut last,
    );
    assert_eq!(code, imbh_error::Success);
    let rows: usize = import(s2).map(|b| b.unwrap().num_rows()).sum();
    assert_eq!(rows, 0);

    imbh_db_free(&mut db, close, &mut last);
}

#[test]
fn discovery_surfaces_roundtrip() {
    let mut last = LastError::new();
    let mut db = open_memory(&mut last);
    ingest_lines(&db, &[(17, "boom"), (9, "ok")], &mut last);

    // Attribute names: `service.name` was set on the resource, so it must appear.
    let mut stream = FFI_ArrowArrayStream::empty();
    assert_eq!(
        imbh_db_attr_names(
            db.as_ref(),
            Some(&mut stream),
            |h: &Handle| {
                let any = !h.db.rows.borrow().is_empty();
                Ok(if any { vec!["service.name".to_owned()] } else { Vec::new() })
            },
            &mut last
        ),
        imbh_error::Success
    );
    let names = drain_string_column(stream, 0);
    assert!(
        names.iter().any(|n| n.as_deref() == Some("service.name")),
        "attr names missing service.name: {names:?}"
    );

    // Values for `service.name`: should include "checkout".
    let mut s2 = FFI_ArrowArrayStream::empty();
    assert_eq!(
        imbh_db_attr_values(
            db.as_ref(),
            Some(b"service.name"),
            Some(&mut s2),
            |h: &Handle, key: &str| {
                assert_eq!(key, "service.name");
                Ok(h.db.rows.borrow().iter().map(|r| r.service.clone()).collect())
            },
            &mut last
        ),
        imbh_error::Success
    );
    let values = drain_string_column(s2, 0);
    assert!(
        values.iter().any(|v| v.as_deref() == Some("checkout")),
        "attr values missing checkout: {values:?}"
    );

    // The metric catalog is empty here but must still carry its 4 columns.
    let mut s3 = FFI_ArrowArrayStream::empty();
    assert_eq!(
        imbh_db_metric_catalog(db.as_ref(), Some(&mut s3), |_h: &Handle| Ok(Vec::new()), &mut last),
        imbh_error::Success
    );
    let reader = import(s3);
    for col in ["metric", "unit", "temporality", "kind"] {
        assert!(
            reader.schema().column_with_name(col).is_some(),
            "catalog missing `{col}`"
        );
    }
    for batch in reader {
        batch.expect("batch");
    }

    imbh_db_free(&mut db, close, &mut last);
}

#[test]
fn logs_volume_roundtrip() {
    // Log volume counts lines per (step-bucket, label set). With no group-by the label column is
    // the ungrouped total `{}`; the count reflects the ingested lines.
    let mut last = LastError::new();
    let mut db = open_memory(&mut last);
    ingest_lines(&db, &[(17, "boom"), (9, "ok")], &mut last);

    let mut q = Some(imbh_log_query_new(&mut last));
    let hour = 3_600_000_000_000u64;
    let mut stream = FFI_ArrowArrayStream::empty();
    let code = imbh_db_logs_volume(
        db.as_ref(),
        q.as_ref(),
        hour,
        None,
        0,
        Some(&mut stream),
        |q: &imbh_log_query| Ok(q.limit),
        |h: &Handle, _limit: u64, step: u64, keys: &Vec<String>| {
            assert_eq!(step, 3_600_000_000_000);
            assert!(keys.is_empty());
            let count = h.db.rows.borrow().len() as u64;
            Ok(vec![VolumeBucket { time: 0, labels: Vec::new(), count }])
        },
        &encode,
        &mut last,
    );
    assert_eq!(code, imbh_error::Success);
    let reader = import(stream);
    for col in ["bucket_time", "labels", "count"] {
        assert!(
            reader.schema().column_with_name(col).is_some(),
            "volume batch missing `{col}`"
        );
    }
    let batches: Vec<RecordBatch> = reader.map(|b| b.unwrap()).collect();
    let total: usize = batches.iter().map(|b| b.num_rows()).sum();
    assert!(total >= 1, "expected at least one volume bucket");
    let labels = batches[0].column(1).as_any().downcast_ref::<StringArray>().unwrap();
    assert_eq!(labels.value(0), "{}");
    let counts = batches[0].column(2).as_any().downcast_ref::<Int64Array>().unwrap();
    assert_eq!(counts.value(0), 2);

    imbh_log_query_free(&mut q, &mut last);
    imbh_db_free(&mut db, close, &mut last);
}

#[test]
fn metric_series_empty_still_typed() {
    // No metrics ingested: the series lookup returns an empty-but-typed `labels` batch.
    let mut last = LastError::new();
    let mut db = open_memory(&mut last);
    let mut stream = FFI_ArrowArrayStream::empty();
    assert_eq!(
        imbh_db_metric_series(
            db.as_ref(),
            Some(b"http.requests"),
            Some(&mut stream),
            |_h: &Handle, _metric: &str| Ok(Vec::new()),
            &encode,
            &mut last
        ),
        imbh_error::Success
    );
    let reader = import(stream);
    assert!(reader.schema().column_with_name("labels").is_some());
    let total: usize = reader.map(|b| b.unwrap().num_rows()).sum();
    assert_eq!(total, 0);
    imbh_db_free(&mut db, close, &mut last);
}

#[test]
fn paged_logs_roundtrip() {
    // Page a 3-row result at limit=2: first page returns 2 rows with `has_more`; the second returns
    // the trailing row and stops.
    let mut last = LastError::new();
    let mut db = open_memory(&mut last);
    ingest_lines(&db, &[(9, "a"), (9, "b"), (9, "c")], &mut last);

    let mut q = Some(imbh_log_query_new(&mut last));
    assert_eq!(imbh_log_query_set_limit(q.as_mut(), 2, &mut last), imbh_error::Success);

    // Page 1.
    let mut s1 = FFI_ArrowArrayStream::empty();
    let mut stats = scan(0);
    let mut next: u64 = 0;
    let mut more = false;
    let code = imbh_db_logs_page(
        db.as_ref(),
        q.as_ref(),
        0,
        Some(&mut s1),
        Some(&mut stats),
        Some(&mut next),
        Some(&mut more),
        logs,
        &mut last,
    );
    assert_eq!(code, imbh_error::Success);
    assert_eq!(stats.rows_returned, 2);
    assert!(more, "a full page should report has_more");
    assert_eq!(next, 2);
    let rows1: usize = import(s1).map(|b| b.unwrap().num_rows()).sum();
    assert_eq!(rows1, 2);

    // Page 2: resume from `next`.
    let mut s2 = FFI_ArrowArrayStream::empty();
    let mut more2 = true;
    let mut next2: u64 = 0;
    let code = imbh_db_logs_page(
        db.as_ref(),
        q.as_ref(),
        next,
        Some(&mut s2),
        None,
        Some(&mut next2),
        Some(&mut more2),
        logs,
        &mut last,
    );
    assert_eq!(code, imbh_error::Success);
    let rows2: usize = import(s2).map(|b| b.unwrap().num_rows()).sum();
    assert_eq!(rows2, 1);
    assert_eq!(next2, 3);
    assert!(!more2, "the trailing partial page should stop paging");

    imbh_log_query_free(&mut q, &mut last);
    imbh_db_free(&mut db, close, &mut last);
}

#[test]
fn logs_count_ignores_limit() {
    // `count` reflects the filter total, independent of the builder's `limit`.
    let mut last = LastError::new();
    let mut db = open_memory(&mut last);
    ingest_lines(&db, &[(9, "a"), (9, "b"), (9, "c")], &mut last);

    let mut q = Some(imbh_log_query_new(&mut last));
    assert_eq!(imbh_log_query_set_limit(q.as_mut(), 1, &mut last), imbh_error::Success);
    let mut count: u64 = 0;
    assert_eq!(
        imbh_db_logs_count(
            db.as_ref(),
            q.as_ref(),
            Some(&mut count),
            |h: &Handle, q: &imbh_log_query| Ok(matching(h, q).len() as u64),
            &mut last
        ),
        imbh_error::Success
    );
    assert_eq!(count, 3, "count is the filter total, not the page limit");

    imbh_log_query_free(&mut q, &mut last);
    imbh_db_free(&mut db, close, &mut last);
}

#[test]
fn trace_search_empty_still_typed() {
    // No traces ingested: search returns the empty-but-typed summary batch.
    let mut last = LastError::new();
    let mut db = open_memory(&mut last);
    let mut tq = Some(imbh_trace_query_new(&mut last));
    assert_eq!(
        imbh_trace_query_set_service(tq.as_mut(), Some(b"checkout"), &mut last),
        imbh_error::Success
    );
    let mut stream = FFI_ArrowArrayStream::empty();
    assert_eq!(
        imbh_db_traces_search(
            db.as_ref(),
            tq.as_ref(),
            Some(&mut stream),
            |_h: &Handle, q| {
                assert_eq!(q.service.as_deref(), Some("checkout"));
                Ok(Vec::<TraceSummary>::new())
            },
            &mut last
        ),
        imbh_error::Success
    );
    let reader = import(stream);
    for col in ["trace_id", "root_service", "span_count", "error"] {
        assert!(
            reader.schema().column_with_name(col).is_some(),
            "trace-search batch missing `{col}`"
        );
    }
    let total: usize = reader.map(|b| b.unwrap().num_rows()).sum();
    assert_eq!(total, 0);
    imbh_trace_query_free(&mut tq, &mut last);
    imbh_db_free(&mut db, close, &mut last);
}

#[test]
fn metric_points_empty_ok() {
    // A gauge points query over a metric with no data succeeds with an empty result.
    let mut last = LastError::new();
    let mut db = open_memory(&mut last);
    let mut mq = Some(imbh_metric_points_query_new(imbh_metric_point_kind::Gauge, &mut last));
    assert_eq!(
        imbh_metric_points_query_set_metric(mq.as_mut(), Some(b"cpu.usage"), &mut last),
        imbh_error::Success
    );
    let mut stream = FFI_ArrowArrayStream::empty();
    assert_eq!(
        imbh_db_metrics_points(
            db.as_ref(),
            mq.as_ref(),
            Some(&mut stream),
            |_h: &Handle, q: MetricPointsQuery| {
                assert_eq!(q.kind, imbh_metric_point_kind::Gauge);
                assert_eq!(q.metric, "cpu.usage");
                assert!(q.limit.is_none());
                Ok(Vec::new())
            },
            &mut last
        ),
        imbh_error::Success
    );
    let total: usize = import(stream).map(|b| b.unwrap().num_rows()).sum();
    assert_eq!(total, 0);
    imbh_metric_points_query_free(&mut mq, &mut last);
    imbh_db_free(&mut db, close, &mut last);
}

/// Decode Arrow-IPC stream bytes into (row count, column names).
fn ipc_rows_and_cols(buf: &imbh_bytes) -> (usize, Vec<String>) {
    let reader =
        StreamReader::try_new(std::io::Cursor::new(&buf.data[..buf.len]), None).expect("ipc");
    let cols: Vec<String> = reader.schema().fields().iter().map(|f| f.name().clone()).collect();
    let rows: usize = reader.map(|b| b.unwrap().num_rows()).sum();
    (rows, cols)
}

#[test]
fn sql_ipc_fallback_roundtrip() {
    // The Arrow-IPC fallback: run SQL, get self-describing IPC bytes, decode them.
    let mut last = LastError::new();
    let mut db = open_memory(&mut last);
    ingest_lines(&db, &[(17, "boom"), (9, "ok")], &mut last);

    let mut buf = imbh_bytes { data: Vec::new(), len: 0 };
    assert_eq!(
        imbh_db_query_sql_ipc(
            db.as_ref(),
            Some(b"SELECT service, body FROM logs"),
            Some(&mut buf),
            sql,
            &mut last
        ),
        imbh_error::Success
    );
    assert!(buf.len > 0, "IPC bytes should be non-empty");
    let (rows, cols) = ipc_rows_and_cols(&buf);
    assert_eq!(rows, 2);
    assert!(cols.iter().any(|c| c == "service"));
    assert!(cols.iter().any(|c| c == "body"));
    imbh_bytes_free(&mut buf, &mut last);
    assert_eq!(buf.len, 0);
    // Freeing it again is a no-op.
    imbh_bytes_free(&mut buf, &mut last);
    assert_eq!(buf.len, 0);

    imbh_db_free(&mut db, close, &mut last);
}

/// The rows of a table as Arrow-IPC bytes.
fn export_ipc(h: &Handle) -> Vec<u8> {
    let batch = lines_batch(&h.db.rows.borrow());
    let mut writer = StreamWriter::try_new(Vec::new(), &lines_schema()).unwrap();
    writer.write(&batch.inner).unwrap();
    writer.into_inner().unwrap()
}

#[test]
fn ops_lifecycle_on_disk() {
    // A durable database exercises export / snapshot / segments / durable_through / read-only.
    let mut last = LastError::new();
    let disk: RefCell<Option<Rc<Engine>>> = RefCell::new(None);
    let path = b"/data/db";

    // Open with WAL "always" so ingests are durable, and exercise a couple of extended options
    // (memory budget, a promoted attribute key).
    let promote: [Option<&[u8]>; 1] = [Some(b"service.name")];
    let opts = imbh_open_options {
        wal_mode: imbh_wal_mode::Always,
        wal_interval_ms: 0,
        compression: imbh_compression::Uncompressed,
        zstd_level: 0,
        read_only: false,
        allow_stale_reads: false,
        memory_budget_bytes: 64 * 1024 * 1024,
        retention_days: 0,
        max_disk_bytes: 0,
        refresh: imbh_refresh_mode::Default,
        refresh_ttl_ms: 0,
        maintenance_background_ms: 0,
        promote_keys: Some(&promote),
        promote_keys_len: promote.len(),
    };
    let mut db: Option<Handle> = None;
    assert_eq!(
        imbh_db_open(
            Some(path),
            Some(&opts),
            Some(&mut db),
            |path: &str, request: OpenRequest| {
                assert_eq!(path, "/data/db");
                let plan = match request {
                    OpenRequest::Planned(plan) => plan,
                    _ => panic!("expected a plan"),
                };
                assert_eq!(plan.memory_budget, Some(64 * 1024 * 1024));
                assert_eq!(plan.promote, vec!["service.name".to_owned()]);
                let engine = new_engine(plan.wal);
                *disk.borrow_mut() = Some(engine.clone());
                Ok(engine)
            },
            &mut last
        ),
        imbh_error::Success
    );
    ingest_lines(&db, &[(17, "boom"), (9, "ok")], &mut last);

    // Durability watermark advances under WAL=always.
    let mut lsn: u64 = 0;
    assert_eq!(
        imbh_db_durable_through(
            db.as_ref(),
            Some(&mut lsn),
            |h: &Handle| if h.db.wal == WalMode::Always { Some(h.db.lsn.get()) } else { None },
            &mut last
        ),
        imbh_error::Success
    );
    assert!(lsn >= 1, "durable_through should be a real LSN, got {lsn}");

    // Seal the buffer so the rows become segments on disk.
    let seal = |h: &Handle| {
        h.db.sealed.set(h.db.rows.borrow().len());
        Ok(())
    };
    assert_eq!(imbh_db_flush(db.as_ref(), seal, &mut last), imbh_error::Success);

    // Export the logs table as Arrow-IPC bytes (whole range) and decode.
    let mut buf = imbh_bytes { data: Vec::new(), len: 0 };
    assert_eq!(
        imbh_db_export(
            db.as_ref(),
            imbh_table::Logs,
            0,
            0,
            Some(&mut buf),
            |h: &Handle, table, range| {
                assert_eq!(table, Table::Logs);
                assert_eq!(range, ExportRange::All);
                Ok(export_ipc(h))
            },
            &mut last
        ),
        imbh_error::Success
    );
    let (rows, _cols) = ipc_rows_and_cols(&buf);
    assert_eq!(rows, 2, "exported segment should carry both rows");
    imbh_bytes_free(&mut buf, &mut last);

    // Segments listing has at least one sealed segment.
    let mut seg_stream = FFI_ArrowArrayStream::empty();
    assert_eq!(
        imbh_db_segments(
            db.as_ref(),
            Some(&mut seg_stream),
            |h: &Handle| {
                vec![SegmentRef {
                    relative_path: "logs/0.parquet".to_owned(),
                    min_time_unix_nano: 1_000,
                    max_time_unix_nano: 1_000,
                    rows: h.db.sealed.get() as u64,
                }]
            },
            &mut last
        ),
        imbh_error::Success
    );
    let seg_reader = import(seg_stream);
    assert!(seg_reader.schema().column_with_name("relative_path").is_some());
    let seg_rows: usize = seg_reader.map(|b| b.unwrap().num_rows()).sum();
    assert!(seg_rows >= 1, "expected at least one sealed segment");

    // Segment files for the logs table.
    let mut files_stream = FFI_ArrowArrayStream::empty();
    assert_eq!(
        imbh_db_segment_files(
            db.as_ref(),
            imbh_table::Logs,
            Some(&mut files_stream),
            |_h: &Handle, table| {
                assert_eq!(table, Table::Logs);
                vec!["/data/db/logs/0.parquet".to_owned()]
            },
            &mut last
        ),
        imbh_error::Success
    );
    let paths = drain_string_column(files_stream, 0);
    assert!(paths.iter().any(|p| p.is_some()), "expected a segment file path");

    // Snapshot the sealed segments into a fresh dir.
    let mut info = imbh_snapshot_info { segments: 0 };
    assert_eq!(
        imbh_db_snapshot(
            db.as_ref(),
            Some(b"/data/snap"),
            Some(&mut info),
            |_h: &Handle, dir: &str| {
                assert_eq!(dir, "/data/snap");
                Ok(imbh_snapshot_info { segments: 1 })
            },
            &mut last
        ),
        imbh_error::Success
    );
    assert!(info.segments >= 1, "snapshot should link at least one segment");

    imbh_db_free(&mut db, close, &mut last);

    // Reopen read-only and query the persisted rows.
    let mut ro: Option<Handle> = None;
    assert_eq!(
        imbh_db_open_read_only(
            Some(path),
            Some(&mut ro),
            |_path: &str, request: OpenRequest| {
                assert!(matches!(request, OpenRequest::ReadOnly));
                Ok(disk.borrow().clone().unwrap())
            },
            &mut last
        ),
        imbh_error::Success
    );
    let mut stream = FFI_ArrowArrayStream::empty();
    assert_eq!(
        imbh_db_query_sql(
            ro.as_ref(),
            Some(b"SELECT service FROM logs"),
            Some(&mut stream),
            sql,
            &mut last
        ),
        imbh_error::Success
    );
    let services = drain_string_column(stream, 0);
    assert_eq!(services.len(), 2);
    imbh_db_free(&mut ro, close, &mut last);
}
