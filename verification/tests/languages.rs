//! The query languages, over scripted translators and replies.

use arrow::ffi_stream::{ArrowArrayStreamReader, FFI_ArrowArrayStream};

use imbh_c::batches::{utf8_batch, MetricMeta};
use imbh_c::columnar::Batch;
use imbh_c::error::{EngineError, ErrorCategory, LastError};
use imbh_c::ids::TraceId;
use imbh_c::languages::{
    promql_context, EvalRange, LinesFailure, MetricKind, ModelKind, TranslateContext, Translated,
};
use imbh_c::{
    imbh_db, imbh_db_get_trace, imbh_db_open_memory, imbh_db_query_logql, imbh_db_query_promql,
    imbh_db_query_traceql, imbh_error, imbh_last_error_message,
};

type Handle = imbh_db<u32>;

fn open(last: &mut LastError) -> Handle {
    let mut db: Option<Handle> = None;
    assert_eq!(imbh_db_open_memory(Some(&mut db), || Ok(1), last), imbh_error::Success);
    db.unwrap()
}

fn batch() -> Batch {
    match utf8_batch("labels", vec!["{}".to_string()]) {
        Ok(b) => b,
        Err(_) => panic!("a batch"),
    }
}

fn rows(stream: FFI_ArrowArrayStream) -> usize {
    ArrowArrayStreamReader::try_new(stream).unwrap().map(|b| b.unwrap().num_rows()).sum()
}

fn meta(metric: &str, kind: &str) -> MetricMeta {
    MetricMeta {
        metric: metric.to_string(),
        unit: String::new(),
        temporality: None,
        kind: kind.to_string(),
    }
}

fn engine_down() -> EngineError {
    EngineError {
        category: ErrorCategory::Closed,
        backpressure: false,
        not_found: false,
        message: "closed".to_string(),
    }
}

#[test]
fn stored_metrics_are_resolved_by_their_prometheus_name() {
    let ctx = promql_context(vec![
        meta("http.requests.total", "sum"),
        meta("latency", "histogram"),
        meta("cpu.usage", "gauge"),
        meta("odd", "Sum"),
    ]);
    let seen: Vec<(&str, &str, MetricKind)> = ctx
        .metrics
        .iter()
        .map(|m| (m.query_name.as_str(), m.storage_name.as_str(), m.kind))
        .collect();
    assert_eq!(
        seen,
        vec![
            ("http_requests_total", "http.requests.total", MetricKind::CumulativeCounter),
            ("latency", "latency", MetricKind::CumulativeHistogram),
            ("cpu_usage", "cpu.usage", MetricKind::Gauge),
            ("odd", "odd", MetricKind::Gauge),
        ]
    );
}

fn promql(
    query: &str,
    step: i64,
    kind: ModelKind,
    execute: fn(&Handle, u8, EvalRange) -> Result<Batch, String>,
    last: &mut LastError,
) -> (imbh_error, FFI_ArrowArrayStream) {
    let db = open(last);
    let mut out = FFI_ArrowArrayStream::empty();
    let code = imbh_db_query_promql(
        Some(&db),
        Some(query.as_bytes()),
        -5,
        100,
        step,
        Some(&mut out),
        |_h: &Handle| Ok(vec![meta("http.requests", "sum")]),
        |text: &str, ctx: &TranslateContext| {
            if ctx.metrics.iter().any(|m| m.query_name == text) {
                Ok(Translated { kind, model: 7u8 })
            } else {
                Err(format!("unresolved metric `{text}`"))
            }
        },
        execute,
        last,
    );
    (code, out)
}

#[test]
fn promql_is_translated_and_evaluated() {
    let mut last = LastError::new();
    let (code, out) = promql(
        "http_requests",
        -3,
        ModelKind::Prom,
        |_h, model, range| {
            assert_eq!(model, 7);
            let expected = EvalRange {
                start_ns: -5,
                end_ns: 100,
                step_ns: 1,
                lookback_ns: 300_000_000_000,
            };
            assert_eq!(range, expected);
            Ok(batch())
        },
        &mut last,
    );
    assert_eq!(code, imbh_error::Success);
    assert_eq!(rows(out), 1);
    let (code, _) = promql(
        "http_requests",
        15,
        ModelKind::Prom,
        |_h, _m, range| {
            assert_eq!(range.step_ns, 15);
            Ok(batch())
        },
        &mut last,
    );
    assert_eq!(code, imbh_error::Success);
}

#[test]
fn promql_failures_are_query_errors() {
    let mut last = LastError::new();
    let (code, out) =
        promql("http.requests", 1, ModelKind::Prom, |_h, _m, _r| Ok(batch()), &mut last);
    assert_eq!(code, imbh_error::Query);
    assert_eq!(
        imbh_last_error_message(&last),
        Some("promql: unresolved metric `http.requests`")
    );
    assert!(out.release.is_none());
    let (code, _) =
        promql("http_requests", 1, ModelKind::Trace, |_h, _m, _r| Ok(batch()), &mut last);
    assert_eq!(code, imbh_error::Query);
    assert_eq!(imbh_last_error_message(&last), Some("promql: not a metric expression"));
    let (code, _) = promql(
        "http_requests",
        1,
        ModelKind::Prom,
        |_h, _m, _r| Err("too many samples".to_string()),
        &mut last,
    );
    assert_eq!(code, imbh_error::Query);
    assert_eq!(imbh_last_error_message(&last), Some("promql: too many samples"));
}

#[test]
fn a_catalog_that_cannot_be_read_is_the_engines_failure() {
    let mut last = LastError::new();
    let db = open(&mut last);
    let mut out = FFI_ArrowArrayStream::empty();
    let code = imbh_db_query_promql(
        Some(&db),
        Some(b"x"),
        0,
        1,
        1,
        Some(&mut out),
        |_h: &Handle| Err(engine_down()),
        |_t: &str, _c: &TranslateContext| -> Result<Translated<u8>, String> {
            panic!("not translated")
        },
        |_h: &Handle, _m: u8, _r: EvalRange| Ok(batch()),
        &mut last,
    );
    assert_eq!(code, imbh_error::Closed);
    assert_eq!(imbh_last_error_message(&last), Some("closed"));
}

fn logql(
    kind: ModelKind,
    step: i64,
    limit: i64,
    lines: fn(&Handle, u8, i64, i64, usize) -> Result<Vec<Batch>, LinesFailure>,
    series: fn(&Handle, u8, EvalRange) -> Result<Batch, String>,
    last: &mut LastError,
) -> (imbh_error, FFI_ArrowArrayStream) {
    let db = open(last);
    let mut out = FFI_ArrowArrayStream::empty();
    let code = imbh_db_query_logql(
        Some(&db),
        Some(b"{}"),
        10,
        20,
        step,
        limit,
        Some(&mut out),
        |_t: &str| Ok(Translated { kind, model: 1u8 }),
        lines,
        series,
        last,
    );
    (code, out)
}

#[test]
fn bare_selectors_ask_for_their_cap_alone() {
    let mut last = LastError::new();
    for (step, limit) in [(0, 0), (60, 0), (-5, -1), (7, i64::MIN), (1, 1000)] {
        let (code, out) = logql(
            ModelKind::LogSelector,
            step,
            limit,
            |_h, model, start, end, max| {
                assert_eq!((model, start, end, max), (1, 10, 20, 1000));
                Ok(vec![batch()])
            },
            |_h, _m, _r| panic!("not a series"),
            &mut last,
        );
        assert_eq!(code, imbh_error::Success);
        assert_eq!(rows(out), 1);
    }
}

#[test]
fn bare_selectors_yield_lines_up_to_the_limit() {
    let mut last = LastError::new();
    let series = |_h: &Handle, _m: u8, _r: EvalRange| -> Result<Batch, String> {
        panic!("not a series")
    };
    let (code, out) = logql(
        ModelKind::LogSelector,
        0,
        -1,
        |_h, model, start, end, max| {
            assert_eq!((model, start, end, max), (1, 10, 20, 1000));
            Ok(vec![batch(), batch()])
        },
        series,
        &mut last,
    );
    assert_eq!(code, imbh_error::Success);
    assert_eq!(rows(out), 2);
    let (code, _) = logql(
        ModelKind::LogSelector,
        0,
        7,
        |_h, _m, _s, _e, max| {
            assert_eq!(max, 7);
            Ok(Vec::new())
        },
        series,
        &mut last,
    );
    assert_eq!(code, imbh_error::Success);
    let (code, _) = logql(
        ModelKind::LogSelector,
        0,
        0,
        |_h, _m, _s, _e, _x| Err(LinesFailure::Translation("range is out of order".to_string())),
        series,
        &mut last,
    );
    assert_eq!(code, imbh_error::Query);
    assert_eq!(imbh_last_error_message(&last), Some("logql: range is out of order"));
    let (code, _) = logql(
        ModelKind::LogSelector,
        0,
        0,
        |_h, _m, _s, _e, _x| Err(LinesFailure::Engine(engine_down())),
        series,
        &mut last,
    );
    assert_eq!(code, imbh_error::Closed);
    assert_eq!(imbh_last_error_message(&last), Some("closed"));
}

#[test]
fn range_aggregations_yield_a_series() {
    let mut last = LastError::new();
    let lines = |_h: &Handle, _m: u8, _s: i64, _e: i64, _x: usize| {
        Err(LinesFailure::Translation("not lines".to_string()))
    };
    let (code, out) = logql(
        ModelKind::Log,
        0,
        5,
        lines,
        |_h, _m, range| {
            let expected = EvalRange { start_ns: 10, end_ns: 20, step_ns: 1, lookback_ns: 0 };
            assert_eq!(range, expected);
            Ok(batch())
        },
        &mut last,
    );
    assert_eq!(code, imbh_error::Success);
    assert_eq!(rows(out), 1);
    let (code, _) =
        logql(ModelKind::Log, 1, 5, lines, |_h, _m, _r| Err("limit".to_string()), &mut last);
    assert_eq!(code, imbh_error::Query);
    assert_eq!(imbh_last_error_message(&last), Some("logql: limit"));
    for kind in [ModelKind::Prom, ModelKind::Trace, ModelKind::Other] {
        let (code, _) = logql(kind, 1, 5, lines, |_h, _m, _r| Ok(batch()), &mut last);
        assert_eq!(code, imbh_error::Query);
        assert_eq!(
            imbh_last_error_message(&last),
            Some("logql: translator returned a non-log model")
        );
    }
}

fn traceql(
    kind: ModelKind,
    execute: fn(&Handle, u8, i64, i64) -> Result<Batch, String>,
    last: &mut LastError,
) -> (imbh_error, FFI_ArrowArrayStream) {
    let db = open(last);
    let mut out = FFI_ArrowArrayStream::empty();
    let code = imbh_db_query_traceql(
        Some(&db),
        Some(b"{ .a = 1 }"),
        3,
        4,
        Some(&mut out),
        |text: &str| {
            assert_eq!(text, "{ .a = 1 }");
            Ok(Translated { kind, model: 2u8 })
        },
        execute,
        last,
    );
    (code, out)
}

#[test]
fn traceql_evaluates_spanset_expressions_only() {
    let mut last = LastError::new();
    let (code, out) = traceql(
        ModelKind::Trace,
        |_h, model, start, end| {
            assert_eq!((model, start, end), (2, 3, 4));
            Ok(batch())
        },
        &mut last,
    );
    assert_eq!(code, imbh_error::Success);
    assert_eq!(rows(out), 1);
    let (code, _) = traceql(ModelKind::Log, |_h, _m, _s, _e| Ok(batch()), &mut last);
    assert_eq!(code, imbh_error::Query);
    assert_eq!(imbh_last_error_message(&last), Some("traceql: not a spanset expression"));
    let (code, _) =
        traceql(ModelKind::Trace, |_h, _m, _s, _e| Err("bounds".to_string()), &mut last);
    assert_eq!(code, imbh_error::Query);
    assert_eq!(imbh_last_error_message(&last), Some("traceql: bounds"));

    let db = open(&mut last);
    let mut out = FFI_ArrowArrayStream::empty();
    let code = imbh_db_query_traceql(
        Some(&db),
        Some(b"("),
        3,
        4,
        Some(&mut out),
        |_t: &str| -> Result<Translated<u8>, String> { Err("unbalanced".to_string()) },
        |_h: &Handle, _m: u8, _s: i64, _e: i64| Ok(batch()),
        &mut last,
    );
    assert_eq!(code, imbh_error::Query);
    assert_eq!(imbh_last_error_message(&last), Some("traceql: unbalanced"));
}

#[test]
fn traces_are_fetched_by_their_id() {
    let mut last = LastError::new();
    let db = open(&mut last);
    let mut out = FFI_ArrowArrayStream::empty();
    let code = imbh_db_get_trace(
        Some(&db),
        Some(b"000102030405060708090a0B0C0D0e0f"),
        Some(&mut out),
        |_h: &Handle, id: TraceId| {
            let expected: Vec<u8> = (0..16).collect();
            assert_eq!(id.bytes.to_vec(), expected);
            Ok(vec![batch()])
        },
        &mut last,
    );
    assert_eq!(code, imbh_error::Success);
    assert_eq!(rows(out), 1);

    // The id is shown quoted and escaped.
    let mut out = FFI_ArrowArrayStream::empty();
    let code = imbh_db_get_trace(
        Some(&db),
        Some(b"a\"b\n"),
        Some(&mut out),
        |_h: &Handle, _id: TraceId| Ok(vec![batch()]),
        &mut last,
    );
    assert_eq!(code, imbh_error::InvalidArg);
    assert_eq!(
        imbh_last_error_message(&last),
        Some("invalid trace id \"a\\\"b\\n\" (want 32 hex chars)")
    );
    assert!(out.release.is_none());
}
