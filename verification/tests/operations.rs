//! Lifecycle, ingest and operations, over scripted replies.

use imbh_c::db::{new_runtime, OpenRequest, place_handle, runtime_or_failure};
use imbh_c::error::{ErrorCategory, LastError, CallError, EngineError};
use imbh_c::filters::TimeRange;
use imbh_c::ops::ExportRange;
use imbh_c::stats::{DbStats, IngestReceipt, TableStats};
use imbh_c::table::Table;
use imbh_c::{
    imbh_bytes, imbh_compaction_report, imbh_db, imbh_db_close, imbh_db_compact,
    imbh_db_durable_through, imbh_db_export, imbh_db_flush, imbh_db_free, imbh_db_ingest_logs,
    imbh_db_ingest_metrics, imbh_db_ingest_traces, imbh_db_maintain, imbh_db_open,
    imbh_db_open_memory, imbh_db_open_read_only, imbh_db_snapshot, imbh_db_stats,
    imbh_db_table_stats, imbh_error, imbh_ingest_receipt, imbh_last_error_message,
    imbh_maintenance_report, imbh_snapshot_info, imbh_stats, imbh_table, imbh_table_stats,
};

type Handle = imbh_db<u32>;

fn failure(category: ErrorCategory) -> EngineError {
    EngineError { category, backpressure: false, not_found: false, message: "no".to_owned() }
}

fn open(last: &mut LastError) -> Option<Handle> {
    let mut db: Option<Handle> = None;
    assert_eq!(imbh_db_open_memory(Some(&mut db), || Ok(1), last), imbh_error::Success);
    db
}

fn empty_stats() -> imbh_stats {
    imbh_stats {
        buffer_bytes: 9,
        wal_bytes: 9,
        durable_lsn: 9,
        ingest_queue_depth: 9,
        ingest_dropped: 9,
        ingest_errors: 9,
        total_segment_count: 9,
        total_segment_rows: 9,
        total_buffer_rows: 9,
    }
}

fn table(table: Table, rows: u64) -> TableStats {
    TableStats {
        table,
        segment_count: 1,
        segment_rows: rows,
        buffer_rows: 2 * rows,
        min_time_unix_nano: None,
        max_time_unix_nano: None,
    }
}

fn db_stats(tables: Vec<TableStats>) -> DbStats {
    DbStats {
        tables,
        buffer_bytes: 10,
        wal_bytes: 20,
        durable_lsn: Some(30),
        ingest_queue_depth: 40,
        ingest_dropped: 50,
        ingest_errors: 60,
    }
}

#[test]
fn open_reports_the_engine_and_leaves_the_slot() {
    let mut last = LastError::new();
    let mut db: Option<Handle> = None;
    let code =
        imbh_db_open_memory(Some(&mut db), || Err(failure(ErrorCategory::Open)), &mut last);
    assert_eq!(code, imbh_error::Open);
    assert_eq!(imbh_last_error_message(&last), Some("no"));
    assert!(db.is_none());

    let code = imbh_db_open(
        None,
        None,
        Some(&mut db),
        |_p: &str, _r: OpenRequest| Ok(1),
        &mut last,
    );
    assert_eq!(code, imbh_error::InvalidArg);
    assert_eq!(imbh_last_error_message(&last), Some("null string pointer"));
    assert!(db.is_none());

    // The out pointer is looked at before the path.
    let code =
        imbh_db_open(None, None, None, |_p: &str, _r: OpenRequest| Ok(1u32), &mut last);
    assert_eq!(code, imbh_error::InvalidArg);
    assert_eq!(imbh_last_error_message(&last), Some("null out pointer"));

    let code = imbh_db_open(
        Some(b"/tmp/x"),
        None,
        Some(&mut db),
        |path: &str, request: OpenRequest| {
            assert_eq!(path, "/tmp/x");
            assert!(matches!(request, OpenRequest::Defaults));
            Ok(5)
        },
        &mut last,
    );
    assert_eq!(code, imbh_error::Success);
    assert_eq!(db.as_ref().unwrap().db, 5);

    let code = imbh_db_open_read_only(
        Some(b"\xf0"),
        Some(&mut db),
        |_p: &str, _r: OpenRequest| Ok(6),
        &mut last,
    );
    assert_eq!(code, imbh_error::InvalidArg);
    assert_eq!(db.as_ref().unwrap().db, 5);
}

#[test]
fn a_runtime_that_cannot_be_built_is_an_invalid_argument() {
    let failed = Err(std::io::Error::new(std::io::ErrorKind::Other, "no threads"));
    match runtime_or_failure(failed) {
        Err(CallError::InvalidArg(text)) => {
            assert_eq!(text, "failed to build runtime: no threads")
        }
        _ => panic!("expected a refusal"),
    }
}

#[test]
fn a_database_without_a_runtime_is_not_handed_over() {
    let mut last = LastError::new();
    let mut slot: Option<Handle> = None;
    let failed = Err(CallError::InvalidArg("failed to build runtime: no threads".to_owned()));
    assert_eq!(place_handle(4, failed, &mut slot, &mut last), imbh_error::InvalidArg);
    assert_eq!(imbh_last_error_message(&last), Some("failed to build runtime: no threads"));
    assert!(slot.is_none());
    assert_eq!(place_handle(4, new_runtime(), &mut slot, &mut last), imbh_error::Success);
    assert_eq!(imbh_last_error_message(&last), None);
    assert_eq!(slot.unwrap().db, 4);
}

#[test]
fn close_and_free() {
    let mut last = LastError::new();
    let mut db = open(&mut last);
    assert_eq!(imbh_db_close(db.as_ref(), |_h: &Handle| Ok(()), &mut last), imbh_error::Success);
    // A closed handle stays valid; the engine's refusal comes through.
    let code =
        imbh_db_flush(db.as_ref(), |_h: &Handle| Err(failure(ErrorCategory::Closed)), &mut last);
    assert_eq!(code, imbh_error::Closed);
    assert_eq!(
        imbh_db_close(None, |_h: &Handle| Ok(()), &mut last),
        imbh_error::InvalidArg
    );
    let mut closed = 0;
    let close = |h: &Handle| {
        closed = h.db;
        Err(failure(ErrorCategory::Storage))
    };
    imbh_db_free(&mut db, close, &mut last);
    assert_eq!(closed, 1);
    assert!(db.is_none());
    // The call succeeded, so no message is left, not even that of an earlier failure.
    assert_eq!(imbh_last_error_message(&last), None);
    imbh_db_free(&mut db, |_h: &Handle| panic!("nothing to close"), &mut last);
}

#[test]
fn receipts_tell_queued_from_logged() {
    let mut last = LastError::new();
    let db = open(&mut last);
    let mut receipt =
        imbh_ingest_receipt { accepted: 0, rejected: 0, lsn: 9, durable: true, queued: false };
    let code = imbh_db_ingest_traces(
        db.as_ref(),
        Some(b"abcd"),
        2,
        Some(&mut receipt),
        |_h: &Handle, body: &[u8]| {
            assert_eq!(body, b"ab");
            Ok(IngestReceipt { accepted: 3, rejected: 1, lsn: None, durable: false, queued: true })
        },
        &mut last,
    );
    assert_eq!(code, imbh_error::Success);
    let queued =
        imbh_ingest_receipt { accepted: 3, rejected: 1, lsn: 0, durable: false, queued: true };
    assert_eq!(receipt, queued);

    let code = imbh_db_ingest_metrics(
        db.as_ref(),
        None,
        0,
        Some(&mut receipt),
        |_h: &Handle, body: &[u8]| {
            assert!(body.is_empty());
            let lsn = Some(7);
            Ok(IngestReceipt { accepted: 0, rejected: 0, lsn, durable: true, queued: false })
        },
        &mut last,
    );
    assert_eq!(code, imbh_error::Success);
    assert_eq!((receipt.lsn, receipt.queued, receipt.durable), (7, false, true));
}

#[test]
fn ingest_refuses_and_reports() {
    let mut last = LastError::new();
    let db = open(&mut last);
    let mut receipt =
        imbh_ingest_receipt { accepted: 1, rejected: 2, lsn: 3, durable: true, queued: true };
    let before = receipt;
    let never = |_h: &Handle, _b: &[u8]| -> Result<IngestReceipt, EngineError> {
        panic!("the engine is not reached")
    };
    let code =
        imbh_db_ingest_logs(db.as_ref(), None, 4, Some(&mut receipt), never, &mut last);
    assert_eq!(code, imbh_error::InvalidArg);
    assert_eq!(imbh_last_error_message(&last), Some("null buffer pointer"));
    assert_eq!(receipt, before);

    let full = |_h: &Handle, _b: &[u8]| {
        Err(EngineError {
            category: ErrorCategory::Ingest,
            backpressure: true,
            not_found: false,
            message: "queue full".to_owned(),
        })
    };
    let code = imbh_db_ingest_logs(db.as_ref(), Some(b""), 0, Some(&mut receipt), full, &mut last);
    assert_eq!(code, imbh_error::Backpressure);
    assert_eq!(receipt, before);
}

#[test]
fn reports_are_written_unless_null() {
    let mut last = LastError::new();
    let db = open(&mut last);
    let mut m = imbh_maintenance_report { sealed: false, segments_dropped: 0, bytes_freed: 0 };
    let done = imbh_maintenance_report { sealed: true, segments_dropped: 2, bytes_freed: 4096 };
    let code = imbh_db_maintain(db.as_ref(), Some(&mut m), |_h: &Handle| Ok(done), &mut last);
    assert_eq!(code, imbh_error::Success);
    assert_eq!(m, done);
    let code = imbh_db_maintain(db.as_ref(), None, |_h: &Handle| Ok(done), &mut last);
    assert_eq!(code, imbh_error::Success);

    let mut c = imbh_compaction_report { segments_merged: 0, segments_created: 0 };
    let code = imbh_db_compact(
        db.as_ref(),
        Some(&mut c),
        |_h: &Handle| Ok(imbh_compaction_report { segments_merged: 5, segments_created: 1 }),
        &mut last,
    );
    assert_eq!(code, imbh_error::Success);
    assert_eq!((c.segments_merged, c.segments_created), (5, 1));
    let code = imbh_db_compact(
        db.as_ref(),
        Some(&mut c),
        |_h: &Handle| Err(failure(ErrorCategory::Storage)),
        &mut last,
    );
    assert_eq!(code, imbh_error::Storage);
    assert_eq!((c.segments_merged, c.segments_created), (5, 1));

    let mut info = imbh_snapshot_info { segments: 8 };
    let code = imbh_db_snapshot(
        db.as_ref(),
        None,
        Some(&mut info),
        |_h: &Handle, _d: &str| Ok(imbh_snapshot_info { segments: 1 }),
        &mut last,
    );
    assert_eq!(code, imbh_error::InvalidArg);
    assert_eq!(info.segments, 8);
}

#[test]
fn statistics_are_summed_over_the_tables() {
    let mut last = LastError::new();
    let db = open(&mut last);
    let mut out = empty_stats();
    let code = imbh_db_stats(
        db.as_ref(),
        Some(&mut out),
        |_h: &Handle| Ok(db_stats(vec![table(Table::Logs, 5), table(Table::Spans, 7)])),
        &mut last,
    );
    assert_eq!(code, imbh_error::Success);
    assert_eq!(
        out,
        imbh_stats {
            buffer_bytes: 10,
            wal_bytes: 20,
            durable_lsn: 30,
            ingest_queue_depth: 40,
            ingest_dropped: 50,
            ingest_errors: 60,
            total_segment_count: 2,
            total_segment_rows: 12,
            total_buffer_rows: 24,
        }
    );
    let code = imbh_db_stats(
        db.as_ref(),
        None,
        |_h: &Handle| Ok(db_stats(Vec::new())),
        &mut last,
    );
    assert_eq!(code, imbh_error::InvalidArg);
    assert_eq!(imbh_last_error_message(&last), Some("null out pointer"));
}

#[test]
fn totals_are_the_sums_of_the_tables() {
    let mut last = LastError::new();
    let db = open(&mut last);
    let tables = vec![
        table(Table::MetricsSummary, 64),
        table(Table::Logs, 1),
        table(Table::Spans, 2),
        table(Table::MetricsGauge, 4),
        table(Table::MetricsHistogram, 16),
        table(Table::MetricsSum, 8),
        table(Table::MetricsExpHistogram, 32),
    ];
    let selectors = [
        imbh_table::Logs,
        imbh_table::Spans,
        imbh_table::MetricsGauge,
        imbh_table::MetricsSum,
        imbh_table::MetricsHistogram,
        imbh_table::MetricsExpHistogram,
        imbh_table::MetricsSummary,
    ];
    let mut sums = (0, 0, 0);
    for selector in selectors {
        let mut one = imbh_table_stats {
            table: imbh_table::Logs,
            segment_count: 0,
            segment_rows: 0,
            buffer_rows: 0,
            min_time_unix_nano: 0,
            max_time_unix_nano: 0,
            has_time_bounds: false,
        };
        let all = tables.clone();
        let stats = |_h: &Handle| Ok(db_stats(all));
        let code = imbh_db_table_stats(db.as_ref(), selector, Some(&mut one), stats, &mut last);
        assert_eq!(code, imbh_error::Success);
        assert_eq!(one.table, selector);
        sums.0 += one.segment_count;
        sums.1 += one.segment_rows;
        sums.2 += one.buffer_rows;
    }
    let mut out = empty_stats();
    let stats = |_h: &Handle| Ok(db_stats(tables));
    assert_eq!(imbh_db_stats(db.as_ref(), Some(&mut out), stats, &mut last), imbh_error::Success);
    assert_eq!(sums, (7, 127, 254));
    assert_eq!((out.total_segment_count, out.total_segment_rows, out.total_buffer_rows), sums);
}

#[test]
fn a_total_that_does_not_fit_ends_as_a_panic() {
    let mut last = LastError::new();
    let db = open(&mut last);
    let mut out = empty_stats();
    let mut huge = table(Table::Logs, 1);
    huge.segment_rows = u64::MAX;
    let code = imbh_db_stats(
        db.as_ref(),
        Some(&mut out),
        |_h: &Handle| Ok(db_stats(vec![huge, table(Table::Spans, 1)])),
        &mut last,
    );
    assert_eq!(code, imbh_error::Panic);
    assert_eq!(imbh_last_error_message(&last), Some("panic: attempt to add with overflow"));
    assert_eq!(out, empty_stats());
}

#[test]
fn one_table_is_looked_up_by_its_selector() {
    let mut last = LastError::new();
    let db = open(&mut last);
    let blank = imbh_table_stats {
        table: imbh_table::Logs,
        segment_count: 0,
        segment_rows: 0,
        buffer_rows: 0,
        min_time_unix_nano: 0,
        max_time_unix_nano: 0,
        has_time_bounds: false,
    };
    let mut bounded = table(Table::Spans, 7);
    bounded.min_time_unix_nano = Some(-3);
    bounded.max_time_unix_nano = Some(11);
    let mut half = table(Table::MetricsSum, 1);
    half.min_time_unix_nano = Some(4);
    let tables = vec![table(Table::Logs, 5), bounded, table(Table::Spans, 100), half];

    let mut out = blank;
    let all = tables.clone();
    let code = imbh_db_table_stats(
        db.as_ref(),
        imbh_table::Spans,
        Some(&mut out),
        |_h: &Handle| Ok(db_stats(all)),
        &mut last,
    );
    assert_eq!(code, imbh_error::Success);
    assert_eq!(
        out,
        imbh_table_stats {
            table: imbh_table::Spans,
            segment_count: 1,
            segment_rows: 7,
            buffer_rows: 14,
            min_time_unix_nano: -3,
            max_time_unix_nano: 11,
            has_time_bounds: true,
        }
    );

    // One bound alone is written, but the bounds do not count as known.
    let mut out = blank;
    let all = tables.clone();
    let code = imbh_db_table_stats(
        db.as_ref(),
        imbh_table::MetricsSum,
        Some(&mut out),
        |_h: &Handle| Ok(db_stats(all)),
        &mut last,
    );
    assert_eq!(code, imbh_error::Success);
    assert_eq!((out.min_time_unix_nano, out.max_time_unix_nano), (4, 0));
    assert!(!out.has_time_bounds);

    let mut out = blank;
    let code = imbh_db_table_stats(
        db.as_ref(),
        imbh_table::MetricsGauge,
        Some(&mut out),
        |_h: &Handle| Ok(db_stats(tables)),
        &mut last,
    );
    assert_eq!(code, imbh_error::InvalidArg);
    assert_eq!(imbh_last_error_message(&last), Some("unknown table"));
    assert_eq!(out, blank);
}

#[test]
fn nothing_durable_yet_is_zero() {
    let mut last = LastError::new();
    let db = open(&mut last);
    let mut lsn: u64 = 5;
    let code = imbh_db_durable_through(db.as_ref(), Some(&mut lsn), |_h: &Handle| None, &mut last);
    assert_eq!((code, lsn), (imbh_error::Success, 0));
    let code =
        imbh_db_durable_through(db.as_ref(), Some(&mut lsn), |_h: &Handle| Some(3), &mut last);
    assert_eq!((code, lsn), (imbh_error::Success, 3));
    let code = imbh_db_durable_through(db.as_ref(), None, |_h: &Handle| Some(3), &mut last);
    assert_eq!(code, imbh_error::InvalidArg);
}

#[test]
fn export_ranges_are_passed_on() {
    let mut last = LastError::new();
    let db = open(&mut last);
    let mut buf = imbh_bytes { data: Vec::new(), len: 0 };
    let code = imbh_db_export(
        db.as_ref(),
        imbh_table::MetricsSummary,
        0,
        10,
        Some(&mut buf),
        |_h: &Handle, table: Table, range: ExportRange| {
            assert_eq!(table, Table::MetricsSummary);
            assert_eq!(range, ExportRange::Within(TimeRange { start: 0, end: 10 }));
            Ok(vec![1, 2, 3])
        },
        &mut last,
    );
    assert_eq!(code, imbh_error::Success);
    assert_eq!((buf.len, buf.data.as_slice()), (3, &[1u8, 2, 3][..]));
    let code = imbh_db_export(
        db.as_ref(),
        imbh_table::Logs,
        0,
        0,
        None,
        |_h: &Handle, _t: Table, _r: ExportRange| Ok(Vec::new()),
        &mut last,
    );
    assert_eq!(code, imbh_error::InvalidArg);
    assert_eq!(imbh_last_error_message(&last), Some("null out pointer"));
}
