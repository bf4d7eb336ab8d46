//! Ingest and operations.
//!
//! Each entry point takes the engine's part as a closure: it checks its arguments, runs the closure
//! on the handle, and turns the reply into a code, a message and the records that the caller wants.

use vstd::prelude::*;
use vstd::utf8::encode_utf8;

use crate::args::{
    bytes, c_bytes, c_string, cstr, handle, holds_bytes, says, texts_survive_the_boundary,
};
use crate::buffer::{imbh_bytes, make_bytes};
use crate::db::{acknowledge, acknowledges, imbh_db};
use crate::error::{
    engine_failed, imbh_error, invalid_arg, LastError, panicked, rejected, settle, settled,
    settle_panic, succeeded, CallError, EngineError,
};
use crate::filters::TimeRange;
use crate::stats::{
    answers_table, imbh_compaction_report, imbh_ingest_receipt, imbh_maintenance_report,
    imbh_snapshot_info, imbh_stats, imbh_table_stats, lsn_number, lsn_or_zero, no_entry,
    receipt_of, stats_of, stats_of_table, summed_stats, total, totals_fit, write_receipt, DbStats,
    IngestReceipt,
};
use crate::table::{engine_table, imbh_table, Table};

verus! {

/// Ingest protobuf OTLP `ExportLogsServiceRequest` bytes with `ingest`, and write `receipt` unless
/// it is null.
pub fn imbh_db_ingest_logs<
    D,
    F: FnOnce(&imbh_db<D>, &[u8]) -> Result<IngestReceipt, EngineError>,
>(
    db: Option<&imbh_db<D>>,
    otlp: Option<&[u8]>,
    len: usize,
    receipt: Option<&mut imbh_ingest_receipt>,
    ingest: F,
    last: &mut LastError,
) -> (code: imbh_error)
    requires
        holds_bytes(otlp, len),
        db matches Some(h) ==> forall|body: &[u8]|
            c_bytes(otlp, len) == Ok::<Seq<u8>, Seq<char>>(body@) ==> #[trigger] ingest.requires(
                (h, body),
            ),
    ensures
        db is None ==> rejected(code, *final(last), "null imbh_db handle"@),
        db matches Some(h) ==> match c_bytes(otlp, len) {
            Err(reason) => rejected(code, *final(last), reason),
            Ok(sent) => exists|body: &[u8], reply: Result<IngestReceipt, EngineError>| #[trigger]
                ingest.ensures((h, body), reply) && body@ == sent && match reply {
                    Err(e) => engine_failed(code, *final(last), e),
                    Ok(r) => {
                        &&& succeeded(code, *final(last))
                        &&& receipt matches Some(o) ==> *final(o) == receipt_of(r)
                    },
                },
        },
        code != imbh_error::Success ==> (receipt matches Some(o) ==> *final(o) == *o),
        settled(code, *final(last)),
{
    let h = match handle(db) {
        Ok(h) => h,
        Err(e) => return settle(Err(e), last),
    };
    let body = match bytes(otlp, len) {
        Ok(body) => body,
        Err(e) => return settle(Err(e), last),
    };
    match ingest(h, body) {
        Err(e) => settle(Err(CallError::Imbh(e)), last),
        Ok(r) => {
            write_receipt(receipt, r);
            settle(Ok(()), last)
        },
    }
}

/// Ingest protobuf OTLP `ExportTraceServiceRequest` bytes with `ingest`, and write `receipt` unless
/// it is null.
pub fn imbh_db_ingest_traces<
    D,
    F: FnOnce(&imbh_db<D>, &[u8]) -> Result<IngestReceipt, EngineError>,
>(
    db: Option<&imbh_db<D>>,
    otlp: Option<&[u8]>,
    len: usize,
    receipt: Option<&mut imbh_ingest_receipt>,
    ingest: F,
    last: &mut LastError,
) -> (code: imbh_error)
    requires
        holds_bytes(otlp, len),
        db matches Some(h) ==> forall|body: &[u8]|
            c_bytes(otlp, len) == Ok::<Seq<u8>, Seq<char>>(body@) ==> #[trigger] ingest.requires(
                (h, body),
            ),
    ensures
        db is None ==> rejected(code, *final(last), "null imbh_db handle"@),
        db matches Some(h) ==> match c_bytes(otlp, len) {
            Err(reason) => rejected(code, *final(last), reason),
            Ok(sent) => exists|body: &[u8], reply: Result<IngestReceipt, EngineError>| #[trigger]
                ingest.ensures((h, body), reply) && body@ == sent && match reply {
                    Err(e) => engine_failed(code, *final(last), e),
                    Ok(r) => {
                        &&& succeeded(code, *final(last))
                        &&& receipt matches Some(o) ==> *final(o) == receipt_of(r)
                    },
                },
        },
        code != imbh_error::Success ==> (receipt matches Some(o) ==> *final(o) == *o),
        settled(code, *final(last)),
{
    let h = match handle(db) {
        Ok(h) => h,
        Err(e) => return settle(Err(e), last),
    };
    let body = match bytes(otlp, len) {
        Ok(body) => body,
        Err(e) => return settle(Err(e), last),
    };
    match ingest(h, body) {
        Err(e) => settle(Err(CallError::Imbh(e)), last),
        Ok(r) => {
            write_receipt(receipt, r);
            settle(Ok(()), last)
        },
    }
}

/// Ingest protobuf OTLP `ExportMetricsServiceRequest` bytes with `ingest`, and write `receipt`
/// unless it is null.
pub fn imbh_db_ingest_metrics<
    D,
    F: FnOnce(&imbh_db<D>, &[u8]) -> Result<IngestReceipt, EngineError>,
>(
    db: Option<&imbh_db<D>>,
    otlp: Option<&[u8]>,
    len: usize,
    receipt: Option<&mut imbh_ingest_receipt>,
    ingest: F,
    last: &mut LastError,
) -> (code: imbh_error)
    requires
        holds_bytes(otlp, len),
        db matches Some(h) ==> forall|body: &[u8]|
            c_bytes(otlp, len) == Ok::<Seq<u8>, Seq<char>>(body@) ==> #[trigger] ingest.requires(
                (h, body),
            ),
    ensures
        db is None ==> rejected(code, *final(last), "null imbh_db handle"@),
        db matches Some(h) ==> match c_bytes(otlp, len) {
            Err(reason) => rejected(code, *final(last), reason),
            Ok(sent) => exists|body: &[u8], reply: Result<IngestReceipt, EngineError>| #[trigger]
                ingest.ensures((h, body), reply) && body@ == sent && match reply {
                    Err(e) => engine_failed(code, *final(last), e),
                    Ok(r) => {
                        &&& succeeded(code, *final(last))
                        &&& receipt matches Some(o) ==> *final(o) == receipt_of(r)
                    },
                },
        },
        code != imbh_error::Success ==> (receipt matches Some(o) ==> *final(o) == *o),
        settled(code, *final(last)),
{
    let h = match handle(db) {
        Ok(h) => h,
        Err(e) => return settle(Err(e), last),
    };
    let body = match bytes(otlp, len) {
        Ok(body) => body,
        Err(e) => return settle(Err(e), last),
    };
    match ingest(h, body) {
        Err(e) => settle(Err(CallError::Imbh(e)), last),
        Ok(r) => {
            write_receipt(receipt, r);
            settle(Ok(()), last)
        },
    }
}

/// Force-seal the mutable buffer into an immutable segment with `flush`.
pub fn imbh_db_flush<D, F: FnOnce(&imbh_db<D>) -> Result<(), EngineError>>(
    db: Option<&imbh_db<D>>,
    flush: F,
    last: &mut LastError,
) -> (code: imbh_error)
    requires
        db matches Some(h) ==> flush.requires((h,)),
    ensures
        db is None ==> rejected(code, *final(last), "null imbh_db handle"@),
        db matches Some(h) ==> exists|reply: Result<(), EngineError>| #[trigger]
            flush.ensures((h,), reply) && acknowledges(reply, code, *final(last)),
        settled(code, *final(last)),
{
    match handle(db) {
        Err(e) => settle(Err(e), last),
        Ok(h) => acknowledge(flush(h), last),
    }
}

/// Run one maintenance pass (seal and retention) with `maintain`, and write `report` unless it is
/// null.
pub fn imbh_db_maintain<D, F: FnOnce(&imbh_db<D>) -> Result<imbh_maintenance_report, EngineError>>(
    db: Option<&imbh_db<D>>,
    report: Option<&mut imbh_maintenance_report>,
    maintain: F,
    last: &mut LastError,
) -> (code: imbh_error)
    requires
        db matches Some(h) ==> maintain.requires((h,)),
    ensures
        db is None ==> rejected(code, *final(last), "null imbh_db handle"@),
        db matches Some(h) ==> exists|
            reply: Result<imbh_maintenance_report, EngineError>,
        | #[trigger]
            maintain.ensures((h,), reply) && match reply {
                Err(e) => engine_failed(code, *final(last), e),
                Ok(r) => {
                    &&& succeeded(code, *final(last))
                    &&& report matches Some(o) ==> *final(o) == r
                },
            },
        code != imbh_error::Success ==> (report matches Some(o) ==> *final(o) == *o),
        settled(code, *final(last)),
{
    let h = match handle(db) {
        Ok(h) => h,
        Err(e) => return settle(Err(e), last),
    };
    match maintain(h) {
        Err(e) => settle(Err(CallError::Imbh(e)), last),
        Ok(r) => {
            if let Some(o) = report {
                *o = r;
            }
            settle(Ok(()), last)
        },
    }
}

/// Compact small segments with `compact`, and write `report` unless it is null.
pub fn imbh_db_compact<D, F: FnOnce(&imbh_db<D>) -> Result<imbh_compaction_report, EngineError>>(
    db: Option<&imbh_db<D>>,
    report: Option<&mut imbh_compaction_report>,
    compact: F,
    last: &mut LastError,
) -> (code: imbh_error)
    requires
        db matches Some(h) ==> compact.requires((h,)),
    ensures
        db is None ==> rejected(code, *final(last), "null imbh_db handle"@),
        db matches Some(h) ==> exists|reply: Result<imbh_compaction_report, EngineError>| #[trigger]
            compact.ensures((h,), reply) && match reply {
                Err(e) => engine_failed(code, *final(last), e),
                Ok(r) => {
                    &&& succeeded(code, *final(last))
                    &&& report matches Some(o) ==> *final(o) == r
                },
            },
        code != imbh_error::Success ==> (report matches Some(o) ==> *final(o) == *o),
        settled(code, *final(last)),
{
    let h = match handle(db) {
        Ok(h) => h,
        Err(e) => return settle(Err(e), last),
    };
    match compact(h) {
        Err(e) => settle(Err(CallError::Imbh(e)), last),
        Ok(r) => {
            if let Some(o) = report {
                *o = r;
            }
            settle(Ok(()), last)
        },
    }
}

/// Write engine-wide statistics, which `stats` reads, to `out`. A total over the tables that does
/// not fit its field ends the call as an arithmetic panic does.
pub fn imbh_db_stats<D, F: FnOnce(&imbh_db<D>) -> Result<DbStats, EngineError>>(
    db: Option<&imbh_db<D>>,
    out: Option<&mut imbh_stats>,
    stats: F,
    last: &mut LastError,
) -> (code: imbh_error)
    requires
        db matches Some(h) ==> (out is Some ==> stats.requires((h,))),
    ensures
        db is None ==> rejected(code, *final(last), "null imbh_db handle"@),
        db is Some && out is None ==> rejected(code, *final(last), "null out pointer"@),
        db matches Some(h) ==> (out matches Some(o) ==> exists|reply: Result<DbStats, EngineError>|
            #[trigger]
            stats.ensures((h,), reply) && match reply {
                Err(e) => engine_failed(code, *final(last), e),
                Ok(s) => if totals_fit(s.tables@) {
                    succeeded(code, *final(last)) && *final(o) == stats_of(s)
                } else {
                    panicked(code, *final(last), "attempt to add with overflow"@)
                },
            }),
        code != imbh_error::Success ==> (out matches Some(o) ==> *final(o) == *o),
        settled(code, *final(last)),
{
    let h = match handle(db) {
        Ok(h) => h,
        Err(e) => return settle(Err(e), last),
    };
    match out {
        None => settle(Err(invalid_arg("null out pointer")), last),
        Some(o) => match stats(h) {
            Err(e) => settle(Err(CallError::Imbh(e)), last),
            Ok(s) => match summed_stats(&s) {
                None => settle_panic("attempt to add with overflow", last),
                Some(summed) => {
                    *o = summed;
                    settle(Ok(()), last)
                },
            },
        },
    }
}

/// Write the statistics of one table, out of those that `stats` reads, to `out`.
pub fn imbh_db_table_stats<D, F: FnOnce(&imbh_db<D>) -> Result<DbStats, EngineError>>(
    db: Option<&imbh_db<D>>,
    table: imbh_table,
    out: Option<&mut imbh_table_stats>,
    stats: F,
    last: &mut LastError,
) -> (code: imbh_error)
    requires
        db matches Some(h) ==> (out is Some ==> stats.requires((h,))),
    ensures
        db is None ==> rejected(code, *final(last), "null imbh_db handle"@),
        db is Some && out is None ==> rejected(code, *final(last), "null out pointer"@),
        db matches Some(h) ==> (out matches Some(o) ==> exists|reply: Result<DbStats, EngineError>|
            #[trigger]
            stats.ensures((h,), reply) && match reply {
                Err(e) => engine_failed(code, *final(last), e),
                Ok(s) => if no_entry(s.tables@, engine_table(table)) {
                    rejected(code, *final(last), "unknown table"@)
                } else {
                    succeeded(code, *final(last)) && final(o).table == table && answers_table(
                        s.tables@,
                        engine_table(table),
                        *final(o),
                    )
                },
            }),
        code != imbh_error::Success ==> (out matches Some(o) ==> *final(o) == *o),
        settled(code, *final(last)),
{
    let h = match handle(db) {
        Ok(h) => h,
        Err(e) => return settle(Err(e), last),
    };
    match out {
        None => settle(Err(invalid_arg("null out pointer")), last),
        Some(o) => {
            let want = Table::from(table);
            match stats(h) {
                Err(e) => settle(Err(CallError::Imbh(e)), last),
                Ok(s) => match stats_of_table(&s.tables, want) {
                    None => settle(Err(invalid_arg("unknown table")), last),
                    Some(t) => {
                        *o = t;
                        settle(Ok(()), last)
                    },
                },
            }
        },
    }
}

/// Take a point-in-time snapshot of the sealed segments into `dir` with `snapshot`, and write
/// `info` unless it is null.
pub fn imbh_db_snapshot<
    D,
    F: FnOnce(&imbh_db<D>, &str) -> Result<imbh_snapshot_info, EngineError>,
>(
    db: Option<&imbh_db<D>>,
    dir: Option<&[u8]>,
    info: Option<&mut imbh_snapshot_info>,
    snapshot: F,
    last: &mut LastError,
) -> (code: imbh_error)
    requires
        db matches Some(h) ==> forall|text: &str|
            says(dir, text@) ==> #[trigger] snapshot.requires((h, text)),
    ensures
        db is None ==> rejected(code, *final(last), "null imbh_db handle"@),
        db matches Some(h) ==> match c_string(dir) {
            Err(reason) => rejected(code, *final(last), reason),
            Ok(text) => exists|dir: &str, reply: Result<imbh_snapshot_info, EngineError>|
                #[trigger]
                snapshot.ensures((h, dir), reply) && dir@ == text && match reply {
                    Err(e) => engine_failed(code, *final(last), e),
                    Ok(r) => {
                        &&& succeeded(code, *final(last))
                        &&& info matches Some(o) ==> *final(o) == r
                    },
                },
        },
        code != imbh_error::Success ==> (info matches Some(o) ==> *final(o) == *o),
        settled(code, *final(last)),
{
    let h = match handle(db) {
        Ok(h) => h,
        Err(e) => return settle(Err(e), last),
    };
    let dir = match cstr(dir) {
        Ok(dir) => dir,
        Err(e) => return settle(Err(e), last),
    };
    match snapshot(h, dir) {
        Err(e) => settle(Err(CallError::Imbh(e)), last),
        Ok(r) => {
            if let Some(o) = info {
                *o = r;
            }
            settle(Ok(()), last)
        },
    }
}

/// Write the highest durable log sequence number, which `durable` reads, to `lsn`: `0` when nothing
/// is durable yet.
pub fn imbh_db_durable_through<D, F: FnOnce(&imbh_db<D>) -> Option<u64>>(
    db: Option<&imbh_db<D>>,
    lsn: Option<&mut u64>,
    durable: F,
    last: &mut LastError,
) -> (code: imbh_error)
    requires
        db matches Some(h) ==> (lsn is Some ==> durable.requires((h,))),
    ensures
        db is None ==> rejected(code, *final(last), "null imbh_db handle"@),
        db is Some && lsn is None ==> rejected(code, *final(last), "null out pointer"@),
        db matches Some(h) ==> (lsn matches Some(o) ==> exists|reply: Option<u64>| #[trigger]
            durable.ensures((h,), reply) && succeeded(code, *final(last)) && *final(o)
                == lsn_number(reply)),
        code != imbh_error::Success ==> (lsn matches Some(o) ==> *final(o) == *o),
        settled(code, *final(last)),
{
    let h = match handle(db) {
        Ok(h) => h,
        Err(e) => return settle(Err(e), last),
    };
    match lsn {
        None => settle(Err(invalid_arg("null out pointer")), last),
        Some(o) => {
            *o = lsn_or_zero(durable(h));
            settle(Ok(()), last)
        },
    }
}

/// The rows asked of the engine for an export.
#[derive(Debug, Clone, Copy, PartialEq, Eq, Structural)]
pub enum ExportRange {
    /// All of time, whatever the engine's bounds of it are.
    All,
    /// A half-open time range.
    Within(TimeRange),
}

/// The time range of an export: all of time when both ends are `0`.
pub open spec fn export_range(start: i64, end: i64) -> ExportRange {
    if start == 0 && end == 0 {
        ExportRange::All
    } else {
        ExportRange::Within(TimeRange { start, end })
    }
}

/// Export the rows of a table over `[start, end)` as Arrow-IPC stream bytes with `export`. A range
/// of `0` to `0` means all of time.
pub fn imbh_db_export<
    D,
    F: FnOnce(&imbh_db<D>, Table, ExportRange) -> Result<Vec<u8>, EngineError>,
>(
    db: Option<&imbh_db<D>>,
    table: imbh_table,
    start_unix_nanos: i64,
    end_unix_nanos: i64,
    out: Option<&mut imbh_bytes>,
    export: F,
    last: &mut LastError,
) -> (code: imbh_error)
    requires
        db matches Some(h) ==> (out is Some ==> export.requires(
            (h, engine_table(table), export_range(start_unix_nanos, end_unix_nanos)),
        )),
    ensures
        db is None ==> rejected(code, *final(last), "null imbh_db handle"@),
        db is Some && out is None ==> rejected(code, *final(last), "null out pointer"@),
        db matches Some(h) ==> (out matches Some(o) ==> exists|
            reply: Result<Vec<u8>, EngineError>,
        | #[trigger]
            export.ensures(
                (h, engine_table(table), export_range(start_unix_nanos, end_unix_nanos)),
                reply,
            ) && match reply {
                Err(e) => engine_failed(code, *final(last), e),
                Ok(bytes) => {
                    &&& succeeded(code, *final(last))
                    &&& final(o).wf()
                    &&& final(o).data@ == bytes@
                },
            }),
        code != imbh_error::Success ==> (out matches Some(o) ==> *final(o) == *o),
        settled(code, *final(last)),
{
    let h = match handle(db) {
        Ok(h) => h,
        Err(e) => return settle(Err(e), last),
    };
    match out {
        None => settle(Err(invalid_arg("null out pointer")), last),
        Some(o) => {
            let range = if start_unix_nanos == 0 && end_unix_nanos == 0 {
                ExportRange::All
            } else {
                ExportRange::Within(TimeRange { start: start_unix_nanos, end: end_unix_nanos })
            };
            match export(h, Table::from(table), range) {
                Err(e) => settle(Err(CallError::Imbh(e)), last),
                Ok(bytes) => {
                    *o = make_bytes(bytes);
                    settle(Ok(()), last)
                },
            }
        },
    }
}

/// What is ingested is what the caller sent, byte by byte up to its length, and the caller's
/// receipt is the engine's. The caller may do without the receipt.
pub proof fn what_is_sent_is_ingested<
    D,
    F: FnOnce(&imbh_db<D>, &[u8]) -> Result<IngestReceipt, EngineError>,
>(
    db: &imbh_db<D>,
    otlp: &[u8],
    len: usize,
    receipt: &mut imbh_ingest_receipt,
    ingest: F,
    reply: Result<IngestReceipt, EngineError>,
    last: &mut LastError,
    code: imbh_error,
)
    requires
        len <= otlp@.len(),
        forall|body: &[u8], r: Result<IngestReceipt, EngineError>| #[trigger]
            ingest.ensures((db, body), r) && body@.len() == len && (forall|i: int|
                0 <= i < len ==> #[trigger] body@[i] == otlp@[i]) ==> r == reply,
    ensures
        call_ensures(
            imbh_db_ingest_logs::<D, F>,
            (Some(db), Some(otlp), len, Some(receipt), ingest, last),
            code,
        ) ==> match reply {
            Err(e) => engine_failed(code, *final(last), e) && *final(receipt) == *old(receipt),
            Ok(r) => {
                &&& code == imbh_error::Success
                &&& final(receipt).accepted == r.accepted
                &&& final(receipt).rejected == r.rejected
                &&& r.lsn matches Some(n) ==> final(receipt).lsn == n
                &&& r.lsn is None ==> final(receipt).lsn == 0
                &&& final(receipt).durable == r.durable
                &&& final(receipt).queued == r.queued
            },
        },
        call_ensures(
            imbh_db_ingest_logs::<D, F>,
            (Some(db), Some(otlp), len, None::<&mut imbh_ingest_receipt>, ingest, last),
            code,
        ) ==> match reply {
            Err(e) => engine_failed(code, *final(last), e),
            Ok(r) => code == imbh_error::Success,
        },
        call_ensures(
            imbh_db_ingest_traces::<D, F>,
            (Some(db), Some(otlp), len, Some(receipt), ingest, last),
            code,
        ) ==> match reply {
            Err(e) => engine_failed(code, *final(last), e) && *final(receipt) == *old(receipt),
            Ok(r) => {
                &&& code == imbh_error::Success
                &&& final(receipt).accepted == r.accepted
                &&& final(receipt).rejected == r.rejected
                &&& r.lsn matches Some(n) ==> final(receipt).lsn == n
                &&& r.lsn is None ==> final(receipt).lsn == 0
                &&& final(receipt).durable == r.durable
                &&& final(receipt).queued == r.queued
            },
        },
        call_ensures(
            imbh_db_ingest_traces::<D, F>,
            (Some(db), Some(otlp), len, None::<&mut imbh_ingest_receipt>, ingest, last),
            code,
        ) ==> match reply {
            Err(e) => engine_failed(code, *final(last), e),
            Ok(r) => code == imbh_error::Success,
        },
        call_ensures(
            imbh_db_ingest_metrics::<D, F>,
            (Some(db), Some(otlp), len, Some(receipt), ingest, last),
            code,
        ) ==> match reply {
            Err(e) => engine_failed(code, *final(last), e) && *final(receipt) == *old(receipt),
            Ok(r) => {
                &&& code == imbh_error::Success
                &&& final(receipt).accepted == r.accepted
                &&& final(receipt).rejected == r.rejected
                &&& r.lsn matches Some(n) ==> final(receipt).lsn == n
                &&& r.lsn is None ==> final(receipt).lsn == 0
                &&& final(receipt).durable == r.durable
                &&& final(receipt).queued == r.queued
            },
        },
        call_ensures(
            imbh_db_ingest_metrics::<D, F>,
            (Some(db), Some(otlp), len, None::<&mut imbh_ingest_receipt>, ingest, last),
            code,
        ) ==> match reply {
            Err(e) => engine_failed(code, *final(last), e),
            Ok(r) => code == imbh_error::Success,
        },
{
}

/// An export asks the engine for the table that the caller names, over exactly the caller's start
/// and end, unless both are zero, which asks for all of time. The bytes are the engine's.
pub proof fn exports_cover_the_callers_range<
    D,
    F: FnOnce(&imbh_db<D>, Table, ExportRange) -> Result<Vec<u8>, EngineError>,
>(
    db: &imbh_db<D>,
    table: imbh_table,
    named: Table,
    start_unix_nanos: i64,
    end_unix_nanos: i64,
    out: &mut imbh_bytes,
    export: F,
    reply: Result<Vec<u8>, EngineError>,
    last: &mut LastError,
    code: imbh_error,
)
    requires
        named == engine_table(table),
        forall|range: ExportRange, r: Result<Vec<u8>, EngineError>| #[trigger]
            export.ensures((db, named, range), r) && (start_unix_nanos == 0 && end_unix_nanos == 0
                ==> range is All) && (start_unix_nanos != 0 || end_unix_nanos != 0 ==> (
            range matches ExportRange::Within(within) && within.start == start_unix_nanos
                && within.end == end_unix_nanos)) ==> r == reply,
        call_ensures(
            imbh_db_export::<D, F>,
            (Some(db), table, start_unix_nanos, end_unix_nanos, Some(out), export, last),
            code,
        ),
    ensures
        reply matches Err(e) ==> engine_failed(code, *final(last), e) && *final(out) == *old(out),
        reply matches Ok(bytes) ==> {
            &&& code == imbh_error::Success
            &&& final(out).len == bytes@.len()
            &&& final(out).data@.len() == bytes@.len()
            &&& forall|i: int|
                0 <= i < bytes@.len() ==> #[trigger] final(out).data@[i] == bytes@[i]
        },
{
}

/// The time range of an export is all of time only where both ends are zero, and otherwise has the
/// caller's start and the caller's end, so two ranges are the same only where both ends are.
pub proof fn export_ranges_keep_both_ends(start: i64, end: i64, other_start: i64, other_end: i64)
    ensures
        start == 0 && end == 0 <==> export_range(start, end) is All,
        export_range(start, end) matches ExportRange::Within(within) ==> within.start == start
            && within.end == end,
        export_range(start, end) == export_range(other_start, other_end) <==> start == other_start
            && end == other_end,
{
}

/// Flushing, maintaining and compacting report what the engine replies, and the caller, who may do
/// without the report, gets the engine's.
pub proof fn upkeep_reports_what_the_engine_replies<
    D,
    F: FnOnce(&imbh_db<D>) -> Result<(), EngineError>,
    G: FnOnce(&imbh_db<D>) -> Result<imbh_maintenance_report, EngineError>,
    H: FnOnce(&imbh_db<D>) -> Result<imbh_compaction_report, EngineError>,
>(
    db: &imbh_db<D>,
    flush: F,
    maintain: G,
    compact: H,
    flushed: Result<(), EngineError>,
    maintained: Result<imbh_maintenance_report, EngineError>,
    compacted: Result<imbh_compaction_report, EngineError>,
    upkeep: &mut imbh_maintenance_report,
    compaction: &mut imbh_compaction_report,
    last: &mut LastError,
    code: imbh_error,
)
    requires
        forall|r: Result<(), EngineError>| #[trigger] flush.ensures((db,), r) ==> r == flushed,
        forall|r: Result<imbh_maintenance_report, EngineError>| #[trigger]
            maintain.ensures((db,), r) ==> r == maintained,
        forall|r: Result<imbh_compaction_report, EngineError>| #[trigger]
            compact.ensures((db,), r) ==> r == compacted,
    ensures
        call_ensures(imbh_db_flush::<D, F>, (Some(db), flush, last), code) ==> match flushed {
            Err(e) => engine_failed(code, *final(last), e),
            Ok(()) => code == imbh_error::Success && final(last)@ is None,
        },
        call_ensures(
            imbh_db_maintain::<D, G>,
            (Some(db), Some(upkeep), maintain, last),
            code,
        ) ==> match maintained {
            Err(e) => engine_failed(code, *final(last), e) && *final(upkeep) == *old(upkeep),
            Ok(r) => code == imbh_error::Success && *final(upkeep) == r,
        },
        call_ensures(
            imbh_db_maintain::<D, G>,
            (Some(db), None::<&mut imbh_maintenance_report>, maintain, last),
            code,
        ) ==> match maintained {
            Err(e) => engine_failed(code, *final(last), e),
            Ok(r) => code == imbh_error::Success,
        },
        call_ensures(
            imbh_db_compact::<D, H>,
            (Some(db), Some(compaction), compact, last),
            code,
        ) ==> match compacted {
            Err(e) => engine_failed(code, *final(last), e) && *final(compaction) == *old(
                compaction,
            ),
            Ok(r) => code == imbh_error::Success && *final(compaction) == r,
        },
        call_ensures(
            imbh_db_compact::<D, H>,
            (Some(db), None::<&mut imbh_compaction_report>, compact, last),
            code,
        ) ==> match compacted {
            Err(e) => engine_failed(code, *final(last), e),
            Ok(r) => code == imbh_error::Success,
        },
{
}

/// The statistics that are handed out are the engine's, each under its own name, and the totals are
/// the sums over its tables. A total that does not fit ends the call as an overflow does.
pub proof fn statistics_are_those_of_the_engine<
    D,
    F: FnOnce(&imbh_db<D>) -> Result<DbStats, EngineError>,
>(
    db: &imbh_db<D>,
    out: &mut imbh_stats,
    stats: F,
    reply: Result<DbStats, EngineError>,
    last: &mut LastError,
    code: imbh_error,
)
    requires
        forall|r: Result<DbStats, EngineError>| #[trigger] stats.ensures((db,), r) ==> r == reply,
        call_ensures(imbh_db_stats::<D, F>, (Some(db), Some(out), stats, last), code),
    ensures
        reply matches Err(e) ==> engine_failed(code, *final(last), e),
        reply matches Ok(s) ==> {
            let fit = total(s.tables@, 0) <= u64::MAX && total(s.tables@, 1) <= u64::MAX && total(
                s.tables@,
                2,
            ) <= u64::MAX;
            &&& !fit ==> panicked(code, *final(last), "attempt to add with overflow"@)
            &&& fit ==> {
                &&& code == imbh_error::Success
                &&& final(out).buffer_bytes == s.buffer_bytes
                &&& final(out).wal_bytes == s.wal_bytes
                &&& s.durable_lsn matches Some(n) ==> final(out).durable_lsn == n
                &&& s.durable_lsn is None ==> final(out).durable_lsn == 0
                &&& final(out).ingest_queue_depth == s.ingest_queue_depth
                &&& final(out).ingest_dropped == s.ingest_dropped
                &&& final(out).ingest_errors == s.ingest_errors
                &&& final(out).total_segment_count == total(s.tables@, 0)
                &&& final(out).total_segment_rows == total(s.tables@, 1)
                &&& final(out).total_buffer_rows == total(s.tables@, 2)
            }
        },
        code != imbh_error::Success ==> *final(out) == *old(out),
{
    if let Ok(s) = reply {
        assert(total(s.tables@, 0) <= u64::MAX && total(s.tables@, 1) <= u64::MAX && total(
            s.tables@,
            2,
        ) <= u64::MAX <==> totals_fit(s.tables@)) by {
            if totals_fit(s.tables@) {
                assert(total(s.tables@, 0) <= u64::MAX);
                assert(total(s.tables@, 1) <= u64::MAX);
                assert(total(s.tables@, 2) <= u64::MAX);
            }
        }
    }
}

/// The statistics of a table are those of the engine's first entry for the table that the caller
/// names. A table without an entry is unknown.
pub proof fn table_statistics_are_those_of_the_engine<
    D,
    F: FnOnce(&imbh_db<D>) -> Result<DbStats, EngineError>,
>(
    db: &imbh_db<D>,
    table: imbh_table,
    named: Table,
    out: &mut imbh_table_stats,
    stats: F,
    s: DbStats,
    i: int,
    last: &mut LastError,
    code: imbh_error,
)
    requires
        named == engine_table(table),
        forall|r: Result<DbStats, EngineError>| #[trigger]
            stats.ensures((db,), r) ==> r == Ok::<DbStats, EngineError>(s),
        0 <= i <= s.tables@.len(),
        forall|j: int| 0 <= j < i ==> (#[trigger] s.tables@[j]).table != named,
        i < s.tables@.len() ==> s.tables@[i].table == named,
        call_ensures(imbh_db_table_stats::<D, F>, (Some(db), table, Some(out), stats, last), code),
    ensures
        i == s.tables@.len() ==> rejected(code, *final(last), "unknown table"@) && *final(out)
            == *old(out),
        i < s.tables@.len() ==> {
            let t = s.tables@[i];
            &&& code == imbh_error::Success
            &&& final(out).table == table
            &&& final(out).segment_count == t.segment_count
            &&& final(out).segment_rows == t.segment_rows
            &&& final(out).buffer_rows == t.buffer_rows
            &&& t.min_time_unix_nano matches Some(n) ==> final(out).min_time_unix_nano == n
            &&& t.min_time_unix_nano is None ==> final(out).min_time_unix_nano == 0
            &&& t.max_time_unix_nano matches Some(n) ==> final(out).max_time_unix_nano == n
            &&& t.max_time_unix_nano is None ==> final(out).max_time_unix_nano == 0
            &&& final(out).has_time_bounds <==> t.min_time_unix_nano is Some
                && t.max_time_unix_nano is Some
        },
{
}

/// A snapshot goes to the directory that the caller names, and its record is the engine's. The
/// sequence number that is durable is the engine's, or zero where there is none.
pub proof fn snapshots_and_sequence_numbers_are_those_of_the_engine<
    D,
    F: FnOnce(&imbh_db<D>, &str) -> Result<imbh_snapshot_info, EngineError>,
    G: FnOnce(&imbh_db<D>) -> Option<u64>,
>(
    db: &imbh_db<D>,
    dir: &[u8],
    text: Seq<char>,
    info: &mut imbh_snapshot_info,
    snapshot: F,
    taken: Result<imbh_snapshot_info, EngineError>,
    lsn: &mut u64,
    durable: G,
    reached: Option<u64>,
    last: &mut LastError,
    code: imbh_error,
)
    requires
        dir@ == encode_utf8(text),
        forall|asked: &str, r: Result<imbh_snapshot_info, EngineError>| #[trigger]
            snapshot.ensures((db, asked), r) && asked@ == text ==> r == taken,
        forall|r: Option<u64>| #[trigger] durable.ensures((db,), r) ==> r == reached,
    ensures
        call_ensures(
            imbh_db_snapshot::<D, F>,
            (Some(db), Some(dir), Some(info), snapshot, last),
            code,
        ) ==> match taken {
            Err(e) => engine_failed(code, *final(last), e) && *final(info) == *old(info),
            Ok(r) => code == imbh_error::Success && *final(info) == r,
        },
        call_ensures(
            imbh_db_snapshot::<D, F>,
            (Some(db), Some(dir), None::<&mut imbh_snapshot_info>, snapshot, last),
            code,
        ) ==> match taken {
            Err(e) => engine_failed(code, *final(last), e),
            Ok(r) => code == imbh_error::Success,
        },
        call_ensures(
            imbh_db_durable_through::<D, G>,
            (Some(db), Some(lsn), durable, last),
            code,
        ) ==> {
            &&& code == imbh_error::Success
            &&& reached matches Some(n) ==> *final(lsn) == n
            &&& reached is None ==> *final(lsn) == 0
        },
{
    texts_survive_the_boundary(text, dir);
}

/// [`imbh_db_ingest_logs`] refuses a null handle, whatever else it is given.
pub proof fn ingest_logs_refuses_nulls<
    D,
    F: FnOnce(&imbh_db<D>, &[u8]) -> Result<IngestReceipt, EngineError>,
>(
    db: &imbh_db<D>,
    otlp: Option<&[u8]>,
    len: usize,
    receipt: Option<&mut imbh_ingest_receipt>,
    ingest: F,
    last: &mut LastError,
    code: imbh_error,
)
    ensures
        call_ensures(
            imbh_db_ingest_logs::<D, F>,
            (None::<&imbh_db<D>>, otlp, len, receipt, ingest, last),
            code,
        ) ==> rejected(code, *final(last), "null imbh_db handle"@),
{
}

/// [`imbh_db_ingest_traces`] refuses a null handle, whatever else it is given.
pub proof fn ingest_traces_refuses_nulls<
    D,
    F: FnOnce(&imbh_db<D>, &[u8]) -> Result<IngestReceipt, EngineError>,
>(
    db: &imbh_db<D>,
    otlp: Option<&[u8]>,
    len: usize,
    receipt: Option<&mut imbh_ingest_receipt>,
    ingest: F,
    last: &mut LastError,
    code: imbh_error,
)
    ensures
        call_ensures(
            imbh_db_ingest_traces::<D, F>,
            (None::<&imbh_db<D>>, otlp, len, receipt, ingest, last),
            code,
        ) ==> rejected(code, *final(last), "null imbh_db handle"@),
{
}

/// [`imbh_db_ingest_metrics`] refuses a null handle, whatever else it is given.
pub proof fn ingest_metrics_refuses_nulls<
    D,
    F: FnOnce(&imbh_db<D>, &[u8]) -> Result<IngestReceipt, EngineError>,
>(
    db: &imbh_db<D>,
    otlp: Option<&[u8]>,
    len: usize,
    receipt: Option<&mut imbh_ingest_receipt>,
    ingest: F,
    last: &mut LastError,
    code: imbh_error,
)
    ensures
        call_ensures(
            imbh_db_ingest_metrics::<D, F>,
            (None::<&imbh_db<D>>, otlp, len, receipt, ingest, last),
            code,
        ) ==> rejected(code, *final(last), "null imbh_db handle"@),
{
}

/// [`imbh_db_flush`] refuses a null handle, whatever else it is given.
pub proof fn flush_refuses_nulls<D, F: FnOnce(&imbh_db<D>) -> Result<(), EngineError>>(
    db: &imbh_db<D>,
    flush: F,
    last: &mut LastError,
    code: imbh_error,
)
    ensures
        call_ensures(imbh_db_flush::<D, F>, (None::<&imbh_db<D>>, flush, last), code) ==> rejected(
            code,
            *final(last),
            "null imbh_db handle"@,
        ),
{
}

/// [`imbh_db_maintain`] refuses a null handle, whatever else it is given.
pub proof fn maintain_refuses_nulls<
    D,
    F: FnOnce(&imbh_db<D>) -> Result<imbh_maintenance_report, EngineError>,
>(
    db: &imbh_db<D>,
    report: Option<&mut imbh_maintenance_report>,
    maintain: F,
    last: &mut LastError,
    code: imbh_error,
)
    ensures
        call_ensures(
            imbh_db_maintain::<D, F>,
            (None::<&imbh_db<D>>, report, maintain, last),
            code,
        ) ==> rejected(code, *final(last), "null imbh_db handle"@),
{
}

/// [`imbh_db_compact`] refuses a null handle, whatever else it is given.
pub proof fn compact_refuses_nulls<
    D,
    F: FnOnce(&imbh_db<D>) -> Result<imbh_compaction_report, EngineError>,
>(
    db: &imbh_db<D>,
    report: Option<&mut imbh_compaction_report>,
    compact: F,
    last: &mut LastError,
    code: imbh_error,
)
    ensures
        call_ensures(
            imbh_db_compact::<D, F>,
            (None::<&imbh_db<D>>, report, compact, last),
            code,
        ) ==> rejected(code, *final(last), "null imbh_db handle"@),
{
}

/// [`imbh_db_stats`] refuses a null handle and a null output, each with its own message, whatever
/// else it is given.
pub proof fn stats_refuses_nulls<D, F: FnOnce(&imbh_db<D>) -> Result<DbStats, EngineError>>(
    db: &imbh_db<D>,
    out: Option<&mut imbh_stats>,
    stats: F,
    last: &mut LastError,
    code: imbh_error,
)
    ensures
        call_ensures(
            imbh_db_stats::<D, F>,
            (None::<&imbh_db<D>>, out, stats, last),
            code,
        ) ==> rejected(code, *final(last), "null imbh_db handle"@),
        call_ensures(
            imbh_db_stats::<D, F>,
            (Some(db), None::<&mut imbh_stats>, stats, last),
            code,
        ) ==> rejected(code, *final(last), "null out pointer"@),
{
}

/// [`imbh_db_table_stats`] refuses a null handle and a null output, each with its own message,
/// whatever else it is given.
pub proof fn table_stats_refuses_nulls<D, F: FnOnce(&imbh_db<D>) -> Result<DbStats, EngineError>>(
    db: &imbh_db<D>,
    table: imbh_table,
    out: Option<&mut imbh_table_stats>,
    stats: F,
    last: &mut LastError,
    code: imbh_error,
)
    ensures
        call_ensures(
            imbh_db_table_stats::<D, F>,
            (None::<&imbh_db<D>>, table, out, stats, last),
            code,
        ) ==> rejected(code, *final(last), "null imbh_db handle"@),
        call_ensures(
            imbh_db_table_stats::<D, F>,
            (Some(db), table, None::<&mut imbh_table_stats>, stats, last),
            code,
        ) ==> rejected(code, *final(last), "null out pointer"@),
{
}

/// [`imbh_db_snapshot`] refuses a null handle and a null string, each with its own message,
/// whatever else it is given.
pub proof fn snapshot_refuses_nulls<
    D,
    F: FnOnce(&imbh_db<D>, &str) -> Result<imbh_snapshot_info, EngineError>,
>(
    db: &imbh_db<D>,
    dir: &[u8],
    info: Option<&mut imbh_snapshot_info>,
    snapshot: F,
    last: &mut LastError,
    code: imbh_error,
)
    ensures
        call_ensures(
            imbh_db_snapshot::<D, F>,
            (None::<&imbh_db<D>>, Some(dir), info, snapshot, last),
            code,
        ) ==> rejected(code, *final(last), "null imbh_db handle"@),
        call_ensures(
            imbh_db_snapshot::<D, F>,
            (Some(db), None::<&[u8]>, info, snapshot, last),
            code,
        ) ==> rejected(code, *final(last), "null string pointer"@),
{
}

/// [`imbh_db_durable_through`] refuses a null handle and a null output, each with its own message,
/// whatever else it is given.
pub proof fn durable_through_refuses_nulls<D, F: FnOnce(&imbh_db<D>) -> Option<u64>>(
    db: &imbh_db<D>,
    lsn: Option<&mut u64>,
    durable: F,
    last: &mut LastError,
    code: imbh_error,
)
    ensures
        call_ensures(
            imbh_db_durable_through::<D, F>,
            (None::<&imbh_db<D>>, lsn, durable, last),
            code,
        ) ==> rejected(code, *final(last), "null imbh_db handle"@),
        call_ensures(
            imbh_db_durable_through::<D, F>,
            (Some(db), None::<&mut u64>, durable, last),
            code,
        ) ==> rejected(code, *final(last), "null out pointer"@),
{
}

/// [`imbh_db_export`] refuses a null handle and a null output, each with its own message, whatever
/// else it is given.
pub proof fn export_refuses_nulls<
    D,
    F: FnOnce(&imbh_db<D>, Table, ExportRange) -> Result<Vec<u8>, EngineError>,
>(
    db: &imbh_db<D>,
    table: imbh_table,
    start_unix_nanos: i64,
    end_unix_nanos: i64,
    out: Option<&mut imbh_bytes>,
    export: F,
    last: &mut LastError,
    code: imbh_error,
)
    ensures
        call_ensures(
            imbh_db_export::<D, F>,
            (None::<&imbh_db<D>>, table, start_unix_nanos, end_unix_nanos, out, export, last),
            code,
        ) ==> rejected(code, *final(last), "null imbh_db handle"@),
        call_ensures(
            imbh_db_export::<D, F>,
            (
                Some(db),
                table,
                start_unix_nanos,
                end_unix_nanos,
                None::<&mut imbh_bytes>,
                export,
                last,
            ),
            code,
        ) ==> rejected(code, *final(last), "null out pointer"@),
{
}

} // verus!
