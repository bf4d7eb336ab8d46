//! Running the typed queries.
//!
//! Each entry point takes a builder and the engine's part as a closure: validating the builder and
//! running the query it describes.

use vstd::prelude::*;

use crate::args::{c_string_array, handle, holds_strings, read_str_array};
use crate::arrow_stream::{
    batches_cells, export_batches_infer, inferred_columns, stream_cells, stream_columns, streams,
};
use crate::batches::{
    columns_reach_the_caller_as_they_are, def, deliver, hands_over, lemma_textless, series_batch,
    series_defs, summary_cells, summary_defs, trace_summary_batch, volume_batch, volume_defs,
    TraceSummary,
};
use crate::columnar::{
    batch_cells, batch_columns, Cell, ColumnType, even_columns, float64_cells, int64_cells,
    string_cells, text_bytes, Batch,
};
use crate::db::imbh_db;
use crate::discovery::{encodes, labels_to_json, string_entries, AnyValue};
use crate::error::{
    engine_failed, imbh_error, invalid_arg, LastError, panicked, rejected, settle, settled,
    settle_panic, succeeded, CallError, EngineError,
};
use crate::filters::{
    copy_lists, copy_nums, copy_pairs, copy_text, copy_texts, pair_texts, KeyValue,
    TimeRange,
};
use crate::ids::hex_text;
use crate::log_query::{imbh_log_query, LogQueryView};
use crate::metric_points_query::{imbh_metric_points_query, MetricPointsQueryView};
use crate::metric_query::imbh_metric_query;
use crate::operators::imbh_metric_point_kind;
use crate::span_metrics_query::imbh_span_metrics_query;
use crate::stats::{imbh_query_stats, write_query_stats};
use crate::text::texts;
use crate::trace_query::imbh_trace_query;

verus! {

/// Run a typed log query with `run`: the matched rows go to `out` as an Arrow stream, the scan
/// statistics to `stats` unless it is null.
pub fn imbh_db_logs_query<
    D,
    F: FnOnce(&imbh_db<D>, &imbh_log_query) -> Result<(Vec<Batch>, imbh_query_stats), EngineError>,
>(
    db: Option<&imbh_db<D>>,
    query: Option<&imbh_log_query>,
    out: Option<&mut arrow::ffi_stream::FFI_ArrowArrayStream>,
    stats: Option<&mut imbh_query_stats>,
    run: F,
    last: &mut LastError,
) -> (code: imbh_error)
    requires
        db matches Some(h) ==> (query matches Some(q) ==> (out is Some ==> run.requires((h, q)))),
    ensures
        db is None ==> rejected(code, *final(last), "null imbh_db handle"@),
        db is Some && query is None ==> rejected(code, *final(last), "null imbh_log_query"@),
        db is Some && query is Some && out is None ==> rejected(
            code,
            *final(last),
            "null out stream pointer"@,
        ),
        db matches Some(h) ==> (query matches Some(q) ==> (out matches Some(o) ==> exists|
            reply: Result<(Vec<Batch>, imbh_query_stats), EngineError>,
        | #[trigger]
            run.ensures((h, q), reply) && match reply {
                Err(e) => engine_failed(code, *final(last), e),
                Ok((batches, scan)) => {
                    &&& succeeded(code, *final(last))
                    &&& streams(*final(o), inferred_columns(batches@), batches_cells(batches@))
                    &&& stats matches Some(s) ==> *final(s) == scan
                },
            })),
        code != imbh_error::Success ==> (out matches Some(o) ==> *final(o) == *o),
        code != imbh_error::Success ==> (stats matches Some(s) ==> *final(s) == *s),
        settled(code, *final(last)),
{
    let h = match handle(db) {
        Ok(h) => h,
        Err(e) => return settle(Err(e), last),
    };
    let q = match query {
        Some(q) => q,
        None => return settle(Err(invalid_arg("null imbh_log_query")), last),
    };
    match out {
        None => settle(Err(invalid_arg("null out stream pointer")), last),
        Some(o) => match run(h, q) {
            Err(e) => settle(Err(CallError::Imbh(e)), last),
            Ok((batches, scan)) => {
                write_query_stats(stats, scan);
                *o = export_batches_infer(batches);
                settle(Ok(()), last)
            },
        },
    }
}

/// Run a typed metric range query with `run`: the matched rows go to `out` as an Arrow stream, the
/// scan statistics to `stats` unless it is null.
pub fn imbh_db_metrics_range<
    D,
    F: FnOnce(&imbh_db<D>, &imbh_metric_query) -> Result<
        (Vec<Batch>, imbh_query_stats),
        EngineError,
    >,
>(
    db: Option<&imbh_db<D>>,
    query: Option<&imbh_metric_query>,
    out: Option<&mut arrow::ffi_stream::FFI_ArrowArrayStream>,
    stats: Option<&mut imbh_query_stats>,
    run: F,
    last: &mut LastError,
) -> (code: imbh_error)
    requires
        db matches Some(h) ==> (query matches Some(q) ==> (out is Some ==> run.requires((h, q)))),
    ensures
        db is None ==> rejected(code, *final(last), "null imbh_db handle"@),
        db is Some && query is None ==> rejected(code, *final(last), "null imbh_metric_query"@),
        db is Some && query is Some && out is None ==> rejected(
            code,
            *final(last),
            "null out stream pointer"@,
        ),
        db matches Some(h) ==> (query matches Some(q) ==> (out matches Some(o) ==> exists|
            reply: Result<(Vec<Batch>, imbh_query_stats), EngineError>,
        | #[trigger]
            run.ensures((h, q), reply) && match reply {
                Err(e) => engine_failed(code, *final(last), e),
                Ok((batches, scan)) => {
                    &&& succeeded(code, *final(last))
                    &&& streams(*final(o), inferred_columns(batches@), batches_cells(batches@))
                    &&& stats matches Some(s) ==> *final(s) == scan
                },
            })),
        code != imbh_error::Success ==> (out matches Some(o) ==> *final(o) == *o),
        code != imbh_error::Success ==> (stats matches Some(s) ==> *final(s) == *s),
        settled(code, *final(last)),
{
    let h = match handle(db) {
        Ok(h) => h,
        Err(e) => return settle(Err(e), last),
    };
    let q = match query {
        Some(q) => q,
        None => return settle(Err(invalid_arg("null imbh_metric_query")), last),
    };
    match out {
        None => settle(Err(invalid_arg("null out stream pointer")), last),
        Some(o) => match run(h, q) {
            Err(e) => settle(Err(CallError::Imbh(e)), last),
            Ok((batches, scan)) => {
                write_query_stats(stats, scan);
                *o = export_batches_infer(batches);
                settle(Ok(()), last)
            },
        },
    }
}

/// Run a typed span-metrics (RED) query with `run`: the matched rows go to `out` as an Arrow
/// stream, the scan statistics to `stats` unless it is null.
pub fn imbh_db_traces_span_metrics<
    D,
    F: FnOnce(&imbh_db<D>, &imbh_span_metrics_query) -> Result<
        (Vec<Batch>, imbh_query_stats),
        EngineError,
    >,
>(
    db: Option<&imbh_db<D>>,
    query: Option<&imbh_span_metrics_query>,
    out: Option<&mut arrow::ffi_stream::FFI_ArrowArrayStream>,
    stats: Option<&mut imbh_query_stats>,
    run: F,
    last: &mut LastError,
) -> (code: imbh_error)
    requires
        db matches Some(h) ==> (query matches Some(q) ==> (out is Some ==> run.requires((h, q)))),
    ensures
        db is None ==> rejected(code, *final(last), "null imbh_db handle"@),
        db is Some && query is None ==> rejected(
            code,
            *final(last),
            "null imbh_span_metrics_query"@,
        ),
        db is Some && query is Some && out is None ==> rejected(
            code,
            *final(last),
            "null out stream pointer"@,
        ),
        db matches Some(h) ==> (query matches Some(q) ==> (out matches Some(o) ==> exists|
            reply: Result<(Vec<Batch>, imbh_query_stats), EngineError>,
        | #[trigger]
            run.ensures((h, q), reply) && match reply {
                Err(e) => engine_failed(code, *final(last), e),
                Ok((batches, scan)) => {
                    &&& succeeded(code, *final(last))
                    &&& streams(*final(o), inferred_columns(batches@), batches_cells(batches@))
                    &&& stats matches Some(s) ==> *final(s) == scan
                },
            })),
        code != imbh_error::Success ==> (out matches Some(o) ==> *final(o) == *o),
        code != imbh_error::Success ==> (stats matches Some(s) ==> *final(s) == *s),
        settled(code, *final(last)),
{
    let h = match handle(db) {
        Ok(h) => h,
        Err(e) => return settle(Err(e), last),
    };
    let q = match query {
        Some(q) => q,
        None => return settle(Err(invalid_arg("null imbh_span_metrics_query")), last),
    };
    match out {
        None => settle(Err(invalid_arg("null out stream pointer")), last),
        Some(o) => match run(h, q) {
            Err(e) => settle(Err(CallError::Imbh(e)), last),
            Ok((batches, scan)) => {
                write_query_stats(stats, scan);
                *o = export_batches_infer(batches);
                settle(Ok(()), last)
            },
        },
    }
}

/// The last sample of one series. The value is held by its IEEE-754 bits.
#[derive(Debug)]
pub struct InstantSample {
    pub labels: Vec<(String, String)>,
    pub time: i64,
    pub value_bits: u64,
}

/// The times of instant samples.
pub open spec fn sample_times(samples: Seq<InstantSample>) -> Seq<Cell> {
    samples.map_values(|s: InstantSample| Cell::Int64(s.time))
}

/// The values of instant samples.
pub open spec fn sample_values(samples: Seq<InstantSample>) -> Seq<Cell> {
    samples.map_values(|s: InstantSample| Cell::Float64(s.value_bits))
}

/// Each text is what the encoder makes of the labels of the sample at its place.
pub open spec fn encodes_samples<G: Fn(&Vec<(String, AnyValue)>) -> String>(
    encode: G,
    samples: Seq<InstantSample>,
    labels: Seq<String>,
) -> bool {
    &&& labels.len() == samples.len()
    &&& forall|i: int|
        0 <= i < samples.len() ==> encodes(encode, samples[i].labels@, #[trigger] labels[i])
}

/// The outcome of handing instant samples over: the columns `labels`, `timestamp` and `value`, one
/// row a series.
pub open spec fn hands_samples_over<G: Fn(&Vec<(String, AnyValue)>) -> String>(
    samples: Seq<InstantSample>,
    encode: G,
    before: arrow::ffi_stream::FFI_ArrowArrayStream,
    after: arrow::ffi_stream::FFI_ArrowArrayStream,
    code: imbh_error,
    last: LastError,
) -> bool {
    exists|labels: Seq<String>| #[trigger]
        encodes_samples(encode, samples, labels) && hands_over(
            series_defs(),
            seq![string_cells(labels), sample_times(samples), sample_values(samples)],
            before,
            after,
            code,
            last,
        )
}

/// Hand instant samples to the caller.
pub fn deliver_samples<G: Fn(&Vec<(String, AnyValue)>) -> String>(
    samples: Vec<InstantSample>,
    encode: &G,
    out: &mut arrow::ffi_stream::FFI_ArrowArrayStream,
    last: &mut LastError,
) -> (code: imbh_error)
    requires
        forall|entries: &Vec<(String, AnyValue)>| #[trigger] encode.requires((entries,)),
    ensures
        hands_samples_over(samples@, *encode, *old(out), *final(out), code, *final(last)),
{
    let ghost all = samples@;
    let mut labels: Vec<String> = Vec::new();
    let mut ts: Vec<i64> = Vec::new();
    let mut vals: Vec<u64> = Vec::new();
    for s in it: samples.into_iter()
        invariant
            forall|entries: &Vec<(String, AnyValue)>| #[trigger] encode.requires((entries,)),
            it.seq() == all,
            labels@.len() == it.index(),
            ts@.len() == it.index(),
            vals@.len() == it.index(),
            forall|j: int|
                0 <= j < it.index() ==> encodes(*encode, all[j].labels@, #[trigger] labels@[j]),
            forall|j: int| 0 <= j < it.index() ==> #[trigger] ts@[j] == all[j].time,
            forall|j: int| 0 <= j < it.index() ==> #[trigger] vals@[j] == all[j].value_bits,
    {
        labels.push(labels_to_json(s.labels, encode));
        ts.push(s.time);
        vals.push(s.value_bits);
    }
    let ghost texts = labels@;
    assert(encodes_samples(*encode, all, texts));
    assert(int64_cells(ts@) =~= sample_times(all));
    assert(float64_cells(vals@) =~= sample_values(all));
    deliver(series_batch(labels, ts, vals), out, last)
}

/// Run an instant metric query with `run`: the last sample per series, its labels encoded by
/// `encode`.
pub fn imbh_db_metrics_instant<
    D,
    F: FnOnce(&imbh_db<D>, &imbh_metric_query) -> Result<Vec<InstantSample>, EngineError>,
    G: Fn(&Vec<(String, AnyValue)>) -> String,
>(
    db: Option<&imbh_db<D>>,
    query: Option<&imbh_metric_query>,
    out: Option<&mut arrow::ffi_stream::FFI_ArrowArrayStream>,
    run: F,
    encode: &G,
    last: &mut LastError,
) -> (code: imbh_error)
    requires
        db matches Some(h) ==> (query matches Some(q) ==> (out is Some ==> run.requires((h, q)))),
        db is Some && query is Some && out is Some ==> forall|entries: &Vec<(String, AnyValue)>|
            #[trigger]
            encode.requires((entries,)),
    ensures
        db is None ==> rejected(code, *final(last), "null imbh_db handle"@),
        db is Some && query is None ==> rejected(code, *final(last), "null imbh_metric_query"@),
        db is Some && query is Some && out is None ==> rejected(
            code,
            *final(last),
            "null out stream pointer"@,
        ),
        db matches Some(h) ==> (query matches Some(q) ==> (out matches Some(o) ==> exists|
            reply: Result<Vec<InstantSample>, EngineError>,
        | #[trigger]
            run.ensures((h, q), reply) && match reply {
                Err(e) => engine_failed(code, *final(last), e),
                Ok(samples) => hands_samples_over(
                    samples@,
                    *encode,
                    *o,
                    *final(o),
                    code,
                    *final(last),
                ),
            })),
        code != imbh_error::Success ==> (out matches Some(o) ==> *final(o) == *o),
        settled(code, *final(last)),
{
    let h = match handle(db) {
        Ok(h) => h,
        Err(e) => return settle(Err(e), last),
    };
    let q = match query {
        Some(q) => q,
        None => return settle(Err(invalid_arg("null imbh_metric_query")), last),
    };
    match out {
        None => settle(Err(invalid_arg("null out stream pointer")), last),
        Some(o) => match run(h, q) {
            Err(e) => settle(Err(CallError::Imbh(e)), last),
            Ok(samples) => deliver_samples(samples, encode, o, last),
        },
    }
}

/// The log lines counted in one step bucket for one label set.
#[derive(Debug)]
pub struct VolumeBucket {
    pub time: i64,
    pub labels: Vec<(String, String)>,
    pub count: u64,
}

/// The times of volume buckets.
pub open spec fn bucket_times(buckets: Seq<VolumeBucket>) -> Seq<Cell> {
    buckets.map_values(|b: VolumeBucket| Cell::Int64(b.time))
}

/// The counts of volume buckets. A count over the range of the column wraps.
pub open spec fn bucket_counts(buckets: Seq<VolumeBucket>) -> Seq<Cell> {
    buckets.map_values(|b: VolumeBucket| Cell::Int64(b.count as i64))
}

/// Each text is what the encoder makes of the labels of the bucket at its place.
pub open spec fn encodes_buckets<G: Fn(&Vec<(String, AnyValue)>) -> String>(
    encode: G,
    buckets: Seq<VolumeBucket>,
    labels: Seq<String>,
) -> bool {
    &&& labels.len() == buckets.len()
    &&& forall|i: int|
        0 <= i < buckets.len() ==> encodes(encode, buckets[i].labels@, #[trigger] labels[i])
}

/// The outcome of handing volume buckets over: the columns `bucket_time`, `labels` and `count`, one
/// row a bucket and label set.
pub open spec fn hands_buckets_over<G: Fn(&Vec<(String, AnyValue)>) -> String>(
    buckets: Seq<VolumeBucket>,
    encode: G,
    before: arrow::ffi_stream::FFI_ArrowArrayStream,
    after: arrow::ffi_stream::FFI_ArrowArrayStream,
    code: imbh_error,
    last: LastError,
) -> bool {
    exists|labels: Seq<String>| #[trigger]
        encodes_buckets(encode, buckets, labels) && hands_over(
            volume_defs(),
            seq![bucket_times(buckets), string_cells(labels), bucket_counts(buckets)],
            before,
            after,
            code,
            last,
        )
}

/// Hand volume buckets to the caller.
pub fn deliver_buckets<G: Fn(&Vec<(String, AnyValue)>) -> String>(
    buckets: Vec<VolumeBucket>,
    encode: &G,
    out: &mut arrow::ffi_stream::FFI_ArrowArrayStream,
    last: &mut LastError,
) -> (code: imbh_error)
    requires
        forall|entries: &Vec<(String, AnyValue)>| #[trigger] encode.requires((entries,)),
    ensures
        hands_buckets_over(buckets@, *encode, *old(out), *final(out), code, *final(last)),
{
    let ghost all = buckets@;
    let mut times: Vec<i64> = Vec::new();
    let mut labels: Vec<String> = Vec::new();
    let mut counts: Vec<i64> = Vec::new();
    for b in it: buckets.into_iter()
        invariant
            forall|entries: &Vec<(String, AnyValue)>| #[trigger] encode.requires((entries,)),
            it.seq() == all,
            times@.len() == it.index(),
            labels@.len() == it.index(),
            counts@.len() == it.index(),
            forall|j: int| 0 <= j < it.index() ==> #[trigger] times@[j] == all[j].time,
            forall|j: int|
                0 <= j < it.index() ==> encodes(*encode, all[j].labels@, #[trigger] labels@[j]),
            forall|j: int| 0 <= j < it.index() ==> #[trigger] counts@[j] == all[j].count as i64,
    {
        times.push(b.time);
        labels.push(labels_to_json(b.labels, encode));
        counts.push(b.count as i64);
    }
    let ghost texts = labels@;
    assert(encodes_buckets(*encode, all, texts));
    assert(int64_cells(times@) =~= bucket_times(all));
    assert(int64_cells(counts@) =~= bucket_counts(all));
    deliver(volume_batch(times, labels, counts), out, last)
}

/// The step that a volume query runs with: at least a nanosecond.
pub open spec fn volume_step(step_nanos: u64) -> u64 {
    if step_nanos == 0 {
        1
    } else {
        step_nanos
    }
}

/// Run a log-volume query: `build` validates the builder, `run` counts the lines per step bucket
/// and label set of the `group_by` keys, and `encode` encodes the label sets. The keys may be null
/// if there are none.
pub fn imbh_db_logs_volume<
    D,
    Q,
    B: FnOnce(&imbh_log_query) -> Result<Q, EngineError>,
    F: FnOnce(&imbh_db<D>, Q, u64, &Vec<String>) -> Result<Vec<VolumeBucket>, EngineError>,
    G: Fn(&Vec<(String, AnyValue)>) -> String,
>(
    db: Option<&imbh_db<D>>,
    query: Option<&imbh_log_query>,
    step_nanos: u64,
    group_by: Option<&[Option<&[u8]>]>,
    group_by_len: usize,
    out: Option<&mut arrow::ffi_stream::FFI_ArrowArrayStream>,
    build: B,
    run: F,
    encode: &G,
    last: &mut LastError,
) -> (code: imbh_error)
    requires
        holds_strings(group_by, group_by_len),
        query matches Some(q) ==> (db is Some && out is Some ==> build.requires((q,))),
        db matches Some(h) ==> (query matches Some(q) ==> forall|
            validated: Result<Q, EngineError>,
            built: Q,
            keys: &Vec<String>,
        |
            #![trigger build.ensures((q,), validated), run.requires(
                (h, built, volume_step(step_nanos), keys),
            )]
            out is Some && build.ensures((q,), validated) && validated == Ok::<Q, EngineError>(
                built,
            ) && c_string_array(group_by, group_by_len) == Ok::<Seq<Seq<char>>, Seq<char>>(
                texts(keys@),
            ) ==> run.requires((h, built, volume_step(step_nanos), keys))),
        db is Some && query is Some && out is Some ==> forall|entries: &Vec<(String, AnyValue)>|
            #[trigger]
            encode.requires((entries,)),
    ensures
        db is None ==> rejected(code, *final(last), "null imbh_db handle"@),
        db is Some && query is None ==> rejected(code, *final(last), "null imbh_log_query"@),
        db is Some && query is Some && out is None ==> rejected(
            code,
            *final(last),
            "null out stream pointer"@,
        ),
        db matches Some(h) ==> (query matches Some(q) ==> (out matches Some(o) ==> exists|
            validated: Result<Q, EngineError>,
        | #[trigger]
            build.ensures((q,), validated) && match validated {
                Err(e) => engine_failed(code, *final(last), e),
                Ok(built) => match c_string_array(group_by, group_by_len) {
                    Err(reason) => rejected(code, *final(last), reason),
                    Ok(wanted) => exists|
                        keys: &Vec<String>,
                        reply: Result<Vec<VolumeBucket>, EngineError>,
                    | #[trigger]
                        run.ensures((h, built, volume_step(step_nanos), keys), reply) && texts(
                            keys@,
                        ) == wanted && match reply {
                            Err(e) => engine_failed(code, *final(last), e),
                            Ok(buckets) => hands_buckets_over(
                                buckets@,
                                *encode,
                                *o,
                                *final(o),
                                code,
                                *final(last),
                            ),
                        },
                },
            })),
        code != imbh_error::Success ==> (out matches Some(o) ==> *final(o) == *o),
        settled(code, *final(last)),
{
    let h = match handle(db) {
        Ok(h) => h,
        Err(e) => return settle(Err(e), last),
    };
    let q = match query {
        Some(q) => q,
        None => return settle(Err(invalid_arg("null imbh_log_query")), last),
    };
    match out {
        None => settle(Err(invalid_arg("null out stream pointer")), last),
        Some(o) => {
            let built = match build(q) {
                Ok(built) => built,
                Err(e) => return settle(Err(CallError::Imbh(e)), last),
            };
            let keys = match read_str_array(group_by, group_by_len) {
                Ok(keys) => keys,
                Err(e) => return settle(Err(e), last),
            };
            let step: u64 = if step_nanos == 0 {
                1
            } else {
                step_nanos
            };
            assert(step == volume_step(step_nanos));
            match run(h, built, step, &keys) {
                Err(e) => settle(Err(CallError::Imbh(e)), last),
                Ok(buckets) => deliver_buckets(buckets, encode, o, last),
            }
        },
    }
}

/// A copy of the query that resumes from row `after`, whatever offset the builder holds.
fn resumed(q: &imbh_log_query, after: u64) -> (r: imbh_log_query)
    ensures
        r@ == (LogQueryView { offset: after, ..q@ }),
{
    imbh_log_query {
        service: copy_text(&q.service),
        min_severity: q.min_severity,
        text: copy_text(&q.text),
        attr_eq: copy_pairs(&q.attr_eq),
        attr_exists: copy_texts(&q.attr_exists),
        attr_matches: copy_pairs(&q.attr_matches),
        attr_in: copy_lists(&q.attr_in),
        attr_not_in: copy_lists(&q.attr_not_in),
        attr_num: copy_nums(&q.attr_num),
        attr_regex: copy_pairs(&q.attr_regex),
        range: q.range,
        limit: q.limit,
        direction: q.direction,
        offset: after,
    }
}

/// Whether a further page is reported: an explicit limit was set and the page came back full.
pub open spec fn page_is_full(limit: u64, rows_returned: u64) -> bool {
    limit > 0 && rows_returned >= limit
}

/// Run a paged log query with `run`: the same query, resumed from row `after`. The page goes to
/// `out`; the scan statistics, the offset to resume from and whether there is more go to `stats`,
/// `next_offset` and `has_more`, each unless it is null. A next offset that does not fit its type
/// ends the call as an arithmetic panic does, with the statistics already written.
pub fn imbh_db_logs_page<
    D,
    F: FnOnce(&imbh_db<D>, &imbh_log_query) -> Result<
        (Vec<Batch>, imbh_query_stats),
        EngineError,
    >,
>(
    db: Option<&imbh_db<D>>,
    query: Option<&imbh_log_query>,
    after: u64,
    out: Option<&mut arrow::ffi_stream::FFI_ArrowArrayStream>,
    stats: Option<&mut imbh_query_stats>,
    next_offset: Option<&mut u64>,
    has_more: Option<&mut bool>,
    run: F,
    last: &mut LastError,
) -> (code: imbh_error)
    requires
        db matches Some(h) ==> (query matches Some(q) ==> forall|page: &imbh_log_query|
            out is Some && page@ == (LogQueryView { offset: after, ..q@ })
                ==> #[trigger] run.requires((h, page))),
    ensures
        db is None ==> rejected(code, *final(last), "null imbh_db handle"@),
        db is Some && query is None ==> rejected(code, *final(last), "null imbh_log_query"@),
        db is Some && query is Some && out is None ==> rejected(
            code,
            *final(last),
            "null out stream pointer"@,
        ),
        db matches Some(h) ==> (query matches Some(q) ==> (out matches Some(o) ==> exists|
            page: &imbh_log_query,
            reply: Result<(Vec<Batch>, imbh_query_stats), EngineError>,
        | #[trigger]
            run.ensures((h, page), reply) && page@ == (LogQueryView { offset: after, ..q@ })
                && match reply {
                Err(e) => engine_failed(code, *final(last), e),
                Ok((batches, scan)) => {
                    &&& stats matches Some(s) ==> *final(s) == scan
                    &&& if next_offset is Some && after + scan.rows_returned > u64::MAX {
                        panicked(code, *final(last), "attempt to add with overflow"@)
                    } else {
                        &&& succeeded(code, *final(last))
                        &&& streams(*final(o), inferred_columns(batches@), batches_cells(batches@))
                        &&& next_offset matches Some(n) ==> *final(n) == after + scan.rows_returned
                        &&& has_more matches Some(m) ==> *final(m) == page_is_full(
                            q.limit,
                            scan.rows_returned,
                        )
                    }
                },
            })),
        code != imbh_error::Success ==> (out matches Some(o) ==> *final(o) == *o),
        code != imbh_error::Success ==> (next_offset matches Some(n) ==> *final(n) == *n),
        code != imbh_error::Success ==> (has_more matches Some(m) ==> *final(m) == *m),
        code != imbh_error::Success && code != imbh_error::Panic ==> (stats matches Some(s)
            ==> *final(s) == *s),
        settled(code, *final(last)),
{
    let h = match handle(db) {
        Ok(h) => h,
        Err(e) => return settle(Err(e), last),
    };
    let q = match query {
        Some(q) => q,
        None => return settle(Err(invalid_arg("null imbh_log_query")), last),
    };
    match out {
        None => settle(Err(invalid_arg("null out stream pointer")), last),
        Some(o) => {
            let page = resumed(q, after);
            match run(h, &page) {
                Err(e) => settle(Err(CallError::Imbh(e)), last),
                Ok((batches, scan)) => {
                    let more = q.limit > 0 && scan.rows_returned >= q.limit;
                    write_query_stats(stats, scan);
                    if let Some(n) = next_offset {
                        if after > u64::MAX - scan.rows_returned {
                            return settle_panic("attempt to add with overflow", last);
                        }
                        *n = after + scan.rows_returned;
                    }
                    if let Some(m) = has_more {
                        *m = more;
                    }
                    *o = export_batches_infer(batches);
                    settle(Ok(()), last)
                },
            }
        },
    }
}

/// A builder without a limit never reports a further page, and a builder with one reports it
/// exactly when a whole page of at least one row came back.
pub proof fn only_a_full_page_has_more(limit: u64, rows_returned: u64)
    ensures
        limit == 0 ==> !page_is_full(limit, rows_returned),
        limit > 0 ==> (page_is_full(limit, rows_returned) <==> rows_returned >= limit),
        page_is_full(limit, rows_returned) ==> rows_returned > 0,
{
}

/// The offset of page `k` for a caller that starts at `0` and feeds back the offset that each page
/// hands out, where page `i` returns `rows[i]` rows.
pub open spec fn page_offset(rows: Seq<u64>, k: nat) -> nat
    decreases k,
{
    if k == 0 {
        0
    } else {
        page_offset(rows, (k - 1) as nat) + rows[k - 1] as nat
    }
}

/// Row number `row` of the whole result stands on page `k`.
pub open spec fn on_page(rows: Seq<u64>, k: int, row: nat) -> bool {
    0 <= k < rows.len() && page_offset(rows, k as nat) <= row < page_offset(rows, (k + 1) as nat)
}

/// Later pages start no earlier.
proof fn lemma_offsets_grow(rows: Seq<u64>, j: nat, k: nat)
    requires
        j <= k,
    ensures
        page_offset(rows, j) <= page_offset(rows, k),
    decreases k,
{
    if j < k {
        lemma_offsets_grow(rows, j, (k - 1) as nat);
    }
}

/// Feeding back the offset that each page hands out visits every row exactly once: each row of the
/// result up to where the last page ends stands on one page, and on no other.
pub proof fn pages_cover_every_row_once(rows: Seq<u64>, row: nat)
    requires
        row < page_offset(rows, rows.len()),
    ensures
        exists|k: int| on_page(rows, k, row),
        forall|j: int, k: int| #[trigger]
            on_page(rows, j, row) && #[trigger] on_page(rows, k, row) ==> j == k,
{
    lemma_some_page(rows, row, rows.len());
    assert forall|j: int, k: int| #[trigger]
        on_page(rows, j, row) && #[trigger] on_page(rows, k, row) implies j == k by {
        if j < k {
            lemma_offsets_grow(rows, (j + 1) as nat, k as nat);
        } else if k < j {
            lemma_offsets_grow(rows, (k + 1) as nat, j as nat);
        }
    }
}

/// A row before the end of the first `n` pages stands on one of them.
proof fn lemma_some_page(rows: Seq<u64>, row: nat, n: nat)
    requires
        n <= rows.len(),
        row < page_offset(rows, n),
    ensures
        exists|k: int| on_page(rows, k, row),
    decreases n,
{
    if row < page_offset(rows, (n - 1) as nat) {
        lemma_some_page(rows, row, (n - 1) as nat);
    } else {
        assert(on_page(rows, n - 1, row));
    }
}

/// The batches of instant samples and of volume buckets always match their schema: their columns
/// have one length, whatever the rows and however the labels are encoded.
pub proof fn encoded_batches_match_their_schema<G: Fn(&Vec<(String, AnyValue)>) -> String>(
    encode: G,
    samples: Seq<InstantSample>,
    sample_labels: Seq<String>,
    buckets: Seq<VolumeBucket>,
    bucket_labels: Seq<String>,
)
    requires
        encodes_samples(encode, samples, sample_labels),
        encodes_buckets(encode, buckets, bucket_labels),
    ensures
        even_columns(
            seq![string_cells(sample_labels), sample_times(samples), sample_values(samples)],
        ),
        even_columns(
            seq![bucket_times(buckets), string_cells(bucket_labels), bucket_counts(buckets)],
        ),
{
}

/// Count the log rows that match the filters of a query with `count_rows`, and write the number to
/// `count`.
pub fn imbh_db_logs_count<
    D,
    F: FnOnce(&imbh_db<D>, &imbh_log_query) -> Result<u64, EngineError>,
>(
    db: Option<&imbh_db<D>>,
    query: Option<&imbh_log_query>,
    count: Option<&mut u64>,
    count_rows: F,
    last: &mut LastError,
) -> (code: imbh_error)
    requires
        db matches Some(h) ==> (query matches Some(q) ==> (count is Some ==> count_rows.requires(
            (h, q),
        ))),
    ensures
        db is None ==> rejected(code, *final(last), "null imbh_db handle"@),
        db is Some && query is None ==> rejected(code, *final(last), "null imbh_log_query"@),
        db is Some && query is Some && count is None ==> rejected(
            code,
            *final(last),
            "null out pointer"@,
        ),
        db matches Some(h) ==> (query matches Some(q) ==> (count matches Some(o) ==> exists|
            reply: Result<u64, EngineError>,
        | #[trigger]
            count_rows.ensures((h, q), reply) && match reply {
                Err(e) => engine_failed(code, *final(last), e),
                Ok(n) => succeeded(code, *final(last)) && *final(o) == n,
            })),
        code != imbh_error::Success ==> (count matches Some(o) ==> *final(o) == *o),
        settled(code, *final(last)),
{
    let h = match handle(db) {
        Ok(h) => h,
        Err(e) => return settle(Err(e), last),
    };
    let q = match query {
        Some(q) => q,
        None => return settle(Err(invalid_arg("null imbh_log_query")), last),
    };
    match count {
        None => settle(Err(invalid_arg("null out pointer")), last),
        Some(o) => match count_rows(h, q) {
            Err(e) => settle(Err(CallError::Imbh(e)), last),
            Ok(n) => {
                *o = n;
                settle(Ok(()), last)
            },
        },
    }
}

/// Run a trace search with `search`: one row per matching trace.
pub fn imbh_db_traces_search<
    D,
    F: FnOnce(&imbh_db<D>, &imbh_trace_query) -> Result<Vec<TraceSummary>, EngineError>,
>(
    db: Option<&imbh_db<D>>,
    query: Option<&imbh_trace_query>,
    out: Option<&mut arrow::ffi_stream::FFI_ArrowArrayStream>,
    search: F,
    last: &mut LastError,
) -> (code: imbh_error)
    requires
        db matches Some(h) ==> (query matches Some(q) ==> (out is Some ==> search.requires(
            (h, q),
        ))),
    ensures
        db is None ==> rejected(code, *final(last), "null imbh_db handle"@),
        db is Some && query is None ==> rejected(code, *final(last), "null imbh_trace_query"@),
        db is Some && query is Some && out is None ==> rejected(
            code,
            *final(last),
            "null out stream pointer"@,
        ),
        db matches Some(h) ==> (query matches Some(q) ==> (out matches Some(o) ==> exists|
            reply: Result<Vec<TraceSummary>, EngineError>,
        | #[trigger]
            search.ensures((h, q), reply) && match reply {
                Err(e) => engine_failed(code, *final(last), e),
                Ok(found) => hands_over(
                    summary_defs(),
                    summary_cells(found@),
                    *o,
                    *final(o),
                    code,
                    *final(last),
                ),
            })),
        code != imbh_error::Success ==> (out matches Some(o) ==> *final(o) == *o),
        settled(code, *final(last)),
{
    let h = match handle(db) {
        Ok(h) => h,
        Err(e) => return settle(Err(e), last),
    };
    let q = match query {
        Some(q) => q,
        None => return settle(Err(invalid_arg("null imbh_trace_query")), last),
    };
    match out {
        None => settle(Err(invalid_arg("null out stream pointer")), last),
        Some(o) => match search(h, q) {
            Err(e) => settle(Err(CallError::Imbh(e)), last),
            Ok(found) => deliver(trace_summary_batch(found), o, last),
        },
    }
}

/// The metric-points query asked of the engine. A limit that is absent leaves the default in place.
#[derive(Debug)]
pub struct MetricPointsQuery {
    pub kind: imbh_metric_point_kind,
    pub metric: String,
    pub filters: Vec<KeyValue>,
    pub range: Option<TimeRange>,
    pub limit: Option<usize>,
}

/// The engine is asked for what the builder says.
pub open spec fn asks_for_points(
    q: MetricPointsQueryView,
    request: MetricPointsQuery,
) -> bool {
    &&& request.kind == q.kind
    &&& request.metric@ == q.metric
    &&& pair_texts(request.filters@) == q.filters
    &&& request.range == q.range
    &&& request.limit == (if q.limit > 0 {
        Some(q.limit as usize)
    } else {
        None
    })
}

/// The query asked of the engine.
fn points_request(q: &imbh_metric_points_query) -> (request: MetricPointsQuery)
    ensures
        asks_for_points(q@, request),
{
    let limit: Option<usize> = if q.limit > 0 {
        Some(q.limit as usize)
    } else {
        None
    };
    MetricPointsQuery {
        kind: q.kind,
        metric: q.metric.clone(),
        filters: copy_pairs(&q.filters),
        range: q.range,
        limit,
    }
}

/// Run a metric-points query with `run`: the raw samples of a metric.
pub fn imbh_db_metrics_points<
    D,
    F: FnOnce(&imbh_db<D>, MetricPointsQuery) -> Result<Vec<Batch>, EngineError>,
>(
    db: Option<&imbh_db<D>>,
    query: Option<&imbh_metric_points_query>,
    out: Option<&mut arrow::ffi_stream::FFI_ArrowArrayStream>,
    run: F,
    last: &mut LastError,
) -> (code: imbh_error)
    requires
        db matches Some(h) ==> (query matches Some(q) ==> forall|request: MetricPointsQuery|
            out is Some && asks_for_points(q@, request) ==> #[trigger] run.requires((h, request))),
    ensures
        db is None ==> rejected(code, *final(last), "null imbh_db handle"@),
        db is Some && query is None ==> rejected(
            code,
            *final(last),
            "null imbh_metric_points_query"@,
        ),
        db is Some && query is Some && out is None ==> rejected(
            code,
            *final(last),
            "null out stream pointer"@,
        ),
        db matches Some(h) ==> (query matches Some(q) ==> (out matches Some(o) ==> exists|
            request: MetricPointsQuery,
            reply: Result<Vec<Batch>, EngineError>,
        | #[trigger]
            run.ensures((h, request), reply) && asks_for_points(q@, request) && match reply {
                Err(e) => engine_failed(code, *final(last), e),
                Ok(batches) => succeeded(code, *final(last)) && streams(
                    *final(o),
                    inferred_columns(batches@),
                    batches_cells(batches@),
                ),
            })),
        code != imbh_error::Success ==> (out matches Some(o) ==> *final(o) == *o),
        settled(code, *final(last)),
{
    let h = match handle(db) {
        Ok(h) => h,
        Err(e) => return settle(Err(e), last),
    };
    let q = match query {
        Some(q) => q,
        None => return settle(Err(invalid_arg("null imbh_metric_points_query")), last),
    };
    match out {
        None => settle(Err(invalid_arg("null out stream pointer")), last),
        Some(o) => match run(h, points_request(q)) {
            Err(e) => settle(Err(CallError::Imbh(e)), last),
            Ok(batches) => {
                *o = export_batches_infer(batches);
                settle(Ok(()), last)
            },
        },
    }
}

/// The rows of a log query reach the caller whole: every batch of the engine's reply to the
/// caller's builder, in order. The statistics are those of the reply, whether the caller asks for
/// them or not. A failure leaves both alone.
pub proof fn log_rows_arrive_with_their_statistics<
    D,
    F: FnOnce(&imbh_db<D>, &imbh_log_query) -> Result<(Vec<Batch>, imbh_query_stats), EngineError>,
>(
    db: &imbh_db<D>,
    q: &imbh_log_query,
    out: &mut arrow::ffi_stream::FFI_ArrowArrayStream,
    stats: &mut imbh_query_stats,
    run: F,
    reply: Result<(Vec<Batch>, imbh_query_stats), EngineError>,
    last: &mut LastError,
    code: imbh_error,
)
    requires
        forall|r: Result<(Vec<Batch>, imbh_query_stats), EngineError>| #[trigger]
            run.ensures((db, q), r) ==> r == reply,
    ensures
        call_ensures(
            imbh_db_logs_query::<D, F>,
            (Some(db), Some(q), Some(out), Some(stats), run, last),
            code,
        ) ==> match reply {
            Err(e) => {
                &&& engine_failed(code, *final(last), e)
                &&& *final(out) == *old(out)
                &&& *final(stats) == *old(stats)
            },
            Ok((batches, scan)) => {
                &&& code == imbh_error::Success
                &&& stream_cells(*final(out)).len() == batches@.len()
                &&& forall|i: int|
                    0 <= i < batches@.len() ==> #[trigger] stream_cells(*final(out))[i]
                        == batch_cells(batches@[i])
                &&& batches@.len() > 0 ==> stream_columns(*final(out)) == batch_columns(batches@[0])
                &&& batches@.len() == 0 ==> stream_columns(*final(out)).len() == 0
                &&& *final(stats) == scan
            },
        },
        call_ensures(
            imbh_db_logs_query::<D, F>,
            (Some(db), Some(q), Some(out), None::<&mut imbh_query_stats>, run, last),
            code,
        ) ==> match reply {
            Err(e) => engine_failed(code, *final(last), e) && *final(out) == *old(out),
            Ok((batches, scan)) => {
                &&& code == imbh_error::Success
                &&& stream_cells(*final(out)).len() == batches@.len()
                &&& forall|i: int|
                    0 <= i < batches@.len() ==> #[trigger] stream_cells(*final(out))[i]
                        == batch_cells(batches@[i])
                &&& batches@.len() > 0 ==> stream_columns(*final(out)) == batch_columns(batches@[0])
                &&& batches@.len() == 0 ==> stream_columns(*final(out)).len() == 0
            },
        },
{
}

/// The rows of a metric range query reach the caller whole: every batch of the engine's reply to
/// the caller's builder, in order. The statistics are those of the reply, whether the caller asks
/// for them or not. A failure leaves both alone.
pub proof fn metric_rows_arrive_with_their_statistics<
    D,
    F: FnOnce(&imbh_db<D>, &imbh_metric_query) -> Result<
        (Vec<Batch>, imbh_query_stats),
        EngineError,
    >,
>(
    db: &imbh_db<D>,
    q: &imbh_metric_query,
    out: &mut arrow::ffi_stream::FFI_ArrowArrayStream,
    stats: &mut imbh_query_stats,
    run: F,
    reply: Result<(Vec<Batch>, imbh_query_stats), EngineError>,
    last: &mut LastError,
    code: imbh_error,
)
    requires
        forall|r: Result<(Vec<Batch>, imbh_query_stats), EngineError>| #[trigger]
            run.ensures((db, q), r) ==> r == reply,
    ensures
        call_ensures(
            imbh_db_metrics_range::<D, F>,
            (Some(db), Some(q), Some(out), Some(stats), run, last),
            code,
        ) ==> match reply {
            Err(e) => {
                &&& engine_failed(code, *final(last), e)
                &&& *final(out) == *old(out)
                &&& *final(stats) == *old(stats)
            },
            Ok((batches, scan)) => {
                &&& code == imbh_error::Success
                &&& stream_cells(*final(out)).len() == batches@.len()
                &&& forall|i: int|
                    0 <= i < batches@.len() ==> #[trigger] stream_cells(*final(out))[i]
                        == batch_cells(batches@[i])
                &&& batches@.len() > 0 ==> stream_columns(*final(out)) == batch_columns(batches@[0])
                &&& batches@.len() == 0 ==> stream_columns(*final(out)).len() == 0
                &&& *final(stats) == scan
            },
        },
        call_ensures(
            imbh_db_metrics_range::<D, F>,
            (Some(db), Some(q), Some(out), None::<&mut imbh_query_stats>, run, last),
            code,
        ) ==> match reply {
            Err(e) => engine_failed(code, *final(last), e) && *final(out) == *old(out),
            Ok((batches, scan)) => {
                &&& code == imbh_error::Success
                &&& stream_cells(*final(out)).len() == batches@.len()
                &&& forall|i: int|
                    0 <= i < batches@.len() ==> #[trigger] stream_cells(*final(out))[i]
                        == batch_cells(batches@[i])
                &&& batches@.len() > 0 ==> stream_columns(*final(out)) == batch_columns(batches@[0])
                &&& batches@.len() == 0 ==> stream_columns(*final(out)).len() == 0
            },
        },
{
}

/// The rows of a span-metrics query reach the caller whole: every batch of the engine's reply to
/// the caller's builder, in order. The statistics are those of the reply, whether the caller asks
/// for them or not. A failure leaves both alone.
pub proof fn span_metric_rows_arrive_with_their_statistics<
    D,
    F: FnOnce(&imbh_db<D>, &imbh_span_metrics_query) -> Result<
        (Vec<Batch>, imbh_query_stats),
        EngineError,
    >,
>(
    db: &imbh_db<D>,
    q: &imbh_span_metrics_query,
    out: &mut arrow::ffi_stream::FFI_ArrowArrayStream,
    stats: &mut imbh_query_stats,
    run: F,
    reply: Result<(Vec<Batch>, imbh_query_stats), EngineError>,
    last: &mut LastError,
    code: imbh_error,
)
    requires
        forall|r: Result<(Vec<Batch>, imbh_query_stats), EngineError>| #[trigger]
            run.ensures((db, q), r) ==> r == reply,
    ensures
        call_ensures(
            imbh_db_traces_span_metrics::<D, F>,
            (Some(db), Some(q), Some(out), Some(stats), run, last),
            code,
        ) ==> match reply {
            Err(e) => {
                &&& engine_failed(code, *final(last), e)
                &&& *final(out) == *old(out)
                &&& *final(stats) == *old(stats)
            },
            Ok((batches, scan)) => {
                &&& code == imbh_error::Success
                &&& stream_cells(*final(out)).len() == batches@.len()
                &&& forall|i: int|
                    0 <= i < batches@.len() ==> #[trigger] stream_cells(*final(out))[i]
                        == batch_cells(batches@[i])
                &&& batches@.len() > 0 ==> stream_columns(*final(out)) == batch_columns(batches@[0])
                &&& batches@.len() == 0 ==> stream_columns(*final(out)).len() == 0
                &&& *final(stats) == scan
            },
        },
        call_ensures(
            imbh_db_traces_span_metrics::<D, F>,
            (Some(db), Some(q), Some(out), None::<&mut imbh_query_stats>, run, last),
            code,
        ) ==> match reply {
            Err(e) => engine_failed(code, *final(last), e) && *final(out) == *old(out),
            Ok((batches, scan)) => {
                &&& code == imbh_error::Success
                &&& stream_cells(*final(out)).len() == batches@.len()
                &&& forall|i: int|
                    0 <= i < batches@.len() ==> #[trigger] stream_cells(*final(out))[i]
                        == batch_cells(batches@[i])
                &&& batches@.len() > 0 ==> stream_columns(*final(out)) == batch_columns(batches@[0])
                &&& batches@.len() == 0 ==> stream_columns(*final(out)).len() == 0
            },
        },
{
}

/// Where the encoder's texts are known, samples are handed over with them.
proof fn lemma_samples_arrive<G: Fn(&Vec<(String, AnyValue)>) -> String>(
    rows: Seq<InstantSample>,
    encode: G,
    json: spec_fn(Seq<(String, AnyValue)>) -> Seq<char>,
    labels: Seq<Cell>,
    before: arrow::ffi_stream::FFI_ArrowArrayStream,
    after: arrow::ffi_stream::FFI_ArrowArrayStream,
    code: imbh_error,
    last: LastError,
)
    requires
        forall|entries: &Vec<(String, AnyValue)>, t: String| #[trigger]
            encode.ensures((entries,), t) ==> t@ == json(entries@),
        labels.len() == rows.len(),
        forall|i: int|
            0 <= i < rows.len() ==> #[trigger] labels[i] == Cell::Utf8(
                json(string_entries(rows[i].labels@)),
            ),
        hands_samples_over(rows, encode, before, after, code, last),
    ensures
        text_bytes(labels) <= i32::MAX <==> code == imbh_error::Success,
        code == imbh_error::Success ==> streams(
            after,
            series_defs(),
            seq![seq![labels, sample_times(rows), sample_values(rows)]],
        ),
        code != imbh_error::Success ==> after == before,
{
    let encoded = choose|encoded: Seq<String>| #[trigger]
        encodes_samples(encode, rows, encoded) && hands_over(
            series_defs(),
            seq![string_cells(encoded), sample_times(rows), sample_values(rows)],
            before,
            after,
            code,
            last,
        );
    assert forall|i: int| 0 <= i < rows.len() implies string_cells(encoded)[i] == labels[i] by {
        assert(encodes(encode, rows[i].labels@, encoded[i]));
    }
    assert(string_cells(encoded) =~= labels);
    let cells = seq![labels, sample_times(rows), sample_values(rows)];
    columns_reach_the_caller_as_they_are(series_defs(), cells, before, after, code, last);
    lemma_textless(sample_times(rows));
    lemma_textless(sample_values(rows));
    assert(cells[0] == labels && cells[1] == sample_times(rows) && cells[2] == sample_values(rows));
}

/// Where the encoder's texts are known, buckets are handed over with them.
proof fn lemma_buckets_arrive<G: Fn(&Vec<(String, AnyValue)>) -> String>(
    rows: Seq<VolumeBucket>,
    encode: G,
    json: spec_fn(Seq<(String, AnyValue)>) -> Seq<char>,
    labels: Seq<Cell>,
    before: arrow::ffi_stream::FFI_ArrowArrayStream,
    after: arrow::ffi_stream::FFI_ArrowArrayStream,
    code: imbh_error,
    last: LastError,
)
    requires
        forall|entries: &Vec<(String, AnyValue)>, t: String| #[trigger]
            encode.ensures((entries,), t) ==> t@ == json(entries@),
        labels.len() == rows.len(),
        forall|i: int|
            0 <= i < rows.len() ==> #[trigger] labels[i] == Cell::Utf8(
                json(string_entries(rows[i].labels@)),
            ),
        hands_buckets_over(rows, encode, before, after, code, last),
    ensures
        text_bytes(labels) <= i32::MAX <==> code == imbh_error::Success,
        code == imbh_error::Success ==> streams(
            after,
            volume_defs(),
            seq![seq![bucket_times(rows), labels, bucket_counts(rows)]],
        ),
        code != imbh_error::Success ==> after == before,
{
    let encoded = choose|encoded: Seq<String>| #[trigger]
        encodes_buckets(encode, rows, encoded) && hands_over(
            volume_defs(),
            seq![bucket_times(rows), string_cells(encoded), bucket_counts(rows)],
            before,
            after,
            code,
            last,
        );
    assert forall|i: int| 0 <= i < rows.len() implies string_cells(encoded)[i] == labels[i] by {
        assert(encodes(encode, rows[i].labels@, encoded[i]));
    }
    assert(string_cells(encoded) =~= labels);
    let cells = seq![bucket_times(rows), labels, bucket_counts(rows)];
    columns_reach_the_caller_as_they_are(volume_defs(), cells, before, after, code, last);
    lemma_textless(bucket_times(rows));
    lemma_textless(bucket_counts(rows));
    assert(cells[0] == bucket_times(rows) && cells[1] == labels && cells[2] == bucket_counts(rows));
}

/// Row `i` of the samples tells of sample `i`: its labels as the encoder writes them, its time and
/// its value.
pub proof fn samples_arrive_row_by_row<G: Fn(&Vec<(String, AnyValue)>) -> String>(
    rows: Vec<InstantSample>,
    encode: &G,
    json: spec_fn(Seq<(String, AnyValue)>) -> Seq<char>,
    labels: Seq<Cell>,
    out: &mut arrow::ffi_stream::FFI_ArrowArrayStream,
    last: &mut LastError,
    code: imbh_error,
)
    requires
        forall|entries: &Vec<(String, AnyValue)>, t: String| #[trigger]
            encode.ensures((entries,), t) ==> t@ == json(entries@),
        labels.len() == rows@.len() && (forall|i: int|
            0 <= i < rows@.len() ==> #[trigger] labels[i] == Cell::Utf8(
                json(string_entries(rows@[i].labels@)),
            )),
        call_ensures(deliver_samples::<G>, (rows, encode, out, last), code),
    ensures
        ({
            &&& text_bytes(labels) <= i32::MAX <==> code == imbh_error::Success
            &&& code == imbh_error::Success ==> {
                &&& stream_columns(*final(out)) == seq![
                    def("labels"@, ColumnType::Utf8, false),
                    def("timestamp"@, ColumnType::Int64, false),
                    def("value"@, ColumnType::Float64, false),
                ]
                &&& stream_cells(*final(out)).len() == 1
                &&& stream_cells(*final(out))[0].len() == 3
                &&& stream_cells(*final(out))[0][0] == labels
                &&& stream_cells(*final(out))[0][1].len() == rows@.len()
                &&& forall|i: int|
                    0 <= i < rows@.len() ==> #[trigger] stream_cells(*final(out))[0][1][i]
                        == Cell::Int64(rows@[i].time)
                &&& stream_cells(*final(out))[0][2].len() == rows@.len()
                &&& forall|i: int|
                    0 <= i < rows@.len() ==> #[trigger] stream_cells(*final(out))[0][2][i]
                        == Cell::Float64(rows@[i].value_bits)
            }
        }),
        code != imbh_error::Success ==> *final(out) == *old(out),
{
    lemma_samples_arrive(
        rows@,
        *encode,
        json,
        labels,
        *old(out),
        *final(out),
        code,
        *final(last),
    );
}

/// Row `i` of the buckets tells of bucket `i`: its time, its labels as the encoder writes them, and
/// its count.
pub proof fn buckets_arrive_row_by_row<G: Fn(&Vec<(String, AnyValue)>) -> String>(
    rows: Vec<VolumeBucket>,
    encode: &G,
    json: spec_fn(Seq<(String, AnyValue)>) -> Seq<char>,
    labels: Seq<Cell>,
    out: &mut arrow::ffi_stream::FFI_ArrowArrayStream,
    last: &mut LastError,
    code: imbh_error,
)
    requires
        forall|entries: &Vec<(String, AnyValue)>, t: String| #[trigger]
            encode.ensures((entries,), t) ==> t@ == json(entries@),
        labels.len() == rows@.len() && (forall|i: int|
            0 <= i < rows@.len() ==> #[trigger] labels[i] == Cell::Utf8(
                json(string_entries(rows@[i].labels@)),
            )),
        call_ensures(deliver_buckets::<G>, (rows, encode, out, last), code),
    ensures
        ({
            &&& text_bytes(labels) <= i32::MAX <==> code == imbh_error::Success
            &&& code == imbh_error::Success ==> {
                &&& stream_columns(*final(out)) == seq![
                    def("bucket_time"@, ColumnType::Int64, false),
                    def("labels"@, ColumnType::Utf8, false),
                    def("count"@, ColumnType::Int64, false),
                ]
                &&& stream_cells(*final(out)).len() == 1
                &&& stream_cells(*final(out))[0].len() == 3
                &&& stream_cells(*final(out))[0][1] == labels
                &&& stream_cells(*final(out))[0][0].len() == rows@.len()
                &&& forall|i: int|
                    0 <= i < rows@.len() ==> #[trigger] stream_cells(*final(out))[0][0][i]
                        == Cell::Int64(rows@[i].time)
                &&& stream_cells(*final(out))[0][2].len() == rows@.len()
                &&& forall|i: int|
                    0 <= i < rows@.len() ==> #[trigger] stream_cells(*final(out))[0][2][i]
                        == Cell::Int64(rows@[i].count as i64)
                &&& forall|i: int|
                    0 <= i < rows@.len() && rows@[i].count <= i64::MAX
                        ==> (#[trigger] stream_cells(*final(out))[0][2][i])->Int64_0
                        == rows@[i].count
            }
        }),
        code != imbh_error::Success ==> *final(out) == *old(out),
{
    lemma_buckets_arrive(
        rows@,
        *encode,
        json,
        labels,
        *old(out),
        *final(out),
        code,
        *final(last),
    );
}

/// An instant query hands over the samples of the engine's reply to the caller's builder, row by
/// row.
pub proof fn instant_samples_arrive_row_by_row<
    D,
    F: FnOnce(&imbh_db<D>, &imbh_metric_query) -> Result<Vec<InstantSample>, EngineError>,
    G: Fn(&Vec<(String, AnyValue)>) -> String,
>(
    db: &imbh_db<D>,
    q: &imbh_metric_query,
    out: &mut arrow::ffi_stream::FFI_ArrowArrayStream,
    run: F,
    encode: &G,
    json: spec_fn(Seq<(String, AnyValue)>) -> Seq<char>,
    labels: Seq<Cell>,
    reply: Result<Vec<InstantSample>, EngineError>,
    last: &mut LastError,
    code: imbh_error,
)
    requires
        forall|r: Result<Vec<InstantSample>, EngineError>| #[trigger]
            run.ensures((db, q), r) ==> r == reply,
        forall|entries: &Vec<(String, AnyValue)>, t: String| #[trigger]
            encode.ensures((entries,), t) ==> t@ == json(entries@),
        reply matches Ok(rows) ==> labels.len() == rows@.len() && (forall|i: int|
            0 <= i < rows@.len() ==> #[trigger] labels[i] == Cell::Utf8(
                json(string_entries(rows@[i].labels@)),
            )),
        call_ensures(
            imbh_db_metrics_instant::<D, F, G>,
            (Some(db), Some(q), Some(out), run, encode, last),
            code,
        ),
    ensures
        reply matches Err(e) ==> engine_failed(code, *final(last), e),
        reply matches Ok(rows) ==> {
            &&& text_bytes(labels) <= i32::MAX <==> code == imbh_error::Success
            &&& code == imbh_error::Success ==> {
                &&& stream_columns(*final(out)) == seq![
                    def("labels"@, ColumnType::Utf8, false),
                    def("timestamp"@, ColumnType::Int64, false),
                    def("value"@, ColumnType::Float64, false),
                ]
                &&& stream_cells(*final(out)).len() == 1
                &&& stream_cells(*final(out))[0].len() == 3
                &&& stream_cells(*final(out))[0][0] == labels
                &&& stream_cells(*final(out))[0][1].len() == rows@.len()
                &&& forall|i: int|
                    0 <= i < rows@.len() ==> #[trigger] stream_cells(*final(out))[0][1][i]
                        == Cell::Int64(rows@[i].time)
                &&& stream_cells(*final(out))[0][2].len() == rows@.len()
                &&& forall|i: int|
                    0 <= i < rows@.len() ==> #[trigger] stream_cells(*final(out))[0][2][i]
                        == Cell::Float64(rows@[i].value_bits)
            }
        },
        code != imbh_error::Success ==> *final(out) == *old(out),
{
    if let Ok(rows) = reply {
        lemma_samples_arrive(
            rows@,
            *encode,
            json,
            labels,
            *old(out),
            *final(out),
            code,
            *final(last),
        );
    }
}

/// A volume query is run with the query that the builder makes, the caller's step, or a nanosecond
/// where it is zero, and the caller's keys in order. The buckets of the reply are handed over row
/// by row. A builder that is refused is reported before keys that cannot be read.
pub proof fn volumes_arrive_row_by_row<
    D,
    Q,
    B: FnOnce(&imbh_log_query) -> Result<Q, EngineError>,
    F: FnOnce(&imbh_db<D>, Q, u64, &Vec<String>) -> Result<Vec<VolumeBucket>, EngineError>,
    G: Fn(&Vec<(String, AnyValue)>) -> String,
>(
    db: &imbh_db<D>,
    q: &imbh_log_query,
    step_nanos: u64,
    group_by: &[Option<&[u8]>],
    group_by_len: usize,
    keys: Result<Seq<Seq<char>>, Seq<char>>,
    out: &mut arrow::ffi_stream::FFI_ArrowArrayStream,
    build: B,
    run: F,
    encode: &G,
    json: spec_fn(Seq<(String, AnyValue)>) -> Seq<char>,
    labels: Seq<Cell>,
    validated: Result<Q, EngineError>,
    reply: Result<Vec<VolumeBucket>, EngineError>,
    last: &mut LastError,
    code: imbh_error,
)
    requires
        keys == c_string_array(Some(group_by), group_by_len),
        forall|r: Result<Q, EngineError>| #[trigger] build.ensures((q,), r) ==> r == validated,
        forall|
            built: Q,
            step: u64,
            names: &Vec<String>,
            r: Result<Vec<VolumeBucket>, EngineError>,
        | #[trigger]
            run.ensures((db, built, step, names), r) && validated == Ok::<Q, EngineError>(built)
                && step == (if step_nanos > 0 {
                step_nanos
            } else {
                1
            }) && keys == Ok::<Seq<Seq<char>>, Seq<char>>(texts(names@)) ==> r == reply,
        forall|entries: &Vec<(String, AnyValue)>, t: String| #[trigger]
            encode.ensures((entries,), t) ==> t@ == json(entries@),
        reply matches Ok(rows) ==> labels.len() == rows@.len() && (forall|i: int|
            0 <= i < rows@.len() ==> #[trigger] labels[i] == Cell::Utf8(
                json(string_entries(rows@[i].labels@)),
            )),
        call_ensures(
            imbh_db_logs_volume::<D, Q, B, F, G>,
            (
                Some(db),
                Some(q),
                step_nanos,
                Some(group_by),
                group_by_len,
                Some(out),
                build,
                run,
                encode,
                last,
            ),
            code,
        ),
    ensures
        validated matches Err(e) ==> engine_failed(code, *final(last), e),
        validated is Ok ==> (keys matches Err(reason) ==> rejected(code, *final(last), reason)),
        validated is Ok && keys is Ok ==> (reply matches Err(e) ==> engine_failed(
            code,
            *final(last),
            e,
        )),
        validated is Ok && keys is Ok ==> (reply matches Ok(rows) ==> {
            &&& text_bytes(labels) <= i32::MAX <==> code == imbh_error::Success
            &&& code == imbh_error::Success ==> {
                &&& stream_columns(*final(out)) == seq![
                    def("bucket_time"@, ColumnType::Int64, false),
                    def("labels"@, ColumnType::Utf8, false),
                    def("count"@, ColumnType::Int64, false),
                ]
                &&& stream_cells(*final(out)).len() == 1
                &&& stream_cells(*final(out))[0].len() == 3
                &&& stream_cells(*final(out))[0][1] == labels
                &&& stream_cells(*final(out))[0][0].len() == rows@.len()
                &&& forall|i: int|
                    0 <= i < rows@.len() ==> #[trigger] stream_cells(*final(out))[0][0][i]
                        == Cell::Int64(rows@[i].time)
                &&& stream_cells(*final(out))[0][2].len() == rows@.len()
                &&& forall|i: int|
                    0 <= i < rows@.len() ==> #[trigger] stream_cells(*final(out))[0][2][i]
                        == Cell::Int64(rows@[i].count as i64)
                &&& forall|i: int|
                    0 <= i < rows@.len() && rows@[i].count <= i64::MAX
                        ==> (#[trigger] stream_cells(*final(out))[0][2][i])->Int64_0
                        == rows@[i].count
            }
        }),
        code != imbh_error::Success ==> *final(out) == *old(out),
{
    if validated is Ok && keys is Ok {
        if let Ok(rows) = reply {
            lemma_buckets_arrive(
                rows@,
                *encode,
                json,
                labels,
                *old(out),
                *final(out),
                code,
                *final(last),
            );
        }
    }
}

/// A page is the caller's query resumed from the caller's offset, and nothing else of it changed.
/// Every batch of the reply is in the stream. The next offset is where this page ends, and there is
/// more exactly when the builder has a limit and the page reaches it.
pub proof fn pages_resume_where_the_caller_says<
    D,
    F: FnOnce(&imbh_db<D>, &imbh_log_query) -> Result<(Vec<Batch>, imbh_query_stats), EngineError>,
>(
    db: &imbh_db<D>,
    q: &imbh_log_query,
    after: u64,
    out: &mut arrow::ffi_stream::FFI_ArrowArrayStream,
    stats: &mut imbh_query_stats,
    next_offset: &mut u64,
    has_more: &mut bool,
    run: F,
    reply: Result<(Vec<Batch>, imbh_query_stats), EngineError>,
    last: &mut LastError,
    code: imbh_error,
)
    requires
        forall|page: &imbh_log_query, r: Result<(Vec<Batch>, imbh_query_stats), EngineError>|
            #[trigger]
            run.ensures((db, page), r) && page@ == (LogQueryView { offset: after, ..q@ }) ==> r
                == reply,
        call_ensures(
            imbh_db_logs_page::<D, F>,
            (
                Some(db),
                Some(q),
                after,
                Some(out),
                Some(stats),
                Some(next_offset),
                Some(has_more),
                run,
                last,
            ),
            code,
        ),
    ensures
        reply matches Err(e) ==> engine_failed(code, *final(last), e) && *final(stats) == *old(
            stats,
        ),
        reply matches Ok((batches, scan)) ==> {
            &&& *final(stats) == scan
            &&& after + scan.rows_returned > u64::MAX ==> panicked(
                code,
                *final(last),
                "attempt to add with overflow"@,
            )
            &&& after + scan.rows_returned <= u64::MAX ==> {
                &&& code == imbh_error::Success
                &&& stream_cells(*final(out)).len() == batches@.len()
                &&& forall|i: int|
                    0 <= i < batches@.len() ==> #[trigger] stream_cells(*final(out))[i]
                        == batch_cells(batches@[i])
                &&& batches@.len() > 0 ==> stream_columns(*final(out)) == batch_columns(batches@[0])
                &&& batches@.len() == 0 ==> stream_columns(*final(out)).len() == 0
                &&& *final(next_offset) == after + scan.rows_returned
                &&& q.limit == 0 ==> !*final(has_more)
                &&& q.limit > 0 ==> (*final(has_more) <==> scan.rows_returned >= q.limit)
            }
        },
        code != imbh_error::Success ==> {
            &&& *final(out) == *old(out)
            &&& *final(next_offset) == *old(next_offset)
            &&& *final(has_more) == *old(has_more)
        },
{
}

/// A page needs none of the outputs beside its stream: without them the same rows arrive, whatever
/// the offset.
pub proof fn pages_need_no_further_outputs<
    D,
    F: FnOnce(&imbh_db<D>, &imbh_log_query) -> Result<(Vec<Batch>, imbh_query_stats), EngineError>,
>(
    db: &imbh_db<D>,
    q: &imbh_log_query,
    after: u64,
    out: &mut arrow::ffi_stream::FFI_ArrowArrayStream,
    run: F,
    reply: Result<(Vec<Batch>, imbh_query_stats), EngineError>,
    last: &mut LastError,
    code: imbh_error,
)
    requires
        forall|page: &imbh_log_query, r: Result<(Vec<Batch>, imbh_query_stats), EngineError>|
            #[trigger]
            run.ensures((db, page), r) && page@ == (LogQueryView { offset: after, ..q@ }) ==> r
                == reply,
        call_ensures(
            imbh_db_logs_page::<D, F>,
            (
                Some(db),
                Some(q),
                after,
                Some(out),
                None::<&mut imbh_query_stats>,
                None::<&mut u64>,
                None::<&mut bool>,
                run,
                last,
            ),
            code,
        ),
    ensures
        reply matches Err(e) ==> engine_failed(code, *final(last), e) && *final(out) == *old(out),
        reply matches Ok((batches, scan)) ==> {
            &&& code == imbh_error::Success
            &&& stream_cells(*final(out)).len() == batches@.len()
            &&& forall|i: int|
                0 <= i < batches@.len() ==> #[trigger] stream_cells(*final(out))[i] == batch_cells(
                    batches@[i],
                )
            &&& batches@.len() > 0 ==> stream_columns(*final(out)) == batch_columns(batches@[0])
            &&& batches@.len() == 0 ==> stream_columns(*final(out)).len() == 0
        },
{
}

/// The count is the engine's count for the caller's builder.
pub proof fn counts_are_those_of_the_engine<
    D,
    F: FnOnce(&imbh_db<D>, &imbh_log_query) -> Result<u64, EngineError>,
>(
    db: &imbh_db<D>,
    q: &imbh_log_query,
    count: &mut u64,
    run: F,
    reply: Result<u64, EngineError>,
    last: &mut LastError,
    code: imbh_error,
)
    requires
        forall|r: Result<u64, EngineError>| #[trigger] run.ensures((db, q), r) ==> r == reply,
        call_ensures(
            imbh_db_logs_count::<D, F>,
            (Some(db), Some(q), Some(count), run, last),
            code,
        ),
    ensures
        reply matches Ok(n) ==> code == imbh_error::Success && *final(count) == n,
        reply matches Err(e) ==> engine_failed(code, *final(last), e) && *final(count) == *old(
            count,
        ),
{
}

/// A trace search hands over the traces of the engine's reply to the caller's builder: one row a
/// trace, in the order of the reply.
pub proof fn found_traces_arrive_row_by_row<
    D,
    F: FnOnce(&imbh_db<D>, &imbh_trace_query) -> Result<Vec<TraceSummary>, EngineError>,
>(
    db: &imbh_db<D>,
    q: &imbh_trace_query,
    out: &mut arrow::ffi_stream::FFI_ArrowArrayStream,
    run: F,
    reply: Result<Vec<TraceSummary>, EngineError>,
    i: int,
    last: &mut LastError,
    code: imbh_error,
)
    requires
        forall|r: Result<Vec<TraceSummary>, EngineError>| #[trigger]
            run.ensures((db, q), r) ==> r == reply,
        call_ensures(
            imbh_db_traces_search::<D, F>,
            (Some(db), Some(q), Some(out), run, last),
            code,
        ),
    ensures
        reply matches Err(e) ==> engine_failed(code, *final(last), e),
        reply matches Ok(rows) ==> {
            &&& (forall|k: int|
                0 <= k < 7 ==> text_bytes(#[trigger] summary_cells(rows@)[k]) <= i32::MAX)
                <==> code == imbh_error::Success
            &&& code == imbh_error::Success ==> {
                &&& stream_columns(*final(out)) == summary_defs()
                &&& stream_cells(*final(out)).len() == 1
                &&& stream_cells(*final(out))[0] == summary_cells(rows@)
            }
            &&& code == imbh_error::Success && 0 <= i < rows@.len() ==> {
                let cells = stream_cells(*final(out))[0];
                &&& cells.len() == 7
                &&& cells[0][i] == Cell::Utf8(hex_text(rows@[i].trace_id.bytes@))
                &&& rows@[i].root_service matches Some(s) ==> cells[1][i] == Cell::Utf8(s@)
                &&& rows@[i].root_service is None ==> cells[1][i] == Cell::Null
                &&& rows@[i].root_name matches Some(s) ==> cells[2][i] == Cell::Utf8(s@)
                &&& rows@[i].root_name is None ==> cells[2][i] == Cell::Null
                &&& cells[3][i] == Cell::Int64(rows@[i].start_time)
                &&& rows@[i].duration_ns <= i64::MAX ==> cells[4][i]->Int64_0
                    == rows@[i].duration_ns
                &&& rows@[i].span_count <= i64::MAX ==> cells[5][i]->Int64_0 == rows@[i].span_count
                &&& cells[6][i] == Cell::Boolean(rows@[i].error)
            }
        },
        code != imbh_error::Success ==> *final(out) == *old(out),
{
    if let Ok(rows) = reply {
        columns_reach_the_caller_as_they_are(
            summary_defs(),
            summary_cells(rows@),
            *old(out),
            *final(out),
            code,
            *final(last),
        );
    }
}

/// The raw samples of a metric are asked for as the builder says, each field by its own, and a
/// limit of zero asks for the default. Every batch of the reply is in the stream, in order.
pub proof fn raw_samples_arrive_whole<
    D,
    F: FnOnce(&imbh_db<D>, MetricPointsQuery) -> Result<Vec<Batch>, EngineError>,
>(
    db: &imbh_db<D>,
    q: &imbh_metric_points_query,
    out: &mut arrow::ffi_stream::FFI_ArrowArrayStream,
    run: F,
    reply: Result<Vec<Batch>, EngineError>,
    last: &mut LastError,
    code: imbh_error,
)
    requires
        q.limit <= usize::MAX,
        forall|request: MetricPointsQuery, r: Result<Vec<Batch>, EngineError>| #[trigger]
            run.ensures((db, request), r) && request.kind == q.kind && request.metric@ == q.metric@
                && pair_texts(request.filters@) == pair_texts(q.filters@) && request.range
                == q.range && (q.limit == 0 ==> request.limit is None) && (q.limit > 0 ==> (
            request.limit matches Some(most) && most == q.limit)) ==> r == reply,
        call_ensures(
            imbh_db_metrics_points::<D, F>,
            (Some(db), Some(q), Some(out), run, last),
            code,
        ),
    ensures
        reply matches Err(e) ==> engine_failed(code, *final(last), e),
        reply matches Ok(batches) ==> {
            &&& code == imbh_error::Success
            &&& stream_cells(*final(out)).len() == batches@.len()
            &&& forall|i: int|
                0 <= i < batches@.len() ==> #[trigger] stream_cells(*final(out))[i] == batch_cells(
                    batches@[i],
                )
            &&& batches@.len() > 0 ==> stream_columns(*final(out)) == batch_columns(batches@[0])
            &&& batches@.len() == 0 ==> stream_columns(*final(out)).len() == 0
        },
        code != imbh_error::Success ==> *final(out) == *old(out),
{
}

/// [`imbh_db_logs_query`] refuses a null handle, a null builder and a null output, each with its
/// own message, whatever else it is given.
pub proof fn logs_query_refuses_nulls<
    D,
    F: FnOnce(&imbh_db<D>, &imbh_log_query) -> Result<(Vec<Batch>, imbh_query_stats), EngineError>,
>(
    db: &imbh_db<D>,
    query: &imbh_log_query,
    out: Option<&mut arrow::ffi_stream::FFI_ArrowArrayStream>,
    stats: Option<&mut imbh_query_stats>,
    run: F,
    last: &mut LastError,
    code: imbh_error,
)
    ensures
        call_ensures(
            imbh_db_logs_query::<D, F>,
            (None::<&imbh_db<D>>, Some(query), out, stats, run, last),
            code,
        ) ==> rejected(code, *final(last), "null imbh_db handle"@),
        call_ensures(
            imbh_db_logs_query::<D, F>,
            (Some(db), None::<&imbh_log_query>, out, stats, run, last),
            code,
        ) ==> rejected(code, *final(last), "null imbh_log_query"@),
        call_ensures(
            imbh_db_logs_query::<D, F>,
            (
                Some(db),
                Some(query),
                None::<&mut arrow::ffi_stream::FFI_ArrowArrayStream>,
                stats,
                run,
                last,
            ),
            code,
        ) ==> rejected(code, *final(last), "null out stream pointer"@),
{
}

/// [`imbh_db_metrics_range`] refuses a null handle, a null builder and a null output, each with its
/// own message, whatever else it is given.
pub proof fn metrics_range_refuses_nulls<
    D,
    F: FnOnce(&imbh_db<D>, &imbh_metric_query) -> Result<
        (Vec<Batch>, imbh_query_stats),
        EngineError,
    >,
>(
    db: &imbh_db<D>,
    query: &imbh_metric_query,
    out: Option<&mut arrow::ffi_stream::FFI_ArrowArrayStream>,
    stats: Option<&mut imbh_query_stats>,
    run: F,
    last: &mut LastError,
    code: imbh_error,
)
    ensures
        call_ensures(
            imbh_db_metrics_range::<D, F>,
            (None::<&imbh_db<D>>, Some(query), out, stats, run, last),
            code,
        ) ==> rejected(code, *final(last), "null imbh_db handle"@),
        call_ensures(
            imbh_db_metrics_range::<D, F>,
            (Some(db), None::<&imbh_metric_query>, out, stats, run, last),
            code,
        ) ==> rejected(code, *final(last), "null imbh_metric_query"@),
        call_ensures(
            imbh_db_metrics_range::<D, F>,
            (
                Some(db),
                Some(query),
                None::<&mut arrow::ffi_stream::FFI_ArrowArrayStream>,
                stats,
                run,
                last,
            ),
            code,
        ) ==> rejected(code, *final(last), "null out stream pointer"@),
{
}

/// [`imbh_db_traces_span_metrics`] refuses a null handle, a null builder and a null output, each
/// with its own message, whatever else it is given.
pub proof fn traces_span_metrics_refuses_nulls<
    D,
    F: FnOnce(&imbh_db<D>, &imbh_span_metrics_query) -> Result<
        (Vec<Batch>, imbh_query_stats),
        EngineError,
    >,
>(
    db: &imbh_db<D>,
    query: &imbh_span_metrics_query,
    out: Option<&mut arrow::ffi_stream::FFI_ArrowArrayStream>,
    stats: Option<&mut imbh_query_stats>,
    run: F,
    last: &mut LastError,
    code: imbh_error,
)
    ensures
        call_ensures(
            imbh_db_traces_span_metrics::<D, F>,
            (None::<&imbh_db<D>>, Some(query), out, stats, run, last),
            code,
        ) ==> rejected(code, *final(last), "null imbh_db handle"@),
        call_ensures(
            imbh_db_traces_span_metrics::<D, F>,
            (Some(db), None::<&imbh_span_metrics_query>, out, stats, run, last),
            code,
        ) ==> rejected(code, *final(last), "null imbh_span_metrics_query"@),
        call_ensures(
            imbh_db_traces_span_metrics::<D, F>,
            (
                Some(db),
                Some(query),
                None::<&mut arrow::ffi_stream::FFI_ArrowArrayStream>,
                stats,
                run,
                last,
            ),
            code,
        ) ==> rejected(code, *final(last), "null out stream pointer"@),
{
}

/// [`imbh_db_metrics_instant`] refuses a null handle, a null builder and a null output, each with
/// its own message, whatever else it is given.
pub proof fn metrics_instant_refuses_nulls<
    D,
    F: FnOnce(&imbh_db<D>, &imbh_metric_query) -> Result<Vec<InstantSample>, EngineError>,
    G: Fn(&Vec<(String, AnyValue)>) -> String,
>(
    db: &imbh_db<D>,
    query: &imbh_metric_query,
    out: Option<&mut arrow::ffi_stream::FFI_ArrowArrayStream>,
    run: F,
    encode: &G,
    last: &mut LastError,
    code: imbh_error,
)
    ensures
        call_ensures(
            imbh_db_metrics_instant::<D, F, G>,
            (None::<&imbh_db<D>>, Some(query), out, run, encode, last),
            code,
        ) ==> rejected(code, *final(last), "null imbh_db handle"@),
        call_ensures(
            imbh_db_metrics_instant::<D, F, G>,
            (Some(db), None::<&imbh_metric_query>, out, run, encode, last),
            code,
        ) ==> rejected(code, *final(last), "null imbh_metric_query"@),
        call_ensures(
            imbh_db_metrics_instant::<D, F, G>,
            (
                Some(db),
                Some(query),
                None::<&mut arrow::ffi_stream::FFI_ArrowArrayStream>,
                run,
                encode,
                last,
            ),
            code,
        ) ==> rejected(code, *final(last), "null out stream pointer"@),
{
}

/// [`imbh_db_logs_volume`] refuses a null handle, a null builder and a null output, each with its
/// own message, whatever else it is given.
pub proof fn logs_volume_refuses_nulls<
    D,
    Q,
    B: FnOnce(&imbh_log_query) -> Result<Q, EngineError>,
    F: FnOnce(&imbh_db<D>, Q, u64, &Vec<String>) -> Result<Vec<VolumeBucket>, EngineError>,
    G: Fn(&Vec<(String, AnyValue)>) -> String,
>(
    db: &imbh_db<D>,
    query: &imbh_log_query,
    step_nanos: u64,
    group_by: Option<&[Option<&[u8]>]>,
    group_by_len: usize,
    out: Option<&mut arrow::ffi_stream::FFI_ArrowArrayStream>,
    build: B,
    run: F,
    encode: &G,
    last: &mut LastError,
    code: imbh_error,
)
    ensures
        call_ensures(
            imbh_db_logs_volume::<D, Q, B, F, G>,
            (
                None::<&imbh_db<D>>,
                Some(query),
                step_nanos,
                group_by,
                group_by_len,
                out,
                build,
                run,
                encode,
                last,
            ),
            code,
        ) ==> rejected(code, *final(last), "null imbh_db handle"@),
        call_ensures(
            imbh_db_logs_volume::<D, Q, B, F, G>,
            (
                Some(db),
                None::<&imbh_log_query>,
                step_nanos,
                group_by,
                group_by_len,
                out,
                build,
                run,
                encode,
                last,
            ),
            code,
        ) ==> rejected(code, *final(last), "null imbh_log_query"@),
        call_ensures(
            imbh_db_logs_volume::<D, Q, B, F, G>,
            (
                Some(db),
                Some(query),
                step_nanos,
                group_by,
                group_by_len,
                None::<&mut arrow::ffi_stream::FFI_ArrowArrayStream>,
                build,
                run,
                encode,
                last,
            ),
            code,
        ) ==> rejected(code, *final(last), "null out stream pointer"@),
{
}

/// [`imbh_db_logs_page`] refuses a null handle, a null builder and a null output, each with its own
/// message, whatever else it is given.
pub proof fn logs_page_refuses_nulls<
    D,
    F: FnOnce(&imbh_db<D>, &imbh_log_query) -> Result<
        (Vec<Batch>, imbh_query_stats),
        EngineError,
    >,
>(
    db: &imbh_db<D>,
    query: &imbh_log_query,
    after: u64,
    out: Option<&mut arrow::ffi_stream::FFI_ArrowArrayStream>,
    stats: Option<&mut imbh_query_stats>,
    next_offset: Option<&mut u64>,
    has_more: Option<&mut bool>,
    run: F,
    last: &mut LastError,
    code: imbh_error,
)
    ensures
        call_ensures(
            imbh_db_logs_page::<D, F>,
            (None::<&imbh_db<D>>, Some(query), after, out, stats, next_offset, has_more, run, last),
            code,
        ) ==> rejected(code, *final(last), "null imbh_db handle"@),
        call_ensures(
            imbh_db_logs_page::<D, F>,
            (
                Some(db),
                None::<&imbh_log_query>,
                after,
                out,
                stats,
                next_offset,
                has_more,
                run,
                last,
            ),
            code,
        ) ==> rejected(code, *final(last), "null imbh_log_query"@),
        call_ensures(
            imbh_db_logs_page::<D, F>,
            (
                Some(db),
                Some(query),
                after,
                None::<&mut arrow::ffi_stream::FFI_ArrowArrayStream>,
                stats,
                next_offset,
                has_more,
                run,
                last,
            ),
            code,
        ) ==> rejected(code, *final(last), "null out stream pointer"@),
{
}

/// [`imbh_db_logs_count`] refuses a null handle, a null builder and a null output, each with its
/// own message, whatever else it is given.
pub proof fn logs_count_refuses_nulls<
    D,
    F: FnOnce(&imbh_db<D>, &imbh_log_query) -> Result<u64, EngineError>,
>(
    db: &imbh_db<D>,
    query: &imbh_log_query,
    count: Option<&mut u64>,
    count_rows: F,
    last: &mut LastError,
    code: imbh_error,
)
    ensures
        call_ensures(
            imbh_db_logs_count::<D, F>,
            (None::<&imbh_db<D>>, Some(query), count, count_rows, last),
            code,
        ) ==> rejected(code, *final(last), "null imbh_db handle"@),
        call_ensures(
            imbh_db_logs_count::<D, F>,
            (Some(db), None::<&imbh_log_query>, count, count_rows, last),
            code,
        ) ==> rejected(code, *final(last), "null imbh_log_query"@),
        call_ensures(
            imbh_db_logs_count::<D, F>,
            (Some(db), Some(query), None::<&mut u64>, count_rows, last),
            code,
        ) ==> rejected(code, *final(last), "null out pointer"@),
{
}

/// [`imbh_db_traces_search`] refuses a null handle, a null builder and a null output, each with its
/// own message, whatever else it is given.
pub proof fn traces_search_refuses_nulls<
    D,
    F: FnOnce(&imbh_db<D>, &imbh_trace_query) -> Result<Vec<TraceSummary>, EngineError>,
>(
    db: &imbh_db<D>,
    query: &imbh_trace_query,
    out: Option<&mut arrow::ffi_stream::FFI_ArrowArrayStream>,
    search: F,
    last: &mut LastError,
    code: imbh_error,
)
    ensures
        call_ensures(
            imbh_db_traces_search::<D, F>,
            (None::<&imbh_db<D>>, Some(query), out, search, last),
            code,
        ) ==> rejected(code, *final(last), "null imbh_db handle"@),
        call_ensures(
            imbh_db_traces_search::<D, F>,
            (Some(db), None::<&imbh_trace_query>, out, search, last),
            code,
        ) ==> rejected(code, *final(last), "null imbh_trace_query"@),
        call_ensures(
            imbh_db_traces_search::<D, F>,
            (
                Some(db),
                Some(query),
                None::<&mut arrow::ffi_stream::FFI_ArrowArrayStream>,
                search,
                last,
            ),
            code,
        ) ==> rejected(code, *final(last), "null out stream pointer"@),
{
}

/// [`imbh_db_metrics_points`] refuses a null handle, a null builder and a null output, each with
/// its own message, whatever else it is given.
pub proof fn metrics_points_refuses_nulls<
    D,
    F: FnOnce(&imbh_db<D>, MetricPointsQuery) -> Result<Vec<Batch>, EngineError>,
>(
    db: &imbh_db<D>,
    query: &imbh_metric_points_query,
    out: Option<&mut arrow::ffi_stream::FFI_ArrowArrayStream>,
    run: F,
    last: &mut LastError,
    code: imbh_error,
)
    ensures
        call_ensures(
            imbh_db_metrics_points::<D, F>,
            (None::<&imbh_db<D>>, Some(query), out, run, last),
            code,
        ) ==> rejected(code, *final(last), "null imbh_db handle"@),
        call_ensures(
            imbh_db_metrics_points::<D, F>,
            (Some(db), None::<&imbh_metric_points_query>, out, run, last),
            code,
        ) ==> rejected(code, *final(last), "null imbh_metric_points_query"@),
        call_ensures(
            imbh_db_metrics_points::<D, F>,
            (
                Some(db),
                Some(query),
                None::<&mut arrow::ffi_stream::FFI_ArrowArrayStream>,
                run,
                last,
            ),
            code,
        ) ==> rejected(code, *final(last), "null out stream pointer"@),
{
}

} // verus!
