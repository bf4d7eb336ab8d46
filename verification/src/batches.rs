//! The record batches that this library builds itself, and how they reach the caller.

use vstd::prelude::*;

use crate::arrow_stream::{export_batches_infer, streams};
use crate::columnar::{
    batch_cells, batch_columns, BatchFailure, boolean_cells, build_batch, builds, Cell, Column,
    column_cells, ColumnDef, column_defs, ColumnType, ColumnValues, DataKind, even_columns,
    first_overflow, float64_cells, int64_cells, is_arrow_error, optional_string_cells,
    string_cells, text_bytes, Batch,
};
use crate::error::{
    imbh_error, LastError, panicked, query_failed, settle, settle_panic, succeeded, CallError,
};
use crate::ids::{hex_text, SpanId, TraceId};

verus! {

/// One trace of a trace search.
#[derive(Debug)]
pub struct TraceSummary {
    pub trace_id: TraceId,
    pub root_service: Option<String>,
    pub root_name: Option<String>,
    pub start_time: i64,
    pub duration_ns: u64,
    pub span_count: u64,
    pub error: bool,
}

/// One sealed segment.
#[derive(Debug)]
pub struct SegmentRef {
    pub relative_path: String,
    pub min_time_unix_nano: i64,
    pub max_time_unix_nano: i64,
    pub rows: u64,
}

/// One metric of the catalog.
#[derive(Debug)]
pub struct MetricMeta {
    pub metric: String,
    pub unit: String,
    pub temporality: Option<String>,
    pub kind: String,
}

/// One exemplar of a metric. The value is held by its IEEE-754 bits, the attributes as canonical
/// JSON.
#[derive(Debug)]
pub struct Exemplar {
    pub time: i64,
    pub value_bits: u64,
    pub trace_id: Option<TraceId>,
    pub span_id: Option<SpanId>,
    pub attributes: String,
}

/// A column of a schema.
pub open spec fn def(name: Seq<char>, kind: ColumnType, nullable: bool) -> ColumnDef {
    ColumnDef { name, kind: DataKind::Known(kind), nullable }
}

/// The cell of a string that may be absent.
pub open spec fn optional_cell(s: Option<String>) -> Cell {
    match s {
        Some(s) => Cell::Utf8(s@),
        None => Cell::Null,
    }
}

/// The columns of a batch of one column of strings.
pub open spec fn utf8_defs(name: Seq<char>) -> Seq<ColumnDef> {
    seq![def(name, ColumnType::Utf8, false)]
}

/// The columns of a long-form series batch.
pub open spec fn series_defs() -> Seq<ColumnDef> {
    seq![
        def("labels"@, ColumnType::Utf8, false),
        def("timestamp"@, ColumnType::Int64, false),
        def("value"@, ColumnType::Float64, false),
    ]
}

/// The columns of a log-volume batch.
pub open spec fn volume_defs() -> Seq<ColumnDef> {
    seq![
        def("bucket_time"@, ColumnType::Int64, false),
        def("labels"@, ColumnType::Utf8, false),
        def("count"@, ColumnType::Int64, false),
    ]
}

/// The columns of a trace-search batch.
pub open spec fn summary_defs() -> Seq<ColumnDef> {
    seq![
        def("trace_id"@, ColumnType::Utf8, false),
        def("root_service"@, ColumnType::Utf8, true),
        def("root_name"@, ColumnType::Utf8, true),
        def("start_time"@, ColumnType::Int64, false),
        def("duration_ns"@, ColumnType::Int64, false),
        def("span_count"@, ColumnType::Int64, false),
        def("error"@, ColumnType::Boolean, false),
    ]
}

/// The cells of a trace-search batch, one row a trace. A count over the range of the column wraps.
pub open spec fn summary_cells(rows: Seq<TraceSummary>) -> Seq<Seq<Cell>> {
    seq![
        rows.map_values(|s: TraceSummary| Cell::Utf8(hex_text(s.trace_id.bytes@))),
        rows.map_values(|s: TraceSummary| optional_cell(s.root_service)),
        rows.map_values(|s: TraceSummary| optional_cell(s.root_name)),
        rows.map_values(|s: TraceSummary| Cell::Int64(s.start_time)),
        rows.map_values(|s: TraceSummary| Cell::Int64(s.duration_ns as i64)),
        rows.map_values(|s: TraceSummary| Cell::Int64(s.span_count as i64)),
        rows.map_values(|s: TraceSummary| Cell::Boolean(s.error)),
    ]
}

/// The columns of a segment listing.
pub open spec fn segment_defs() -> Seq<ColumnDef> {
    seq![
        def("relative_path"@, ColumnType::Utf8, false),
        def("min_time_unix_nano"@, ColumnType::Int64, false),
        def("max_time_unix_nano"@, ColumnType::Int64, false),
        def("rows"@, ColumnType::Int64, false),
    ]
}

/// The cells of a segment listing, one row a segment. A row count over the range of the column
/// wraps.
pub open spec fn segment_cells(rows: Seq<SegmentRef>) -> Seq<Seq<Cell>> {
    seq![
        rows.map_values(|s: SegmentRef| Cell::Utf8(s.relative_path@)),
        rows.map_values(|s: SegmentRef| Cell::Int64(s.min_time_unix_nano)),
        rows.map_values(|s: SegmentRef| Cell::Int64(s.max_time_unix_nano)),
        rows.map_values(|s: SegmentRef| Cell::Int64(s.rows as i64)),
    ]
}

/// The columns of the metric catalog.
pub open spec fn catalog_defs() -> Seq<ColumnDef> {
    seq![
        def("metric"@, ColumnType::Utf8, false),
        def("unit"@, ColumnType::Utf8, false),
        def("temporality"@, ColumnType::Utf8, true),
        def("kind"@, ColumnType::Utf8, false),
    ]
}

/// The cells of the metric catalog, one row a metric.
pub open spec fn catalog_cells(rows: Seq<MetricMeta>) -> Seq<Seq<Cell>> {
    seq![
        rows.map_values(|m: MetricMeta| Cell::Utf8(m.metric@)),
        rows.map_values(|m: MetricMeta| Cell::Utf8(m.unit@)),
        rows.map_values(|m: MetricMeta| optional_cell(m.temporality)),
        rows.map_values(|m: MetricMeta| Cell::Utf8(m.kind@)),
    ]
}

/// The columns of an exemplar listing.
pub open spec fn exemplar_defs() -> Seq<ColumnDef> {
    seq![
        def("time"@, ColumnType::Int64, false),
        def("value"@, ColumnType::Float64, false),
        def("trace_id"@, ColumnType::Utf8, true),
        def("span_id"@, ColumnType::Utf8, true),
        def("attributes"@, ColumnType::Utf8, false),
    ]
}

/// The cell of a trace id that may be absent.
pub open spec fn trace_id_cell(id: Option<TraceId>) -> Cell {
    match id {
        Some(id) => Cell::Utf8(hex_text(id.bytes@)),
        None => Cell::Null,
    }
}

/// The cell of a span id that may be absent.
pub open spec fn span_id_cell(id: Option<SpanId>) -> Cell {
    match id {
        Some(id) => Cell::Utf8(hex_text(id.bytes@)),
        None => Cell::Null,
    }
}

/// The cells of an exemplar listing, one row an exemplar.
pub open spec fn exemplar_cells(rows: Seq<Exemplar>) -> Seq<Seq<Cell>> {
    seq![
        rows.map_values(|e: Exemplar| Cell::Int64(e.time)),
        rows.map_values(|e: Exemplar| Cell::Float64(e.value_bits)),
        rows.map_values(|e: Exemplar| trace_id_cell(e.trace_id)),
        rows.map_values(|e: Exemplar| span_id_cell(e.span_id)),
        rows.map_values(|e: Exemplar| Cell::Utf8(e.attributes@)),
    ]
}

/// A batch of one column of strings, without a null.
pub fn utf8_batch(col: &str, values: Vec<String>) -> (r: Result<Batch, BatchFailure>)
    ensures
        builds(utf8_defs(col@), seq![string_cells(values@)], r),
{
    let columns = vec![Column { name: col, values: ColumnValues::Utf8(values) }];
    assert(column_defs(columns@) =~= utf8_defs(col@));
    assert(column_cells(columns@) =~= seq![string_cells(values@)]);
    build_batch(columns)
}

/// The long-form series batch: `labels`, `timestamp` and `value`, one row a sample.
pub fn series_batch(labels: Vec<String>, ts: Vec<i64>, vals: Vec<u64>) -> (r: Result<
    Batch,
    BatchFailure,
>)
    ensures
        builds(
            series_defs(),
            seq![string_cells(labels@), int64_cells(ts@), float64_cells(vals@)],
            r,
        ),
{
    let columns = vec![
        Column { name: "labels", values: ColumnValues::Utf8(labels) },
        Column { name: "timestamp", values: ColumnValues::Int64(ts) },
        Column { name: "value", values: ColumnValues::Float64(vals) },
    ];
    assert(column_defs(columns@) =~= series_defs());
    assert(column_cells(columns@) =~= seq![
        string_cells(labels@),
        int64_cells(ts@),
        float64_cells(vals@),
    ]);
    build_batch(columns)
}

/// The log-volume batch: `bucket_time`, `labels` and `count`, one row a bucket and label set.
pub fn volume_batch(times: Vec<i64>, labels: Vec<String>, counts: Vec<i64>) -> (r: Result<
    Batch,
    BatchFailure,
>)
    ensures
        builds(
            volume_defs(),
            seq![int64_cells(times@), string_cells(labels@), int64_cells(counts@)],
            r,
        ),
{
    let columns = vec![
        Column { name: "bucket_time", values: ColumnValues::Int64(times) },
        Column { name: "labels", values: ColumnValues::Utf8(labels) },
        Column { name: "count", values: ColumnValues::Int64(counts) },
    ];
    assert(column_defs(columns@) =~= volume_defs());
    assert(column_cells(columns@) =~= seq![
        int64_cells(times@),
        string_cells(labels@),
        int64_cells(counts@),
    ]);
    build_batch(columns)
}

/// The trace-search batch, one row a trace.
pub fn trace_summary_batch(summaries: Vec<TraceSummary>) -> (r: Result<Batch, BatchFailure>)
    ensures
        builds(summary_defs(), summary_cells(summaries@), r),
{
    let mut trace_ids: Vec<String> = Vec::new();
    let mut root_services: Vec<Option<String>> = Vec::new();
    let mut root_names: Vec<Option<String>> = Vec::new();
    let mut start_times: Vec<i64> = Vec::new();
    let mut durations: Vec<i64> = Vec::new();
    let mut span_counts: Vec<i64> = Vec::new();
    let mut errors: Vec<bool> = Vec::new();
    let ghost rows = summaries@;
    for s in it: summaries.into_iter()
        invariant
            it.seq() == rows,
            trace_ids@.len() == it.index(),
            root_services@.len() == it.index(),
            root_names@.len() == it.index(),
            start_times@.len() == it.index(),
            durations@.len() == it.index(),
            span_counts@.len() == it.index(),
            errors@.len() == it.index(),
            forall|j: int|
                0 <= j < it.index() ==> (#[trigger] trace_ids@[j])@ == hex_text(
                    rows[j].trace_id.bytes@,
                ),
            forall|j: int|
                0 <= j < it.index() ==> #[trigger] root_services@[j] == rows[j].root_service,
            forall|j: int| 0 <= j < it.index() ==> #[trigger] root_names@[j] == rows[j].root_name,
            forall|j: int| 0 <= j < it.index() ==> #[trigger] start_times@[j] == rows[j].start_time,
            forall|j: int|
                0 <= j < it.index() ==> #[trigger] durations@[j] == rows[j].duration_ns as i64,
            forall|j: int|
                0 <= j < it.index() ==> #[trigger] span_counts@[j] == rows[j].span_count as i64,
            forall|j: int| 0 <= j < it.index() ==> #[trigger] errors@[j] == rows[j].error,
    {
        trace_ids.push(s.trace_id.to_hex());
        root_services.push(s.root_service);
        root_names.push(s.root_name);
        start_times.push(s.start_time);
        durations.push(s.duration_ns as i64);
        span_counts.push(s.span_count as i64);
        errors.push(s.error);
    }
    let columns = vec![
        Column { name: "trace_id", values: ColumnValues::Utf8(trace_ids) },
        Column { name: "root_service", values: ColumnValues::OptionalUtf8(root_services) },
        Column { name: "root_name", values: ColumnValues::OptionalUtf8(root_names) },
        Column { name: "start_time", values: ColumnValues::Int64(start_times) },
        Column { name: "duration_ns", values: ColumnValues::Int64(durations) },
        Column { name: "span_count", values: ColumnValues::Int64(span_counts) },
        Column { name: "error", values: ColumnValues::Boolean(errors) },
    ];
    assert(column_defs(columns@) =~= summary_defs());
    assert(string_cells(trace_ids@) =~= summary_cells(rows)[0]);
    assert(optional_string_cells(root_services@) =~= summary_cells(rows)[1]);
    assert(optional_string_cells(root_names@) =~= summary_cells(rows)[2]);
    assert(int64_cells(start_times@) =~= summary_cells(rows)[3]);
    assert(int64_cells(durations@) =~= summary_cells(rows)[4]);
    assert(int64_cells(span_counts@) =~= summary_cells(rows)[5]);
    assert(boolean_cells(errors@) =~= summary_cells(rows)[6]);
    assert(column_cells(columns@) =~= summary_cells(rows));
    build_batch(columns)
}

/// The segment listing, one row a segment.
pub fn segments_batch(segments: Vec<SegmentRef>) -> (r: Result<Batch, BatchFailure>)
    ensures
        builds(segment_defs(), segment_cells(segments@), r),
{
    let mut paths: Vec<String> = Vec::new();
    let mut mins: Vec<i64> = Vec::new();
    let mut maxs: Vec<i64> = Vec::new();
    let mut rows: Vec<i64> = Vec::new();
    let ghost all = segments@;
    for s in it: segments.into_iter()
        invariant
            it.seq() == all,
            paths@.len() == it.index(),
            mins@.len() == it.index(),
            maxs@.len() == it.index(),
            rows@.len() == it.index(),
            forall|j: int| 0 <= j < it.index() ==> #[trigger] paths@[j] == all[j].relative_path,
            forall|j: int| 0 <= j < it.index() ==> #[trigger] mins@[j] == all[j].min_time_unix_nano,
            forall|j: int| 0 <= j < it.index() ==> #[trigger] maxs@[j] == all[j].max_time_unix_nano,
            forall|j: int| 0 <= j < it.index() ==> #[trigger] rows@[j] == all[j].rows as i64,
    {
        paths.push(s.relative_path);
        mins.push(s.min_time_unix_nano);
        maxs.push(s.max_time_unix_nano);
        rows.push(s.rows as i64);
    }
    let columns = vec![
        Column { name: "relative_path", values: ColumnValues::Utf8(paths) },
        Column { name: "min_time_unix_nano", values: ColumnValues::Int64(mins) },
        Column { name: "max_time_unix_nano", values: ColumnValues::Int64(maxs) },
        Column { name: "rows", values: ColumnValues::Int64(rows) },
    ];
    assert(column_defs(columns@) =~= segment_defs());
    assert(string_cells(paths@) =~= segment_cells(all)[0]);
    assert(int64_cells(mins@) =~= segment_cells(all)[1]);
    assert(int64_cells(maxs@) =~= segment_cells(all)[2]);
    assert(int64_cells(rows@) =~= segment_cells(all)[3]);
    assert(column_cells(columns@) =~= segment_cells(all));
    build_batch(columns)
}

/// The metric catalog, one row a metric.
pub fn catalog_batch(catalog: Vec<MetricMeta>) -> (r: Result<Batch, BatchFailure>)
    ensures
        builds(catalog_defs(), catalog_cells(catalog@), r),
{
    let mut metrics: Vec<String> = Vec::new();
    let mut units: Vec<String> = Vec::new();
    let mut temporalities: Vec<Option<String>> = Vec::new();
    let mut kinds: Vec<String> = Vec::new();
    let ghost all = catalog@;
    for m in it: catalog.into_iter()
        invariant
            it.seq() == all,
            metrics@.len() == it.index(),
            units@.len() == it.index(),
            temporalities@.len() == it.index(),
            kinds@.len() == it.index(),
            forall|j: int| 0 <= j < it.index() ==> #[trigger] metrics@[j] == all[j].metric,
            forall|j: int| 0 <= j < it.index() ==> #[trigger] units@[j] == all[j].unit,
            forall|j: int|
                0 <= j < it.index() ==> #[trigger] temporalities@[j] == all[j].temporality,
            forall|j: int| 0 <= j < it.index() ==> #[trigger] kinds@[j] == all[j].kind,
    {
        metrics.push(m.metric);
        units.push(m.unit);
        temporalities.push(m.temporality);
        kinds.push(m.kind);
    }
    let columns = vec![
        Column { name: "metric", values: ColumnValues::Utf8(metrics) },
        Column { name: "unit", values: ColumnValues::Utf8(units) },
        Column { name: "temporality", values: ColumnValues::OptionalUtf8(temporalities) },
        Column { name: "kind", values: ColumnValues::Utf8(kinds) },
    ];
    assert(column_defs(columns@) =~= catalog_defs());
    assert(string_cells(metrics@) =~= catalog_cells(all)[0]);
    assert(string_cells(units@) =~= catalog_cells(all)[1]);
    assert(optional_string_cells(temporalities@) =~= catalog_cells(all)[2]);
    assert(string_cells(kinds@) =~= catalog_cells(all)[3]);
    assert(column_cells(columns@) =~= catalog_cells(all));
    build_batch(columns)
}

/// The exemplar listing, one row an exemplar.
pub fn exemplars_batch(exemplars: Vec<Exemplar>) -> (r: Result<Batch, BatchFailure>)
    ensures
        builds(exemplar_defs(), exemplar_cells(exemplars@), r),
{
    let mut times: Vec<i64> = Vec::new();
    let mut values: Vec<u64> = Vec::new();
    let mut trace_ids: Vec<Option<String>> = Vec::new();
    let mut span_ids: Vec<Option<String>> = Vec::new();
    let mut attributes: Vec<String> = Vec::new();
    let ghost all = exemplars@;
    for ex in it: exemplars.into_iter()
        invariant
            it.seq() == all,
            times@.len() == it.index(),
            values@.len() == it.index(),
            trace_ids@.len() == it.index(),
            span_ids@.len() == it.index(),
            attributes@.len() == it.index(),
            forall|j: int| 0 <= j < it.index() ==> #[trigger] times@[j] == all[j].time,
            forall|j: int| 0 <= j < it.index() ==> #[trigger] values@[j] == all[j].value_bits,
            forall|j: int|
                0 <= j < it.index() ==> optional_cell(#[trigger] trace_ids@[j]) == trace_id_cell(
                    all[j].trace_id,
                ),
            forall|j: int|
                0 <= j < it.index() ==> optional_cell(#[trigger] span_ids@[j]) == span_id_cell(
                    all[j].span_id,
                ),
            forall|j: int| 0 <= j < it.index() ==> #[trigger] attributes@[j] == all[j].attributes,
    {
        times.push(ex.time);
        values.push(ex.value_bits);
        trace_ids.push(
            match ex.trace_id {
                Some(id) => Some(id.to_hex()),
                None => None,
            },
        );
        span_ids.push(
            match ex.span_id {
                Some(id) => Some(id.to_hex()),
                None => None,
            },
        );
        attributes.push(ex.attributes);
    }
    let columns = vec![
        Column { name: "time", values: ColumnValues::Int64(times) },
        Column { name: "value", values: ColumnValues::Float64(values) },
        Column { name: "trace_id", values: ColumnValues::OptionalUtf8(trace_ids) },
        Column { name: "span_id", values: ColumnValues::OptionalUtf8(span_ids) },
        Column { name: "attributes", values: ColumnValues::Utf8(attributes) },
    ];
    assert(column_defs(columns@) =~= exemplar_defs());
    assert(int64_cells(times@) =~= exemplar_cells(all)[0]);
    assert(float64_cells(values@) =~= exemplar_cells(all)[1]);
    assert(optional_string_cells(trace_ids@) =~= exemplar_cells(all)[2]) by {
        assert forall|j: int| 0 <= j < all.len() implies optional_string_cells(trace_ids@)[j]
            == exemplar_cells(all)[2][j] by {
            assert(optional_cell(trace_ids@[j]) == trace_id_cell(all[j].trace_id));
        }
    }
    assert(optional_string_cells(span_ids@) =~= exemplar_cells(all)[3]) by {
        assert forall|j: int| 0 <= j < all.len() implies optional_string_cells(span_ids@)[j]
            == exemplar_cells(all)[3][j] by {
            assert(optional_cell(span_ids@[j]) == span_id_cell(all[j].span_id));
        }
    }
    assert(string_cells(attributes@) =~= exemplar_cells(all)[4]);
    assert(column_cells(columns@) =~= exemplar_cells(all));
    build_batch(columns)
}

/// Write a single batch to the caller's stream.
pub fn write_batch(out: &mut arrow::ffi_stream::FFI_ArrowArrayStream, batch: Batch)
    ensures
        streams(*final(out), batch_columns(batch), seq![batch_cells(batch)]),
{
    let batches = vec![batch];
    *out = export_batches_infer(batches);
    assert(crate::arrow_stream::batches_cells(batches@) =~= seq![batch_cells(batch)]);
}

/// The outcome of handing a batch of these columns to the caller: the stream holds the one batch,
/// or stays as it was because the batch could not be built.
pub open spec fn hands_over(
    defs: Seq<ColumnDef>,
    cells: Seq<Seq<Cell>>,
    before: arrow::ffi_stream::FFI_ArrowArrayStream,
    after: arrow::ffi_stream::FFI_ArrowArrayStream,
    code: imbh_error,
    last: LastError,
) -> bool {
    match first_overflow(defs, cells, cells.len()) {
        Some(reason) => panicked(code, last, reason) && after == before,
        None => if even_columns(cells) {
            succeeded(code, last) && streams(after, defs, seq![cells])
        } else {
            after == before && exists|reason: Seq<char>| #[trigger]
                query_failed(code, last, reason) && is_arrow_error(reason)
        },
    }
}

/// What became of a batch that was to be handed to the caller.
pub open spec fn delivers(
    built: Result<Batch, BatchFailure>,
    before: arrow::ffi_stream::FFI_ArrowArrayStream,
    after: arrow::ffi_stream::FFI_ArrowArrayStream,
    code: imbh_error,
    last: LastError,
) -> bool {
    match built {
        Ok(b) => succeeded(code, last) && streams(after, batch_columns(b), seq![batch_cells(b)]),
        Err(BatchFailure::Panic(text)) => panicked(code, last, text@) && after == before,
        Err(BatchFailure::Call(e)) => crate::error::reports(Ok(Err(e)), code, last) && after
            == before,
    }
}

/// Hand a batch to the caller, or report why there is none.
pub fn deliver(
    built: Result<Batch, BatchFailure>,
    out: &mut arrow::ffi_stream::FFI_ArrowArrayStream,
    last: &mut LastError,
) -> (code: imbh_error)
    ensures
        delivers(built, *old(out), *final(out), code, *final(last)),
        forall|defs: Seq<ColumnDef>, cells: Seq<Seq<Cell>>| #[trigger]
            builds(defs, cells, built) ==> hands_over(
                defs,
                cells,
                *old(out),
                *final(out),
                code,
                *final(last),
            ),
{
    match built {
        Ok(b) => {
            write_batch(out, b);
            settle(Ok(()), last)
        },
        Err(BatchFailure::Panic(text)) => settle_panic(text.as_str(), last),
        Err(BatchFailure::Call(e)) => settle(Err(e), last),
    }
}

/// The batches that are built row by row always match their schema: the columns of a trace search,
/// a segment listing, the metric catalog and an exemplar listing have one length, whatever the rows
/// are, so such a batch fails only where its strings outgrow a column.
pub proof fn row_batches_match_their_schema(
    summaries: Seq<TraceSummary>,
    segments: Seq<SegmentRef>,
    catalog: Seq<MetricMeta>,
    exemplars: Seq<Exemplar>,
)
    ensures
        even_columns(summary_cells(summaries)),
        even_columns(segment_cells(segments)),
        even_columns(catalog_cells(catalog)),
        even_columns(exemplar_cells(exemplars)),
{
}

/// An empty result still carries its typed schema: a batch without a row is built, and the stream
/// over it advertises every column.
pub proof fn empty_results_stay_typed(
    defs: Seq<ColumnDef>,
    cells: Seq<Seq<Cell>>,
    before: arrow::ffi_stream::FFI_ArrowArrayStream,
    after: arrow::ffi_stream::FFI_ArrowArrayStream,
    code: imbh_error,
    last: LastError,
)
    requires
        cells.len() > 0,
        defs.len() == cells.len(),
        forall|i: int| 0 <= i < cells.len() ==> (#[trigger] cells[i]).len() == 0,
        hands_over(defs, cells, before, after, code, last),
    ensures
        succeeded(code, last),
        crate::arrow_stream::stream_columns(after) == defs,
        crate::arrow_stream::stream_cells(after) == seq![cells],
{
    lemma_empty_columns_fit(defs, cells, cells.len());
}

/// Empty columns never overflow.
proof fn lemma_empty_columns_fit(defs: Seq<ColumnDef>, cells: Seq<Seq<Cell>>, n: nat)
    requires
        n <= cells.len(),
        forall|i: int| 0 <= i < cells.len() ==> (#[trigger] cells[i]).len() == 0,
    ensures
        first_overflow(defs, cells, n) is None,
    decreases n,
{
    if n > 0 {
        lemma_empty_columns_fit(defs, cells, (n - 1) as nat);
        assert(cells[n - 1].len() == 0);
    }
}

/// A column of a schema has the name, the type and the nullability it is declared with.
pub proof fn columns_are_as_declared(name: Seq<char>, kind: ColumnType, nullable: bool)
    ensures
        def(name, kind, nullable).name == name,
        def(name, kind, nullable).kind == DataKind::Known(kind),
        def(name, kind, nullable).nullable == nullable,
{
}

/// Columns of one height, none of which outgrows what Arrow holds, reach the caller as they are, as
/// one batch. Where one outgrows it, the call ends as a panic and the caller's stream stays.
pub proof fn columns_reach_the_caller_as_they_are(
    defs: Seq<ColumnDef>,
    cells: Seq<Seq<Cell>>,
    before: arrow::ffi_stream::FFI_ArrowArrayStream,
    after: arrow::ffi_stream::FFI_ArrowArrayStream,
    code: imbh_error,
    last: LastError,
)
    requires
        hands_over(defs, cells, before, after, code, last),
        defs.len() == cells.len(),
        cells.len() > 0,
        forall|k: int| 0 <= k < cells.len() ==> (#[trigger] cells[k]).len() == cells[0].len(),
    ensures
        (forall|k: int| 0 <= k < cells.len() ==> text_bytes(#[trigger] cells[k]) <= i32::MAX)
            ==> code == imbh_error::Success,
        (exists|k: int| 0 <= k < cells.len() && text_bytes(#[trigger] cells[k]) > i32::MAX)
            ==> code == imbh_error::Panic,
        code == imbh_error::Success ==> {
            &&& last@ is None
            &&& crate::arrow_stream::stream_columns(after) == defs
            &&& crate::arrow_stream::stream_cells(after) == seq![cells]
        },
        code != imbh_error::Success ==> after == before && last@ is Some,
{
    lemma_overflow_decides(defs, cells, cells.len());
}

/// Some column outgrows what Arrow holds exactly when a first one does.
proof fn lemma_overflow_decides(defs: Seq<ColumnDef>, cells: Seq<Seq<Cell>>, n: nat)
    requires
        n <= cells.len(),
    ensures
        first_overflow(defs, cells, n) is None <==> (forall|k: int|
            0 <= k < n ==> text_bytes(#[trigger] cells[k]) <= i32::MAX),
    decreases n,
{
    if n > 0 {
        lemma_overflow_decides(defs, cells, (n - 1) as nat);
    }
}

/// Cells that are no text take no bytes of one.
pub proof fn lemma_textless(cells: Seq<Cell>)
    requires
        forall|i: int| 0 <= i < cells.len() ==> !(#[trigger] cells[i] is Utf8),
    ensures
        text_bytes(cells) == 0,
    decreases cells.len(),
{
    if cells.len() > 0 {
        lemma_textless(cells.drop_last());
        assert(!(cells[cells.len() - 1] is Utf8));
    }
}

/// Columns that hold no text take no bytes of one.
proof fn lemma_numbers_take_no_text(cells: Seq<Seq<Cell>>)
    ensures
        forall|k: int|
            #![trigger text_bytes(cells[k])]
            0 <= k < cells.len() && (forall|i: int|
                0 <= i < cells[k].len() ==> !(#[trigger] cells[k][i] is Utf8)) ==> text_bytes(
                cells[k],
            ) == 0,
{
    assert forall|k: int|
        #![trigger text_bytes(cells[k])]
        0 <= k < cells.len() && (forall|i: int|
            0 <= i < cells[k].len() ==> !(#[trigger] cells[k][i] is Utf8)) implies text_bytes(
        cells[k],
    ) == 0 by {
        lemma_textless(cells[k]);
    }
}

/// Row `i` of a trace search tells of trace `i`, column by column: its id, its root, when it
/// started, how long it took, how many spans it has, and whether it failed. A missing root is null.
pub proof fn trace_rows_tell_their_traces(
    rows: Vec<TraceSummary>,
    cells: Seq<Seq<Cell>>,
    i: int,
    r: Result<Batch, BatchFailure>,
)
    requires
        call_ensures(trace_summary_batch, (rows,), r),
        cells == summary_cells(rows@),
    ensures
        summary_defs() == seq![
            def("trace_id"@, ColumnType::Utf8, false),
            def("root_service"@, ColumnType::Utf8, true),
            def("root_name"@, ColumnType::Utf8, true),
            def("start_time"@, ColumnType::Int64, false),
            def("duration_ns"@, ColumnType::Int64, false),
            def("span_count"@, ColumnType::Int64, false),
            def("error"@, ColumnType::Boolean, false),
        ],
        cells.len() == 7,
        cells[0].len() == rows@.len(),
        cells[1].len() == rows@.len(),
        cells[2].len() == rows@.len(),
        cells[3].len() == rows@.len(),
        cells[4].len() == rows@.len(),
        cells[5].len() == rows@.len(),
        cells[6].len() == rows@.len(),
        0 <= i < rows@.len() ==> {
            &&& cells[0][i] == Cell::Utf8(hex_text(rows@[i].trace_id.bytes@))
            &&& rows@[i].root_service matches Some(s) ==> cells[1][i] == Cell::Utf8(s@)
            &&& rows@[i].root_service is None ==> cells[1][i] == Cell::Null
            &&& rows@[i].root_name matches Some(s) ==> cells[2][i] == Cell::Utf8(s@)
            &&& rows@[i].root_name is None ==> cells[2][i] == Cell::Null
            &&& cells[3][i] == Cell::Int64(rows@[i].start_time)
            &&& cells[4][i] is Int64
            &&& rows@[i].duration_ns <= i64::MAX ==> cells[4][i]->Int64_0 == rows@[i].duration_ns
            &&& cells[4][i]->Int64_0 == rows@[i].duration_ns as i64
            &&& cells[5][i] is Int64
            &&& rows@[i].span_count <= i64::MAX ==> cells[5][i]->Int64_0 == rows@[i].span_count
            &&& cells[5][i]->Int64_0 == rows@[i].span_count as i64
            &&& rows@[i].error ==> cells[6][i] == Cell::Boolean(true)
            &&& !rows@[i].error ==> cells[6][i] == Cell::Boolean(false)
        },
        r matches Ok(b) ==> batch_columns(b) == summary_defs() && batch_cells(b) == cells,
        text_bytes(cells[0]) <= i32::MAX && text_bytes(cells[1]) <= i32::MAX && text_bytes(cells[2])
            <= i32::MAX <==> r is Ok,
{
    lemma_overflow_decides(summary_defs(), cells, cells.len());
    lemma_numbers_take_no_text(cells);
}

/// Row `i` of a segment listing tells of segment `i`: its path, its first and its last time, and
/// how many rows it holds.
pub proof fn segment_rows_tell_their_segments(
    rows: Vec<SegmentRef>,
    cells: Seq<Seq<Cell>>,
    i: int,
    r: Result<Batch, BatchFailure>,
)
    requires
        call_ensures(segments_batch, (rows,), r),
        cells == segment_cells(rows@),
    ensures
        segment_defs() == seq![
            def("relative_path"@, ColumnType::Utf8, false),
            def("min_time_unix_nano"@, ColumnType::Int64, false),
            def("max_time_unix_nano"@, ColumnType::Int64, false),
            def("rows"@, ColumnType::Int64, false),
        ],
        cells.len() == 4,
        cells[0].len() == rows@.len(),
        cells[1].len() == rows@.len(),
        cells[2].len() == rows@.len(),
        cells[3].len() == rows@.len(),
        0 <= i < rows@.len() ==> {
            &&& cells[0][i] == Cell::Utf8(rows@[i].relative_path@)
            &&& cells[1][i] == Cell::Int64(rows@[i].min_time_unix_nano)
            &&& cells[2][i] == Cell::Int64(rows@[i].max_time_unix_nano)
            &&& cells[3][i] is Int64
            &&& rows@[i].rows <= i64::MAX ==> cells[3][i]->Int64_0 == rows@[i].rows
            &&& cells[3][i]->Int64_0 == rows@[i].rows as i64
        },
        r matches Ok(b) ==> batch_columns(b) == segment_defs() && batch_cells(b) == cells,
        text_bytes(cells[0]) <= i32::MAX <==> r is Ok,
{
    lemma_overflow_decides(segment_defs(), cells, cells.len());
    lemma_numbers_take_no_text(cells);
}

/// Row `i` of the catalog tells of metric `i`: its name, its unit, its temporality, if it has one,
/// and its kind.
pub proof fn catalog_rows_tell_their_metrics(
    rows: Vec<MetricMeta>,
    cells: Seq<Seq<Cell>>,
    i: int,
    r: Result<Batch, BatchFailure>,
)
    requires
        call_ensures(catalog_batch, (rows,), r),
        cells == catalog_cells(rows@),
    ensures
        catalog_defs() == seq![
            def("metric"@, ColumnType::Utf8, false),
            def("unit"@, ColumnType::Utf8, false),
            def("temporality"@, ColumnType::Utf8, true),
            def("kind"@, ColumnType::Utf8, false),
        ],
        cells.len() == 4,
        cells[0].len() == rows@.len(),
        cells[1].len() == rows@.len(),
        cells[2].len() == rows@.len(),
        cells[3].len() == rows@.len(),
        0 <= i < rows@.len() ==> {
            &&& cells[0][i] == Cell::Utf8(rows@[i].metric@)
            &&& cells[1][i] == Cell::Utf8(rows@[i].unit@)
            &&& rows@[i].temporality matches Some(s) ==> cells[2][i] == Cell::Utf8(s@)
            &&& rows@[i].temporality is None ==> cells[2][i] == Cell::Null
            &&& cells[3][i] == Cell::Utf8(rows@[i].kind@)
        },
        r matches Ok(b) ==> batch_columns(b) == catalog_defs() && batch_cells(b) == cells,
        text_bytes(cells[0]) <= i32::MAX && text_bytes(cells[1]) <= i32::MAX && text_bytes(cells[2])
            <= i32::MAX && text_bytes(cells[3]) <= i32::MAX <==> r is Ok,
{
    lemma_overflow_decides(catalog_defs(), cells, cells.len());
    lemma_numbers_take_no_text(cells);
}

/// Row `i` of an exemplar listing tells of exemplar `i`: its time, its value, the trace and the
/// span it was taken from, if any, and its attributes.
pub proof fn exemplar_rows_tell_their_exemplars(
    rows: Vec<Exemplar>,
    cells: Seq<Seq<Cell>>,
    i: int,
    r: Result<Batch, BatchFailure>,
)
    requires
        call_ensures(exemplars_batch, (rows,), r),
        cells == exemplar_cells(rows@),
    ensures
        exemplar_defs() == seq![
            def("time"@, ColumnType::Int64, false),
            def("value"@, ColumnType::Float64, false),
            def("trace_id"@, ColumnType::Utf8, true),
            def("span_id"@, ColumnType::Utf8, true),
            def("attributes"@, ColumnType::Utf8, false),
        ],
        cells.len() == 5,
        cells[0].len() == rows@.len(),
        cells[1].len() == rows@.len(),
        cells[2].len() == rows@.len(),
        cells[3].len() == rows@.len(),
        cells[4].len() == rows@.len(),
        0 <= i < rows@.len() ==> {
            &&& cells[0][i] == Cell::Int64(rows@[i].time)
            &&& cells[1][i] == Cell::Float64(rows@[i].value_bits)
            &&& rows@[i].trace_id matches Some(id) ==> cells[2][i] == Cell::Utf8(
                hex_text(id.bytes@),
            )
            &&& rows@[i].trace_id is None ==> cells[2][i] == Cell::Null
            &&& rows@[i].span_id matches Some(id) ==> cells[3][i] == Cell::Utf8(hex_text(id.bytes@))
            &&& rows@[i].span_id is None ==> cells[3][i] == Cell::Null
            &&& cells[4][i] == Cell::Utf8(rows@[i].attributes@)
        },
        r matches Ok(b) ==> batch_columns(b) == exemplar_defs() && batch_cells(b) == cells,
        text_bytes(cells[2]) <= i32::MAX && text_bytes(cells[3]) <= i32::MAX && text_bytes(cells[4])
            <= i32::MAX <==> r is Ok,
{
    lemma_overflow_decides(exemplar_defs(), cells, cells.len());
    lemma_numbers_take_no_text(cells);
}

/// Row `i` of a series tells of sample `i`, row `i` of a volume of bucket `i`, and row `i` of a
/// listing of strings holds string `i`, each value in the column of its name.
pub proof fn rows_hold_what_stands_at_their_place(
    name: &str,
    strings: Vec<String>,
    times: Vec<i64>,
    values: Vec<u64>,
    counts: Vec<i64>,
    listing: Result<Batch, BatchFailure>,
    series: Result<Batch, BatchFailure>,
    volume: Result<Batch, BatchFailure>,
    i: int,
)
    requires
        strings@.len() == times@.len() == values@.len() == counts@.len(),
        call_ensures(utf8_batch, (name, strings), listing),
        call_ensures(series_batch, (strings, times, values), series),
        call_ensures(volume_batch, (times, strings, counts), volume),
    ensures
        utf8_defs(name@) == seq![def(name@, ColumnType::Utf8, false)],
        series_defs() == seq![
            def("labels"@, ColumnType::Utf8, false),
            def("timestamp"@, ColumnType::Int64, false),
            def("value"@, ColumnType::Float64, false),
        ],
        volume_defs() == seq![
            def("bucket_time"@, ColumnType::Int64, false),
            def("labels"@, ColumnType::Utf8, false),
            def("count"@, ColumnType::Int64, false),
        ],
        text_bytes(string_cells(strings@)) <= i32::MAX <==> listing is Ok,
        text_bytes(string_cells(strings@)) <= i32::MAX <==> series is Ok,
        text_bytes(string_cells(strings@)) <= i32::MAX <==> volume is Ok,
        listing matches Ok(b) ==> {
            &&& batch_columns(b) == utf8_defs(name@)
            &&& batch_cells(b).len() == 1
            &&& batch_cells(b)[0].len() == strings@.len()
            &&& 0 <= i < strings@.len() ==> batch_cells(b)[0][i] == Cell::Utf8(strings@[i]@)
        },
        series matches Ok(b) ==> {
            &&& batch_columns(b) == series_defs()
            &&& batch_cells(b).len() == 3
            &&& forall|k: int|
                0 <= k < 3 ==> (#[trigger] batch_cells(b)[k]).len() == strings@.len()
            &&& 0 <= i < strings@.len() ==> {
                &&& batch_cells(b)[0][i] == Cell::Utf8(strings@[i]@)
                &&& batch_cells(b)[1][i] == Cell::Int64(times@[i])
                &&& batch_cells(b)[2][i] == Cell::Float64(values@[i])
            }
        },
        volume matches Ok(b) ==> {
            &&& batch_columns(b) == volume_defs()
            &&& batch_cells(b).len() == 3
            &&& forall|k: int|
                0 <= k < 3 ==> (#[trigger] batch_cells(b)[k]).len() == strings@.len()
            &&& 0 <= i < strings@.len() ==> {
                &&& batch_cells(b)[0][i] == Cell::Int64(times@[i])
                &&& batch_cells(b)[1][i] == Cell::Utf8(strings@[i]@)
                &&& batch_cells(b)[2][i] == Cell::Int64(counts@[i])
            }
        },
{
    let a = seq![string_cells(strings@)];
    let b = seq![string_cells(strings@), int64_cells(times@), float64_cells(values@)];
    let c = seq![int64_cells(times@), string_cells(strings@), int64_cells(counts@)];
    lemma_overflow_decides(utf8_defs(name@), a, a.len());
    lemma_overflow_decides(series_defs(), b, b.len());
    lemma_overflow_decides(volume_defs(), c, c.len());
    lemma_textless(int64_cells(times@));
    lemma_textless(int64_cells(counts@));
    lemma_textless(float64_cells(values@));
    assert(text_bytes(a[0]) == text_bytes(b[0]) == text_bytes(c[1]));
}

/// A batch that was built is handed over as it is, as the one batch of the stream, and one that
/// could not be built leaves the stream alone and says why.
pub proof fn batches_are_handed_over_as_they_are(
    built: Result<Batch, BatchFailure>,
    out: &mut arrow::ffi_stream::FFI_ArrowArrayStream,
    last: &mut LastError,
    code: imbh_error,
)
    requires
        call_ensures(deliver, (built, out, last), code),
    ensures
        built matches Ok(b) ==> {
            &&& code == imbh_error::Success
            &&& final(last)@ is None
            &&& crate::arrow_stream::stream_columns(*final(out)) == batch_columns(b)
            &&& crate::arrow_stream::stream_cells(*final(out)).len() == 1
            &&& crate::arrow_stream::stream_cells(*final(out))[0] == batch_cells(b)
        },
        built is Err ==> *final(out) == *old(out) && code != imbh_error::Success
            && final(last)@ is Some,
        built matches Err(BatchFailure::Panic(text)) ==> panicked(code, *final(last), text@),
        built matches Err(BatchFailure::Call(CallError::Query(text))) ==> query_failed(
            code,
            *final(last),
            text@,
        ),
{
}



/// A batch that is written to a stream is all that the stream holds.
pub proof fn a_written_batch_is_the_whole_stream(
    out: &mut arrow::ffi_stream::FFI_ArrowArrayStream,
    batch: Batch,
)
    requires
        call_ensures(write_batch, (out, batch), ()),
    ensures
        crate::arrow_stream::stream_columns(*final(out)) == batch_columns(batch),
        crate::arrow_stream::stream_cells(*final(out)).len() == 1,
        crate::arrow_stream::stream_cells(*final(out))[0] == batch_cells(batch),
{
}

} // verus!
