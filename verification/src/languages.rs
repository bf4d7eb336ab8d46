//! The query languages: PromQL, LogQL and TraceQL, and the lookup of one trace.
//!
//! A translator, which comes as a closure, turns the query text into a model; the engine, another
//! closure, evaluates it. Which model a language may yield, the window it is evaluated over, the
//! metric names it sees and how every failure is reported is decided here.

use vstd::prelude::*;
use vstd::utf8::encode_utf8;

use crate::args::{c_string, cstr, handle, says, texts_survive_the_boundary};
use crate::arrow_stream::{
    batches_cells, export_batches_infer, inferred_columns, stream_cells, stream_columns, streams,
};
use crate::batches::{write_batch, MetricMeta};
use crate::columnar::{batch_cells, batch_columns, Cell, Batch};
use crate::db::imbh_db;
use crate::error::{
    engine_failed, imbh_error, invalid_arg, LastError, query_error, query_failed, rejected,
    settle, settled, succeeded, CallError, EngineError,
};
use crate::ids::{is_hex, spelled, TraceId};
use crate::text::{joined, replace_char, replaced};

verus! {

/// How far back an instant of PromQL looks for a sample: five minutes.
pub const PROMQL_LOOKBACK_NS: u64 = 300_000_000_000;

/// How many log lines a bare LogQL selector yields where the caller sets no limit.
pub const LOGQL_DEFAULT_LIMIT: usize = 1000;

/// What a metric measures, as a translator needs to know it.
#[derive(Debug, Clone, Copy, PartialEq, Eq, Structural)]
pub enum MetricKind {
    CumulativeCounter,
    CumulativeHistogram,
    Gauge,
}

/// The name that a query uses for a stored metric.
#[derive(Debug)]
pub struct MetricResolution {
    pub query_name: String,
    pub storage_name: String,
    pub kind: MetricKind,
}

/// What a translator knows of the store.
#[derive(Debug)]
pub struct TranslateContext {
    pub metrics: Vec<MetricResolution>,
}

/// The window that an expression is evaluated over.
#[derive(Debug, Clone, Copy, PartialEq, Eq, Structural)]
pub struct EvalRange {
    pub start_ns: i64,
    pub end_ns: i64,
    pub step_ns: u64,
    pub lookback_ns: u64,
}

/// What a query turned out to be.
#[derive(Debug, Clone, Copy, PartialEq, Eq, Structural)]
pub enum ModelKind {
    /// A metric expression.
    Prom,
    /// A bare log-stream selector.
    LogSelector,
    /// A range aggregation over logs.
    Log,
    /// A spanset expression.
    Trace,
    /// Anything else.
    Other,
}

/// A translated query.
pub struct Translated<M> {
    pub kind: ModelKind,
    pub model: M,
}

/// Why a bare log selector yielded no lines.
#[derive(Debug)]
pub enum LinesFailure {
    /// The window or the filter could not be turned into a log query.
    Translation(String),
    /// The engine failed.
    Engine(EngineError),
}

/// The kind of a metric that the catalog calls `kind`.
pub open spec fn metric_kind(kind: Seq<char>) -> MetricKind {
    if kind == "sum"@ {
        MetricKind::CumulativeCounter
    } else if kind == "histogram"@ {
        MetricKind::CumulativeHistogram
    } else {
        MetricKind::Gauge
    }
}

/// A stored metric is resolved by its name with dots turned into underscores.
pub open spec fn resolves(m: MetricMeta, r: MetricResolution) -> bool {
    &&& r.query_name@ == replaced(m.metric@, '.', '_')
    &&& r.storage_name@ == m.metric@
    &&& r.kind == metric_kind(m.kind@)
}

/// The context resolves every metric of the catalog, in order.
pub open spec fn resolves_catalog(catalog: Seq<MetricMeta>, ctx: TranslateContext) -> bool {
    &&& ctx.metrics@.len() == catalog.len()
    &&& forall|i: int| 0 <= i < catalog.len() ==> resolves(catalog[i], #[trigger] ctx.metrics@[i])
}

/// The step of an evaluation: at least a nanosecond.
pub open spec fn eval_step(step: i64) -> u64 {
    if step < 1 {
        1
    } else {
        step as u64
    }
}

/// The window of an evaluation.
pub open spec fn eval_range(start: i64, end: i64, step: i64, lookback_ns: u64) -> EvalRange {
    EvalRange { start_ns: start, end_ns: end, step_ns: eval_step(step), lookback_ns }
}

/// How many log lines a bare selector yields at most.
pub open spec fn line_limit(limit: i64) -> usize {
    if limit > 0 {
        limit as usize
    } else {
        LOGQL_DEFAULT_LIMIT
    }
}

/// The window of an evaluation.
pub fn new_eval_range(start: i64, end: i64, step: i64, lookback_ns: u64) -> (r: EvalRange)
    ensures
        r.start_ns == start,
        r.end_ns == end,
        r.step_ns == (if step < 1 {
            1
        } else {
            step as int
        }),
        r.lookback_ns == lookback_ns,
        r == eval_range(start, end, step, lookback_ns),
{
    let step_ns: u64 = if step < 1 {
        1
    } else {
        step as u64
    };
    EvalRange { start_ns: start, end_ns: end, step_ns, lookback_ns }
}

/// Resolve every stored metric for PromQL, whose names carry no dots.
pub fn promql_context(catalog: Vec<MetricMeta>) -> (ctx: TranslateContext)
    ensures
        resolves_catalog(catalog@, ctx),
{
    let ghost all = catalog@;
    let mut metrics: Vec<MetricResolution> = Vec::new();
    for m in it: catalog.into_iter()
        invariant
            it.seq() == all,
            metrics@.len() == it.index(),
            forall|j: int| 0 <= j < it.index() ==> resolves(all[j], #[trigger] metrics@[j]),
    {
        let kind = if m.kind == "sum".to_owned() {
            MetricKind::CumulativeCounter
        } else if m.kind == "histogram".to_owned() {
            MetricKind::CumulativeHistogram
        } else {
            MetricKind::Gauge
        };
        let query_name = replace_char(m.metric.as_str(), '.', '_');
        metrics.push(MetricResolution { query_name, storage_name: m.metric, kind });
    }
    TranslateContext { metrics }
}

/// The outcome of evaluating a translated PromQL query: only a metric expression is evaluated.
pub open spec fn answers_promql<
    D,
    M,
    E: FnOnce(&imbh_db<D>, M, EvalRange) -> Result<Batch, String>,
>(
    h: &imbh_db<D>,
    translated: Result<Translated<M>, String>,
    range: EvalRange,
    execute: E,
    before: arrow::ffi_stream::FFI_ArrowArrayStream,
    after: arrow::ffi_stream::FFI_ArrowArrayStream,
    code: imbh_error,
    last: LastError,
) -> bool {
    match translated {
        Err(reason) => query_failed(code, last, "promql: "@ + reason@) && after == before,
        Ok(t) => if t.kind != ModelKind::Prom {
            query_failed(code, last, "promql: not a metric expression"@) && after == before
        } else {
            exists|reply: Result<Batch, String>| #[trigger]
                execute.ensures((h, t.model, range), reply) && match reply {
                    Err(reason) => query_failed(code, last, "promql: "@ + reason@) && after
                        == before,
                    Ok(b) => succeeded(code, last) && streams(
                        after,
                        batch_columns(b),
                        seq![batch_cells(b)],
                    ),
                }
        },
    }
}

/// Evaluate a translated PromQL query and hand the result to the caller.
fn run_promql<D, M, E: FnOnce(&imbh_db<D>, M, EvalRange) -> Result<Batch, String>>(
    h: &imbh_db<D>,
    translated: Result<Translated<M>, String>,
    range: EvalRange,
    execute: E,
    out: &mut arrow::ffi_stream::FFI_ArrowArrayStream,
    last: &mut LastError,
) -> (code: imbh_error)
    requires
        translated matches Ok(t) ==> (t.kind == ModelKind::Prom ==> execute.requires(
            (h, t.model, range),
        )),
    ensures
        answers_promql(
            h,
            translated,
            range,
            execute,
            *old(out),
            *final(out),
            code,
            *final(last),
        ),
{
    match translated {
        Err(reason) => settle(Err(query_error("promql: ", reason.as_str())), last),
        Ok(t) => match t.kind {
            ModelKind::Prom => match execute(h, t.model, range) {
                Err(reason) => settle(Err(query_error("promql: ", reason.as_str())), last),
                Ok(b) => {
                    write_batch(out, b);
                    settle(Ok(()), last)
                },
            },
            _ => settle(
                Err(CallError::Query("promql: not a metric expression".to_owned())),
                last,
            ),
        },
    }
}

/// Evaluate a PromQL query over `[start, end]` at `step`. The catalog, read by `catalog`, resolves
/// the metric names; `translate` turns the text into a model, which `execute` evaluates.
pub fn imbh_db_query_promql<
    D,
    M,
    C: FnOnce(&imbh_db<D>) -> Result<Vec<MetricMeta>, EngineError>,
    T: FnOnce(&str, &TranslateContext) -> Result<Translated<M>, String>,
    E: FnOnce(&imbh_db<D>, M, EvalRange) -> Result<Batch, String>,
>(
    db: Option<&imbh_db<D>>,
    query: Option<&[u8]>,
    start: i64,
    end: i64,
    step: i64,
    out: Option<&mut arrow::ffi_stream::FFI_ArrowArrayStream>,
    catalog: C,
    translate: T,
    execute: E,
    last: &mut LastError,
) -> (code: imbh_error)
    requires
        db matches Some(h) ==> (out is Some && c_string(query) is Ok ==> catalog.requires((h,))),
        db matches Some(h) ==> forall|
            text: &str,
            ctx: &TranslateContext,
            known: Result<Vec<MetricMeta>, EngineError>,
        |
            #![trigger catalog.ensures((h,), known), translate.requires((text, ctx))]
            out is Some && says(query, text@) && catalog.ensures((h,), known) && (known matches Ok(
                metas,
            ) && resolves_catalog(metas@, *ctx)) ==> translate.requires((text, ctx)),
        db matches Some(h) ==> forall|
            text: &str,
            ctx: &TranslateContext,
            translated: Result<Translated<M>, String>,
        | #[trigger]
            translate.ensures((text, ctx), translated) && out is Some && says(query, text@) ==> (
            translated matches Ok(t) ==> (t.kind == ModelKind::Prom ==> execute.requires(
                (h, t.model, eval_range(start, end, step, PROMQL_LOOKBACK_NS)),
            ))),
    ensures
        db is None ==> rejected(code, *final(last), "null imbh_db handle"@),
        db matches Some(h) ==> match c_string(query) {
            Err(reason) => rejected(code, *final(last), reason),
            Ok(asked) => {
                &&& out is None ==> rejected(code, *final(last), "null out stream pointer"@)
                &&& out matches Some(o) ==> exists|known: Result<Vec<MetricMeta>, EngineError>|
                    #[trigger]
                    catalog.ensures((h,), known) && match known {
                        Err(e) => engine_failed(code, *final(last), e),
                        Ok(metas) => exists|
                            text: &str,
                            ctx: &TranslateContext,
                            translated: Result<Translated<M>, String>,
                        | #[trigger]
                            translate.ensures((text, ctx), translated) && text@ == asked
                                && resolves_catalog(metas@, *ctx) && answers_promql(
                                h,
                                translated,
                                eval_range(start, end, step, PROMQL_LOOKBACK_NS),
                                execute,
                                *o,
                                *final(o),
                                code,
                                *final(last),
                            ),
                    }
            },
        },
        code != imbh_error::Success ==> (out matches Some(o) ==> *final(o) == *o),
        settled(code, *final(last)),
{
    let h = match handle(db) {
        Ok(h) => h,
        Err(e) => return settle(Err(e), last),
    };
    let text = match cstr(query) {
        Ok(text) => text,
        Err(e) => return settle(Err(e), last),
    };
    match out {
        None => settle(Err(invalid_arg("null out stream pointer")), last),
        Some(o) => {
            let range = new_eval_range(start, end, step, PROMQL_LOOKBACK_NS);
            let metas = match catalog(h) {
                Ok(metas) => metas,
                Err(e) => return settle(Err(CallError::Imbh(e)), last),
            };
            let ctx = promql_context(metas);
            let translated = translate(text, &ctx);
            run_promql(h, translated, range, execute, o, last)
        },
    }
}

/// The outcome of evaluating a translated LogQL query: a bare selector yields lines, a range
/// aggregation a series, and anything else is refused.
pub open spec fn answers_logql<
    D,
    M,
    L: FnOnce(&imbh_db<D>, M, i64, i64, usize) -> Result<Vec<Batch>, LinesFailure>,
    S: FnOnce(&imbh_db<D>, M, EvalRange) -> Result<Batch, String>,
>(
    h: &imbh_db<D>,
    translated: Result<Translated<M>, String>,
    start: i64,
    end: i64,
    step: i64,
    limit: i64,
    lines: L,
    series: S,
    before: arrow::ffi_stream::FFI_ArrowArrayStream,
    after: arrow::ffi_stream::FFI_ArrowArrayStream,
    code: imbh_error,
    last: LastError,
) -> bool {
    match translated {
        Err(reason) => query_failed(code, last, "logql: "@ + reason@) && after == before,
        Ok(t) => match t.kind {
            ModelKind::LogSelector => exists|reply: Result<Vec<Batch>, LinesFailure>| #[trigger]
                lines.ensures((h, t.model, start, end, line_limit(limit)), reply) && match reply {
                    Err(LinesFailure::Translation(reason)) => query_failed(
                        code,
                        last,
                        "logql: "@ + reason@,
                    ) && after == before,
                    Err(LinesFailure::Engine(e)) => engine_failed(code, last, e) && after
                        == before,
                    Ok(batches) => succeeded(code, last) && streams(
                        after,
                        inferred_columns(batches@),
                        batches_cells(batches@),
                    ),
                },
            ModelKind::Log => exists|reply: Result<Batch, String>| #[trigger]
                series.ensures((h, t.model, eval_range(start, end, step, 0)), reply)
                    && match reply {
                    Err(reason) => query_failed(code, last, "logql: "@ + reason@) && after
                        == before,
                    Ok(b) => succeeded(code, last) && streams(
                        after,
                        batch_columns(b),
                        seq![batch_cells(b)],
                    ),
                },
            _ => query_failed(code, last, "logql: translator returned a non-log model"@) && after
                == before,
        },
    }
}

/// Evaluate a translated LogQL query and hand the result to the caller.
fn run_logql<
    D,
    M,
    L: FnOnce(&imbh_db<D>, M, i64, i64, usize) -> Result<Vec<Batch>, LinesFailure>,
    S: FnOnce(&imbh_db<D>, M, EvalRange) -> Result<Batch, String>,
>(
    h: &imbh_db<D>,
    translated: Result<Translated<M>, String>,
    start: i64,
    end: i64,
    step: i64,
    limit: i64,
    lines: L,
    series: S,
    out: &mut arrow::ffi_stream::FFI_ArrowArrayStream,
    last: &mut LastError,
) -> (code: imbh_error)
    requires
        translated matches Ok(t) ==> (t.kind == ModelKind::LogSelector ==> lines.requires(
            (h, t.model, start, end, line_limit(limit)),
        )),
        translated matches Ok(t) ==> (t.kind == ModelKind::Log ==> series.requires(
            (h, t.model, eval_range(start, end, step, 0)),
        )),
    ensures
        answers_logql(
            h,
            translated,
            start,
            end,
            step,
            limit,
            lines,
            series,
            *old(out),
            *final(out),
            code,
            *final(last),
        ),
{
    let t = match translated {
        Ok(t) => t,
        Err(reason) => return settle(Err(query_error("logql: ", reason.as_str())), last),
    };
    match t.kind {
        ModelKind::LogSelector => {
            let max_entries: usize = if limit > 0 {
                limit as usize
            } else {
                LOGQL_DEFAULT_LIMIT
            };
            assert(max_entries == line_limit(limit));
            match lines(h, t.model, start, end, max_entries) {
                Err(LinesFailure::Translation(reason)) => settle(
                    Err(query_error("logql: ", reason.as_str())),
                    last,
                ),
                Err(LinesFailure::Engine(e)) => settle(Err(CallError::Imbh(e)), last),
                Ok(batches) => {
                    *out = export_batches_infer(batches);
                    settle(Ok(()), last)
                },
            }
        },
        ModelKind::Log => {
            let range = new_eval_range(start, end, step, 0);
            match series(h, t.model, range) {
                Err(reason) => settle(Err(query_error("logql: ", reason.as_str())), last),
                Ok(b) => {
                    write_batch(out, b);
                    settle(Ok(()), last)
                },
            }
        },
        _ => settle(
            Err(CallError::Query("logql: translator returned a non-log model".to_owned())),
            last,
        ),
    }
}

/// Evaluate a LogQL query. `translate` turns the text into a model; a bare selector is answered by
/// `lines` with at most `limit` log lines (the default where `limit` is not positive), a range
/// aggregation by `series` over `step` buckets.
pub fn imbh_db_query_logql<
    D,
    M,
    T: FnOnce(&str) -> Result<Translated<M>, String>,
    L: FnOnce(&imbh_db<D>, M, i64, i64, usize) -> Result<Vec<Batch>, LinesFailure>,
    S: FnOnce(&imbh_db<D>, M, EvalRange) -> Result<Batch, String>,
>(
    db: Option<&imbh_db<D>>,
    query: Option<&[u8]>,
    start: i64,
    end: i64,
    step: i64,
    limit: i64,
    out: Option<&mut arrow::ffi_stream::FFI_ArrowArrayStream>,
    translate: T,
    lines: L,
    series: S,
    last: &mut LastError,
) -> (code: imbh_error)
    requires
        forall|text: &str|
            db is Some && out is Some && says(query, text@) ==> #[trigger] translate.requires(
                (text,),
            ),
        db matches Some(h) ==> forall|text: &str, translated: Result<Translated<M>, String>|
            #[trigger]
            translate.ensures((text,), translated) && out is Some && says(query, text@) ==> (
            translated matches Ok(t) ==> {
                &&& t.kind == ModelKind::LogSelector ==> lines.requires(
                    (h, t.model, start, end, line_limit(limit)),
                )
                &&& t.kind == ModelKind::Log ==> series.requires(
                    (h, t.model, eval_range(start, end, step, 0)),
                )
            }),
    ensures
        db is None ==> rejected(code, *final(last), "null imbh_db handle"@),
        db matches Some(h) ==> match c_string(query) {
            Err(reason) => rejected(code, *final(last), reason),
            Ok(asked) => {
                &&& out is None ==> rejected(code, *final(last), "null out stream pointer"@)
                &&& out matches Some(o) ==> exists|
                    text: &str,
                    translated: Result<Translated<M>, String>,
                | #[trigger]
                    translate.ensures((text,), translated) && text@ == asked && answers_logql(
                        h,
                        translated,
                        start,
                        end,
                        step,
                        limit,
                        lines,
                        series,
                        *o,
                        *final(o),
                        code,
                        *final(last),
                    )
            },
        },
        code != imbh_error::Success ==> (out matches Some(o) ==> *final(o) == *o),
        settled(code, *final(last)),
{
    let h = match handle(db) {
        Ok(h) => h,
        Err(e) => return settle(Err(e), last),
    };
    let text = match cstr(query) {
        Ok(text) => text,
        Err(e) => return settle(Err(e), last),
    };
    match out {
        None => settle(Err(invalid_arg("null out stream pointer")), last),
        Some(o) => {
            let translated = translate(text);
            run_logql(h, translated, start, end, step, limit, lines, series, o, last)
        },
    }
}

/// The outcome of evaluating a translated TraceQL query: only a spanset expression is evaluated.
pub open spec fn answers_traceql<
    D,
    M,
    E: FnOnce(&imbh_db<D>, M, i64, i64) -> Result<Batch, String>,
>(
    h: &imbh_db<D>,
    translated: Result<Translated<M>, String>,
    start: i64,
    end: i64,
    execute: E,
    before: arrow::ffi_stream::FFI_ArrowArrayStream,
    after: arrow::ffi_stream::FFI_ArrowArrayStream,
    code: imbh_error,
    last: LastError,
) -> bool {
    match translated {
        Err(reason) => query_failed(code, last, "traceql: "@ + reason@) && after == before,
        Ok(t) => if t.kind != ModelKind::Trace {
            query_failed(code, last, "traceql: not a spanset expression"@) && after == before
        } else {
            exists|reply: Result<Batch, String>| #[trigger]
                execute.ensures((h, t.model, start, end), reply) && match reply {
                    Err(reason) => query_failed(code, last, "traceql: "@ + reason@) && after
                        == before,
                    Ok(b) => succeeded(code, last) && streams(
                        after,
                        batch_columns(b),
                        seq![batch_cells(b)],
                    ),
                }
        },
    }
}

/// Evaluate a translated TraceQL query and hand the result to the caller.
fn run_traceql<D, M, E: FnOnce(&imbh_db<D>, M, i64, i64) -> Result<Batch, String>>(
    h: &imbh_db<D>,
    translated: Result<Translated<M>, String>,
    start: i64,
    end: i64,
    execute: E,
    out: &mut arrow::ffi_stream::FFI_ArrowArrayStream,
    last: &mut LastError,
) -> (code: imbh_error)
    requires
        translated matches Ok(t) ==> (t.kind == ModelKind::Trace ==> execute.requires(
            (h, t.model, start, end),
        )),
    ensures
        answers_traceql(
            h,
            translated,
            start,
            end,
            execute,
            *old(out),
            *final(out),
            code,
            *final(last),
        ),
{
    match translated {
        Err(reason) => settle(Err(query_error("traceql: ", reason.as_str())), last),
        Ok(t) => match t.kind {
            ModelKind::Trace => match execute(h, t.model, start, end) {
                Err(reason) => settle(Err(query_error("traceql: ", reason.as_str())), last),
                Ok(b) => {
                    write_batch(out, b);
                    settle(Ok(()), last)
                },
            },
            _ => settle(
                Err(CallError::Query("traceql: not a spanset expression".to_owned())),
                last,
            ),
        },
    }
}

/// Evaluate a TraceQL spanset query over `[start, end]`: `translate` turns the text into a model,
/// which `execute` evaluates.
pub fn imbh_db_query_traceql<
    D,
    M,
    T: FnOnce(&str) -> Result<Translated<M>, String>,
    E: FnOnce(&imbh_db<D>, M, i64, i64) -> Result<Batch, String>,
>(
    db: Option<&imbh_db<D>>,
    query: Option<&[u8]>,
    start: i64,
    end: i64,
    out: Option<&mut arrow::ffi_stream::FFI_ArrowArrayStream>,
    translate: T,
    execute: E,
    last: &mut LastError,
) -> (code: imbh_error)
    requires
        forall|text: &str|
            db is Some && out is Some && says(query, text@) ==> #[trigger] translate.requires(
                (text,),
            ),
        db matches Some(h) ==> forall|text: &str, translated: Result<Translated<M>, String>|
            #[trigger]
            translate.ensures((text,), translated) && out is Some && says(query, text@) ==> (
            translated matches Ok(t) ==> (t.kind == ModelKind::Trace ==> execute.requires(
                (h, t.model, start, end),
            ))),
    ensures
        db is None ==> rejected(code, *final(last), "null imbh_db handle"@),
        db matches Some(h) ==> match c_string(query) {
            Err(reason) => rejected(code, *final(last), reason),
            Ok(asked) => {
                &&& out is None ==> rejected(code, *final(last), "null out stream pointer"@)
                &&& out matches Some(o) ==> exists|
                    text: &str,
                    translated: Result<Translated<M>, String>,
                | #[trigger]
                    translate.ensures((text,), translated) && text@ == asked && answers_traceql(
                        h,
                        translated,
                        start,
                        end,
                        execute,
                        *o,
                        *final(o),
                        code,
                        *final(last),
                    )
            },
        },
        code != imbh_error::Success ==> (out matches Some(o) ==> *final(o) == *o),
        settled(code, *final(last)),
{
    let h = match handle(db) {
        Ok(h) => h,
        Err(e) => return settle(Err(e), last),
    };
    let text = match cstr(query) {
        Ok(text) => text,
        Err(e) => return settle(Err(e), last),
    };
    match out {
        None => settle(Err(invalid_arg("null out stream pointer")), last),
        Some(o) => {
            let translated = translate(text);
            run_traceql(h, translated, start, end, execute, o, last)
        },
    }
}

/// A text as `Debug` shows it: quoted, with its special characters escaped.
pub uninterp spec fn debug_text(text: Seq<char>) -> Seq<char>;

/// The `Debug` form of a `str`, by way of `format!`. Which characters it escapes is left open.
#[verifier::external_body]
fn shown(text: &str) -> (r: String)
    ensures
        r@ == debug_text(text@),
{
    format!("{text:?}")
}

/// The refusal of a trace id, given the form in which it is shown.
pub fn invalid_trace_id(shown: &str) -> (e: CallError)
    ensures
        e matches CallError::InvalidArg(text) && text@ == "invalid trace id "@ + shown@
            + " (want 32 hex chars)"@,
{
    let head = joined("invalid trace id ", shown);
    CallError::InvalidArg(joined(head.as_str(), " (want 32 hex chars)"))
}

/// Fetch the spans of one trace with `get`. The id is 32 hexadecimal digits. A trace that is absent
/// yields an empty stream, not an error.
pub fn imbh_db_get_trace<
    D,
    F: FnOnce(&imbh_db<D>, TraceId) -> Result<Vec<Batch>, EngineError>,
>(
    db: Option<&imbh_db<D>>,
    trace_id: Option<&[u8]>,
    out: Option<&mut arrow::ffi_stream::FFI_ArrowArrayStream>,
    get: F,
    last: &mut LastError,
) -> (code: imbh_error)
    requires
        db matches Some(h) ==> forall|id: TraceId|
            out is Some && (c_string(trace_id) matches Ok(text) && is_hex(text, 16) && id.bytes@
                == spelled(text)) ==> #[trigger] get.requires((h, id)),
    ensures
        db is None ==> rejected(code, *final(last), "null imbh_db handle"@),
        db matches Some(h) ==> match c_string(trace_id) {
            Err(reason) => rejected(code, *final(last), reason),
            Ok(text) => {
                &&& out is None ==> rejected(code, *final(last), "null out stream pointer"@)
                &&& out matches Some(o) ==> if !is_hex(text, 16) {
                    rejected(
                        code,
                        *final(last),
                        "invalid trace id "@ + debug_text(text) + " (want 32 hex chars)"@,
                    )
                } else {
                    exists|id: TraceId, reply: Result<Vec<Batch>, EngineError>| #[trigger]
                        get.ensures((h, id), reply) && id.bytes@ == spelled(text) && match reply {
                            Err(e) => engine_failed(code, *final(last), e),
                            Ok(batches) => succeeded(code, *final(last)) && streams(
                                *final(o),
                                inferred_columns(batches@),
                                batches_cells(batches@),
                            ),
                        }
                }
            },
        },
        code != imbh_error::Success ==> (out matches Some(o) ==> *final(o) == *o),
        settled(code, *final(last)),
{
    let h = match handle(db) {
        Ok(h) => h,
        Err(e) => return settle(Err(e), last),
    };
    let text = match cstr(trace_id) {
        Ok(text) => text,
        Err(e) => return settle(Err(e), last),
    };
    match out {
        None => settle(Err(invalid_arg("null out stream pointer")), last),
        Some(o) => {
            let id = match TraceId::from_hex(text) {
                Some(id) => id,
                None => return settle(Err(invalid_trace_id(shown(text).as_str())), last),
            };
            match get(h, id) {
                Err(e) => settle(Err(CallError::Imbh(e)), last),
                Ok(batches) => {
                    *o = export_batches_infer(batches);
                    settle(Ok(()), last)
                },
            }
        },
    }
}

/// A stored metric is reached by the name that PromQL can spell: every metric of the catalog has a
/// resolution whose query name carries no dot and whose storage name is the stored one.
pub proof fn every_metric_is_reachable(catalog: Seq<MetricMeta>, ctx: TranslateContext, i: int)
    requires
        resolves_catalog(catalog, ctx),
        0 <= i < catalog.len(),
    ensures
        ctx.metrics@[i].storage_name@ == catalog[i].metric@,
        !ctx.metrics@[i].query_name@.contains('.'),
        ctx.metrics@[i].query_name@.len() == catalog[i].metric@.len(),
        !catalog[i].metric@.contains('.') ==> ctx.metrics@[i].query_name@ == catalog[i].metric@,
{
    let m = catalog[i];
    assert(resolves(m, ctx.metrics@[i]));
    crate::text::lemma_replaced_is_gone(m.metric@, '.', '_');
    if !m.metric@.contains('.') {
        assert(replaced(m.metric@, '.', '_') =~= m.metric@);
    }
}

/// A bare selector ignores the step, and a range aggregation ignores the limit: the answer to a
/// LogQL query of the one form does not depend on the argument that only the other form uses.
pub proof fn each_form_ignores_the_other_argument<
    D,
    M,
    L: FnOnce(&imbh_db<D>, M, i64, i64, usize) -> Result<Vec<Batch>, LinesFailure>,
    S: FnOnce(&imbh_db<D>, M, EvalRange) -> Result<Batch, String>,
>(
    h: &imbh_db<D>,
    t: Translated<M>,
    start: i64,
    end: i64,
    steps: (i64, i64),
    limits: (i64, i64),
    lines: L,
    series: S,
    before: arrow::ffi_stream::FFI_ArrowArrayStream,
    after: arrow::ffi_stream::FFI_ArrowArrayStream,
    code: imbh_error,
    last: LastError,
)
    requires
        t.kind == ModelKind::LogSelector || t.kind == ModelKind::Log,
        t.kind == ModelKind::LogSelector ==> limits.0 == limits.1,
        t.kind == ModelKind::Log ==> steps.0 == steps.1,
    ensures
        answers_logql(
            h,
            Ok(t),
            start,
            end,
            steps.0,
            limits.0,
            lines,
            series,
            before,
            after,
            code,
            last,
        ) == answers_logql(
            h,
            Ok(t),
            start,
            end,
            steps.1,
            limits.1,
            lines,
            series,
            before,
            after,
            code,
            last,
        ),
{
}

/// A bare selector asks for at most its cap of lines and for nothing else that the step or the
/// limit could change: two calls with any steps, and with limits of one cap, are answered alike.
/// Every limit that is not positive has the cap of the default, and every positive one is its own
/// cap.
pub proof fn selectors_ask_for_their_cap_alone<
    D,
    M,
    L: FnOnce(&imbh_db<D>, M, i64, i64, usize) -> Result<Vec<Batch>, LinesFailure>,
    S: FnOnce(&imbh_db<D>, M, EvalRange) -> Result<Batch, String>,
>(
    h: &imbh_db<D>,
    t: Translated<M>,
    start: i64,
    end: i64,
    steps: (i64, i64),
    limits: (i64, i64),
    lines: L,
    series: S,
    before: arrow::ffi_stream::FFI_ArrowArrayStream,
    after: arrow::ffi_stream::FFI_ArrowArrayStream,
    code: imbh_error,
    last: LastError,
)
    requires
        t.kind == ModelKind::LogSelector,
        limits.0 == limits.1 || (limits.0 <= 0 && (limits.1 <= 0 || limits.1
            == LOGQL_DEFAULT_LIMIT)),
    ensures
        line_limit(limits.0) == line_limit(limits.1),
        limits.0 <= 0 ==> line_limit(limits.0) == 1000,
        0 < limits.0 <= usize::MAX ==> line_limit(limits.0) == limits.0,
        answers_logql(
            h,
            Ok(t),
            start,
            end,
            steps.0,
            limits.0,
            lines,
            series,
            before,
            after,
            code,
            last,
        ) == answers_logql(
            h,
            Ok(t),
            start,
            end,
            steps.1,
            limits.1,
            lines,
            series,
            before,
            after,
            code,
            last,
        ),
{
}

/// How many rows the batches hold together, each as many as its first column has cells.
pub open spec fn row_count(batches: Seq<Seq<Seq<Cell>>>) -> nat
    decreases batches.len(),
{
    if batches.len() == 0 {
        0
    } else {
        row_count(batches.drop_last()) + (if batches.last().len() == 0 {
            0
        } else {
            batches.last()[0].len()
        })
    }
}

/// Where the engine keeps to the cap that it is handed, a bare selector yields at most `limit` log
/// lines, or the default number where `limit` is not positive.
pub proof fn selectors_yield_at_most_their_cap<
    D,
    M,
    L: FnOnce(&imbh_db<D>, M, i64, i64, usize) -> Result<Vec<Batch>, LinesFailure>,
    S: FnOnce(&imbh_db<D>, M, EvalRange) -> Result<Batch, String>,
>(
    h: &imbh_db<D>,
    t: Translated<M>,
    start: i64,
    end: i64,
    step: i64,
    limit: i64,
    lines: L,
    series: S,
    before: arrow::ffi_stream::FFI_ArrowArrayStream,
    after: arrow::ffi_stream::FFI_ArrowArrayStream,
    code: imbh_error,
    last: LastError,
)
    requires
        t.kind == ModelKind::LogSelector,
        forall|max: usize, reply: Result<Vec<Batch>, LinesFailure>| #[trigger]
            lines.ensures((h, t.model, start, end, max), reply) ==> (reply matches Ok(batches)
                ==> row_count(batches_cells(batches@)) <= max),
        answers_logql(
            h,
            Ok(t),
            start,
            end,
            step,
            limit,
            lines,
            series,
            before,
            after,
            code,
            last,
        ),
        code == imbh_error::Success,
    ensures
        row_count(stream_cells(after)) <= line_limit(limit),
        limit <= 0 ==> row_count(stream_cells(after)) <= 1000,
        limit > 0 && limit <= usize::MAX ==> row_count(stream_cells(after)) <= limit,
{
}

/// Every limit that is not positive means the default, and every step below a nanosecond means one.
pub proof fn limits_and_steps_have_defaults(limit: i64, step: i64)
    ensures
        limit <= 0 ==> line_limit(limit) == LOGQL_DEFAULT_LIMIT,
        step <= 1 ==> eval_step(step) == 1,
        eval_step(step) >= 1,
        step >= 1 ==> eval_step(step) == step,
{
}

/// The window of an evaluation is what was asked for, whatever the lookback: it starts at the
/// start, ends at the end and goes by the step, which is a nanosecond where a smaller one was asked
/// for. The lookback changes nothing but the lookback.
pub proof fn windows_are_what_was_asked_for(
    start: i64,
    end: i64,
    step: i64,
    lookback_ns: u64,
    other: u64,
    r: EvalRange,
    s: EvalRange,
)
    requires
        call_ensures(new_eval_range, (start, end, step, lookback_ns), r),
        call_ensures(new_eval_range, (start, end, step, other), s),
    ensures
        r.start_ns == start,
        r.end_ns == end,
        r.step_ns == (if step >= 1 {
            step as int
        } else {
            1
        }),
        r.lookback_ns == lookback_ns,
        r == eval_range(start, end, step, lookback_ns),
        s.start_ns == r.start_ns && s.end_ns == r.end_ns && s.step_ns == r.step_ns,
{
}

/// A context resolves a catalog exactly when it names every metric of it, in order: its stored
/// name, that name with each dot turned into an underscore, and what it measures, which is a gauge
/// where the catalog calls it neither a sum nor a histogram.
pub proof fn contexts_name_the_catalog(
    catalog: Vec<MetricMeta>,
    made: TranslateContext,
    ctx: TranslateContext,
)
    requires
        call_ensures(promql_context, (catalog,), made),
    ensures
        resolves_catalog(catalog@, made),
        resolves_catalog(catalog@, ctx) ==> ctx.metrics@.len() == catalog@.len(),
        resolves_catalog(catalog@, ctx) ==> forall|i: int|
            0 <= i < catalog@.len() ==> {
                &&& (#[trigger] ctx.metrics@[i]).storage_name@ == catalog@[i].metric@
                &&& ctx.metrics@[i].query_name@.len() == catalog@[i].metric@.len()
                &&& catalog@[i].kind@ == "sum"@ ==> ctx.metrics@[i].kind
                    == MetricKind::CumulativeCounter
                &&& catalog@[i].kind@ == "histogram"@ ==> ctx.metrics@[i].kind
                    == MetricKind::CumulativeHistogram
                &&& catalog@[i].kind@ != "sum"@ && catalog@[i].kind@ != "histogram"@
                    ==> ctx.metrics@[i].kind == MetricKind::Gauge
            },
        resolves_catalog(catalog@, ctx) ==> forall|i: int, j: int|
            0 <= i < catalog@.len() && 0 <= j < catalog@[i].metric@.len() ==> (
            #[trigger] ctx.metrics@[i].query_name@[j]) == if catalog@[i].metric@[j] == '.' {
                '_'
            } else {
                catalog@[i].metric@[j]
            },
{
    reveal_strlit("sum");
    reveal_strlit("histogram");
    assert("sum"@.len() != "histogram"@.len());
    if resolves_catalog(catalog@, ctx) {
        assert forall|i: int| 0 <= i < catalog@.len() implies resolves(
            catalog@[i],
            #[trigger] ctx.metrics@[i],
        ) by {}
    }
}

/// A PromQL query is translated with the caller's text and a context that names every metric of the
/// catalog, and its model is evaluated over the caller's window, looking back five minutes. The
/// batch of the reply is the whole stream. What the catalog, the translation or the evaluation
/// fails with is what the call fails with.
pub proof fn promql_is_evaluated_over_the_callers_window<
    D,
    M,
    C: FnOnce(&imbh_db<D>) -> Result<Vec<MetricMeta>, EngineError>,
    T: FnOnce(&str, &TranslateContext) -> Result<Translated<M>, String>,
    E: FnOnce(&imbh_db<D>, M, EvalRange) -> Result<Batch, String>,
>(
    db: &imbh_db<D>,
    query: &[u8],
    text: Seq<char>,
    start: i64,
    end: i64,
    step: i64,
    out: &mut arrow::ffi_stream::FFI_ArrowArrayStream,
    catalog: C,
    translate: T,
    execute: E,
    known: Result<Vec<MetricMeta>, EngineError>,
    translated: Result<Translated<M>, String>,
    reply: Result<Batch, String>,
    last: &mut LastError,
    code: imbh_error,
)
    requires
        query@ == encode_utf8(text),
        forall|r: Result<Vec<MetricMeta>, EngineError>| #[trigger]
            catalog.ensures((db,), r) ==> r == known,
        forall|asked: &str, ctx: &TranslateContext, r: Result<Translated<M>, String>| #[trigger]
            translate.ensures((asked, ctx), r) && asked@ == text && (known matches Ok(metas)
                && resolves_catalog(metas@, *ctx)) ==> r == translated,
        forall|model: M, range: EvalRange, r: Result<Batch, String>| #[trigger]
            execute.ensures((db, model, range), r) && (translated matches Ok(t) && model == t.model)
                && range.start_ns == start && range.end_ns == end && range.step_ns == (if step
                >= 1 {
                step as int
            } else {
                1
            }) && range.lookback_ns == 300_000_000_000 ==> r == reply,
        call_ensures(
            imbh_db_query_promql::<D, M, C, T, E>,
            (
                Some(db),
                Some(query),
                start,
                end,
                step,
                Some(out),
                catalog,
                translate,
                execute,
                last,
            ),
            code,
        ),
    ensures
        known matches Err(e) ==> engine_failed(code, *final(last), e),
        known is Ok ==> match translated {
            Err(reason) => query_failed(code, *final(last), "promql: "@ + reason@),
            Ok(t) => if t.kind != ModelKind::Prom {
                query_failed(code, *final(last), "promql: not a metric expression"@)
            } else {
                &&& reply matches Err(reason) ==> query_failed(
                    code,
                    *final(last),
                    "promql: "@ + reason@,
                )
                &&& reply matches Ok(b) ==> {
                    &&& code == imbh_error::Success
                    &&& stream_columns(*final(out)) == batch_columns(b)
                    &&& stream_cells(*final(out)).len() == 1
                    &&& stream_cells(*final(out))[0] == batch_cells(b)
                }
            },
        },
        code != imbh_error::Success ==> *final(out) == *old(out),
{
    texts_survive_the_boundary(text, query);
}

/// A LogQL query is translated with the caller's text. A bare selector is answered with the lines
/// of the caller's window, at most as many as the caller's limit, or a thousand where it is not
/// positive. A range aggregation is evaluated over the caller's window and step, and looks back no
/// further. Every batch of the reply is in the stream, in order. Any other model is refused.
pub proof fn logql_is_evaluated_over_the_callers_window<
    D,
    M,
    T: FnOnce(&str) -> Result<Translated<M>, String>,
    L: FnOnce(&imbh_db<D>, M, i64, i64, usize) -> Result<Vec<Batch>, LinesFailure>,
    S: FnOnce(&imbh_db<D>, M, EvalRange) -> Result<Batch, String>,
>(
    db: &imbh_db<D>,
    query: &[u8],
    text: Seq<char>,
    start: i64,
    end: i64,
    step: i64,
    limit: i64,
    out: &mut arrow::ffi_stream::FFI_ArrowArrayStream,
    translate: T,
    lines: L,
    series: S,
    translated: Result<Translated<M>, String>,
    found: Result<Vec<Batch>, LinesFailure>,
    reply: Result<Batch, String>,
    last: &mut LastError,
    code: imbh_error,
)
    requires
        query@ == encode_utf8(text),
        limit <= usize::MAX,
        forall|asked: &str, r: Result<Translated<M>, String>| #[trigger]
            translate.ensures((asked,), r) && asked@ == text ==> r == translated,
        forall|model: M, most: usize, r: Result<Vec<Batch>, LinesFailure>| #[trigger]
            lines.ensures((db, model, start, end, most), r) && (translated matches Ok(t) && model
                == t.model) && most == (if limit > 0 {
                limit as int
            } else {
                1000
            }) ==> r == found,
        forall|model: M, range: EvalRange, r: Result<Batch, String>| #[trigger]
            series.ensures((db, model, range), r) && (translated matches Ok(t) && model == t.model)
                && range.start_ns == start && range.end_ns == end && range.step_ns == (if step
                >= 1 {
                step as int
            } else {
                1
            }) && range.lookback_ns == 0 ==> r == reply,
        call_ensures(
            imbh_db_query_logql::<D, M, T, L, S>,
            (
                Some(db),
                Some(query),
                start,
                end,
                step,
                limit,
                Some(out),
                translate,
                lines,
                series,
                last,
            ),
            code,
        ),
    ensures
        match translated {
            Err(reason) => query_failed(code, *final(last), "logql: "@ + reason@),
            Ok(t) => match t.kind {
                ModelKind::LogSelector => match found {
                    Err(LinesFailure::Translation(reason)) => query_failed(
                        code,
                        *final(last),
                        "logql: "@ + reason@,
                    ),
                    Err(LinesFailure::Engine(e)) => engine_failed(code, *final(last), e),
                    Ok(batches) => {
                        &&& code == imbh_error::Success
                        &&& stream_cells(*final(out)).len() == batches@.len()
                        &&& forall|i: int|
                            0 <= i < batches@.len() ==> #[trigger] stream_cells(*final(out))[i]
                                == batch_cells(batches@[i])
                        &&& batches@.len() > 0 ==> stream_columns(*final(out)) == batch_columns(
                            batches@[0],
                        )
                        &&& batches@.len() == 0 ==> stream_columns(*final(out)).len() == 0
                    },
                },
                ModelKind::Log => match reply {
                    Err(reason) => query_failed(code, *final(last), "logql: "@ + reason@),
                    Ok(b) => {
                        &&& code == imbh_error::Success
                        &&& stream_columns(*final(out)) == batch_columns(b)
                        &&& stream_cells(*final(out)).len() == 1
                        &&& stream_cells(*final(out))[0] == batch_cells(b)
                    },
                },
                _ => query_failed(
                    code,
                    *final(last),
                    "logql: translator returned a non-log model"@,
                ),
            },
        },
        code != imbh_error::Success ==> *final(out) == *old(out),
{
    texts_survive_the_boundary(text, query);
}

/// A TraceQL query is translated with the caller's text, and its model is evaluated between the
/// caller's bounds. The batch of the reply is the whole stream.
pub proof fn traceql_is_evaluated_between_the_callers_bounds<
    D,
    M,
    T: FnOnce(&str) -> Result<Translated<M>, String>,
    E: FnOnce(&imbh_db<D>, M, i64, i64) -> Result<Batch, String>,
>(
    db: &imbh_db<D>,
    query: &[u8],
    text: Seq<char>,
    start: i64,
    end: i64,
    out: &mut arrow::ffi_stream::FFI_ArrowArrayStream,
    translate: T,
    execute: E,
    translated: Result<Translated<M>, String>,
    reply: Result<Batch, String>,
    last: &mut LastError,
    code: imbh_error,
)
    requires
        query@ == encode_utf8(text),
        forall|asked: &str, r: Result<Translated<M>, String>| #[trigger]
            translate.ensures((asked,), r) && asked@ == text ==> r == translated,
        forall|model: M, r: Result<Batch, String>| #[trigger]
            execute.ensures((db, model, start, end), r) && (translated matches Ok(t) && model
                == t.model) ==> r == reply,
        call_ensures(
            imbh_db_query_traceql::<D, M, T, E>,
            (Some(db), Some(query), start, end, Some(out), translate, execute, last),
            code,
        ),
    ensures
        match translated {
            Err(reason) => query_failed(code, *final(last), "traceql: "@ + reason@),
            Ok(t) => if t.kind != ModelKind::Trace {
                query_failed(code, *final(last), "traceql: not a spanset expression"@)
            } else {
                match reply {
                    Err(reason) => query_failed(code, *final(last), "traceql: "@ + reason@),
                    Ok(b) => {
                        &&& code == imbh_error::Success
                        &&& stream_columns(*final(out)) == batch_columns(b)
                        &&& stream_cells(*final(out)).len() == 1
                        &&& stream_cells(*final(out))[0] == batch_cells(b)
                    },
                }
            },
        },
        code != imbh_error::Success ==> *final(out) == *old(out),
{
    texts_survive_the_boundary(text, query);
}

/// The trace that is fetched is the one whose bytes the caller spelled, and every batch of its
/// spans is in the stream, in order. A trace without spans gives an empty stream. What is no id of
/// sixteen bytes is refused, whatever the engine holds.
pub proof fn traces_are_fetched_by_their_bytes<
    D,
    F: FnOnce(&imbh_db<D>, TraceId) -> Result<Vec<Batch>, EngineError>,
>(
    db: &imbh_db<D>,
    trace_id: &[u8],
    text: Seq<char>,
    out: &mut arrow::ffi_stream::FFI_ArrowArrayStream,
    get: F,
    bytes: Seq<u8>,
    reply: Result<Vec<Batch>, EngineError>,
    last: &mut LastError,
    code: imbh_error,
)
    requires
        trace_id@ == encode_utf8(text),
        forall|id: TraceId, r: Result<Vec<Batch>, EngineError>| #[trigger]
            get.ensures((db, id), r) && id.bytes@ == bytes ==> r == reply,
        call_ensures(
            imbh_db_get_trace::<D, F>,
            (Some(db), Some(trace_id), Some(out), get, last),
            code,
        ),
    ensures
        is_hex(text, 16) && spelled(text) == bytes ==> match reply {
            Err(e) => engine_failed(code, *final(last), e),
            Ok(batches) => {
                &&& code == imbh_error::Success
                &&& stream_cells(*final(out)).len() == batches@.len()
                &&& forall|i: int|
                    0 <= i < batches@.len() ==> #[trigger] stream_cells(*final(out))[i]
                        == batch_cells(batches@[i])
                &&& batches@.len() > 0 ==> stream_columns(*final(out)) == batch_columns(batches@[0])
                &&& batches@.len() == 0 ==> stream_columns(*final(out)).len() == 0
            },
        },
        text.len() != 32 ==> code == imbh_error::InvalidArg,
        !is_hex(text, 16) ==> rejected(
            code,
            *final(last),
            "invalid trace id "@ + debug_text(text) + " (want 32 hex chars)"@,
        ),
        code != imbh_error::Success ==> *final(out) == *old(out),
{
    texts_survive_the_boundary(text, trace_id);
}

/// The refusal of a trace id shows the id between what is wrong with it and what is wanted.
pub proof fn refusals_show_the_trace_id(shown: &str, e: CallError)
    requires
        call_ensures(invalid_trace_id, (shown,), e),
    ensures
        e matches CallError::InvalidArg(text) && text@ == "invalid trace id "@ + shown@
            + " (want 32 hex chars)"@,
{
}

/// [`imbh_db_query_promql`] refuses a null handle, a null string and a null output, each with its
/// own message, whatever else it is given.
pub proof fn query_promql_refuses_nulls<
    D,
    M,
    C: FnOnce(&imbh_db<D>) -> Result<Vec<MetricMeta>, EngineError>,
    T: FnOnce(&str, &TranslateContext) -> Result<Translated<M>, String>,
    E: FnOnce(&imbh_db<D>, M, EvalRange) -> Result<Batch, String>,
>(
    db: &imbh_db<D>,
    query: &[u8],
    text: Seq<char>,
    start: i64,
    end: i64,
    step: i64,
    out: Option<&mut arrow::ffi_stream::FFI_ArrowArrayStream>,
    catalog: C,
    translate: T,
    execute: E,
    last: &mut LastError,
    code: imbh_error,
)
    ensures
        call_ensures(
            imbh_db_query_promql::<D, M, C, T, E>,
            (
                None::<&imbh_db<D>>,
                Some(query),
                start,
                end,
                step,
                out,
                catalog,
                translate,
                execute,
                last,
            ),
            code,
        ) ==> rejected(code, *final(last), "null imbh_db handle"@),
        call_ensures(
            imbh_db_query_promql::<D, M, C, T, E>,
            (Some(db), None::<&[u8]>, start, end, step, out, catalog, translate, execute, last),
            code,
        ) ==> rejected(code, *final(last), "null string pointer"@),
        call_ensures(
            imbh_db_query_promql::<D, M, C, T, E>,
            (
                Some(db),
                Some(query),
                start,
                end,
                step,
                None::<&mut arrow::ffi_stream::FFI_ArrowArrayStream>,
                catalog,
                translate,
                execute,
                last,
            ),
            code,
        ) && query@ == encode_utf8(text) ==> rejected(
            code,
            *final(last),
            "null out stream pointer"@,
        ),
{
    if query@ == encode_utf8(text) {
        texts_survive_the_boundary(text, query);
    }
}

/// [`imbh_db_query_logql`] refuses a null handle, a null string and a null output, each with its
/// own message, whatever else it is given.
pub proof fn query_logql_refuses_nulls<
    D,
    M,
    T: FnOnce(&str) -> Result<Translated<M>, String>,
    L: FnOnce(&imbh_db<D>, M, i64, i64, usize) -> Result<Vec<Batch>, LinesFailure>,
    S: FnOnce(&imbh_db<D>, M, EvalRange) -> Result<Batch, String>,
>(
    db: &imbh_db<D>,
    query: &[u8],
    text: Seq<char>,
    start: i64,
    end: i64,
    step: i64,
    limit: i64,
    out: Option<&mut arrow::ffi_stream::FFI_ArrowArrayStream>,
    translate: T,
    lines: L,
    series: S,
    last: &mut LastError,
    code: imbh_error,
)
    ensures
        call_ensures(
            imbh_db_query_logql::<D, M, T, L, S>,
            (
                None::<&imbh_db<D>>,
                Some(query),
                start,
                end,
                step,
                limit,
                out,
                translate,
                lines,
                series,
                last,
            ),
            code,
        ) ==> rejected(code, *final(last), "null imbh_db handle"@),
        call_ensures(
            imbh_db_query_logql::<D, M, T, L, S>,
            (Some(db), None::<&[u8]>, start, end, step, limit, out, translate, lines, series, last),
            code,
        ) ==> rejected(code, *final(last), "null string pointer"@),
        call_ensures(
            imbh_db_query_logql::<D, M, T, L, S>,
            (
                Some(db),
                Some(query),
                start,
                end,
                step,
                limit,
                None::<&mut arrow::ffi_stream::FFI_ArrowArrayStream>,
                translate,
                lines,
                series,
                last,
            ),
            code,
        ) && query@ == encode_utf8(text) ==> rejected(
            code,
            *final(last),
            "null out stream pointer"@,
        ),
{
    if query@ == encode_utf8(text) {
        texts_survive_the_boundary(text, query);
    }
}

/// [`imbh_db_query_traceql`] refuses a null handle, a null string and a null output, each with its
/// own message, whatever else it is given.
pub proof fn query_traceql_refuses_nulls<
    D,
    M,
    T: FnOnce(&str) -> Result<Translated<M>, String>,
    E: FnOnce(&imbh_db<D>, M, i64, i64) -> Result<Batch, String>,
>(
    db: &imbh_db<D>,
    query: &[u8],
    text: Seq<char>,
    start: i64,
    end: i64,
    out: Option<&mut arrow::ffi_stream::FFI_ArrowArrayStream>,
    translate: T,
    execute: E,
    last: &mut LastError,
    code: imbh_error,
)
    ensures
        call_ensures(
            imbh_db_query_traceql::<D, M, T, E>,
            (None::<&imbh_db<D>>, Some(query), start, end, out, translate, execute, last),
            code,
        ) ==> rejected(code, *final(last), "null imbh_db handle"@),
        call_ensures(
            imbh_db_query_traceql::<D, M, T, E>,
            (Some(db), None::<&[u8]>, start, end, out, translate, execute, last),
            code,
        ) ==> rejected(code, *final(last), "null string pointer"@),
        call_ensures(
            imbh_db_query_traceql::<D, M, T, E>,
            (
                Some(db),
                Some(query),
                start,
                end,
                None::<&mut arrow::ffi_stream::FFI_ArrowArrayStream>,
                translate,
                execute,
                last,
            ),
            code,
        ) && query@ == encode_utf8(text) ==> rejected(
            code,
            *final(last),
            "null out stream pointer"@,
        ),
{
    if query@ == encode_utf8(text) {
        texts_survive_the_boundary(text, query);
    }
}

/// [`imbh_db_get_trace`] refuses a null handle, a null string and a null output, each with its own
/// message, whatever else it is given.
pub proof fn get_trace_refuses_nulls<
    D,
    F: FnOnce(&imbh_db<D>, TraceId) -> Result<Vec<Batch>, EngineError>,
>(
    db: &imbh_db<D>,
    trace_id: &[u8],
    text: Seq<char>,
    out: Option<&mut arrow::ffi_stream::FFI_ArrowArrayStream>,
    get: F,
    last: &mut LastError,
    code: imbh_error,
)
    ensures
        call_ensures(
            imbh_db_get_trace::<D, F>,
            (None::<&imbh_db<D>>, Some(trace_id), out, get, last),
            code,
        ) ==> rejected(code, *final(last), "null imbh_db handle"@),
        call_ensures(
            imbh_db_get_trace::<D, F>,
            (Some(db), None::<&[u8]>, out, get, last),
            code,
        ) ==> rejected(code, *final(last), "null string pointer"@),
        call_ensures(
            imbh_db_get_trace::<D, F>,
            (
                Some(db),
                Some(trace_id),
                None::<&mut arrow::ffi_stream::FFI_ArrowArrayStream>,
                get,
                last,
            ),
            code,
        ) && trace_id@ == encode_utf8(text) ==> rejected(
            code,
            *final(last),
            "null out stream pointer"@,
        ),
{
    if trace_id@ == encode_utf8(text) {
        texts_survive_the_boundary(text, trace_id);
    }
}

} // verus!
