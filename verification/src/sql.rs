//! SQL queries, handed over as a stream or as Arrow-IPC bytes.

use std::sync::Arc;

use vstd::prelude::*;
use vstd::utf8::encode_utf8;

use crate::args::{c_string, cstr, handle, says, texts_survive_the_boundary};
use crate::arrow_stream::{
    all_contents, announces, batches_cells, dictionaries, encode_ipc, encodes_stream,
    exact_columns, export_batches, fit_together, fits_stream, ipc_cells, ipc_columns,
    is_announced, readable, stream_cells, stream_columns, streams, what_fits_together_is_readable,
};
use crate::buffer::{imbh_bytes, make_bytes};
use crate::columnar::{batch_cells, batch_columns, schema_columns, Batch, ColumnDef, DataKind};
use crate::db::imbh_db;
use crate::error::{
    engine_failed, imbh_error, invalid_arg, LastError, panicked, query_error, rejected, settle,
    settle_panic, settled, succeeded, CallError, EngineError,
};

verus! {

/// The outcome of a SQL query that is handed over as a stream, given the engine's reply.
pub open spec fn answers_sql(
    reply: Result<(Arc<arrow::datatypes::Schema>, Vec<Batch>), EngineError>,
    out: arrow::ffi_stream::FFI_ArrowArrayStream,
    code: imbh_error,
    last: LastError,
) -> bool {
    match reply {
        Err(e) => engine_failed(code, last, e),
        Ok((schema, batches)) => succeeded(code, last) && streams(
            out,
            schema_columns(*schema),
            batches_cells(batches@),
        ),
    }
}

/// The outcome of a SQL query that is handed over as Arrow-IPC bytes, given the engine's reply. A
/// batch with a dictionary that the schema does not announce ends the call as Arrow's panic does.
pub open spec fn answers_sql_ipc(
    reply: Result<(Arc<arrow::datatypes::Schema>, Vec<Batch>), EngineError>,
    out: imbh_bytes,
    code: imbh_error,
    last: LastError,
) -> bool {
    match reply {
        Err(e) => engine_failed(code, last, e),
        Ok((schema, batches)) => if announces(schema_columns(*schema), batches@) {
            succeeded(code, last) && out.wf() && encodes_stream(
                schema_columns(*schema),
                batches@,
                out.data@,
            )
        } else {
            panicked(
                code,
                last,
                "StreamWriter is configured to not error on dictionary replacement"@,
            )
        },
    }
}

/// Run a SQL query with `run`, and export the result to `out` as an Arrow stream. The stream
/// carries the schema even for an empty result.
pub fn imbh_db_query_sql<
    D,
    F: FnOnce(&imbh_db<D>, &str) -> Result<
        (Arc<arrow::datatypes::Schema>, Vec<Batch>),
        EngineError,
    >,
>(
    db: Option<&imbh_db<D>>,
    sql: Option<&[u8]>,
    out: Option<&mut arrow::ffi_stream::FFI_ArrowArrayStream>,
    run: F,
    last: &mut LastError,
) -> (code: imbh_error)
    requires
        db matches Some(h) ==> forall|text: &str|
            out is Some && says(sql, text@) ==> #[trigger] run.requires((h, text)),
    ensures
        db is None ==> rejected(code, *final(last), "null imbh_db handle"@),
        db matches Some(h) ==> match c_string(sql) {
            Err(reason) => rejected(code, *final(last), reason),
            Ok(text) => {
                &&& out is None ==> rejected(code, *final(last), "null out stream pointer"@)
                &&& out matches Some(o) ==> exists|
                    sql: &str,
                    reply: Result<(Arc<arrow::datatypes::Schema>, Vec<Batch>), EngineError>,
                | #[trigger]
                    run.ensures((h, sql), reply) && sql@ == text && answers_sql(
                        reply,
                        *final(o),
                        code,
                        *final(last),
                    )
            },
        },
        code != imbh_error::Success ==> (out matches Some(o) ==> *final(o) == *o),
        settled(code, *final(last)),
{
    let h = match handle(db) {
        Ok(h) => h,
        Err(e) => return settle(Err(e), last),
    };
    let sql = match cstr(sql) {
        Ok(sql) => sql,
        Err(e) => return settle(Err(e), last),
    };
    match out {
        None => settle(Err(invalid_arg("null out stream pointer")), last),
        Some(o) => match run(h, sql) {
            Err(e) => settle(Err(CallError::Imbh(e)), last),
            Ok((schema, batches)) => {
                *o = export_batches(schema, batches);
                settle(Ok(()), last)
            },
        },
    }
}

/// Run a SQL query with `run`, and hand the result over as Arrow-IPC stream bytes. The bytes
/// describe the columns even for an empty result. The schema and the batches that `run` collects
/// fit an IPC stream: Arrow panics on, or garbles, a message that is longer than the format allows.
pub fn imbh_db_query_sql_ipc<
    D,
    F: FnOnce(&imbh_db<D>, &str) -> Result<
        (Arc<arrow::datatypes::Schema>, Vec<Batch>),
        EngineError,
    >,
>(
    db: Option<&imbh_db<D>>,
    sql: Option<&[u8]>,
    out: Option<&mut imbh_bytes>,
    run: F,
    last: &mut LastError,
) -> (code: imbh_error)
    requires
        db matches Some(h) ==> forall|text: &str|
            out is Some && says(sql, text@) ==> #[trigger] run.requires((h, text)),
        forall|
            h: &imbh_db<D>,
            sql: &str,
            reply: Result<(Arc<arrow::datatypes::Schema>, Vec<Batch>), EngineError>,
        | #[trigger]
            run.ensures((h, sql), reply) ==> (reply matches Ok((schema, batches))
                ==> fits_stream(*schema, batches@)),
    ensures
        db is None ==> rejected(code, *final(last), "null imbh_db handle"@),
        db matches Some(h) ==> match c_string(sql) {
            Err(reason) => rejected(code, *final(last), reason),
            Ok(text) => {
                &&& out is None ==> rejected(code, *final(last), "null out pointer"@)
                &&& out matches Some(o) ==> exists|
                    sql: &str,
                    reply: Result<(Arc<arrow::datatypes::Schema>, Vec<Batch>), EngineError>,
                | #[trigger]
                    run.ensures((h, sql), reply) && sql@ == text && answers_sql_ipc(
                        reply,
                        *final(o),
                        code,
                        *final(last),
                    )
            },
        },
        code != imbh_error::Success ==> (out matches Some(o) ==> *final(o) == *o),
        settled(code, *final(last)),
{
    let h = match handle(db) {
        Ok(h) => h,
        Err(e) => return settle(Err(e), last),
    };
    let sql = match cstr(sql) {
        Ok(sql) => sql,
        Err(e) => return settle(Err(e), last),
    };
    match out {
        None => settle(Err(invalid_arg("null out pointer")), last),
        Some(o) => match run(h, sql) {
            Err(e) => settle(Err(CallError::Imbh(e)), last),
            Ok((schema, batches)) => {
                if !is_announced(&schema, &batches) {
                    return settle_panic(
                        "StreamWriter is configured to not error on dictionary replacement",
                        last,
                    );
                }
                match encode_ipc(schema, batches) {
                    Err(e) => settle(
                        Err(query_error("arrow-ipc encode: ", e.to_string().as_str())),
                        last,
                    ),
                    Ok(bytes) => {
                        *o = make_bytes(bytes);
                        settle(Ok(()), last)
                    },
                }
            },
        },
    }
}

/// Two replies hold the same result: the same columns, and batches with the same cells.
pub open spec fn same_result(
    a: Result<(Arc<arrow::datatypes::Schema>, Vec<Batch>), EngineError>,
    b: Result<(Arc<arrow::datatypes::Schema>, Vec<Batch>), EngineError>,
) -> bool {
    &&& a matches Ok((s, v))
    &&& b matches Ok((t, w))
    &&& schema_columns(*s) == schema_columns(*t)
    &&& batches_cells(v@) == batches_cells(w@)
}

/// The IPC form of a SQL result holds what its stream holds: where the engine gives the same result
/// to both calls, and its schema announces the dictionaries of the batches, the second succeeds
/// too, its bytes are never empty, and wherever Arrow-IPC bytes can hold the result exactly, they
/// hold the columns and the rows of the stream, in order.
pub proof fn ipc_holds_what_the_stream_holds(
    for_stream: Result<(Arc<arrow::datatypes::Schema>, Vec<Batch>), EngineError>,
    for_ipc: Result<(Arc<arrow::datatypes::Schema>, Vec<Batch>), EngineError>,
    stream: arrow::ffi_stream::FFI_ArrowArrayStream,
    buffer: imbh_bytes,
    codes: (imbh_error, imbh_error),
    lasts: (LastError, LastError),
)
    requires
        same_result(for_stream, for_ipc),
        for_ipc matches Ok((schema, batches)) && announces(schema_columns(*schema), batches@),
        answers_sql(for_stream, stream, codes.0, lasts.0),
        answers_sql_ipc(for_ipc, buffer, codes.1, lasts.1),
    ensures
        codes.1 == imbh_error::Success,
        buffer.len > 0,
        exact_columns(stream_columns(stream)) ==> ipc_columns(buffer.data@) == stream_columns(
            stream,
        ),
        for_ipc matches Ok((schema, batches)) ==> (readable(
            schema_columns(*schema),
            all_contents(batches@),
        ) ==> ipc_cells(buffer.data@) == stream_cells(stream)),
{
}

/// A SQL result reaches the caller whole: the engine is asked with the caller's text, and the
/// stream describes the columns of the engine's reply and yields the cells of every batch of it, as
/// many and in the same order. A failure leaves the stream alone.
pub proof fn sql_streams_hold_every_batch<
    D,
    F: FnOnce(&imbh_db<D>, &str) -> Result<
        (Arc<arrow::datatypes::Schema>, Vec<Batch>),
        EngineError,
    >,
>(
    db: &imbh_db<D>,
    sql: &[u8],
    text: Seq<char>,
    out: &mut arrow::ffi_stream::FFI_ArrowArrayStream,
    run: F,
    reply: Result<(Arc<arrow::datatypes::Schema>, Vec<Batch>), EngineError>,
    last: &mut LastError,
    code: imbh_error,
)
    requires
        sql@ == encode_utf8(text),
        forall|
            asked: &str,
            answer: Result<(Arc<arrow::datatypes::Schema>, Vec<Batch>), EngineError>,
        | #[trigger]
            run.ensures((db, asked), answer) && asked@ == text ==> answer == reply,
        call_ensures(imbh_db_query_sql::<D, F>, (Some(db), Some(sql), Some(out), run, last), code),
    ensures
        reply matches Err(e) ==> engine_failed(code, *final(last), e) && *final(out) == *old(out),
        reply matches Ok((schema, batches)) ==> {
            &&& code == imbh_error::Success
            &&& stream_columns(*final(out)) == schema_columns(*schema)
            &&& stream_cells(*final(out)).len() == batches@.len()
            &&& forall|i: int|
                0 <= i < batches@.len() ==> #[trigger] stream_cells(*final(out))[i] == batch_cells(
                    batches@[i],
                )
        },
{
    texts_survive_the_boundary(text, sql);
}

/// A SQL result whose batches fit its schema, and whose types the format holds exactly, is encoded
/// whole: the bytes describe the columns of the engine's reply and hold the cells of every batch of
/// it, as many and in the same order.
pub proof fn sql_bytes_hold_every_batch<
    D,
    F: FnOnce(&imbh_db<D>, &str) -> Result<
        (Arc<arrow::datatypes::Schema>, Vec<Batch>),
        EngineError,
    >,
>(
    db: &imbh_db<D>,
    sql: &[u8],
    text: Seq<char>,
    out: &mut imbh_bytes,
    run: F,
    reply: Result<(Arc<arrow::datatypes::Schema>, Vec<Batch>), EngineError>,
    columns: Seq<ColumnDef>,
    last: &mut LastError,
    code: imbh_error,
)
    requires
        sql@ == encode_utf8(text),
        forall|
            asked: &str,
            answer: Result<(Arc<arrow::datatypes::Schema>, Vec<Batch>), EngineError>,
        | #[trigger]
            run.ensures((db, asked), answer) && asked@ == text ==> answer == reply,
        reply matches Ok((schema, batches)) ==> schema_columns(*schema) == columns,
        forall|k: int|
            0 <= k < columns.len() ==> match (#[trigger] columns[k]).kind {
                DataKind::Known(_) => true,
                DataKind::Other(t) => t.exact,
            },
        reply matches Ok((schema, batches)) ==> forall|i: int|
            0 <= i < batches@.len() ==> {
                &&& batch_columns(#[trigger] batches@[i]).len() == columns.len()
                &&& batch_cells(batches@[i]).len() == columns.len()
            },
        reply matches Ok((schema, batches)) ==> forall|i: int, k: int|
            0 <= i < batches@.len() && 0 <= k < columns.len() ==> (#[trigger] batch_columns(
                batches@[i],
            )[k]).kind == columns[k].kind,
        reply matches Ok((schema, batches)) ==> forall|i: int, k: int, r: int|
            0 <= i < batches@.len() && 0 <= k < columns.len() && !columns[k].nullable && 0 <= r
                < batch_cells(batches@[i])[k].len() ==> !(#[trigger] batch_cells(batches@[i])[k][r]
                is Null),
        call_ensures(
            imbh_db_query_sql_ipc::<D, F>,
            (Some(db), Some(sql), Some(out), run, last),
            code,
        ),
    ensures
        reply matches Err(e) ==> engine_failed(code, *final(last), e) && *final(out) == *old(out),
        reply matches Ok((schema, batches)) ==> {
            &&& code == imbh_error::Success
            &&& final(out).len == final(out).data@.len()
            &&& final(out).len > 0
            &&& ipc_columns(final(out).data@) == columns
            &&& ipc_cells(final(out).data@).len() == batches@.len()
            &&& forall|i: int|
                0 <= i < batches@.len() ==> #[trigger] ipc_cells(final(out).data@)[i]
                    == batch_cells(batches@[i])
        },
{
    texts_survive_the_boundary(text, sql);
    if let Ok((schema, batches)) = reply {
        assert(fit_together(columns, batches@));
        what_fits_together_is_readable(columns, batches@);
    }
}

/// A batch with a dictionary that the schema does not announce ends the encoding of a SQL result,
/// as a panic of the encoder does, and leaves the caller's buffer alone.
pub proof fn unannounced_dictionaries_end_the_encoding<
    D,
    F: FnOnce(&imbh_db<D>, &str) -> Result<
        (Arc<arrow::datatypes::Schema>, Vec<Batch>),
        EngineError,
    >,
>(
    db: &imbh_db<D>,
    sql: &[u8],
    text: Seq<char>,
    out: &mut imbh_bytes,
    run: F,
    reply: (Arc<arrow::datatypes::Schema>, Vec<Batch>),
    i: int,
    last: &mut LastError,
    code: imbh_error,
)
    requires
        sql@ == encode_utf8(text),
        forall|
            asked: &str,
            answer: Result<(Arc<arrow::datatypes::Schema>, Vec<Batch>), EngineError>,
        | #[trigger]
            run.ensures((db, asked), answer) && asked@ == text ==> answer == Ok::<
                (Arc<arrow::datatypes::Schema>, Vec<Batch>),
                EngineError,
            >(reply),
        0 <= i < reply.1@.len(),
        dictionaries(batch_columns(reply.1@[i])) > dictionaries(schema_columns(*reply.0)),
        call_ensures(
            imbh_db_query_sql_ipc::<D, F>,
            (Some(db), Some(sql), Some(out), run, last),
            code,
        ),
    ensures
        code == imbh_error::Panic,
        *final(out) == *old(out),
{
    texts_survive_the_boundary(text, sql);
}

/// Only dictionaries that the schema does not announce keep a result from being encoded: where no
/// batch has more of them than the schema, there are bytes, and where the format holds the types
/// exactly, they describe the columns of the engine's reply.
pub proof fn announced_results_are_encoded<
    D,
    F: FnOnce(&imbh_db<D>, &str) -> Result<
        (Arc<arrow::datatypes::Schema>, Vec<Batch>),
        EngineError,
    >,
>(
    db: &imbh_db<D>,
    sql: &[u8],
    text: Seq<char>,
    out: &mut imbh_bytes,
    run: F,
    reply: (Arc<arrow::datatypes::Schema>, Vec<Batch>),
    columns: Seq<ColumnDef>,
    last: &mut LastError,
    code: imbh_error,
)
    requires
        sql@ == encode_utf8(text),
        forall|
            asked: &str,
            answer: Result<(Arc<arrow::datatypes::Schema>, Vec<Batch>), EngineError>,
        | #[trigger]
            run.ensures((db, asked), answer) && asked@ == text ==> answer == Ok::<
                (Arc<arrow::datatypes::Schema>, Vec<Batch>),
                EngineError,
            >(reply),
        columns == schema_columns(*reply.0),
        forall|i: int|
            0 <= i < reply.1@.len() ==> dictionaries(batch_columns(#[trigger] reply.1@[i]))
                <= dictionaries(columns),
        call_ensures(
            imbh_db_query_sql_ipc::<D, F>,
            (Some(db), Some(sql), Some(out), run, last),
            code,
        ),
    ensures
        code == imbh_error::Success,
        final(out).len > 0,
        final(out).len == final(out).data@.len(),
        (forall|k: int|
            0 <= k < columns.len() ==> match (#[trigger] columns[k]).kind {
                DataKind::Known(_) => true,
                DataKind::Other(t) => t.exact,
            }) ==> ipc_columns(final(out).data@) == columns,
{
    texts_survive_the_boundary(text, sql);
}

/// [`imbh_db_query_sql`] refuses a null handle, a null string and a null output, each with its own
/// message, whatever else it is given.
pub proof fn query_sql_refuses_nulls<
    D,
    F: FnOnce(&imbh_db<D>, &str) -> Result<
        (Arc<arrow::datatypes::Schema>, Vec<Batch>),
        EngineError,
    >,
>(
    db: &imbh_db<D>,
    sql: &[u8],
    text: Seq<char>,
    out: Option<&mut arrow::ffi_stream::FFI_ArrowArrayStream>,
    run: F,
    last: &mut LastError,
    code: imbh_error,
)
    ensures
        call_ensures(
            imbh_db_query_sql::<D, F>,
            (None::<&imbh_db<D>>, Some(sql), out, run, last),
            code,
        ) ==> rejected(code, *final(last), "null imbh_db handle"@),
        call_ensures(
            imbh_db_query_sql::<D, F>,
            (Some(db), None::<&[u8]>, out, run, last),
            code,
        ) ==> rejected(code, *final(last), "null string pointer"@),
        call_ensures(
            imbh_db_query_sql::<D, F>,
            (Some(db), Some(sql), None::<&mut arrow::ffi_stream::FFI_ArrowArrayStream>, run, last),
            code,
        ) && sql@ == encode_utf8(text) ==> rejected(code, *final(last), "null out stream pointer"@),
{
    if sql@ == encode_utf8(text) {
        texts_survive_the_boundary(text, sql);
    }
}

/// [`imbh_db_query_sql_ipc`] refuses a null handle, a null string and a null output, each with its
/// own message, whatever else it is given.
pub proof fn query_sql_ipc_refuses_nulls<
    D,
    F: FnOnce(&imbh_db<D>, &str) -> Result<
        (Arc<arrow::datatypes::Schema>, Vec<Batch>),
        EngineError,
    >,
>(
    db: &imbh_db<D>,
    sql: &[u8],
    text: Seq<char>,
    out: Option<&mut imbh_bytes>,
    run: F,
    last: &mut LastError,
    code: imbh_error,
)
    ensures
        call_ensures(
            imbh_db_query_sql_ipc::<D, F>,
            (None::<&imbh_db<D>>, Some(sql), out, run, last),
            code,
        ) ==> rejected(code, *final(last), "null imbh_db handle"@),
        call_ensures(
            imbh_db_query_sql_ipc::<D, F>,
            (Some(db), None::<&[u8]>, out, run, last),
            code,
        ) ==> rejected(code, *final(last), "null string pointer"@),
        call_ensures(
            imbh_db_query_sql_ipc::<D, F>,
            (Some(db), Some(sql), None::<&mut imbh_bytes>, run, last),
            code,
        ) && sql@ == encode_utf8(text) ==> rejected(code, *final(last), "null out pointer"@),
{
    if sql@ == encode_utf8(text) {
        texts_survive_the_boundary(text, sql);
    }
}

} // verus!
