//! Catalog lookups: attribute names and values, the metric catalog, series, exemplars and segments.
//!
//! Each entry point runs the engine's lookup, which it takes as a closure, and hands the rows over
//! as one Arrow batch. An empty result still carries its typed schema.

use vstd::prelude::*;
use vstd::utf8::encode_utf8;

use crate::args::{c_string, cstr, handle, says, texts_survive_the_boundary};
use crate::arrow_stream::{stream_cells, stream_columns};
use crate::batches::{
    catalog_batch, catalog_cells, catalog_defs, columns_reach_the_caller_as_they_are, def, deliver,
    exemplar_cells, exemplar_defs,
    exemplars_batch, hands_over, segment_cells, segment_defs, segments_batch, utf8_batch, utf8_defs,
    Exemplar, MetricMeta, SegmentRef,
};
use crate::columnar::{Cell, ColumnType, string_cells, text_bytes};
use crate::db::imbh_db;
use crate::error::{
    engine_failed, imbh_error, invalid_arg, LastError, rejected, settle, settled, CallError,
    EngineError,
};
use crate::table::{engine_table, imbh_table, Table};

verus! {

/// An attribute value. A floating-point number is held by its IEEE-754 bits.
#[derive(Debug)]
pub enum AnyValue {
    Null,
    Str(String),
    Int(i64),
    Double(u64),
    Bool(bool),
    Bytes(Vec<u8>),
    Array(Vec<AnyValue>),
    Entries(Vec<(String, AnyValue)>),
}

/// A string-valued label set as attributes, in the same order.
pub open spec fn string_entries(pairs: Seq<(String, String)>) -> Seq<(String, AnyValue)> {
    pairs.map_values(|p: (String, String)| (p.0, AnyValue::Str(p.1)))
}

/// `text` is what the encoder makes of a string-valued label set.
pub open spec fn encodes<F: Fn(&Vec<(String, AnyValue)>) -> String>(
    encode: F,
    pairs: Seq<(String, String)>,
    text: String,
) -> bool {
    exists|entries: Vec<(String, AnyValue)>| #[trigger]
        encode.ensures((&entries,), text) && entries@ == string_entries(pairs)
}

/// Encode a string-valued label set with the engine's canonical encoder.
pub fn labels_to_json<F: Fn(&Vec<(String, AnyValue)>) -> String>(
    pairs: Vec<(String, String)>,
    encode: &F,
) -> (text: String)
    requires
        forall|entries: &Vec<(String, AnyValue)>| #[trigger] encode.requires((entries,)),
    ensures
        encodes(*encode, pairs@, text),
{
    let ghost all = pairs@;
    let mut entries: Vec<(String, AnyValue)> = Vec::new();
    for pair in it: pairs.into_iter()
        invariant
            it.seq() == all,
            entries@ == string_entries(all.take(it.index() as int)),
    {
        entries.push((pair.0, AnyValue::Str(pair.1)));
        assert(entries@ =~= string_entries(all.take(it.index() + 1)));
    }
    assert(all.take(all.len() as int) =~= all);
    encode(&entries)
}

/// All distinct attribute keys across the store, read by `names`: one column `name`.
pub fn imbh_db_attr_names<D, F: FnOnce(&imbh_db<D>) -> Result<Vec<String>, EngineError>>(
    db: Option<&imbh_db<D>>,
    out: Option<&mut arrow::ffi_stream::FFI_ArrowArrayStream>,
    names: F,
    last: &mut LastError,
) -> (code: imbh_error)
    requires
        db matches Some(h) ==> (out is Some ==> names.requires((h,))),
    ensures
        db is None ==> rejected(code, *final(last), "null imbh_db handle"@),
        db is Some && out is None ==> rejected(code, *final(last), "null out stream pointer"@),
        db matches Some(h) ==> (out matches Some(o) ==> exists|
            reply: Result<Vec<String>, EngineError>,
        | #[trigger]
            names.ensures((h,), reply) && match reply {
                Err(e) => engine_failed(code, *final(last), e),
                Ok(found) => hands_over(
                    utf8_defs("name"@),
                    seq![string_cells(found@)],
                    *o,
                    *final(o),
                    code,
                    *final(last),
                ),
            }),
        code != imbh_error::Success ==> (out matches Some(o) ==> *final(o) == *o),
        settled(code, *final(last)),
{
    let h = match handle(db) {
        Ok(h) => h,
        Err(e) => return settle(Err(e), last),
    };
    match out {
        None => settle(Err(invalid_arg("null out stream pointer")), last),
        Some(o) => match names(h) {
            Err(e) => settle(Err(CallError::Imbh(e)), last),
            Ok(found) => deliver(utf8_batch("name", found), o, last),
        },
    }
}

/// The distinct values of one attribute key, read by `values`: one column `value`.
pub fn imbh_db_attr_values<D, F: FnOnce(&imbh_db<D>, &str) -> Result<Vec<String>, EngineError>>(
    db: Option<&imbh_db<D>>,
    key: Option<&[u8]>,
    out: Option<&mut arrow::ffi_stream::FFI_ArrowArrayStream>,
    values: F,
    last: &mut LastError,
) -> (code: imbh_error)
    requires
        db matches Some(h) ==> forall|text: &str|
            out is Some && says(key, text@) ==> #[trigger] values.requires((h, text)),
    ensures
        db is None ==> rejected(code, *final(last), "null imbh_db handle"@),
        db matches Some(h) ==> match c_string(key) {
            Err(reason) => rejected(code, *final(last), reason),
            Ok(text) => {
                &&& out is None ==> rejected(code, *final(last), "null out stream pointer"@)
                &&& out matches Some(o) ==> exists|
                    key: &str,
                    reply: Result<Vec<String>, EngineError>,
                | #[trigger]
                    values.ensures((h, key), reply) && key@ == text && match reply {
                        Err(e) => engine_failed(code, *final(last), e),
                        Ok(found) => hands_over(
                            utf8_defs("value"@),
                            seq![string_cells(found@)],
                            *o,
                            *final(o),
                            code,
                            *final(last),
                        ),
                    }
            },
        },
        code != imbh_error::Success ==> (out matches Some(o) ==> *final(o) == *o),
        settled(code, *final(last)),
{
    let h = match handle(db) {
        Ok(h) => h,
        Err(e) => return settle(Err(e), last),
    };
    let key = match cstr(key) {
        Ok(key) => key,
        Err(e) => return settle(Err(e), last),
    };
    match out {
        None => settle(Err(invalid_arg("null out stream pointer")), last),
        Some(o) => match values(h, key) {
            Err(e) => settle(Err(CallError::Imbh(e)), last),
            Ok(found) => deliver(utf8_batch("value", found), o, last),
        },
    }
}

/// The metric catalog, read by `catalog`: the columns `metric`, `unit`, `temporality` and `kind`.
pub fn imbh_db_metric_catalog<D, F: FnOnce(&imbh_db<D>) -> Result<Vec<MetricMeta>, EngineError>>(
    db: Option<&imbh_db<D>>,
    out: Option<&mut arrow::ffi_stream::FFI_ArrowArrayStream>,
    catalog: F,
    last: &mut LastError,
) -> (code: imbh_error)
    requires
        db matches Some(h) ==> (out is Some ==> catalog.requires((h,))),
    ensures
        db is None ==> rejected(code, *final(last), "null imbh_db handle"@),
        db is Some && out is None ==> rejected(code, *final(last), "null out stream pointer"@),
        db matches Some(h) ==> (out matches Some(o) ==> exists|
            reply: Result<Vec<MetricMeta>, EngineError>,
        | #[trigger]
            catalog.ensures((h,), reply) && match reply {
                Err(e) => engine_failed(code, *final(last), e),
                Ok(metas) => hands_over(
                    catalog_defs(),
                    catalog_cells(metas@),
                    *o,
                    *final(o),
                    code,
                    *final(last),
                ),
            }),
        code != imbh_error::Success ==> (out matches Some(o) ==> *final(o) == *o),
        settled(code, *final(last)),
{
    let h = match handle(db) {
        Ok(h) => h,
        Err(e) => return settle(Err(e), last),
    };
    match out {
        None => settle(Err(invalid_arg("null out stream pointer")), last),
        Some(o) => match catalog(h) {
            Err(e) => settle(Err(CallError::Imbh(e)), last),
            Ok(metas) => deliver(catalog_batch(metas), o, last),
        },
    }
}

/// All exemplars of a metric, read by `exemplars`: the columns `time`, `value`, `trace_id`,
/// `span_id` and `attributes`.
pub fn imbh_db_metric_exemplars<
    D,
    F: FnOnce(&imbh_db<D>, &str) -> Result<Vec<Exemplar>, EngineError>,
>(
    db: Option<&imbh_db<D>>,
    metric: Option<&[u8]>,
    out: Option<&mut arrow::ffi_stream::FFI_ArrowArrayStream>,
    exemplars: F,
    last: &mut LastError,
) -> (code: imbh_error)
    requires
        db matches Some(h) ==> forall|text: &str|
            out is Some && says(metric, text@) ==> #[trigger] exemplars.requires((h, text)),
    ensures
        db is None ==> rejected(code, *final(last), "null imbh_db handle"@),
        db matches Some(h) ==> match c_string(metric) {
            Err(reason) => rejected(code, *final(last), reason),
            Ok(text) => {
                &&& out is None ==> rejected(code, *final(last), "null out stream pointer"@)
                &&& out matches Some(o) ==> exists|
                    metric: &str,
                    reply: Result<Vec<Exemplar>, EngineError>,
                | #[trigger]
                    exemplars.ensures((h, metric), reply) && metric@ == text && match reply {
                        Err(e) => engine_failed(code, *final(last), e),
                        Ok(found) => hands_over(
                            exemplar_defs(),
                            exemplar_cells(found@),
                            *o,
                            *final(o),
                            code,
                            *final(last),
                        ),
                    }
            },
        },
        code != imbh_error::Success ==> (out matches Some(o) ==> *final(o) == *o),
        settled(code, *final(last)),
{
    let h = match handle(db) {
        Ok(h) => h,
        Err(e) => return settle(Err(e), last),
    };
    let metric = match cstr(metric) {
        Ok(metric) => metric,
        Err(e) => return settle(Err(e), last),
    };
    match out {
        None => settle(Err(invalid_arg("null out stream pointer")), last),
        Some(o) => match exemplars(h, metric) {
            Err(e) => settle(Err(CallError::Imbh(e)), last),
            Ok(found) => deliver(exemplars_batch(found), o, last),
        },
    }
}

/// The sealed segments, listed by `segments`: the columns `relative_path`, `min_time_unix_nano`,
/// `max_time_unix_nano` and `rows`.
pub fn imbh_db_segments<D, F: FnOnce(&imbh_db<D>) -> Vec<SegmentRef>>(
    db: Option<&imbh_db<D>>,
    out: Option<&mut arrow::ffi_stream::FFI_ArrowArrayStream>,
    segments: F,
    last: &mut LastError,
) -> (code: imbh_error)
    requires
        db matches Some(h) ==> (out is Some ==> segments.requires((h,))),
    ensures
        db is None ==> rejected(code, *final(last), "null imbh_db handle"@),
        db is Some && out is None ==> rejected(code, *final(last), "null out stream pointer"@),
        db matches Some(h) ==> (out matches Some(o) ==> exists|found: Vec<SegmentRef>| #[trigger]
            segments.ensures((h,), found) && hands_over(
                segment_defs(),
                segment_cells(found@),
                *o,
                *final(o),
                code,
                *final(last),
            )),
        code != imbh_error::Success ==> (out matches Some(o) ==> *final(o) == *o),
        settled(code, *final(last)),
{
    let h = match handle(db) {
        Ok(h) => h,
        Err(e) => return settle(Err(e), last),
    };
    match out {
        None => settle(Err(invalid_arg("null out stream pointer")), last),
        Some(o) => deliver(segments_batch(segments(h)), o, last),
    }
}

/// The segment files of one table, listed by `files`: one column `path`.
pub fn imbh_db_segment_files<D, F: FnOnce(&imbh_db<D>, Table) -> Vec<String>>(
    db: Option<&imbh_db<D>>,
    table: imbh_table,
    out: Option<&mut arrow::ffi_stream::FFI_ArrowArrayStream>,
    files: F,
    last: &mut LastError,
) -> (code: imbh_error)
    requires
        db matches Some(h) ==> (out is Some ==> files.requires((h, engine_table(table)))),
    ensures
        db is None ==> rejected(code, *final(last), "null imbh_db handle"@),
        db is Some && out is None ==> rejected(code, *final(last), "null out stream pointer"@),
        db matches Some(h) ==> (out matches Some(o) ==> exists|found: Vec<String>| #[trigger]
            files.ensures((h, engine_table(table)), found) && hands_over(
                utf8_defs("path"@),
                seq![string_cells(found@)],
                *o,
                *final(o),
                code,
                *final(last),
            )),
        code != imbh_error::Success ==> (out matches Some(o) ==> *final(o) == *o),
        settled(code, *final(last)),
{
    let h = match handle(db) {
        Ok(h) => h,
        Err(e) => return settle(Err(e), last),
    };
    match out {
        None => settle(Err(invalid_arg("null out stream pointer")), last),
        Some(o) => deliver(utf8_batch("path", files(h, Table::from(table))), o, last),
    }
}

/// Each text is what the encoder makes of the label set at its place.
pub open spec fn encodes_series<F: Fn(&Vec<(String, AnyValue)>) -> String>(
    encode: F,
    series: Seq<Vec<(String, AnyValue)>>,
    labels: Seq<String>,
) -> bool {
    &&& labels.len() == series.len()
    &&& forall|i: int|
        0 <= i < series.len() ==> encode.ensures((&series[i],), #[trigger] labels[i])
}

/// Encode each label set.
fn encode_series<F: Fn(&Vec<(String, AnyValue)>) -> String>(
    series: &Vec<Vec<(String, AnyValue)>>,
    encode: &F,
) -> (labels: Vec<String>)
    requires
        forall|entries: &Vec<(String, AnyValue)>| #[trigger] encode.requires((entries,)),
    ensures
        encodes_series(*encode, series@, labels@),
{
    let mut labels: Vec<String> = Vec::new();
    for i in 0..series.len()
        invariant
            forall|entries: &Vec<(String, AnyValue)>| #[trigger] encode.requires((entries,)),
            labels@.len() == i,
            forall|j: int| 0 <= j < i ==> encode.ensures((&series@[j],), #[trigger] labels@[j]),
    {
        labels.push(encode(&series[i]));
    }
    labels
}

/// The distinct label sets that carry a metric, read by `series` and encoded by `encode`: one
/// column `labels`.
pub fn imbh_db_metric_series<
    D,
    F: FnOnce(&imbh_db<D>, &str) -> Result<Vec<Vec<(String, AnyValue)>>, EngineError>,
    G: Fn(&Vec<(String, AnyValue)>) -> String,
>(
    db: Option<&imbh_db<D>>,
    metric: Option<&[u8]>,
    out: Option<&mut arrow::ffi_stream::FFI_ArrowArrayStream>,
    series: F,
    encode: &G,
    last: &mut LastError,
) -> (code: imbh_error)
    requires
        db matches Some(h) ==> forall|text: &str|
            out is Some && says(metric, text@) ==> #[trigger] series.requires((h, text)),
        db is Some && out is Some && c_string(metric) is Ok ==> forall|
            entries: &Vec<(String, AnyValue)>,
        | #[trigger]
            encode.requires((entries,)),
    ensures
        db is None ==> rejected(code, *final(last), "null imbh_db handle"@),
        db matches Some(h) ==> match c_string(metric) {
            Err(reason) => rejected(code, *final(last), reason),
            Ok(text) => {
                &&& out is None ==> rejected(code, *final(last), "null out stream pointer"@)
                &&& out matches Some(o) ==> exists|
                    metric: &str,
                    reply: Result<Vec<Vec<(String, AnyValue)>>, EngineError>,
                | #[trigger]
                    series.ensures((h, metric), reply) && metric@ == text && match reply {
                        Err(e) => engine_failed(code, *final(last), e),
                        Ok(found) => exists|labels: Seq<String>| #[trigger]
                            encodes_series(*encode, found@, labels) && hands_over(
                                utf8_defs("labels"@),
                                seq![string_cells(labels)],
                                *o,
                                *final(o),
                                code,
                                *final(last),
                            ),
                    }
            },
        },
        code != imbh_error::Success ==> (out matches Some(o) ==> *final(o) == *o),
        settled(code, *final(last)),
{
    let h = match handle(db) {
        Ok(h) => h,
        Err(e) => return settle(Err(e), last),
    };
    let metric = match cstr(metric) {
        Ok(metric) => metric,
        Err(e) => return settle(Err(e), last),
    };
    match out {
        None => settle(Err(invalid_arg("null out stream pointer")), last),
        Some(o) => match series(h, metric) {
            Err(e) => settle(Err(CallError::Imbh(e)), last),
            Ok(found) => {
                let labels = encode_series(&found, encode);
                let ghost texts = labels@;
                assert(encodes_series(*encode, found@, texts));
                deliver(utf8_batch("labels", labels), o, last)
            },
        },
    }
}

/// The entries of a label set are its labels, in order, each with its value as a string.
pub proof fn labels_keep_their_order(pairs: Seq<(String, String)>, i: int)
    ensures
        string_entries(pairs).len() == pairs.len(),
        0 <= i < pairs.len() ==> string_entries(pairs)[i].0 == pairs[i].0 && string_entries(
            pairs,
        )[i].1 == AnyValue::Str(pairs[i].1),
{
}

/// The text of a label set is what the encoder makes of its entries.
pub proof fn labels_are_encoded_by_the_encoder<F: Fn(&Vec<(String, AnyValue)>) -> String>(
    pairs: Vec<(String, String)>,
    encode: &F,
    json: spec_fn(Seq<(String, AnyValue)>) -> Seq<char>,
    text: String,
)
    requires
        forall|entries: &Vec<(String, AnyValue)>, t: String| #[trigger]
            encode.ensures((entries,), t) ==> t@ == json(entries@),
        call_ensures(labels_to_json::<F>, (pairs, encode), text),
    ensures
        text@ == json(string_entries(pairs@)),
{
}

/// The attribute names reach the caller as the engine lists them, all of them and in order, in one
/// column.
pub proof fn attribute_names_arrive_in_order<
    D,
    F: FnOnce(&imbh_db<D>) -> Result<Vec<String>, EngineError>,
>(
    db: &imbh_db<D>,
    out: &mut arrow::ffi_stream::FFI_ArrowArrayStream,
    run: F,
    reply: Result<Vec<String>, EngineError>,
    last: &mut LastError,
    code: imbh_error,
)
    requires
        forall|r: Result<Vec<String>, EngineError>| #[trigger] run.ensures((db,), r) ==> r == reply,
        call_ensures(imbh_db_attr_names::<D, F>, (Some(db), Some(out), run, last), code),
    ensures
        reply matches Err(e) ==> engine_failed(code, *final(last), e),
        reply matches Ok(found) ==> {
            &&& text_bytes(string_cells(found@)) <= i32::MAX <==> code == imbh_error::Success
            &&& code == imbh_error::Success ==> {
                &&& stream_columns(*final(out)) == seq![def("name"@, ColumnType::Utf8, false)]
                &&& stream_cells(*final(out)).len() == 1
                &&& stream_cells(*final(out))[0].len() == 1
                &&& stream_cells(*final(out))[0][0].len() == found@.len()
                &&& forall|i: int|
                    0 <= i < found@.len() ==> #[trigger] stream_cells(*final(out))[0][0][i]
                        == Cell::Utf8(found@[i]@)
            }
        },
        code != imbh_error::Success ==> *final(out) == *old(out),
{
    if let Ok(found) = reply {
        columns_reach_the_caller_as_they_are(
            utf8_defs("name"@),
            seq![string_cells(found@)],
            *old(out),
            *final(out),
            code,
            *final(last),
        );
        assert(seq![string_cells(found@)][0] == string_cells(found@));
    }
}

/// The values of the attribute that the caller names reach the caller as the engine lists them, all
/// of them and in order, in one column.
pub proof fn attribute_values_arrive_in_order<
    D,
    F: FnOnce(&imbh_db<D>, &str) -> Result<Vec<String>, EngineError>,
>(
    db: &imbh_db<D>,
    key: &[u8],
    text: Seq<char>,
    out: &mut arrow::ffi_stream::FFI_ArrowArrayStream,
    run: F,
    reply: Result<Vec<String>, EngineError>,
    last: &mut LastError,
    code: imbh_error,
)
    requires
        key@ == encode_utf8(text),
        forall|asked: &str, r: Result<Vec<String>, EngineError>| #[trigger]
            run.ensures((db, asked), r) && asked@ == text ==> r == reply,
        call_ensures(
            imbh_db_attr_values::<D, F>,
            (Some(db), Some(key), Some(out), run, last),
            code,
        ),
    ensures
        reply matches Err(e) ==> engine_failed(code, *final(last), e),
        reply matches Ok(found) ==> {
            &&& text_bytes(string_cells(found@)) <= i32::MAX <==> code == imbh_error::Success
            &&& code == imbh_error::Success ==> {
                &&& stream_columns(*final(out)) == seq![def("value"@, ColumnType::Utf8, false)]
                &&& stream_cells(*final(out)).len() == 1
                &&& stream_cells(*final(out))[0].len() == 1
                &&& stream_cells(*final(out))[0][0].len() == found@.len()
                &&& forall|i: int|
                    0 <= i < found@.len() ==> #[trigger] stream_cells(*final(out))[0][0][i]
                        == Cell::Utf8(found@[i]@)
            }
        },
        code != imbh_error::Success ==> *final(out) == *old(out),
{
    texts_survive_the_boundary(text, key);
    if let Ok(found) = reply {
        columns_reach_the_caller_as_they_are(
            utf8_defs("value"@),
            seq![string_cells(found@)],
            *old(out),
            *final(out),
            code,
            *final(last),
        );
        assert(seq![string_cells(found@)][0] == string_cells(found@));
    }
}

/// The metric catalog reaches the caller with one row a metric, in the order of the engine.
pub proof fn the_catalog_arrives_row_by_row<
    D,
    F: FnOnce(&imbh_db<D>) -> Result<Vec<MetricMeta>, EngineError>,
>(
    db: &imbh_db<D>,
    out: &mut arrow::ffi_stream::FFI_ArrowArrayStream,
    run: F,
    reply: Result<Vec<MetricMeta>, EngineError>,
    last: &mut LastError,
    code: imbh_error,
)
    requires
        forall|r: Result<Vec<MetricMeta>, EngineError>| #[trigger]
            run.ensures((db,), r) ==> r == reply,
        call_ensures(imbh_db_metric_catalog::<D, F>, (Some(db), Some(out), run, last), code),
    ensures
        reply matches Err(e) ==> engine_failed(code, *final(last), e),
        reply matches Ok(metas) ==> {
            &&& (forall|k: int|
                0 <= k < catalog_cells(metas@).len() ==> text_bytes(
                    #[trigger] catalog_cells(metas@)[k],
                ) <= i32::MAX) <==> code == imbh_error::Success
            &&& code == imbh_error::Success ==> {
                &&& stream_columns(*final(out)) == catalog_defs()
                &&& stream_cells(*final(out)).len() == 1
                &&& stream_cells(*final(out))[0] == catalog_cells(metas@)
            }
        },
        code != imbh_error::Success ==> *final(out) == *old(out),
{
    if let Ok(metas) = reply {
        columns_reach_the_caller_as_they_are(
            catalog_defs(),
            catalog_cells(metas@),
            *old(out),
            *final(out),
            code,
            *final(last),
        );
    }
}

/// The exemplars of the metric that the caller names reach the caller with one row an exemplar, in
/// the order of the engine.
pub proof fn exemplars_arrive_row_by_row<
    D,
    F: FnOnce(&imbh_db<D>, &str) -> Result<Vec<Exemplar>, EngineError>,
>(
    db: &imbh_db<D>,
    metric: &[u8],
    text: Seq<char>,
    out: &mut arrow::ffi_stream::FFI_ArrowArrayStream,
    run: F,
    reply: Result<Vec<Exemplar>, EngineError>,
    last: &mut LastError,
    code: imbh_error,
)
    requires
        metric@ == encode_utf8(text),
        forall|asked: &str, r: Result<Vec<Exemplar>, EngineError>| #[trigger]
            run.ensures((db, asked), r) && asked@ == text ==> r == reply,
        call_ensures(
            imbh_db_metric_exemplars::<D, F>,
            (Some(db), Some(metric), Some(out), run, last),
            code,
        ),
    ensures
        reply matches Err(e) ==> engine_failed(code, *final(last), e),
        reply matches Ok(found) ==> {
            &&& (forall|k: int|
                0 <= k < exemplar_cells(found@).len() ==> text_bytes(
                    #[trigger] exemplar_cells(found@)[k],
                ) <= i32::MAX) <==> code == imbh_error::Success
            &&& code == imbh_error::Success ==> {
                &&& stream_columns(*final(out)) == exemplar_defs()
                &&& stream_cells(*final(out)).len() == 1
                &&& stream_cells(*final(out))[0] == exemplar_cells(found@)
            }
        },
        code != imbh_error::Success ==> *final(out) == *old(out),
{
    texts_survive_the_boundary(text, metric);
    if let Ok(found) = reply {
        columns_reach_the_caller_as_they_are(
            exemplar_defs(),
            exemplar_cells(found@),
            *old(out),
            *final(out),
            code,
            *final(last),
        );
    }
}

/// The sealed segments reach the caller with one row a segment, in the order of the engine.
pub proof fn segments_arrive_row_by_row<D, F: FnOnce(&imbh_db<D>) -> Vec<SegmentRef>>(
    db: &imbh_db<D>,
    out: &mut arrow::ffi_stream::FFI_ArrowArrayStream,
    run: F,
    found: Vec<SegmentRef>,
    last: &mut LastError,
    code: imbh_error,
)
    requires
        forall|r: Vec<SegmentRef>| #[trigger] run.ensures((db,), r) ==> r == found,
        call_ensures(imbh_db_segments::<D, F>, (Some(db), Some(out), run, last), code),
    ensures
        (forall|k: int|
            0 <= k < segment_cells(found@).len() ==> text_bytes(#[trigger] segment_cells(found@)[k])
                <= i32::MAX) <==> code == imbh_error::Success,
        code == imbh_error::Success ==> {
            &&& stream_columns(*final(out)) == segment_defs()
            &&& stream_cells(*final(out)).len() == 1
            &&& stream_cells(*final(out))[0] == segment_cells(found@)
        },
        code != imbh_error::Success ==> *final(out) == *old(out),
{
    columns_reach_the_caller_as_they_are(
        segment_defs(),
        segment_cells(found@),
        *old(out),
        *final(out),
        code,
        *final(last),
    );
}

/// The segment files of the table that the caller names reach the caller as the engine lists them,
/// all of them and in order, in one column.
pub proof fn segment_files_arrive_in_order<D, F: FnOnce(&imbh_db<D>, Table) -> Vec<String>>(
    db: &imbh_db<D>,
    table: imbh_table,
    named: Table,
    out: &mut arrow::ffi_stream::FFI_ArrowArrayStream,
    run: F,
    found: Vec<String>,
    last: &mut LastError,
    code: imbh_error,
)
    requires
        named == engine_table(table),
        forall|r: Vec<String>| #[trigger] run.ensures((db, named), r) ==> r == found,
        call_ensures(
            imbh_db_segment_files::<D, F>,
            (Some(db), table, Some(out), run, last),
            code,
        ),
    ensures
        text_bytes(string_cells(found@)) <= i32::MAX <==> code == imbh_error::Success,
        code == imbh_error::Success ==> {
            &&& stream_columns(*final(out)) == seq![def("path"@, ColumnType::Utf8, false)]
            &&& stream_cells(*final(out)).len() == 1
            &&& stream_cells(*final(out))[0].len() == 1
            &&& stream_cells(*final(out))[0][0].len() == found@.len()
            &&& forall|i: int|
                0 <= i < found@.len() ==> #[trigger] stream_cells(*final(out))[0][0][i]
                    == Cell::Utf8(found@[i]@)
        },
        code != imbh_error::Success ==> *final(out) == *old(out),
{
    columns_reach_the_caller_as_they_are(
        utf8_defs("path"@),
        seq![string_cells(found@)],
        *old(out),
        *final(out),
        code,
        *final(last),
    );
    assert(seq![string_cells(found@)][0] == string_cells(found@));
}

/// The label sets that carry the metric that the caller names reach the caller in the order of the
/// engine, each as the encoder writes it.
pub proof fn series_arrive_encoded_in_order<
    D,
    F: FnOnce(&imbh_db<D>, &str) -> Result<Vec<Vec<(String, AnyValue)>>, EngineError>,
    G: Fn(&Vec<(String, AnyValue)>) -> String,
>(
    db: &imbh_db<D>,
    metric: &[u8],
    text: Seq<char>,
    out: &mut arrow::ffi_stream::FFI_ArrowArrayStream,
    run: F,
    encode: &G,
    json: spec_fn(Seq<(String, AnyValue)>) -> Seq<char>,
    reply: Result<Vec<Vec<(String, AnyValue)>>, EngineError>,
    labels: Seq<Cell>,
    last: &mut LastError,
    code: imbh_error,
)
    requires
        metric@ == encode_utf8(text),
        forall|asked: &str, r: Result<Vec<Vec<(String, AnyValue)>>, EngineError>| #[trigger]
            run.ensures((db, asked), r) && asked@ == text ==> r == reply,
        forall|entries: &Vec<(String, AnyValue)>, t: String| #[trigger]
            encode.ensures((entries,), t) ==> t@ == json(entries@),
        reply matches Ok(found) ==> labels.len() == found@.len() && (forall|i: int|
            0 <= i < found@.len() ==> #[trigger] labels[i] == Cell::Utf8(json(found@[i]@))),
        call_ensures(
            imbh_db_metric_series::<D, F, G>,
            (Some(db), Some(metric), Some(out), run, encode, last),
            code,
        ),
    ensures
        reply matches Err(e) ==> engine_failed(code, *final(last), e),
        reply is Ok ==> {
            &&& text_bytes(labels) <= i32::MAX <==> code == imbh_error::Success
            &&& code == imbh_error::Success ==> {
                &&& stream_columns(*final(out)) == seq![def("labels"@, ColumnType::Utf8, false)]
                &&& stream_cells(*final(out)) == seq![seq![labels]]
            }
        },
        code != imbh_error::Success ==> *final(out) == *old(out),
{
    texts_survive_the_boundary(text, metric);
    if let Ok(found) = reply {
        let encoded = choose|encoded: Seq<String>| #[trigger]
            encodes_series(*encode, found@, encoded) && hands_over(
                utf8_defs("labels"@),
                seq![string_cells(encoded)],
                *old(out),
                *final(out),
                code,
                *final(last),
            );
        assert(string_cells(encoded) =~= labels);
        columns_reach_the_caller_as_they_are(
            utf8_defs("labels"@),
            seq![labels],
            *old(out),
            *final(out),
            code,
            *final(last),
        );
        assert(seq![labels][0] == labels);
    }
}

/// [`imbh_db_attr_names`] refuses a null handle and a null output, each with its own message,
/// whatever else it is given.
pub proof fn attr_names_refuses_nulls<
    D,
    F: FnOnce(&imbh_db<D>) -> Result<Vec<String>, EngineError>,
>(
    db: &imbh_db<D>,
    out: Option<&mut arrow::ffi_stream::FFI_ArrowArrayStream>,
    names: F,
    last: &mut LastError,
    code: imbh_error,
)
    ensures
        call_ensures(
            imbh_db_attr_names::<D, F>,
            (None::<&imbh_db<D>>, out, names, last),
            code,
        ) ==> rejected(code, *final(last), "null imbh_db handle"@),
        call_ensures(
            imbh_db_attr_names::<D, F>,
            (Some(db), None::<&mut arrow::ffi_stream::FFI_ArrowArrayStream>, names, last),
            code,
        ) ==> rejected(code, *final(last), "null out stream pointer"@),
{
}

/// [`imbh_db_attr_values`] refuses a null handle, a null string and a null output, each with its
/// own message, whatever else it is given.
pub proof fn attr_values_refuses_nulls<
    D,
    F: FnOnce(&imbh_db<D>, &str) -> Result<Vec<String>, EngineError>,
>(
    db: &imbh_db<D>,
    key: &[u8],
    text: Seq<char>,
    out: Option<&mut arrow::ffi_stream::FFI_ArrowArrayStream>,
    values: F,
    last: &mut LastError,
    code: imbh_error,
)
    ensures
        call_ensures(
            imbh_db_attr_values::<D, F>,
            (None::<&imbh_db<D>>, Some(key), out, values, last),
            code,
        ) ==> rejected(code, *final(last), "null imbh_db handle"@),
        call_ensures(
            imbh_db_attr_values::<D, F>,
            (Some(db), None::<&[u8]>, out, values, last),
            code,
        ) ==> rejected(code, *final(last), "null string pointer"@),
        call_ensures(
            imbh_db_attr_values::<D, F>,
            (
                Some(db),
                Some(key),
                None::<&mut arrow::ffi_stream::FFI_ArrowArrayStream>,
                values,
                last,
            ),
            code,
        ) && key@ == encode_utf8(text) ==> rejected(code, *final(last), "null out stream pointer"@),
{
    if key@ == encode_utf8(text) {
        texts_survive_the_boundary(text, key);
    }
}

/// [`imbh_db_metric_catalog`] refuses a null handle and a null output, each with its own message,
/// whatever else it is given.
pub proof fn metric_catalog_refuses_nulls<
    D,
    F: FnOnce(&imbh_db<D>) -> Result<Vec<MetricMeta>, EngineError>,
>(
    db: &imbh_db<D>,
    out: Option<&mut arrow::ffi_stream::FFI_ArrowArrayStream>,
    catalog: F,
    last: &mut LastError,
    code: imbh_error,
)
    ensures
        call_ensures(
            imbh_db_metric_catalog::<D, F>,
            (None::<&imbh_db<D>>, out, catalog, last),
            code,
        ) ==> rejected(code, *final(last), "null imbh_db handle"@),
        call_ensures(
            imbh_db_metric_catalog::<D, F>,
            (Some(db), None::<&mut arrow::ffi_stream::FFI_ArrowArrayStream>, catalog, last),
            code,
        ) ==> rejected(code, *final(last), "null out stream pointer"@),
{
}

/// [`imbh_db_metric_exemplars`] refuses a null handle, a null string and a null output, each with
/// its own message, whatever else it is given.
pub proof fn metric_exemplars_refuses_nulls<
    D,
    F: FnOnce(&imbh_db<D>, &str) -> Result<Vec<Exemplar>, EngineError>,
>(
    db: &imbh_db<D>,
    metric: &[u8],
    text: Seq<char>,
    out: Option<&mut arrow::ffi_stream::FFI_ArrowArrayStream>,
    exemplars: F,
    last: &mut LastError,
    code: imbh_error,
)
    ensures
        call_ensures(
            imbh_db_metric_exemplars::<D, F>,
            (None::<&imbh_db<D>>, Some(metric), out, exemplars, last),
            code,
        ) ==> rejected(code, *final(last), "null imbh_db handle"@),
        call_ensures(
            imbh_db_metric_exemplars::<D, F>,
            (Some(db), None::<&[u8]>, out, exemplars, last),
            code,
        ) ==> rejected(code, *final(last), "null string pointer"@),
        call_ensures(
            imbh_db_metric_exemplars::<D, F>,
            (
                Some(db),
                Some(metric),
                None::<&mut arrow::ffi_stream::FFI_ArrowArrayStream>,
                exemplars,
                last,
            ),
            code,
        ) && metric@ == encode_utf8(text) ==> rejected(
            code,
            *final(last),
            "null out stream pointer"@,
        ),
{
    if metric@ == encode_utf8(text) {
        texts_survive_the_boundary(text, metric);
    }
}

/// [`imbh_db_segments`] refuses a null handle and a null output, each with its own message,
/// whatever else it is given.
pub proof fn segments_refuses_nulls<D, F: FnOnce(&imbh_db<D>) -> Vec<SegmentRef>>(
    db: &imbh_db<D>,
    out: Option<&mut arrow::ffi_stream::FFI_ArrowArrayStream>,
    segments: F,
    last: &mut LastError,
    code: imbh_error,
)
    ensures
        call_ensures(
            imbh_db_segments::<D, F>,
            (None::<&imbh_db<D>>, out, segments, last),
            code,
        ) ==> rejected(code, *final(last), "null imbh_db handle"@),
        call_ensures(
            imbh_db_segments::<D, F>,
            (Some(db), None::<&mut arrow::ffi_stream::FFI_ArrowArrayStream>, segments, last),
            code,
        ) ==> rejected(code, *final(last), "null out stream pointer"@),
{
}

/// [`imbh_db_segment_files`] refuses a null handle and a null output, each with its own message,
/// whatever else it is given.
pub proof fn segment_files_refuses_nulls<D, F: FnOnce(&imbh_db<D>, Table) -> Vec<String>>(
    db: &imbh_db<D>,
    table: imbh_table,
    out: Option<&mut arrow::ffi_stream::FFI_ArrowArrayStream>,
    files: F,
    last: &mut LastError,
    code: imbh_error,
)
    ensures
        call_ensures(
            imbh_db_segment_files::<D, F>,
            (None::<&imbh_db<D>>, table, out, files, last),
            code,
        ) ==> rejected(code, *final(last), "null imbh_db handle"@),
        call_ensures(
            imbh_db_segment_files::<D, F>,
            (Some(db), table, None::<&mut arrow::ffi_stream::FFI_ArrowArrayStream>, files, last),
            code,
        ) ==> rejected(code, *final(last), "null out stream pointer"@),
{
}

/// [`imbh_db_metric_series`] refuses a null handle, a null string and a null output, each with its
/// own message, whatever else it is given.
pub proof fn metric_series_refuses_nulls<
    D,
    F: FnOnce(&imbh_db<D>, &str) -> Result<Vec<Vec<(String, AnyValue)>>, EngineError>,
    G: Fn(&Vec<(String, AnyValue)>) -> String,
>(
    db: &imbh_db<D>,
    metric: &[u8],
    text: Seq<char>,
    out: Option<&mut arrow::ffi_stream::FFI_ArrowArrayStream>,
    series: F,
    encode: &G,
    last: &mut LastError,
    code: imbh_error,
)
    ensures
        call_ensures(
            imbh_db_metric_series::<D, F, G>,
            (None::<&imbh_db<D>>, Some(metric), out, series, encode, last),
            code,
        ) ==> rejected(code, *final(last), "null imbh_db handle"@),
        call_ensures(
            imbh_db_metric_series::<D, F, G>,
            (Some(db), None::<&[u8]>, out, series, encode, last),
            code,
        ) ==> rejected(code, *final(last), "null string pointer"@),
        call_ensures(
            imbh_db_metric_series::<D, F, G>,
            (
                Some(db),
                Some(metric),
                None::<&mut arrow::ffi_stream::FFI_ArrowArrayStream>,
                series,
                encode,
                last,
            ),
            code,
        ) && metric@ == encode_utf8(text) ==> rejected(
            code,
            *final(last),
            "null out stream pointer"@,
        ),
{
    if metric@ == encode_utf8(text) {
        texts_survive_the_boundary(text, metric);
    }
}

} // verus!
